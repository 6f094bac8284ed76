//! The configuration half of the interface lifecycle: a builder that
//! accumulates name, address and subnet-mask options, validates all of them
//! up front, and produces the request records for the control-call sequence
//! create, then set-address, then set-mask.
//!
//! Everything here is pure: a rejected configuration is refused before any
//! control call could be issued. The caller that owns the device and socket
//! handles runs the sequence and feeds the kernel's answers (the resolved
//! interface name) back in to build the follow-up records.

use vstd::prelude::*;

use crate::consts::IFF_TUN;
use crate::error::NetworkError;
use crate::error::SubnetMaskError;
use crate::settings::name_bytes;
use crate::settings::name_error;
use crate::settings::name_ok;
use crate::settings::subnet_mask_value;
use crate::settings::zero_bytes;
use crate::settings::NetworkCreateTunTap;
use crate::settings::NetworkSetIpv4Address;
use crate::settings::NetworkSetSubnetMask;

verus! {

/// Accumulates the configuration of a TUN interface before it is built.
#[derive(Debug, Clone, PartialEq, Eq)]
pub struct NetworkTunBuilder {
    /// The requested interface name; the kernel picks one when absent.
    pub name: Option<String>,
    /// The IPv4 address to assign, if any.
    pub ip_address: Option<[u8; 4]>,
    /// The subnet-mask prefix length to assign, if any.
    pub subnet_mask: Option<u8>,
}

/// A requested name, when present, must be ASCII and fit the 16-byte field.
pub open spec fn builder_name_ok(b: NetworkTunBuilder) -> bool {
    match b.name {
        Some(n) => vstd::utf8::is_ascii_chars(n@) && n@.len() < 16,
        None => true,
    }
}

/// A configuration is accepted when its name is acceptable and a requested
/// mask both accompanies an address and has a prefix between 1 and 32.
pub open spec fn builder_ok(b: NetworkTunBuilder) -> bool {
    &&& builder_name_ok(b)
    &&& match b.subnet_mask {
        Some(m) => b.ip_address is Some && 1 <= m <= 32,
        None => true,
    }
}

/// The error a rejected configuration produces, in the order the checks
/// run: the name, then a mask requested without an address, then the
/// prefix-length bounds.
pub open spec fn builder_error(b: NetworkTunBuilder) -> NetworkError
    recommends
        !builder_ok(b),
{
    if !builder_name_ok(b) {
        match b.name {
            Some(n) => if !vstd::utf8::is_ascii_chars(n@) {
                NetworkError::InvalidName(crate::error::NameError::NotAscii)
            } else {
                NetworkError::InvalidName(crate::error::NameError::TooLong)
            },
            None => arbitrary(),
        }
    } else if b.subnet_mask is Some && b.ip_address is None {
        NetworkError::InvalidSubnetMask(SubnetMaskError::MaskWithoutAddress)
    } else {
        NetworkError::InvalidSubnetMask(SubnetMaskError::PrefixOutOfRange(b.subnet_mask->0))
    }
}

impl NetworkTunBuilder {
    /// A builder with nothing requested yet.
    pub fn new() -> (r: Self)
        ensures
            r.name is None,
            r.ip_address is None,
            r.subnet_mask is None,
    {
        Self { name: None, ip_address: None, subnet_mask: None }
    }

    /// Requests an interface name.
    pub fn name(&mut self, name: &str)
        ensures
            final(self).name matches Some(n) && n@ == name@,
            final(self).ip_address == old(self).ip_address,
            final(self).subnet_mask == old(self).subnet_mask,
    {
        self.name = Some(name.to_owned());
    }

    /// Requests an IPv4 address.
    pub fn ip_address(&mut self, ip_address: [u8; 4])
        ensures
            final(self).ip_address == Some(ip_address),
            final(self).name == old(self).name,
            final(self).subnet_mask == old(self).subnet_mask,
    {
        self.ip_address = Some(ip_address);
    }

    /// Requests a subnet-mask prefix length.
    pub fn subnet_mask(&mut self, subnet_mask: u8)
        ensures
            final(self).subnet_mask == Some(subnet_mask),
            final(self).name == old(self).name,
            final(self).ip_address == old(self).ip_address,
    {
        self.subnet_mask = Some(subnet_mask);
    }

    /// Validates the whole configuration and builds the create request.
    /// Exactly the acceptable configurations pass, and a rejected one is
    /// refused here, before any control call could have been issued — in
    /// particular a mask requested without an address.
    pub fn prepare(&self) -> (r: Result<TunSetupPlan, NetworkError>)
        ensures
            r is Ok <==> builder_ok(*self),
            r matches Ok(plan) ==> {
                &&& plan.create.flags == IFF_TUN
                &&& plan.create.network_name@ == (match self.name {
                    Some(n) => name_bytes(n@),
                    None => zero_bytes(16),
                })
                &&& plan.ip_address == self.ip_address
                &&& plan.subnet_mask == self.subnet_mask
                &&& plan.wf()
            },
            !builder_ok(*self) ==> r == Err::<TunSetupPlan, NetworkError>(builder_error(*self)),
    {
        let create = match &self.name {
            Some(n) => match NetworkCreateTunTap::new_tun(n.as_str()) {
                Ok(c) => c,
                Err(e) => {
                    return Err(e);
                },
            },
            None => match NetworkCreateTunTap::new_tun_no_name() {
                Ok(c) => c,
                Err(e) => {
                    return Err(e);
                },
            },
        };
        if self.subnet_mask.is_some() && self.ip_address.is_none() {
            return Err(NetworkError::InvalidSubnetMask(SubnetMaskError::MaskWithoutAddress));
        }
        if let Some(m) = self.subnet_mask {
            if m == 0 || m > 32 {
                return Err(
                    NetworkError::InvalidSubnetMask(SubnetMaskError::PrefixOutOfRange(m)),
                );
            }
        }
        Ok(TunSetupPlan { create, ip_address: self.ip_address, subnet_mask: self.subnet_mask })
    }
}

/// A validated configuration: the ready create request plus the address and
/// mask still to be turned into records once the kernel has resolved the
/// interface name.
#[derive(Debug, Clone, PartialEq, Eq)]
pub struct TunSetupPlan {
    /// The record for the create control call.
    pub create: NetworkCreateTunTap,
    /// The address to assign after creation, if any.
    pub ip_address: Option<[u8; 4]>,
    /// The mask prefix to assign after the address, if any; guaranteed to
    /// accompany an address and to lie between 1 and 32.
    pub subnet_mask: Option<u8>,
}

impl TunSetupPlan {
    /// The create record is well formed, and a requested mask accompanies
    /// an address with a prefix between 1 and 32.
    pub open spec fn wf(&self) -> bool {
        &&& self.create.wf()
        &&& match self.subnet_mask {
            Some(m) => self.ip_address is Some && 1 <= m <= 32,
            None => true,
        }
    }

    /// The set-address record for the kernel-resolved interface name, or
    /// `None` when no address was requested.
    pub fn address_request(&self, resolved_name: &str) -> (r: Result<
        Option<NetworkSetIpv4Address>,
        NetworkError,
    >)
        ensures
            self.ip_address is None ==> r == Ok::<Option<NetworkSetIpv4Address>, NetworkError>(
                None,
            ),
            self.ip_address matches Some(ip) ==> name_ok(resolved_name) ==> (r matches Ok(
                Some(a),
            ) && a.network_name@ == name_bytes(resolved_name@) && a.ip_address == ip && a.wf()),
            self.ip_address is Some && !name_ok(resolved_name) ==> r == Err::<
                Option<NetworkSetIpv4Address>,
                NetworkError,
            >(name_error(resolved_name)),
    {
        match self.ip_address {
            None => Ok(None),
            Some(ip) => match NetworkSetIpv4Address::new(resolved_name, ip) {
                Ok(a) => Ok(Some(a)),
                Err(e) => Err(e),
            },
        }
    }

    /// The set-mask record for the kernel-resolved interface name, or
    /// `None` when no mask was requested.
    pub fn subnet_mask_request(&self, resolved_name: &str) -> (r: Result<
        Option<NetworkSetSubnetMask>,
        NetworkError,
    >)
        requires
            self.wf(),
        ensures
            self.subnet_mask is None ==> r == Ok::<Option<NetworkSetSubnetMask>, NetworkError>(
                None,
            ),
            self.subnet_mask matches Some(prefix) ==> name_ok(resolved_name) ==> (r matches Ok(
                Some(m),
            ) && m.network_name@ == name_bytes(resolved_name@) && m.subnet_mask
                == subnet_mask_value(prefix) && m.wf()),
            self.subnet_mask is Some && !name_ok(resolved_name) ==> r == Err::<
                Option<NetworkSetSubnetMask>,
                NetworkError,
            >(name_error(resolved_name)),
    {
        match self.subnet_mask {
            None => Ok(None),
            Some(prefix) => match NetworkSetSubnetMask::new(resolved_name, prefix) {
                Ok(m) => Ok(Some(m)),
                Err(e) => Err(e),
            },
        }
    }
}

} // verus!
