//! Fixed-layout request records for the kernel's device-control calls.
//!
//! Every record occupies exactly 40 bytes: a 16-byte NUL-padded interface
//! name followed by record-specific fields and explicit zero padding. The
//! byte layout of each record is written down once, as a spec function, and
//! every encoder is proved to produce exactly those bytes. Nothing outside
//! this module builds raw control records.

use vstd::prelude::*;
use vstd::string::StringSliceAdditionalSpecFns;

use crate::consts::AF_INET;
use crate::consts::IFF_TAP;
use crate::consts::IFF_TUN;
use crate::error::NameError;
use crate::error::NetworkError;
use crate::error::SubnetMaskError;

verus! {

broadcast use vstd::string::group_string_axioms;

/// A run of `n` zero bytes.
pub open spec fn zero_bytes(n: int) -> Seq<u8> {
    Seq::new(n as nat, |i: int| 0u8)
}

/// A `u16` as two little-endian bytes, the byte order of the target
/// platform's kernel ABI for in-record integer fields.
pub open spec fn le16_bytes(x: u16) -> Seq<u8> {
    seq![(x % 256) as u8, (x / 256) as u8]
}

/// A `u32` as four big-endian (network-order) bytes.
pub open spec fn be32_bytes(x: u32) -> Seq<u8> {
    seq![
        (x / 0x1000000) as u8,
        ((x / 0x10000) % 256) as u8,
        ((x / 0x100) % 256) as u8,
        (x % 256) as u8,
    ]
}

/// The 16-byte interface-name field: the name's bytes, NUL-padded.
pub open spec fn name_bytes(s: Seq<char>) -> Seq<u8> {
    Seq::new(16, |i: int| if i < s.len() { s[i] as u8 } else { 0u8 })
}

/// Drops every trailing zero byte.
pub open spec fn trim_trailing_zeros(b: Seq<u8>) -> Seq<u8>
    decreases b.len(),
{
    if b.len() == 0 {
        b
    } else if b.last() == 0 {
        trim_trailing_zeros(b.drop_last())
    } else {
        b
    }
}

/// The text a 16-byte name field stands for: its bytes up to the trailing
/// NUL padding, read as characters.
pub open spec fn decoded_name(b: Seq<u8>) -> Seq<char> {
    trim_trailing_zeros(b).map(|i: int, x: u8| x as char)
}

/// A name is accepted when it is pure ASCII and leaves room for a
/// terminating NUL in the 16-byte field.
pub open spec fn name_ok(name: &str) -> bool {
    name.is_ascii() && name@.len() < 16
}

/// The error a rejected name produces: non-ASCII names are reported before
/// overlong ones.
pub open spec fn name_error(name: &str) -> NetworkError {
    if !name.is_ascii() {
        NetworkError::InvalidName(NameError::NotAscii)
    } else {
        NetworkError::InvalidName(NameError::TooLong)
    }
}

/// Checks an interface name and encodes it as the 16-byte NUL-padded field.
pub fn validate_name(name: &str) -> (r: Result<Vec<u8>, NetworkError>)
    ensures
        r is Ok <==> name_ok(name),
        r matches Ok(v) ==> v@ == name_bytes(name@),
        r matches Err(e) ==> e == name_error(name),
{
    if !name.is_ascii() {
        return Err(NetworkError::InvalidName(NameError::NotAscii));
    }
    let bytes = name.as_bytes();
    let len = bytes.len();
    proof {
        assert(bytes@ =~= Seq::new(name@.len(), |i: int| name@[i] as u8));
    }
    if len >= 16 {
        return Err(NetworkError::InvalidName(NameError::TooLong));
    }
    let mut field: Vec<u8> = Vec::new();
    let mut i: usize = 0;
    while i < len
        invariant
            i <= len,
            len == bytes@.len(),
            len == name@.len() < 16,
            name.is_ascii(),
            bytes@ == name.spec_bytes(),
            field@.len() == i,
            forall|j: int| 0 <= j < i ==> field@[j] == name@[j] as u8,
        decreases len - i,
    {
        field.push(bytes[i]);
        i += 1;
    }
    while field.len() < 16
        invariant
            name@.len() <= field@.len() <= 16,
            forall|j: int| 0 <= j < name@.len() ==> field@[j] == name@[j] as u8,
            forall|j: int| name@.len() <= j < field@.len() ==> field@[j] == 0u8,
        decreases 16 - field.len(),
    {
        field.push(0u8);
    }
    proof {
        assert(field@ =~= name_bytes(name@));
    }
    Ok(field)
}

/// Relies on `String::push`: appends the given character to the end of the
/// string.
#[verifier::external_body]
fn push_char(s: &mut String, c: char)
    ensures
        final(s)@ == old(s)@.push(c),
{
    s.push(c);
}

/// Reads a 16-byte name field back as text: trailing NUL padding is
/// stripped and the remaining bytes are reinterpreted as characters.
fn decode_name_field(field: &Vec<u8>) -> (r: String)
    ensures
        r@ == decoded_name(field@),
{
    let ghost b = field@;
    let mut n = field.len();
    proof {
        assert(b.take(n as int) =~= b);
    }
    while n > 0 && field[n - 1] == 0
        invariant
            n <= b.len(),
            field@ == b,
            trim_trailing_zeros(b.take(n as int)) == trim_trailing_zeros(b),
        decreases n,
    {
        proof {
            assert(b.take(n as int).drop_last() =~= b.take(n - 1));
        }
        n -= 1;
    }
    proof {
        if n == 0 {
            assert(b.take(0).len() == 0);
        }
        assert(trim_trailing_zeros(b.take(n as int)) == b.take(n as int));
    }
    let mut out = String::new();
    let mut i: usize = 0;
    while i < n
        invariant
            i <= n <= b.len(),
            field@ == b,
            out@.len() == i,
            forall|j: int| 0 <= j < i ==> out@[j] == b[j] as char,
        decreases n - i,
    {
        push_char(&mut out, field[i] as char);
        i += 1;
    }
    proof {
        assert(out@ =~= decoded_name(b));
    }
    out
}

/// Trailing zeros are exactly what trimming removes: appending zero bytes
/// to a sequence that does not end in zero changes nothing after a trim.
pub proof fn lemma_trim_pad(x: Seq<u8>, n: int)
    requires
        0 <= n,
        x.len() == 0 || x.last() != 0,
    ensures
        trim_trailing_zeros(x + zero_bytes(n)) == x,
    decreases n,
{
    if n == 0 {
        assert(x + zero_bytes(0) =~= x);
    } else {
        let padded = x + zero_bytes(n);
        assert(padded.last() == 0);
        assert(padded.drop_last() =~= x + zero_bytes(n - 1));
        lemma_trim_pad(x, n - 1);
    }
}

/// Round trip for interface names: any ASCII name that fits the field and
/// does not itself end in a NUL character is recovered exactly when its
/// padded 16-byte field is decoded again.
pub proof fn lemma_name_round_trip(s: Seq<char>)
    requires
        s.len() < 16,
        vstd::utf8::is_ascii_chars(s),
        s.len() > 0 ==> s.last() as u8 != 0,
    ensures
        decoded_name(name_bytes(s)) == s,
{
    broadcast use vstd::utf8::is_ascii_chars_nat_bound;
    broadcast use vstd::utf8::char_is_scalar;
    broadcast use vstd::utf8::char_u32_cast;

    let mapped = s.map(|i: int, c: char| c as u8);
    assert(name_bytes(s) =~= mapped + zero_bytes(16 - s.len()));
    if s.len() > 0 {
        assert(mapped.last() == s.last() as u8);
    }
    lemma_trim_pad(mapped, 16 - s.len());
    assert(decoded_name(name_bytes(s)) =~= mapped.map(|i: int, x: u8| x as char));
    assert forall|i: int| 0 <= i < s.len() implies mapped.map(|j: int, x: u8| x as char)[i]
        == s[i] by {
        assert((s[i] as nat) < 128);
        assert(((s[i] as u8) as char) == s[i]);
    }
    assert(decoded_name(name_bytes(s)) =~= s);
}

/// The 40-byte layout shared by the create-interface and set-flags records:
/// the name field, a little-endian flags word, and explicit zero padding.
pub open spec fn flags_record_bytes(name: Seq<u8>, flags: u16) -> Seq<u8> {
    name + le16_bytes(flags) + zero_bytes(22)
}

/// The 40-byte layout of the set-address record: the name field, the INET
/// address family, two zero bytes (the unused port field), the four address
/// bytes, and zero padding.
pub open spec fn addr_record_bytes(name: Seq<u8>, addr: Seq<u8>) -> Seq<u8> {
    name + le16_bytes(AF_INET) + zero_bytes(2) + addr + zero_bytes(16)
}

/// The 40-byte layout of the set-subnet-mask record: as the set-address
/// record, with the mask in big-endian byte order.
pub open spec fn mask_record_bytes(name: Seq<u8>, mask: u32) -> Seq<u8> {
    name + le16_bytes(AF_INET) + zero_bytes(2) + be32_bytes(mask) + zero_bytes(16)
}

/// The request record that creates a TUN or TAP interface, and through
/// which the kernel returns the resolved interface name.
#[derive(Debug, Clone, PartialEq, Eq)]
pub struct NetworkCreateTunTap {
    /// The 16-byte NUL-padded interface name; all zero to let the kernel
    /// pick a name.
    pub network_name: Vec<u8>,
    /// The interface kind and its sub-flags.
    pub flags: u16,
}

impl NetworkCreateTunTap {
    /// The name field always holds exactly 16 bytes.
    pub open spec fn wf(&self) -> bool {
        self.network_name@.len() == 16
    }

    /// A create request for a TUN interface with the given name.
    pub fn new_tun(name: &str) -> (r: Result<Self, NetworkError>)
        ensures
            r is Ok <==> name_ok(name),
            r matches Ok(c) ==> c.network_name@ == name_bytes(name@) && c.flags == IFF_TUN
                && c.wf(),
            r matches Err(e) ==> e == name_error(name),
    {
        Ok(Self { network_name: validate_name(name)?, flags: IFF_TUN })
    }

    /// A create request for a TAP interface with the given name.
    pub fn new_tap(name: &str) -> (r: Result<Self, NetworkError>)
        ensures
            r is Ok <==> name_ok(name),
            r matches Ok(c) ==> c.network_name@ == name_bytes(name@) && c.flags == IFF_TAP
                && c.wf(),
            r matches Err(e) ==> e == name_error(name),
    {
        Ok(Self { network_name: validate_name(name)?, flags: IFF_TAP })
    }

    /// A create request for a TUN interface whose name the kernel assigns.
    pub fn new_tun_no_name() -> (r: Result<Self, NetworkError>)
        ensures
            r matches Ok(c) && c.network_name@ == zero_bytes(16) && c.flags == IFF_TUN
                && c.wf(),
    {
        let field = vec![0u8; 16];
        proof {
            assert(field@ =~= zero_bytes(16));
        }
        Ok(Self { network_name: field, flags: IFF_TUN })
    }

    /// A create request for a TAP interface whose name the kernel assigns.
    pub fn new_tap_no_name() -> (r: Result<Self, NetworkError>)
        ensures
            r matches Ok(c) && c.network_name@ == zero_bytes(16) && c.flags == IFF_TAP
                && c.wf(),
    {
        let field = vec![0u8; 16];
        proof {
            assert(field@ =~= zero_bytes(16));
        }
        Ok(Self { network_name: field, flags: IFF_TAP })
    }

    /// The interface name this record holds, with the trailing NUL padding
    /// stripped. After the create call the kernel has written the resolved
    /// name into the record, so this is how the final name is learned.
    pub fn get_name(&self) -> (r: String)
        ensures
            r@ == decoded_name(self.network_name@),
    {
        decode_name_field(&self.network_name)
    }

    /// The record as the exact 40 bytes the create control call expects.
    pub fn to_bytes(&self) -> (r: Vec<u8>)
        requires
            self.wf(),
        ensures
            r@ == flags_record_bytes(self.network_name@, self.flags),
            r@.len() == 40,
    {
        let mut out: Vec<u8> = Vec::new();
        out.extend_from_slice(self.network_name.as_slice());
        out.push((self.flags % 256) as u8);
        out.push((self.flags / 256) as u8);
        let mut pad = vec![0u8; 22];
        out.append(&mut pad);
        proof {
            assert(out@ =~= flags_record_bytes(self.network_name@, self.flags));
        }
        out
    }

    /// A record read back from the 40 bytes a create control call returned.
    pub fn from_bytes(raw: &[u8]) -> (r: Option<Self>)
        ensures
            r is Some <==> raw@.len() == 40,
            r matches Some(c) ==> c.network_name@ == raw@.subrange(0, 16)
                && c.flags == raw@[16] + raw@[17] * 256 && c.wf(),
    {
        if raw.len() != 40 {
            return None;
        }
        let network_name = vstd::slice::slice_to_vec(vstd::slice::slice_subrange(raw, 0, 16));
        let flags = (raw[16] as u16) + (raw[17] as u16) * 256;
        Some(Self { network_name, flags })
    }
}

/// The request record that assigns an IPv4 address to a named interface.
#[derive(Debug, Clone, PartialEq, Eq)]
pub struct NetworkSetIpv4Address {
    /// The 16-byte NUL-padded interface name.
    pub network_name: Vec<u8>,
    /// Always the INET address family.
    pub address_family: u16,
    /// The four address bytes, most significant octet first.
    pub ip_address: [u8; 4],
}

impl NetworkSetIpv4Address {
    /// The name field always holds exactly 16 bytes, and the family is INET.
    pub open spec fn wf(&self) -> bool {
        self.network_name@.len() == 16 && self.address_family == AF_INET
    }

    /// A set-address request for the given interface name and address.
    pub fn new(name: &str, ip_address: [u8; 4]) -> (r: Result<Self, NetworkError>)
        ensures
            r is Ok <==> name_ok(name),
            r matches Ok(a) ==> a.network_name@ == name_bytes(name@)
                && a.ip_address == ip_address && a.wf(),
            r matches Err(e) ==> e == name_error(name),
    {
        Ok(Self {
            network_name: validate_name(name)?,
            address_family: AF_INET,
            ip_address,
        })
    }

    /// The record as the exact 40 bytes the set-address control call
    /// expects.
    pub fn to_bytes(&self) -> (r: Vec<u8>)
        requires
            self.wf(),
        ensures
            r@ == addr_record_bytes(self.network_name@, self.ip_address@),
            r@.len() == 40,
    {
        let mut out: Vec<u8> = Vec::new();
        out.extend_from_slice(self.network_name.as_slice());
        out.push((self.address_family % 256) as u8);
        out.push((self.address_family / 256) as u8);
        out.push(0u8);
        out.push(0u8);
        out.push(self.ip_address[0]);
        out.push(self.ip_address[1]);
        out.push(self.ip_address[2]);
        out.push(self.ip_address[3]);
        let mut pad = vec![0u8; 16];
        out.append(&mut pad);
        proof {
            assert(out@ =~= addr_record_bytes(self.network_name@, self.ip_address@));
        }
        out
    }
}

/// The integer value of the subnet mask for a prefix length: the top
/// `prefix` bits set, the remaining `32 - prefix` bits clear.
pub open spec fn subnet_mask_value(prefix: u8) -> u32
    recommends
        1 <= prefix <= 32,
{
    (0xFFFF_FFFFu32 >> ((32 - prefix) as u32)) << ((32 - prefix) as u32)
}

/// Bit by bit, the mask of a valid prefix has exactly `prefix` leading
/// one-bits followed by `32 - prefix` zero-bits: counting from the least
/// significant end, bit `i` is clear below `32 - prefix` and set from there
/// up.
pub proof fn lemma_subnet_mask_bits(prefix: u8, i: u32)
    requires
        1 <= prefix <= 32,
        i < 32,
    ensures
        (subnet_mask_value(prefix) >> i) & 1 == (if i < 32 - prefix {
            0u32
        } else {
            1u32
        }),
{
    assert((((0xFFFF_FFFFu32 >> ((32 - prefix) as u32)) << ((32 - prefix) as u32)) >> i) & 1 == (
    if i < 32 - prefix {
        0u32
    } else {
        1u32
    })) by (bit_vector)
        requires
            1 <= prefix <= 32,
            i < 32,
    ;
}

/// The request record that assigns a subnet mask to a named interface.
#[derive(Debug, Clone, PartialEq, Eq)]
pub struct NetworkSetSubnetMask {
    /// The 16-byte NUL-padded interface name.
    pub network_name: Vec<u8>,
    /// Always the INET address family.
    pub address_family: u16,
    /// The mask value; sent over the wire in big-endian byte order.
    pub subnet_mask: u32,
}

impl NetworkSetSubnetMask {
    /// The name field always holds exactly 16 bytes, and the family is INET.
    pub open spec fn wf(&self) -> bool {
        self.network_name@.len() == 16 && self.address_family == AF_INET
    }

    /// A set-mask request for the given interface name and prefix length.
    /// A prefix of 0 or above 32 is rejected before anything else happens.
    pub fn new(name: &str, prefix: u8) -> (r: Result<Self, NetworkError>)
        ensures
            r is Ok <==> 1 <= prefix <= 32 && name_ok(name),
            r matches Ok(m) ==> m.network_name@ == name_bytes(name@)
                && m.subnet_mask == subnet_mask_value(prefix) && m.wf(),
            prefix == 0 || prefix > 32 ==> r == Err::<Self, NetworkError>(
                NetworkError::InvalidSubnetMask(SubnetMaskError::PrefixOutOfRange(prefix)),
            ),
            1 <= prefix <= 32 && !name_ok(name) ==> (r matches Err(e) && e == name_error(name)),
    {
        if prefix == 0 || prefix > 32 {
            return Err(NetworkError::InvalidSubnetMask(SubnetMaskError::PrefixOutOfRange(prefix)));
        }
        let shift: u32 = 32 - (prefix as u32);
        let subnet_mask = (0xFFFF_FFFFu32 >> shift) << shift;
        Ok(Self {
            network_name: validate_name(name)?,
            address_family: AF_INET,
            subnet_mask,
        })
    }

    /// The record as the exact 40 bytes the set-mask control call expects.
    pub fn to_bytes(&self) -> (r: Vec<u8>)
        requires
            self.wf(),
        ensures
            r@ == mask_record_bytes(self.network_name@, self.subnet_mask),
            r@.len() == 40,
    {
        let mut out: Vec<u8> = Vec::new();
        out.extend_from_slice(self.network_name.as_slice());
        out.push((self.address_family % 256) as u8);
        out.push((self.address_family / 256) as u8);
        out.push(0u8);
        out.push(0u8);
        out.push((self.subnet_mask / 0x1000000) as u8);
        out.push(((self.subnet_mask / 0x10000) % 256) as u8);
        out.push(((self.subnet_mask / 0x100) % 256) as u8);
        out.push((self.subnet_mask % 256) as u8);
        let mut pad = vec![0u8; 16];
        out.append(&mut pad);
        proof {
            assert(out@ =~= mask_record_bytes(self.network_name@, self.subnet_mask));
        }
        out
    }
}

/// The request record that reads or writes an interface's flags word.
/// Toggling the link state goes through a get call, a bit operation on this
/// record, and a set call, so unrelated flag bits are never clobbered.
#[derive(Debug, Clone, PartialEq, Eq)]
pub struct NetworkSetFlags {
    /// The 16-byte NUL-padded interface name.
    pub network_name: Vec<u8>,
    /// The interface flags word.
    pub flags: u16,
}

impl NetworkSetFlags {
    /// The name field always holds exactly 16 bytes.
    pub open spec fn wf(&self) -> bool {
        self.network_name@.len() == 16
    }

    /// A flags record for the given interface with all flag bits clear,
    /// ready to be filled by a get-flags control call.
    pub fn blank(name: &str) -> (r: Result<Self, NetworkError>)
        ensures
            r is Ok <==> name_ok(name),
            r matches Ok(f) ==> f.network_name@ == name_bytes(name@) && f.flags == 0 && f.wf(),
            r matches Err(e) ==> e == name_error(name),
    {
        Ok(Self { network_name: validate_name(name)?, flags: 0 })
    }

    /// Sets the given flag bits, leaving every other bit as it was.
    pub fn set_flag(&mut self, flag: u16)
        ensures
            final(self).flags == old(self).flags | flag,
            final(self).network_name == old(self).network_name,
    {
        self.flags = self.flags | flag;
    }

    /// Clears the given flag bits, leaving every other bit as it was.
    pub fn clear_flag(&mut self, flag: u16)
        ensures
            final(self).flags == old(self).flags & !flag,
            final(self).network_name == old(self).network_name,
    {
        self.flags = self.flags & !flag;
    }

    /// The record as the exact 40 bytes the set-flags control call expects.
    pub fn to_bytes(&self) -> (r: Vec<u8>)
        requires
            self.wf(),
        ensures
            r@ == flags_record_bytes(self.network_name@, self.flags),
            r@.len() == 40,
    {
        let mut out: Vec<u8> = Vec::new();
        out.extend_from_slice(self.network_name.as_slice());
        out.push((self.flags % 256) as u8);
        out.push((self.flags / 256) as u8);
        let mut pad = vec![0u8; 22];
        out.append(&mut pad);
        proof {
            assert(out@ =~= flags_record_bytes(self.network_name@, self.flags));
        }
        out
    }

    /// A record read back from the 40 bytes a get-flags control call
    /// returned.
    pub fn from_bytes(raw: &[u8]) -> (r: Option<Self>)
        ensures
            r is Some <==> raw@.len() == 40,
            r matches Some(f) ==> f.network_name@ == raw@.subrange(0, 16)
                && f.flags == raw@[16] + raw@[17] * 256 && f.wf(),
    {
        if raw.len() != 40 {
            return None;
        }
        let network_name = vstd::slice::slice_to_vec(vstd::slice::slice_subrange(raw, 0, 16));
        let flags = (raw[16] as u16) + (raw[17] as u16) * 256;
        Some(Self { network_name, flags })
    }
}

/// Setting a flag is read-modify-write: every bit outside the flag keeps
/// its value, and the flag's own bits end up set.
pub proof fn lemma_set_flag_preserves_others(flags: u16, flag: u16, others: u16)
    by (bit_vector)
    requires
        others & flag == 0,
    ensures
        (flags | flag) & others == flags & others,
        (flags | flag) & flag == flag,
{
}

/// Clearing a flag is read-modify-write: every bit outside the flag keeps
/// its value, and the flag's own bits end up clear.
pub proof fn lemma_clear_flag_preserves_others(flags: u16, flag: u16, others: u16)
    by (bit_vector)
    requires
        others & flag == 0,
    ensures
        (flags & !flag) & others == flags & others,
        (flags & !flag) & flag == 0,
{
}

} // verus!
