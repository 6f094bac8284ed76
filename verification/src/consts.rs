//! Kernel ABI constants: ioctl request codes and interface flag bits.
//!
//! A TUN ioctl request code packs four fields into one 64-bit word:
//! a direction (none/write/read), the byte size of the argument, a magic
//! character identifying the driver, and a sequence number. The packing
//! formula is written once, as [`ioctl_code`]; [`lemma_tun_request_codes`]
//! proves that each TUN request code below is that formula applied to the
//! driver's magic character `'T'` (0x54) and a 4-byte argument.
//!
//! The socket-configuration (SIOC*) codes are plain numbers assigned by the
//! kernel headers, not derived from the packing formula.

use vstd::prelude::*;

verus! {

/// Direction field of an ioctl request code: no argument transfer.
pub const IOC_NONE: u64 = 0;
/// Direction field of an ioctl request code: userspace writes the argument.
pub const IOC_WRITE: u64 = 1;
/// Direction field of an ioctl request code: userspace reads the argument.
pub const IOC_READ: u64 = 2;

/// The ioctl request-code packing: direction in bits 30..32, argument size
/// in bits 16..30, magic character in bits 8..16, sequence number in bits
/// 0..8.
pub open spec fn ioctl_code(dir: u64, size: u64, magic: u64, nr: u64) -> u64 {
    (dir << 30) | (size << 16) | (magic << 8) | nr
}

/// Packs an ioctl request code from its four fields.
pub fn request_code(dir: u64, size: u64, magic: u64, nr: u64) -> (r: u64)
    requires
        dir < 4,
        size < 0x4000,
        magic < 0x100,
        nr < 0x100,
    ensures
        r == ioctl_code(dir, size, magic, nr),
{
    (dir << 30) | (size << 16) | (magic << 8) | nr
}

/* TUN driver ioctl request codes: magic 'T' (0x54), 4-byte argument. */

pub const TUNSETNOCSUM: u64 = (1u64 << 30) | (4u64 << 16) | (0x54u64 << 8) | 200;
pub const TUNSETDEBUG: u64 = (1u64 << 30) | (4u64 << 16) | (0x54u64 << 8) | 201;
pub const TUNSETIFF: u64 = (1u64 << 30) | (4u64 << 16) | (0x54u64 << 8) | 202;
pub const TUNSETPERSIST: u64 = (1u64 << 30) | (4u64 << 16) | (0x54u64 << 8) | 203;
pub const TUNSETOWNER: u64 = (1u64 << 30) | (4u64 << 16) | (0x54u64 << 8) | 204;
pub const TUNSETLINK: u64 = (1u64 << 30) | (4u64 << 16) | (0x54u64 << 8) | 205;
pub const TUNSETGROUP: u64 = (1u64 << 30) | (4u64 << 16) | (0x54u64 << 8) | 206;
pub const TUNGETFEATURES: u64 = (2u64 << 30) | (4u64 << 16) | (0x54u64 << 8) | 207;
pub const TUNSETOFFLOAD: u64 = (1u64 << 30) | (4u64 << 16) | (0x54u64 << 8) | 208;
pub const TUNSETTXFILTER: u64 = (1u64 << 30) | (4u64 << 16) | (0x54u64 << 8) | 209;
pub const TUNGETIFF: u64 = (2u64 << 30) | (4u64 << 16) | (0x54u64 << 8) | 210;
pub const TUNGETSNDBUF: u64 = (2u64 << 30) | (4u64 << 16) | (0x54u64 << 8) | 211;
pub const TUNSETSNDBUF: u64 = (1u64 << 30) | (4u64 << 16) | (0x54u64 << 8) | 212;
pub const TUNGETVNETHDRSZ: u64 = (2u64 << 30) | (4u64 << 16) | (0x54u64 << 8) | 215;
pub const TUNSETVNETHDRSZ: u64 = (1u64 << 30) | (4u64 << 16) | (0x54u64 << 8) | 216;
pub const TUNSETQUEUE: u64 = (1u64 << 30) | (4u64 << 16) | (0x54u64 << 8) | 217;
pub const TUNSETIFINDEX: u64 = (1u64 << 30) | (4u64 << 16) | (0x54u64 << 8) | 218;
pub const TUNSETVNETLE: u64 = (1u64 << 30) | (4u64 << 16) | (0x54u64 << 8) | 220;
pub const TUNGETVNETLE: u64 = (2u64 << 30) | (4u64 << 16) | (0x54u64 << 8) | 221;

/// Each TUN request code above is the packing formula applied to the
/// driver's magic character and a 4-byte argument size.
pub proof fn lemma_tun_request_codes()
    ensures
        TUNSETNOCSUM == ioctl_code(IOC_WRITE, 4, 0x54, 200),
        TUNSETDEBUG == ioctl_code(IOC_WRITE, 4, 0x54, 201),
        TUNSETIFF == ioctl_code(IOC_WRITE, 4, 0x54, 202),
        TUNSETPERSIST == ioctl_code(IOC_WRITE, 4, 0x54, 203),
        TUNSETOWNER == ioctl_code(IOC_WRITE, 4, 0x54, 204),
        TUNSETLINK == ioctl_code(IOC_WRITE, 4, 0x54, 205),
        TUNSETGROUP == ioctl_code(IOC_WRITE, 4, 0x54, 206),
        TUNGETFEATURES == ioctl_code(IOC_READ, 4, 0x54, 207),
        TUNSETOFFLOAD == ioctl_code(IOC_WRITE, 4, 0x54, 208),
        TUNSETTXFILTER == ioctl_code(IOC_WRITE, 4, 0x54, 209),
        TUNGETIFF == ioctl_code(IOC_READ, 4, 0x54, 210),
        TUNGETSNDBUF == ioctl_code(IOC_READ, 4, 0x54, 211),
        TUNSETSNDBUF == ioctl_code(IOC_WRITE, 4, 0x54, 212),
        TUNGETVNETHDRSZ == ioctl_code(IOC_READ, 4, 0x54, 215),
        TUNSETVNETHDRSZ == ioctl_code(IOC_WRITE, 4, 0x54, 216),
        TUNSETQUEUE == ioctl_code(IOC_WRITE, 4, 0x54, 217),
        TUNSETIFINDEX == ioctl_code(IOC_WRITE, 4, 0x54, 218),
        TUNSETVNETLE == ioctl_code(IOC_WRITE, 4, 0x54, 220),
        TUNGETVNETLE == ioctl_code(IOC_READ, 4, 0x54, 221),
{
}

/* Request-record flag bits understood by TUNSETIFF. */

/// Create a TUN (raw IP) interface.
pub const IFF_TUN: u16 = 0x0001;
/// Create a TAP (Ethernet) interface.
pub const IFF_TAP: u16 = 0x0002;
pub const IFF_NAPI: u16 = 0x0010;
pub const IFF_NAPI_FRAGS: u16 = 0x0020;
/// Bring the interface up without carrier.
pub const IFF_NO_CARRIER: u16 = 0x0040;
/// Do not prepend the 4-byte flags-and-protocol prefix to each frame.
pub const IFF_NO_PI: u16 = 0x1000;
pub const IFF_ONE_QUEUE: u16 = 0x2000;
pub const IFF_VNET_HDR: u16 = 0x4000;
pub const IFF_TUN_EXCL: u16 = 0x8000;
pub const IFF_MULTI_QUEUE: u16 = 0x0100;
pub const IFF_ATTACH_QUEUE: u16 = 0x0200;
pub const IFF_DETACH_QUEUE: u16 = 0x0400;
/// Read-only: the interface persists after its handle closes.
pub const IFF_PERSIST: u16 = 0x0800;
pub const IFF_NOFILTER: u16 = 0x1000;

/* Socket-configuration request codes, fixed numbers from the kernel headers. */

/// Get the active interface flags.
pub const SIOCGIFFLAGS: u64 = 0x8913;
/// Set the active interface flags.
pub const SIOCSIFFLAGS: u64 = 0x8914;
/// Get the interface address.
pub const SIOCGIFADDR: u64 = 0x8915;
/// Set the interface address.
pub const SIOCSIFADDR: u64 = 0x8916;
/// Get the subnet mask.
pub const SIOCGIFNETMASK: u64 = 0x891b;
/// Set the subnet mask.
pub const SIOCSIFNETMASK: u64 = 0x891c;
/// Get the maximum transmission unit.
pub const SIOCGIFMTU: u64 = 0x8921;
/// Set the maximum transmission unit.
pub const SIOCSIFMTU: u64 = 0x8922;
/// Set the interface name.
pub const SIOCSIFNAME: u64 = 0x8923;
/// Map an interface name to its index.
pub const SIOCGIFINDEX: u64 = 0x8933;

/* Interface flag bits carried in the flags field of a flags record. */

/// The interface is up; the single bit toggled to change link state.
pub const IFF_UP: u16 = 0x1;
pub const IFF_BROADCAST: u16 = 0x2;
pub const IFF_DEBUG: u16 = 0x4;
pub const IFF_LOOPBACK: u16 = 0x8;
pub const IFF_POINTOPOINT: u16 = 0x10;
pub const IFF_NOTRAILERS: u16 = 0x20;
pub const IFF_RUNNING: u16 = 0x40;
pub const IFF_NOARP: u16 = 0x80;
pub const IFF_PROMISC: u16 = 0x100;
pub const IFF_ALLMULTI: u16 = 0x200;
pub const IFF_MASTER: u16 = 0x400;
pub const IFF_SLAVE: u16 = 0x800;
pub const IFF_MULTICAST: u16 = 0x1000;
pub const IFF_PORTSEL: u16 = 0x2000;
pub const IFF_AUTOMEDIA: u16 = 0x4000;
pub const IFF_DYNAMIC: u16 = 0x8000;

/// The address family of an address or mask record: the INET family.
pub const AF_INET: u16 = 2;

} // verus!
