//! Typed errors for every way interface configuration or packet decoding can
//! fail. Each variant carries the values a caller needs for diagnosis, so no
//! message formatting is required inside the verified core.

use vstd::prelude::*;

verus! {

/// Why a requested interface name was rejected.
#[derive(Debug, Clone, PartialEq, Eq)]
pub enum NameError {
    /// The name holds a character outside the ASCII range.
    NotAscii,
    /// The name does not fit in the 16-byte field with a NUL terminator.
    TooLong,
}

/// Why a subnet-mask request was rejected before any control call was made.
#[derive(Debug, Clone, PartialEq, Eq)]
pub enum SubnetMaskError {
    /// The prefix length was 0 or above 32; the rejected value is carried.
    PrefixOutOfRange(u8),
    /// A mask was requested for an interface with no address requested.
    MaskWithoutAddress,
}

/// Why a byte buffer could not be decoded as an IP packet.
#[derive(Debug, Clone, PartialEq, Eq)]
pub enum PacketError {
    /// The buffer is empty.
    EmptyBuffer,
    /// The version nibble is neither 4 nor 6; the nibble is carried.
    UnknownVersion(u8),
    /// A raw frame is shorter than its 4-byte flags-and-protocol prefix.
    FrameTooShort { actual: usize },
    /// An IPv4 buffer is shorter than the 20-byte fixed header.
    Ipv4Truncated { actual: usize },
    /// The IPv4 total-length field disagrees with the buffer length.
    Ipv4LengthMismatch { parsed: u16, actual: usize },
    /// The IPv4 header length is below 20 or beyond the total length.
    Ipv4BadHeaderLength { header_len: u8, total_length: u16 },
    /// An IPv6 buffer is shorter than the 40-byte fixed header.
    Ipv6Truncated { actual: usize },
    /// The IPv6 payload-length field disagrees with the buffer length;
    /// a packet carrying extension headers fails here by design.
    Ipv6LengthMismatch { parsed: u16, actual: usize },
}

/// Every error this crate's operations can surface.
#[derive(Debug, Clone, PartialEq, Eq)]
pub enum NetworkError {
    /// Opening or reading the device file failed; fatal to the operation.
    IoError(String),
    /// A name was rejected before any kernel interaction.
    InvalidName(NameError),
    /// A subnet-mask request was rejected before any kernel interaction.
    InvalidSubnetMask(SubnetMaskError),
    /// The kernel rejected a control call; carries the raw OS error code.
    IoctlError(i32),
    /// A frame could not be decoded; recoverable, the next frame may still
    /// be attempted.
    PacketParseError(PacketError),
}

} // verus!
