//! The IP packet decoder: a pure function from a byte buffer to a typed
//! IPv4 or IPv6 packet, or a parse error naming what was inconsistent.
//!
//! The spec functions below say, over the byte sequence alone, when a buffer
//! decodes, what every field of the result holds, and which error a rejected
//! buffer produces. Decoding never panics: every slice is bounds-checked
//! against lengths that were validated first.

use vstd::prelude::*;

use crate::error::NetworkError;
use crate::error::PacketError;

verus! {

/// The IP version a decoded packet carries.
#[derive(Debug, Clone, Copy, PartialEq, Eq, Structural)]
pub enum IpVersion {
    Ipv4,
    Ipv6,
}

/// A decoded IPv4 header with its option bytes and payload.
#[derive(Debug, Clone, PartialEq, Eq)]
pub struct Ipv4Packet {
    pub version: IpVersion,
    /// Header length in bytes (the IHL nibble times four).
    pub ihl: u8,
    /// Differentiated services code point: the top six bits of byte 1.
    pub dscp: u8,
    /// Explicit congestion notification: the low two bits of byte 1.
    pub ecn: u8,
    /// Total packet length; always equals the decoded buffer's length.
    pub total_length: u16,
    pub identification: u16,
    /// The top three bits of byte 6.
    pub flags: u8,
    /// The remaining thirteen bits of bytes 6 and 7.
    pub fragment_offset: u16,
    pub ttl: u8,
    pub protocol: u8,
    /// Stored as received; not validated.
    pub header_checksum: u16,
    pub source: [u8; 4],
    pub destination: [u8; 4],
    /// The bytes between offset 20 and the header length.
    pub options: Vec<u8>,
    /// The bytes between the header length and the total length.
    pub data: Vec<u8>,
}

/// A decoded IPv6 fixed header with its payload.
#[derive(Debug, Clone, PartialEq, Eq)]
pub struct Ipv6Packet {
    pub version: IpVersion,
    /// The low nibble of byte 0 joined with the high nibble of byte 1.
    pub traffic_class: u8,
    /// Twenty bits: the low nibble of byte 1 followed by bytes 2 and 3.
    pub flow_label: u32,
    /// Payload length; always equals the buffer length minus 40.
    pub payload_length: u16,
    pub next_header: u8,
    pub hop_limit: u8,
    /// Eight big-endian 16-bit groups from bytes 8..24.
    pub source: [u16; 8],
    /// Eight big-endian 16-bit groups from bytes 24..40.
    pub destination: [u16; 8],
    /// Always empty: packets carrying extension headers are rejected.
    pub extension_headers: Vec<u8>,
    /// The `payload_length` bytes after the fixed header.
    pub data: Vec<u8>,
}

/// A decoded IP packet of either version.
#[derive(Debug, Clone, PartialEq, Eq)]
pub enum IpPacket {
    Ipv4(Ipv4Packet),
    Ipv6(Ipv6Packet),
}

/// The big-endian 16-bit value at offset `i`.
pub open spec fn be16(d: Seq<u8>, i: int) -> int
    recommends
        0 <= i,
        i + 2 <= d.len(),
{
    d[i] * 256 + d[i + 1]
}

/// The version nibble: the top four bits of byte 0.
pub open spec fn version_of(d: Seq<u8>) -> int
    recommends
        d.len() > 0,
{
    d[0] as int / 16
}

/// The IPv4 header length in bytes: the low nibble of byte 0 times four.
pub open spec fn ipv4_header_len(d: Seq<u8>) -> int
    recommends
        d.len() > 0,
{
    (d[0] as int % 16) * 4
}

/// An IPv4 buffer is consistent when it covers the fixed header, its
/// total-length field equals the buffer length exactly, and the header
/// length lies between the fixed 20 bytes and the total length.
pub open spec fn ipv4_valid(d: Seq<u8>) -> bool
    recommends
        d.len() > 0,
{
    &&& d.len() >= 20
    &&& be16(d, 2) == d.len()
    &&& 20 <= ipv4_header_len(d) <= d.len()
}

/// An IPv6 buffer is consistent when it covers the fixed header and its
/// payload-length field equals the buffer length minus 40 exactly; a packet
/// carrying extension headers fails this by design.
pub open spec fn ipv6_valid(d: Seq<u8>) -> bool
    recommends
        d.len() > 0,
{
    &&& d.len() >= 40
    &&& be16(d, 4) == d.len() - 40
}

/// When a buffer decodes at all.
pub open spec fn decode_ok(d: Seq<u8>) -> bool {
    &&& d.len() > 0
    &&& {
        ||| version_of(d) == 4 && ipv4_valid(d)
        ||| version_of(d) == 6 && ipv6_valid(d)
    }
}

/// Which error a rejected buffer produces, in the order the checks run:
/// emptiness, then the version nibble, then the version's length checks.
pub open spec fn decode_issue(d: Seq<u8>) -> PacketError
    recommends
        !decode_ok(d),
{
    if d.len() == 0 {
        PacketError::EmptyBuffer
    } else if version_of(d) != 4 && version_of(d) != 6 {
        PacketError::UnknownVersion((d[0] as int / 16) as u8)
    } else if version_of(d) == 4 {
        if d.len() < 20 {
            PacketError::Ipv4Truncated { actual: d.len() as usize }
        } else if be16(d, 2) != d.len() {
            PacketError::Ipv4LengthMismatch {
                parsed: be16(d, 2) as u16,
                actual: d.len() as usize,
            }
        } else {
            PacketError::Ipv4BadHeaderLength {
                header_len: ipv4_header_len(d) as u8,
                total_length: be16(d, 2) as u16,
            }
        }
    } else {
        if d.len() < 40 {
            PacketError::Ipv6Truncated { actual: d.len() as usize }
        } else {
            PacketError::Ipv6LengthMismatch {
                parsed: be16(d, 4) as u16,
                actual: d.len() as usize,
            }
        }
    }
}

/// Every field of a decoded IPv4 packet, stated over the buffer's bytes.
pub open spec fn ipv4_fields_match(p: Ipv4Packet, d: Seq<u8>) -> bool
    recommends
        ipv4_valid(d),
{
    &&& p.version == IpVersion::Ipv4
    &&& p.ihl == ipv4_header_len(d)
    &&& p.dscp == d[1] as int / 4
    &&& p.ecn == d[1] as int % 4
    &&& p.total_length == be16(d, 2)
    &&& p.identification == be16(d, 4)
    &&& p.flags == d[6] as int / 32
    &&& p.fragment_offset == (d[6] as int % 32) * 256 + d[7]
    &&& p.ttl == d[8]
    &&& p.protocol == d[9]
    &&& p.header_checksum == be16(d, 10)
    &&& p.source@ == d.subrange(12, 16)
    &&& p.destination@ == d.subrange(16, 20)
    &&& p.options@ == d.subrange(20, ipv4_header_len(d))
    &&& p.data@ == d.subrange(ipv4_header_len(d), d.len() as int)
}

/// Every field of a decoded IPv6 packet, stated over the buffer's bytes.
pub open spec fn ipv6_fields_match(p: Ipv6Packet, d: Seq<u8>) -> bool
    recommends
        ipv6_valid(d),
{
    &&& p.version == IpVersion::Ipv6
    &&& p.traffic_class == (d[0] as int % 16) * 16 + d[1] as int / 16
    &&& p.flow_label == (d[1] as int % 16) * 0x10000 + d[2] * 256 + d[3]
    &&& p.payload_length == be16(d, 4)
    &&& p.next_header == d[6]
    &&& p.hop_limit == d[7]
    &&& p.source@ == Seq::new(8, |i: int| be16(d, 8 + 2 * i) as u16)
    &&& p.destination@ == Seq::new(8, |i: int| be16(d, 24 + 2 * i) as u16)
    &&& p.extension_headers@ == Seq::<u8>::empty()
    &&& p.data@ == d.subrange(40, d.len() as int)
}

/// A decoded packet agrees with its buffer: the variant matches the version
/// nibble and every field matches the bytes.
pub open spec fn packet_matches(p: IpPacket, d: Seq<u8>) -> bool
    recommends
        decode_ok(d),
{
    match p {
        IpPacket::Ipv4(v4) => version_of(d) == 4 && ipv4_fields_match(v4, d),
        IpPacket::Ipv6(v6) => version_of(d) == 6 && ipv6_fields_match(v6, d),
    }
}

/// Reads a big-endian 16-bit value from two bytes.
fn read_be16(hi: u8, lo: u8) -> (r: u16)
    ensures
        r == hi * 256 + lo,
{
    (hi as u16) * 256 + (lo as u16)
}

/// Copies `d[start..end]` into an owned vector.
fn copy_range(d: &[u8], start: usize, end: usize) -> (r: Vec<u8>)
    requires
        start <= end <= d@.len(),
    ensures
        r@ == d@.subrange(start as int, end as int),
{
    vstd::slice::slice_to_vec(vstd::slice::slice_subrange(d, start, end))
}

impl IpPacket {
    /// Decodes a raw IP datagram. Exactly the consistent buffers decode;
    /// every rejected buffer gets the parse error naming what was wrong,
    /// and nothing ever panics.
    pub fn from_bytes(data: &[u8]) -> (r: Result<Self, NetworkError>)
        ensures
            r is Ok <==> decode_ok(data@),
            r matches Ok(p) ==> packet_matches(p, data@),
            !decode_ok(data@) ==> r == Err::<Self, NetworkError>(
                NetworkError::PacketParseError(decode_issue(data@)),
            ),
    {
        if data.is_empty() {
            return Err(NetworkError::PacketParseError(PacketError::EmptyBuffer));
        }

        let version = data[0] / 16;

        if version == 4 {
            if data.len() < 20 {
                return Err(NetworkError::PacketParseError(PacketError::Ipv4Truncated {
                    actual: data.len(),
                }));
            }

            let total_length = read_be16(data[2], data[3]);

            if data.len() != total_length as usize {
                return Err(NetworkError::PacketParseError(PacketError::Ipv4LengthMismatch {
                    parsed: total_length,
                    actual: data.len(),
                }));
            }

            let header_len = (data[0] % 16) * 4;

            if header_len < 20 || (header_len as usize) > data.len() {
                return Err(NetworkError::PacketParseError(PacketError::Ipv4BadHeaderLength {
                    header_len,
                    total_length,
                }));
            }

            let packet = Ipv4Packet {
                version: IpVersion::Ipv4,
                ihl: header_len,
                dscp: data[1] / 4,
                ecn: data[1] % 4,
                total_length,
                identification: read_be16(data[4], data[5]),
                flags: data[6] / 32,
                fragment_offset: read_be16(data[6] % 32, data[7]),
                ttl: data[8],
                protocol: data[9],
                header_checksum: read_be16(data[10], data[11]),
                source: [data[12], data[13], data[14], data[15]],
                destination: [data[16], data[17], data[18], data[19]],
                options: copy_range(data, 20, header_len as usize),
                data: copy_range(data, header_len as usize, data.len()),
            };
            proof {
                assert(packet.source@ =~= data@.subrange(12, 16));
                assert(packet.destination@ =~= data@.subrange(16, 20));
            }
            Ok(Self::Ipv4(packet))
        } else if version == 6 {
            if data.len() < 40 {
                return Err(NetworkError::PacketParseError(PacketError::Ipv6Truncated {
                    actual: data.len(),
                }));
            }

            let payload_length = read_be16(data[4], data[5]);

            if data.len() - 40 != payload_length as usize {
                return Err(NetworkError::PacketParseError(PacketError::Ipv6LengthMismatch {
                    parsed: payload_length,
                    actual: data.len(),
                }));
            }

            let flow_label = ((data[1] % 16) as u32) * 0x10000 + (data[2] as u32) * 0x100 + (
            data[3] as u32);

            let packet = Ipv6Packet {
                version: IpVersion::Ipv6,
                traffic_class: (data[0] % 16) * 16 + data[1] / 16,
                flow_label,
                payload_length,
                next_header: data[6],
                hop_limit: data[7],
                source: [
                    read_be16(data[8], data[9]),
                    read_be16(data[10], data[11]),
                    read_be16(data[12], data[13]),
                    read_be16(data[14], data[15]),
                    read_be16(data[16], data[17]),
                    read_be16(data[18], data[19]),
                    read_be16(data[20], data[21]),
                    read_be16(data[22], data[23]),
                ],
                destination: [
                    read_be16(data[24], data[25]),
                    read_be16(data[26], data[27]),
                    read_be16(data[28], data[29]),
                    read_be16(data[30], data[31]),
                    read_be16(data[32], data[33]),
                    read_be16(data[34], data[35]),
                    read_be16(data[36], data[37]),
                    read_be16(data[38], data[39]),
                ],
                extension_headers: Vec::new(),
                data: copy_range(data, 40, data.len()),
            };
            proof {
                assert(packet.source@ =~= Seq::new(8, |i: int| be16(data@, 8 + 2 * i) as u16));
                assert(packet.destination@ =~= Seq::new(8, |i: int| be16(data@, 24 + 2 * i) as u16));
            }
            Ok(Self::Ipv6(packet))
        } else {
            Err(NetworkError::PacketParseError(PacketError::UnknownVersion(version)))
        }
    }

    /// Decodes one raw frame as read from the device: a 4-byte prefix of
    /// flags and protocol identifier, then the IP datagram. A frame shorter
    /// than its prefix is rejected rather than sliced out of bounds.
    pub fn from_frame(frame: &[u8]) -> (r: Result<Self, NetworkError>)
        ensures
            frame@.len() < 4 ==> r == Err::<Self, NetworkError>(
                NetworkError::PacketParseError(PacketError::FrameTooShort {
                    actual: frame@.len() as usize,
                }),
            ),
            frame@.len() >= 4 ==> {
                let d = frame@.skip(4);
                &&& r is Ok <==> decode_ok(d)
                &&& (r matches Ok(p) ==> packet_matches(p, d))
                &&& !decode_ok(d) ==> r == Err::<Self, NetworkError>(
                    NetworkError::PacketParseError(decode_issue(d)),
                )
            },
    {
        if frame.len() < 4 {
            return Err(NetworkError::PacketParseError(PacketError::FrameTooShort {
                actual: frame.len(),
            }));
        }
        let datagram = vstd::slice::slice_subrange(frame, 4, frame.len());
        proof {
            assert(datagram@ =~= frame@.skip(4));
        }
        Self::from_bytes(datagram)
    }
}

} // verus!
