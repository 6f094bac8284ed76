use tunif::error::{NetworkError, PacketError};
use tunif::packet::{IpPacket, IpVersion};

/// A minimal consistent IPv4 packet: 20 bytes, IHL 5, total length 20,
/// TTL 64, protocol 6, source 192.168.1.1, destination 192.168.1.2.
fn minimal_ipv4() -> Vec<u8> {
    vec![
        0x45, 0x00, 0x00, 0x14, // version/IHL, DSCP/ECN, total length 20
        0x00, 0x00, 0x00, 0x00, // identification, flags/fragment offset
        64, 6, 0x00, 0x00, // TTL, protocol, checksum
        192, 168, 1, 1, // source
        192, 168, 1, 2, // destination
    ]
}

/// A minimal consistent IPv6 packet: 40 bytes, payload length 0, hop
/// limit 64, one non-zero group in each address.
fn minimal_ipv6() -> Vec<u8> {
    let mut v = vec![
        0x60, 0x00, 0x00, 0x00, // version/traffic class, flow label
        0x00, 0x00, 17, 64, // payload length 0, next header, hop limit
    ];
    v.extend_from_slice(&[0u8; 32]);
    v[22] = 0x00;
    v[23] = 0x01; // source group 7 = 0x0001
    v[24] = 0x20;
    v[25] = 0x01; // destination group 0 = 0x2001
    assert_eq!(v.len(), 40);
    v
}

#[test]
fn ipv4_minimal_packet_decodes_with_exact_fields() {
    let data = minimal_ipv4();
    match IpPacket::from_bytes(&data).unwrap() {
        IpPacket::Ipv4(p) => {
            assert_eq!(p.version, IpVersion::Ipv4);
            assert_eq!(p.ihl, 20);
            assert_eq!(p.dscp, 0);
            assert_eq!(p.ecn, 0);
            assert_eq!(p.total_length, 20);
            assert_eq!(p.identification, 0);
            assert_eq!(p.flags, 0);
            assert_eq!(p.fragment_offset, 0);
            assert_eq!(p.ttl, 64);
            assert_eq!(p.protocol, 6);
            assert_eq!(p.header_checksum, 0);
            assert_eq!(p.source, [192, 168, 1, 1]);
            assert_eq!(p.destination, [192, 168, 1, 2]);
            assert!(p.options.is_empty());
            assert!(p.data.is_empty());
        }
        IpPacket::Ipv6(_) => panic!("decoded as the wrong version"),
    }
}

#[test]
fn ipv4_bit_fields_are_split_correctly() {
    let mut data = minimal_ipv4();
    data[1] = 0xB7; // DSCP 0b101101 = 45, ECN 0b11 = 3
    data[4] = 0x12;
    data[5] = 0x34; // identification 0x1234
    data[6] = 0x5F; // flags 0b010 = 2, fragment offset high bits 0x1F
    data[7] = 0xFF; // fragment offset 0x1FFF = 8191
    data[10] = 0xAB;
    data[11] = 0xCD; // checksum 0xABCD
    match IpPacket::from_bytes(&data).unwrap() {
        IpPacket::Ipv4(p) => {
            assert_eq!(p.dscp, 45);
            assert_eq!(p.ecn, 3);
            assert_eq!(p.identification, 0x1234);
            assert_eq!(p.flags, 2);
            assert_eq!(p.fragment_offset, 8191);
            assert_eq!(p.header_checksum, 0xABCD);
        }
        IpPacket::Ipv6(_) => panic!("decoded as the wrong version"),
    }
}

#[test]
fn ipv4_options_and_payload_are_sliced_by_header_length() {
    // IHL 6: a 24-byte header with 4 option bytes, then a 2-byte payload
    let mut data = vec![
        0x46, 0x00, 0x00, 26, 0x00, 0x00, 0x00, 0x00, 64, 17, 0x00, 0x00, 10, 0, 0, 1, 10, 0, 0,
        2,
    ];
    data.extend_from_slice(&[0xDE, 0xAD, 0xBE, 0xEF]); // options
    data.extend_from_slice(&[0x99, 0x88]); // payload
    assert_eq!(data.len(), 26);
    match IpPacket::from_bytes(&data).unwrap() {
        IpPacket::Ipv4(p) => {
            assert_eq!(p.ihl, 24);
            assert_eq!(p.total_length, 26);
            assert_eq!(p.options, vec![0xDE, 0xAD, 0xBE, 0xEF]);
            assert_eq!(p.data, vec![0x99, 0x88]);
        }
        IpPacket::Ipv6(_) => panic!("decoded as the wrong version"),
    }
}

#[test]
fn ipv4_total_length_mismatch_names_both_values() {
    let mut data = minimal_ipv4();
    data[3] = 21; // total-length field disagrees with the 20-byte buffer
    assert_eq!(
        IpPacket::from_bytes(&data),
        Err(NetworkError::PacketParseError(PacketError::Ipv4LengthMismatch {
            parsed: 21,
            actual: 20,
        }))
    );
}

#[test]
fn ipv4_shorter_than_fixed_header_is_rejected() {
    let data = vec![0x45, 0x00, 0x00, 0x0A, 0, 0, 0, 0, 64, 6];
    assert_eq!(
        IpPacket::from_bytes(&data),
        Err(NetworkError::PacketParseError(PacketError::Ipv4Truncated { actual: 10 }))
    );
}

#[test]
fn ipv4_header_length_nibble_below_five_is_rejected() {
    let mut data = minimal_ipv4();
    data[0] = 0x44; // IHL 4: a 16-byte header cannot hold the fixed fields
    assert_eq!(
        IpPacket::from_bytes(&data),
        Err(NetworkError::PacketParseError(PacketError::Ipv4BadHeaderLength {
            header_len: 16,
            total_length: 20,
        }))
    );
}

#[test]
fn ipv4_header_length_beyond_total_length_is_rejected() {
    let mut data = minimal_ipv4();
    data[0] = 0x46; // a 24-byte header in a 20-byte packet
    assert_eq!(
        IpPacket::from_bytes(&data),
        Err(NetworkError::PacketParseError(PacketError::Ipv4BadHeaderLength {
            header_len: 24,
            total_length: 20,
        }))
    );
}

#[test]
fn ipv6_minimal_packet_decodes_with_exact_fields() {
    let data = minimal_ipv6();
    match IpPacket::from_bytes(&data).unwrap() {
        IpPacket::Ipv6(p) => {
            assert_eq!(p.version, IpVersion::Ipv6);
            assert_eq!(p.traffic_class, 0);
            assert_eq!(p.flow_label, 0);
            assert_eq!(p.payload_length, 0);
            assert_eq!(p.next_header, 17);
            assert_eq!(p.hop_limit, 64);
            assert_eq!(p.source, [0, 0, 0, 0, 0, 0, 0, 1]);
            assert_eq!(p.destination, [0x2001, 0, 0, 0, 0, 0, 0, 0]);
            assert!(p.extension_headers.is_empty());
            assert!(p.data.is_empty());
        }
        IpPacket::Ipv4(_) => panic!("decoded as the wrong version"),
    }
}

#[test]
fn ipv6_bit_fields_and_payload_are_decoded() {
    let mut data = minimal_ipv6();
    data[0] = 0x6A; // traffic class high nibble 0xA
    data[1] = 0xB5; // traffic class low nibble 0xB, flow label nibble 0x5
    data[2] = 0x43;
    data[3] = 0x21; // flow label 0x54321
    data[5] = 3; // payload length 3
    data.extend_from_slice(&[7, 8, 9]);
    match IpPacket::from_bytes(&data).unwrap() {
        IpPacket::Ipv6(p) => {
            assert_eq!(p.traffic_class, 0xAB);
            assert_eq!(p.flow_label, 0x54321);
            assert_eq!(p.payload_length, 3);
            assert_eq!(p.data, vec![7, 8, 9]);
        }
        IpPacket::Ipv4(_) => panic!("decoded as the wrong version"),
    }
}

#[test]
fn ipv6_payload_length_disagreement_is_rejected() {
    // payload length 5 claimed, but nothing follows the fixed header —
    // the same check that rejects packets carrying extension headers
    let mut data = minimal_ipv6();
    data[5] = 5;
    assert_eq!(
        IpPacket::from_bytes(&data),
        Err(NetworkError::PacketParseError(PacketError::Ipv6LengthMismatch {
            parsed: 5,
            actual: 40,
        }))
    );

    // a trailing byte the payload-length field does not account for
    let mut extra = minimal_ipv6();
    extra.push(0);
    assert_eq!(
        IpPacket::from_bytes(&extra),
        Err(NetworkError::PacketParseError(PacketError::Ipv6LengthMismatch {
            parsed: 0,
            actual: 41,
        }))
    );
}

#[test]
fn ipv6_shorter_than_fixed_header_is_rejected() {
    let data = vec![0x60, 0, 0, 0, 0, 0, 17, 64, 0, 0];
    assert_eq!(
        IpPacket::from_bytes(&data),
        Err(NetworkError::PacketParseError(PacketError::Ipv6Truncated { actual: 10 }))
    );
}

#[test]
fn empty_buffer_is_rejected_not_panicked_on() {
    assert_eq!(
        IpPacket::from_bytes(&[]),
        Err(NetworkError::PacketParseError(PacketError::EmptyBuffer))
    );
}

#[test]
fn version_nibble_five_is_rejected_not_panicked_on() {
    let data = vec![0x55, 0x00, 0x00, 0x14];
    assert_eq!(
        IpPacket::from_bytes(&data),
        Err(NetworkError::PacketParseError(PacketError::UnknownVersion(5)))
    );
    assert_eq!(
        IpPacket::from_bytes(&[0xF0]),
        Err(NetworkError::PacketParseError(PacketError::UnknownVersion(15)))
    );
}

#[test]
fn frame_prefix_is_stripped_before_decoding() {
    let mut frame = vec![0x00, 0x00, 0x08, 0x00]; // flags, protocol identifier
    frame.extend_from_slice(&minimal_ipv4());
    match IpPacket::from_frame(&frame).unwrap() {
        IpPacket::Ipv4(p) => {
            assert_eq!(p.source, [192, 168, 1, 1]);
            assert_eq!(p.total_length, 20);
        }
        IpPacket::Ipv6(_) => panic!("decoded as the wrong version"),
    }
}

#[test]
fn frame_shorter_than_its_prefix_is_rejected() {
    assert_eq!(
        IpPacket::from_frame(&[0x00, 0x00, 0x08]),
        Err(NetworkError::PacketParseError(PacketError::FrameTooShort { actual: 3 }))
    );
    // a frame that is exactly the prefix holds an empty datagram
    assert_eq!(
        IpPacket::from_frame(&[0x00, 0x00, 0x08, 0x00]),
        Err(NetworkError::PacketParseError(PacketError::EmptyBuffer))
    );
}
