use tunif::consts;
use tunif::error::{NameError, NetworkError, SubnetMaskError};
use tunif::settings::{
    validate_name, NetworkCreateTunTap, NetworkSetFlags, NetworkSetIpv4Address,
    NetworkSetSubnetMask,
};

fn padded(name: &str) -> Vec<u8> {
    let mut v = name.as_bytes().to_vec();
    while v.len() < 16 {
        v.push(0);
    }
    v
}

#[test]
fn validate_name_pads_to_16_bytes() {
    let v = validate_name("tun0").unwrap();
    assert_eq!(v, vec![b't', b'u', b'n', b'0', 0, 0, 0, 0, 0, 0, 0, 0, 0, 0, 0, 0]);
}

#[test]
fn validate_name_accepts_empty_and_15_chars() {
    assert_eq!(validate_name("").unwrap(), vec![0u8; 16]);
    let long = "abcdefghijklmno";
    assert_eq!(long.len(), 15);
    assert_eq!(validate_name(long).unwrap(), padded(long));
}

#[test]
fn validate_name_rejects_16_chars() {
    let too_long = "abcdefghijklmnop";
    assert_eq!(too_long.len(), 16);
    assert_eq!(
        validate_name(too_long),
        Err(NetworkError::InvalidName(NameError::TooLong))
    );
}

#[test]
fn validate_name_rejects_non_ascii() {
    assert_eq!(
        validate_name("t\u{fc}n0"),
        Err(NetworkError::InvalidName(NameError::NotAscii))
    );
}

#[test]
fn name_round_trips_through_the_padded_field() {
    for name in ["", "t", "tun0", "rust-tun", "abcdefghijklmno"] {
        let rec = NetworkCreateTunTap::new_tun(name).unwrap();
        assert_eq!(rec.get_name(), name);
    }
}

#[test]
fn get_name_strips_only_trailing_zeros() {
    let rec = NetworkCreateTunTap::from_bytes(&{
        let mut raw = vec![0u8; 40];
        raw[0] = b'a';
        raw[1] = 0;
        raw[2] = b'b';
        raw
    })
    .unwrap();
    assert_eq!(rec.get_name(), "a\u{0}b");
}

#[test]
fn create_request_encodes_name_flags_and_padding() {
    let rec = NetworkCreateTunTap::new_tun("tun0").unwrap();
    let bytes = rec.to_bytes();
    assert_eq!(bytes.len(), 40);
    assert_eq!(&bytes[0..16], padded("tun0").as_slice());
    // IFF_TUN = 0x0001, little-endian
    assert_eq!(&bytes[16..18], &[0x01, 0x00]);
    assert_eq!(&bytes[18..40], [0u8; 22].as_slice());

    let tap = NetworkCreateTunTap::new_tap("tap1").unwrap();
    let tap_bytes = tap.to_bytes();
    assert_eq!(&tap_bytes[16..18], &[0x02, 0x00]);
}

#[test]
fn anonymous_create_request_has_an_all_zero_name() {
    let rec = NetworkCreateTunTap::new_tun_no_name().unwrap();
    let bytes = rec.to_bytes();
    assert_eq!(&bytes[0..16], [0u8; 16].as_slice());
    assert_eq!(&bytes[16..18], &[0x01, 0x00]);

    let tap = NetworkCreateTunTap::new_tap_no_name().unwrap();
    assert_eq!(&tap.to_bytes()[16..18], &[0x02, 0x00]);
    assert_eq!(rec.get_name(), "");
}

#[test]
fn create_record_reads_back_the_kernel_written_name() {
    let rec = NetworkCreateTunTap::new_tun_no_name().unwrap();
    let mut bytes = rec.to_bytes();
    // the kernel resolves the empty name and writes one back in place
    bytes[0..4].copy_from_slice(b"tun7");
    let back = NetworkCreateTunTap::from_bytes(&bytes).unwrap();
    assert_eq!(back.get_name(), "tun7");
    assert!(NetworkCreateTunTap::from_bytes(&bytes[0..39]).is_none());
}

#[test]
fn address_request_encodes_family_address_and_padding() {
    let rec = NetworkSetIpv4Address::new("tun0", [10, 10, 1, 1]).unwrap();
    let bytes = rec.to_bytes();
    assert_eq!(bytes.len(), 40);
    assert_eq!(&bytes[0..16], padded("tun0").as_slice());
    // AF_INET = 2, little-endian, then the zeroed port field
    assert_eq!(&bytes[16..20], &[0x02, 0x00, 0x00, 0x00]);
    assert_eq!(&bytes[20..24], &[10, 10, 1, 1]);
    assert_eq!(&bytes[24..40], [0u8; 16].as_slice());
}

#[test]
fn subnet_mask_values_have_prefix_leading_ones() {
    let cases: [(u8, u32); 6] = [
        (1, 0x8000_0000),
        (8, 0xFF00_0000),
        (16, 0xFFFF_0000),
        (24, 0xFFFF_FF00),
        (31, 0xFFFF_FFFE),
        (32, 0xFFFF_FFFF),
    ];
    for (prefix, expected) in cases {
        let rec = NetworkSetSubnetMask::new("tun0", prefix).unwrap();
        assert_eq!(rec.subnet_mask, expected, "prefix {prefix}");
        assert_eq!(rec.subnet_mask.leading_ones(), prefix as u32);
        assert_eq!(rec.subnet_mask.trailing_zeros(), 32 - prefix as u32);
    }
}

#[test]
fn subnet_mask_rejects_prefix_zero_and_33() {
    assert_eq!(
        NetworkSetSubnetMask::new("tun0", 0),
        Err(NetworkError::InvalidSubnetMask(SubnetMaskError::PrefixOutOfRange(0)))
    );
    assert_eq!(
        NetworkSetSubnetMask::new("tun0", 33),
        Err(NetworkError::InvalidSubnetMask(SubnetMaskError::PrefixOutOfRange(33)))
    );
}

#[test]
fn subnet_mask_request_encodes_big_endian_mask() {
    let rec = NetworkSetSubnetMask::new("tun0", 24).unwrap();
    let bytes = rec.to_bytes();
    assert_eq!(bytes.len(), 40);
    assert_eq!(&bytes[16..20], &[0x02, 0x00, 0x00, 0x00]);
    assert_eq!(&bytes[20..24], &[0xFF, 0xFF, 0xFF, 0x00]);
    assert_eq!(&bytes[24..40], [0u8; 16].as_slice());
}

#[test]
fn flag_toggling_is_read_modify_write() {
    // a flags word as the kernel might hand it back: running, multicast,
    // promiscuous — all unrelated to the activation bit
    let unrelated = consts::IFF_RUNNING | consts::IFF_MULTICAST | consts::IFF_PROMISC;
    let mut rec = NetworkSetFlags::blank("tun0").unwrap();
    assert_eq!(rec.flags, 0);
    rec.flags = unrelated;

    rec.set_flag(consts::IFF_UP);
    assert_eq!(rec.flags & consts::IFF_UP, consts::IFF_UP);
    assert_eq!(rec.flags & unrelated, unrelated);
    assert_eq!(rec.flags, unrelated | consts::IFF_UP);

    rec.clear_flag(consts::IFF_UP);
    assert_eq!(rec.flags & consts::IFF_UP, 0);
    assert_eq!(rec.flags, unrelated);
}

#[test]
fn flags_record_round_trips_through_bytes() {
    let mut rec = NetworkSetFlags::blank("tun0").unwrap();
    rec.set_flag(consts::IFF_UP | consts::IFF_RUNNING);
    let bytes = rec.to_bytes();
    assert_eq!(bytes.len(), 40);
    // IFF_UP | IFF_RUNNING = 0x0041, little-endian
    assert_eq!(&bytes[16..18], &[0x41, 0x00]);
    let back = NetworkSetFlags::from_bytes(&bytes).unwrap();
    assert_eq!(back.flags, rec.flags);
    assert_eq!(back.network_name, rec.network_name);
}

#[test]
fn blank_flags_record_rejects_bad_names() {
    assert_eq!(
        NetworkSetFlags::blank("abcdefghijklmnop"),
        Err(NetworkError::InvalidName(NameError::TooLong))
    );
}
