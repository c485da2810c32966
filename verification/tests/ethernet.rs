use daedalus::net::ethernet::{EthernetFrame, MacAddress, ETHERTYPE_ARP, ETHERTYPE_IPV4, ETHERTYPE_IPV6};

#[test]
fn test_mac_address_new() {
    let mac = MacAddress::new([0xB8, 0x27, 0xEB, 0x12, 0x34, 0x56]);
    assert_eq!(mac.0, [0xB8, 0x27, 0xEB, 0x12, 0x34, 0x56]);
}

#[test]
fn test_mac_address_broadcast() {
    let mac = MacAddress::broadcast();
    assert!(mac.is_broadcast());
    assert_eq!(mac.0, [0xFF; 6]);
}

#[test]
fn test_mac_address_zero() {
    let mac = MacAddress::zero();
    assert_eq!(mac.0, [0x00; 6]);
    assert!(!mac.is_broadcast());
}

#[test]
fn test_mac_address_multicast() {
    let multicast = MacAddress::new([0x01, 0x00, 0x5E, 0x00, 0x00, 0x01]);
    assert!(multicast.is_multicast());
    assert!(!multicast.is_unicast());

    let unicast = MacAddress::new([0xB8, 0x27, 0xEB, 0x12, 0x34, 0x56]);
    assert!(!unicast.is_multicast());
    assert!(unicast.is_unicast());

    let broadcast = MacAddress::broadcast();
    assert!(broadcast.is_multicast());
}

#[test]
fn test_mac_address_display() {
    let mac = MacAddress::new([0xB8, 0x27, 0xEB, 0x12, 0x34, 0x56]);
    assert_eq!(mac.to_string(), "B8:27:EB:12:34:56");

    let mac2 = MacAddress::new([0x00, 0x0A, 0x0B, 0x0C, 0x0D, 0x0E]);
    assert_eq!(mac2.to_string(), "00:0A:0B:0C:0D:0E");
}

#[test]
fn test_mac_address_from_str() {
    let mac: MacAddress = "B8:27:EB:12:34:56".parse().unwrap();
    assert_eq!(mac.0, [0xB8, 0x27, 0xEB, 0x12, 0x34, 0x56]);

    let mac2: MacAddress = "00:0a:0b:0c:0d:0e".parse().unwrap();
    assert_eq!(mac2.0, [0x00, 0x0A, 0x0B, 0x0C, 0x0D, 0x0E]);

    assert!("invalid".parse::<MacAddress>().is_err());
    assert!("B8:27:EB:12:34".parse::<MacAddress>().is_err());
    assert!("B8:27:EB:12:34:56:78".parse::<MacAddress>().is_err());
    assert!("ZZ:27:EB:12:34:56".parse::<MacAddress>().is_err());
}

#[test]
fn mac_address_from_str_edge_cases() {
    // Parts follow from_str_radix: a leading '+', leading zeros, either case.
    assert_eq!(MacAddress::parse_str("+1:2:3:4:5:0ff").unwrap().0, [1, 2, 3, 4, 5, 0xFF]);
    assert!(MacAddress::parse_str("100:0:0:0:0:0").is_err());
    assert!(MacAddress::parse_str("::::1:2").is_err());
    assert!(MacAddress::parse_str("").is_err());
    assert!(MacAddress::parse_str("1:2:3:4:5:").is_err());
}

#[test]
fn mac_address_text_roundtrip() {
    for mac in [
        MacAddress::new([0xB8, 0x27, 0xEB, 0x12, 0x34, 0x56]),
        MacAddress::broadcast(),
        MacAddress::zero(),
        MacAddress::new([0x0F, 0xF0, 0xA5, 0x5A, 0x01, 0x10]),
    ] {
        assert_eq!(MacAddress::parse_str(&mac.to_string()), Ok(mac));
    }
}

fn sample_frame_bytes() -> [u8; 64] {
    let mut buffer = [0u8; 64];
    buffer[0..6].copy_from_slice(&[0xFF; 6]);
    buffer[6..12].copy_from_slice(&[0xB8, 0x27, 0xEB, 0x12, 0x34, 0x56]);
    buffer[12..14].copy_from_slice(&[0x08, 0x06]);
    buffer[14..20].copy_from_slice(b"Hello!");
    buffer
}

#[test]
fn test_ethernet_frame_parse() {
    let buffer = sample_frame_bytes();
    let frame = EthernetFrame::parse(&buffer[..20]).unwrap();

    assert_eq!(frame.dest_mac, MacAddress::broadcast());
    assert_eq!(frame.src_mac, MacAddress::new([0xB8, 0x27, 0xEB, 0x12, 0x34, 0x56]));
    assert_eq!(frame.ethertype, ETHERTYPE_ARP);
    assert_eq!(frame.payload, b"Hello!");
    assert_eq!(frame.size(), 20);
}

#[test]
fn test_ethernet_frame_parse_too_short() {
    let buffer = [0u8; 10];
    assert!(EthernetFrame::parse(&buffer).is_none());
}

#[test]
fn ethernet_frame_parse_header_only() {
    let buffer = sample_frame_bytes();
    let frame = EthernetFrame::parse(&buffer[..14]).unwrap();
    assert_eq!(frame.payload.len(), 0);
    assert_eq!(frame.size(), 14);
    assert!(EthernetFrame::parse(&buffer[..13]).is_none());
}

#[test]
fn test_ethernet_frame_write() {
    let dest = MacAddress::broadcast();
    let src = MacAddress::new([0xB8, 0x27, 0xEB, 0x12, 0x34, 0x56]);
    let payload = b"Test payload";

    let frame = EthernetFrame::new(dest, src, ETHERTYPE_IPV4, payload);

    let mut buffer = [0u8; 128];
    let size = frame.write_to(&mut buffer).unwrap();

    assert_eq!(size, 14 + 12);
    assert_eq!(&buffer[0..6], &[0xFF; 6]);
    assert_eq!(&buffer[6..12], &[0xB8, 0x27, 0xEB, 0x12, 0x34, 0x56]);
    assert_eq!(&buffer[12..14], &[0x08, 0x00]);
    assert_eq!(&buffer[14..26], b"Test payload");
}

#[test]
fn test_ethernet_frame_write_buffer_too_small() {
    let dest = MacAddress::broadcast();
    let src = MacAddress::new([0xB8, 0x27, 0xEB, 0x12, 0x34, 0x56]);
    let payload = b"Test payload";

    let frame = EthernetFrame::new(dest, src, ETHERTYPE_IPV4, payload);

    let mut buffer = [0u8; 10];
    assert!(frame.write_to(&mut buffer).is_none());

    let mut exact = [0u8; 26];
    assert_eq!(frame.write_to(&mut exact), Some(26));
    let mut one_short = [0u8; 25];
    assert!(frame.write_to(&mut one_short).is_none());
}

#[test]
fn test_ethernet_frame_roundtrip() {
    let dest = MacAddress::new([0x11, 0x22, 0x33, 0x44, 0x55, 0x66]);
    let src = MacAddress::new([0xAA, 0xBB, 0xCC, 0xDD, 0xEE, 0xFF]);
    let payload = b"Roundtrip test data";

    let frame = EthernetFrame::new(dest, src, ETHERTYPE_ARP, payload);

    let mut buffer = [0u8; 128];
    let size = frame.write_to(&mut buffer).unwrap();

    let parsed = EthernetFrame::parse(&buffer[..size]).unwrap();

    assert_eq!(parsed.dest_mac, dest);
    assert_eq!(parsed.src_mac, src);
    assert_eq!(parsed.ethertype, ETHERTYPE_ARP);
    assert_eq!(parsed.payload, payload);
}

#[test]
fn test_ethertype_constants() {
    assert_eq!(ETHERTYPE_IPV4, 0x0800);
    assert_eq!(ETHERTYPE_ARP, 0x0806);
    assert_eq!(ETHERTYPE_IPV6, 0x86DD);
}

#[test]
fn ethernet_frame_size_constants() {
    assert_eq!(EthernetFrame::HEADER_SIZE, 14);
    assert_eq!(EthernetFrame::MIN_FRAME_SIZE, 60);
    assert_eq!(EthernetFrame::MAX_FRAME_SIZE, 1514);
    assert_eq!(EthernetFrame::MIN_PAYLOAD_SIZE, 46);
    assert_eq!(EthernetFrame::MAX_PAYLOAD_SIZE, 1500);
}
