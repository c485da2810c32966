use daedalus::net::arp::{ArpOperation, ArpPacket, ARP_HARDWARE_ETHERNET, ARP_PROTOCOL_IPV4};
use daedalus::net::ethernet::MacAddress;

#[test]
fn test_arp_operation_conversion() {
    assert_eq!(ArpOperation::from_be(1), Some(ArpOperation::Request));
    assert_eq!(ArpOperation::from_be(2), Some(ArpOperation::Reply));
    assert_eq!(ArpOperation::from_be(3), None);
    assert_eq!(ArpOperation::from_be(0), None);

    assert_eq!(ArpOperation::Request.to_be(), 1);
    assert_eq!(ArpOperation::Reply.to_be(), 2);
}

#[test]
fn test_arp_request_creation() {
    let sender_mac = MacAddress::new([0xB8, 0x27, 0xEB, 0x12, 0x34, 0x56]);
    let sender_ip = [192, 168, 1, 100];
    let target_ip = [192, 168, 1, 1];

    let request = ArpPacket::request(sender_mac, sender_ip, target_ip);

    assert_eq!(request.hardware_type, ARP_HARDWARE_ETHERNET);
    assert_eq!(request.protocol_type, ARP_PROTOCOL_IPV4);
    assert_eq!(request.hw_addr_len, 6);
    assert_eq!(request.proto_addr_len, 4);
    assert_eq!(request.operation, ArpOperation::Request);
    assert_eq!(request.sender_mac, sender_mac);
    assert_eq!(request.sender_ip, sender_ip);
    assert_eq!(request.target_mac, MacAddress::zero());
    assert_eq!(request.target_ip, target_ip);
}

#[test]
fn test_arp_reply_creation() {
    let sender_mac = MacAddress::new([0xAA, 0xBB, 0xCC, 0xDD, 0xEE, 0xFF]);
    let sender_ip = [192, 168, 1, 1];
    let target_mac = MacAddress::new([0xB8, 0x27, 0xEB, 0x12, 0x34, 0x56]);
    let target_ip = [192, 168, 1, 100];

    let reply = ArpPacket::reply(sender_mac, sender_ip, target_mac, target_ip);

    assert_eq!(reply.operation, ArpOperation::Reply);
    assert_eq!(reply.sender_mac, sender_mac);
    assert_eq!(reply.sender_ip, sender_ip);
    assert_eq!(reply.target_mac, target_mac);
    assert_eq!(reply.target_ip, target_ip);
}

#[test]
fn test_arp_packet_write() {
    let sender_mac = MacAddress::new([0xB8, 0x27, 0xEB, 0x12, 0x34, 0x56]);
    let sender_ip = [192, 168, 1, 100];
    let target_ip = [192, 168, 1, 1];

    let request = ArpPacket::request(sender_mac, sender_ip, target_ip);

    let mut buffer = [0u8; 64];
    let size = request.write_to(&mut buffer).unwrap();

    assert_eq!(size, ArpPacket::SIZE);
    assert_eq!(&buffer[0..2], &[0x00, 0x01]);
    assert_eq!(&buffer[2..4], &[0x08, 0x00]);
    assert_eq!(buffer[4], 6);
    assert_eq!(buffer[5], 4);
    assert_eq!(&buffer[6..8], &[0x00, 0x01]);
    assert_eq!(&buffer[8..14], &[0xB8, 0x27, 0xEB, 0x12, 0x34, 0x56]);
    assert_eq!(&buffer[14..18], &[192, 168, 1, 100]);
    assert_eq!(&buffer[18..24], &[0x00; 6]);
    assert_eq!(&buffer[24..28], &[192, 168, 1, 1]);
    // Bytes past the packet are left alone.
    assert_eq!(&buffer[28..], &[0u8; 36]);
}

fn request_bytes() -> [u8; 28] {
    let mut buffer = [0u8; 28];
    buffer[0..2].copy_from_slice(&[0x00, 0x01]);
    buffer[2..4].copy_from_slice(&[0x08, 0x00]);
    buffer[4] = 6;
    buffer[5] = 4;
    buffer[6..8].copy_from_slice(&[0x00, 0x01]);
    buffer[8..14].copy_from_slice(&[0xB8, 0x27, 0xEB, 0x12, 0x34, 0x56]);
    buffer[14..18].copy_from_slice(&[192, 168, 1, 100]);
    buffer[18..24].copy_from_slice(&[0x00; 6]);
    buffer[24..28].copy_from_slice(&[192, 168, 1, 1]);
    buffer
}

#[test]
fn test_arp_packet_parse() {
    let buffer = request_bytes();
    let packet = ArpPacket::parse(&buffer).unwrap();

    assert_eq!(packet.hardware_type, ARP_HARDWARE_ETHERNET);
    assert_eq!(packet.protocol_type, ARP_PROTOCOL_IPV4);
    assert_eq!(packet.operation, ArpOperation::Request);
    assert_eq!(packet.sender_mac, MacAddress::new([0xB8, 0x27, 0xEB, 0x12, 0x34, 0x56]));
    assert_eq!(packet.sender_ip, [192, 168, 1, 100]);
    assert_eq!(packet.target_mac, MacAddress::zero());
    assert_eq!(packet.target_ip, [192, 168, 1, 1]);
}

#[test]
fn test_arp_packet_parse_too_short() {
    let buffer = [0u8; 10];
    assert!(ArpPacket::parse(&buffer).is_none());
    let full = request_bytes();
    assert!(ArpPacket::parse(&full[..27]).is_none());
}

#[test]
fn test_arp_packet_parse_wrong_hardware_type() {
    let mut buffer = [0u8; 28];
    buffer[0..2].copy_from_slice(&[0x00, 0x06]);
    buffer[2..4].copy_from_slice(&[0x08, 0x00]);
    buffer[4] = 6;
    buffer[5] = 4;
    buffer[6..8].copy_from_slice(&[0x00, 0x01]);

    assert!(ArpPacket::parse(&buffer).is_none());
}

#[test]
fn test_arp_packet_parse_wrong_protocol() {
    let mut buffer = [0u8; 28];
    buffer[0..2].copy_from_slice(&[0x00, 0x01]);
    buffer[2..4].copy_from_slice(&[0x86, 0xDD]);
    buffer[4] = 6;
    buffer[5] = 4;
    buffer[6..8].copy_from_slice(&[0x00, 0x01]);

    assert!(ArpPacket::parse(&buffer).is_none());
}

#[test]
fn arp_packet_parse_wrong_address_lengths() {
    let mut buffer = request_bytes();
    buffer[4] = 8;
    assert!(ArpPacket::parse(&buffer).is_none());
    let mut buffer = request_bytes();
    buffer[5] = 16;
    assert!(ArpPacket::parse(&buffer).is_none());
}

#[test]
fn test_arp_packet_parse_invalid_operation() {
    let mut buffer = [0u8; 28];
    buffer[0..2].copy_from_slice(&[0x00, 0x01]);
    buffer[2..4].copy_from_slice(&[0x08, 0x00]);
    buffer[4] = 6;
    buffer[5] = 4;
    buffer[6..8].copy_from_slice(&[0x00, 0x99]);

    assert!(ArpPacket::parse(&buffer).is_none());
}

#[test]
fn test_arp_packet_roundtrip() {
    let sender_mac = MacAddress::new([0xAA, 0xBB, 0xCC, 0xDD, 0xEE, 0xFF]);
    let sender_ip = [10, 0, 0, 1];
    let target_mac = MacAddress::new([0x11, 0x22, 0x33, 0x44, 0x55, 0x66]);
    let target_ip = [10, 0, 0, 2];

    let reply = ArpPacket::reply(sender_mac, sender_ip, target_mac, target_ip);

    let mut buffer = [0u8; 64];
    let size = reply.write_to(&mut buffer).unwrap();
    assert_eq!(size, ArpPacket::SIZE);

    let parsed = ArpPacket::parse(&buffer[..size]).unwrap();

    assert_eq!(parsed.operation, ArpOperation::Reply);
    assert_eq!(parsed.sender_mac, sender_mac);
    assert_eq!(parsed.sender_ip, sender_ip);
    assert_eq!(parsed.target_mac, target_mac);
    assert_eq!(parsed.target_ip, target_ip);
}

#[test]
fn test_arp_packet_display() {
    let sender_mac = MacAddress::new([0xB8, 0x27, 0xEB, 0x12, 0x34, 0x56]);
    let sender_ip = [192, 168, 1, 100];
    let target_ip = [192, 168, 1, 1];

    let request = ArpPacket::request(sender_mac, sender_ip, target_ip);
    let display = request.to_string();

    assert!(display.contains("Request"));
    assert!(display.contains("192.168.1.1"));
    assert!(display.contains("192.168.1.100"));
    assert_eq!(display, "ARP Request - Who has 192.168.1.1? Tell 192.168.1.100 (B8:27:EB:12:34:56)");

    let reply = ArpPacket::reply(sender_mac, [10, 0, 0, 255], MacAddress::zero(), [0, 0, 0, 0]);
    assert_eq!(reply.to_string(), "ARP Reply - Who has 0.0.0.0? Tell 10.0.0.255 (B8:27:EB:12:34:56)");
}

#[test]
fn test_arp_write_buffer_too_small() {
    let sender_mac = MacAddress::new([0xB8, 0x27, 0xEB, 0x12, 0x34, 0x56]);
    let sender_ip = [192, 168, 1, 100];
    let target_ip = [192, 168, 1, 1];

    let request = ArpPacket::request(sender_mac, sender_ip, target_ip);

    let mut buffer = [0u8; 10];
    assert!(request.write_to(&mut buffer).is_none());
    let mut buffer = [0u8; 27];
    assert!(request.write_to(&mut buffer).is_none());
}
