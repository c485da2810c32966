use std::sync::Arc;

use daedalus::net::skbuff::{SkBuff, SkBuffError, MAX_PACKET_SIZE};
use daedalus::net::socket::types::Protocol;

#[test]
fn test_skbuff_allocation() {
    let data = [0u8; 64];
    let skb = SkBuff::from_dma(&data, 0).expect("allocation failed");

    assert_eq!(skb.len(), 64);
    assert_eq!(skb.data().len(), 64);
    assert!(!skb.is_empty());
}

#[test]
fn skbuff_allocation_copies_and_records_metadata() {
    let data: Vec<u8> = (0..40u8).collect();
    let skb = SkBuff::from_dma(&data, 123_456).unwrap();
    assert_eq!(skb.as_bytes(), &data[..]);
    assert_eq!(skb.data(), &data[..]);
    assert_eq!(skb.metadata().timestamp_us, 123_456);
    assert_eq!(skb.metadata().protocol, Protocol::NoProtocol);
    assert_eq!(skb.mac_header(), None);
    assert_eq!(skb.network_header(), None);
    assert_eq!(skb.transport_header(), None);

    let empty = SkBuff::from_dma(&[], 0).unwrap();
    assert!(empty.is_empty());
}

#[test]
fn test_skbuff_too_large() {
    let data = vec![0u8; MAX_PACKET_SIZE + 1];
    let result = SkBuff::from_dma(&data, 0);
    assert!(matches!(result, Err(SkBuffError::PacketTooLarge)));

    let data = vec![0u8; MAX_PACKET_SIZE];
    assert!(SkBuff::from_dma(&data, 0).is_ok());
}

#[test]
fn test_pull_header() {
    let data = [0u8; 64];
    let skb_arc = SkBuff::from_dma(&data, 0).unwrap();
    let mut skb = Arc::try_unwrap(skb_arc).unwrap();

    skb.pull_header(14).expect("pull failed");
    assert_eq!(skb.data().len(), 50);

    skb.pull_header(20).expect("pull failed");
    assert_eq!(skb.data().len(), 30);
    assert_eq!(skb.len(), 64);
}

#[test]
fn test_pull_header_insufficient_data() {
    let data = [0u8; 10];
    let skb_arc = SkBuff::from_dma(&data, 0).unwrap();
    let mut skb = Arc::try_unwrap(skb_arc).unwrap();

    let result = skb.pull_header(20);
    assert!(matches!(result, Err(SkBuffError::InsufficientData)));
    assert_eq!(skb.data().len(), 10);
    assert!(skb.pull_header(10).is_ok());
    assert_eq!(skb.data().len(), 0);
}

#[test]
fn test_push_header() {
    let data = vec![0u8; 100];
    let skb_arc = SkBuff::from_dma(&data, 0).unwrap();
    let mut skb = Arc::try_unwrap(skb_arc).unwrap();

    skb.pull_header(50).expect("pull failed");
    assert_eq!(skb.data().len(), 50);

    let eth_hdr = [0xEEu8; 14];
    skb.push_header(&eth_hdr).expect("push failed");
    assert_eq!(&skb.data()[..14], &eth_hdr);
    assert_eq!(skb.data().len(), 64);
}

#[test]
fn push_header_insufficient_headroom() {
    let data: Vec<u8> = (0..20u8).collect();
    let mut skb = Arc::try_unwrap(SkBuff::from_dma(&data, 0).unwrap()).unwrap();
    assert!(matches!(skb.push_header(&[1]), Err(SkBuffError::InsufficientHeadroom)));
    assert_eq!(skb.data(), &data[..]);

    skb.pull_header(4).unwrap();
    assert!(matches!(skb.push_header(&[1, 2, 3, 4, 5]), Err(SkBuffError::InsufficientHeadroom)));
    skb.push_header(&[9, 9, 9, 9]).unwrap();
    assert_eq!(&skb.data()[..4], &[9, 9, 9, 9]);
    assert_eq!(&skb.data()[4..], &data[4..]);
}

#[test]
fn pull_then_push_restores_data() {
    let data: Vec<u8> = (0..64u8).collect();
    let mut skb = Arc::try_unwrap(SkBuff::from_dma(&data, 0).unwrap()).unwrap();
    skb.pull_header(14).unwrap();
    skb.push_header(&data[..14]).unwrap();
    assert_eq!(skb.data(), &data[..]);
    assert_eq!(skb.as_bytes(), &data[..]);
}

#[test]
fn test_arc_refcounting() {
    let data = [0u8; 64];
    let skb1 = SkBuff::from_dma(&data, 0).unwrap();

    let skb2 = Arc::clone(&skb1);

    assert_eq!(Arc::strong_count(&skb1), 2);
    assert_eq!(Arc::strong_count(&skb2), 2);

    drop(skb2);
    assert_eq!(Arc::strong_count(&skb1), 1);
}

#[test]
fn test_header_offsets() {
    let data = [0u8; 64];
    let skb_arc = SkBuff::from_dma(&data, 0).unwrap();
    let mut skb = Arc::try_unwrap(skb_arc).unwrap();

    skb.set_mac_header(0);
    skb.set_network_header(14);
    skb.set_transport_header(34);

    assert_eq!(skb.mac_header(), Some(0));
    assert_eq!(skb.network_header(), Some(14));
    assert_eq!(skb.transport_header(), Some(34));
}

#[test]
fn skbuff_error_messages() {
    assert_eq!(SkBuffError::AllocationFailed.message(), "heap allocation failed");
    assert_eq!(SkBuffError::PacketTooLarge.message(), "packet exceeds maximum size");
    assert_eq!(SkBuffError::InvalidPacket.message(), "invalid packet data");
    assert_eq!(SkBuffError::InsufficientHeadroom.message(), "insufficient headroom for header");
    assert_eq!(SkBuffError::InsufficientData.message(), "insufficient data to pull header");
}
