use std::sync::Arc;

use daedalus::net::ethernet::{EthernetFrame, MacAddress, ETHERTYPE_ARP, ETHERTYPE_IPV4};
use daedalus::net::protocol::{registered_protocol_count, ProtocolError, ProtocolHandler, ProtocolRegistry};
use daedalus::net::protocols::arp::ArpProtocol;
use daedalus::net::protocols::arp_rx_count;
use daedalus::net::router::{debug_stats_lines, route_packet, stats, NetworkStats, RouterStats};
use daedalus::net::skbuff::SkBuff;
use daedalus::net::socket::{
    bind, recvfrom, socket, AddressFamily, Protocol, Socket, SocketAddr, SocketError, SocketOptions, SocketTable,
    SocketType,
};

struct MockProtocol {
    proto: Protocol,
}

impl ProtocolHandler for MockProtocol {
    fn spec_protocol(&self) -> Protocol {
        self.proto
    }

    fn protocol(&self) -> Protocol {
        self.proto
    }

    fn spec_receive_result(&self, _before: SocketTable, _skb: Arc<SkBuff>) -> Result<(), ProtocolError> {
        Ok(())
    }

    fn receive(&self, stats: &mut RouterStats, _table: &mut SocketTable, _skb: Arc<SkBuff>) -> Result<(), ProtocolError> {
        if self.proto == Protocol::Arp {
            stats.arp_received = stats.arp_received.wrapping_add(1);
        }
        Ok(())
    }

    fn lookup_socket(&self, _table: &SocketTable, _skb: &SkBuff) -> Option<Socket> {
        None
    }
}

#[test]
fn test_registry_register_and_lookup() {
    let mut registry: ProtocolRegistry<dyn ProtocolHandler> = ProtocolRegistry::new();
    assert!(registry.is_empty());

    let arp_handler: Arc<dyn ProtocolHandler> = Arc::new(MockProtocol { proto: Protocol::Arp });
    registry.register(arp_handler.clone());

    assert!(registry.get(&Protocol::Arp).is_some());
    assert_eq!(registry.len(), 1);
    assert_eq!(registered_protocol_count(&registry), 1);

    assert!(registry.get(&Protocol::Icmp).is_none());

    let udp: Arc<dyn ProtocolHandler> = Arc::new(MockProtocol { proto: Protocol::Udp });
    registry.register(udp);
    assert_eq!(registry.get(&Protocol::Udp).unwrap().protocol(), Protocol::Udp);
    assert_eq!(registry.get(&Protocol::Arp).unwrap().protocol(), Protocol::Arp);
    assert_eq!(registry.len(), 2);
}

#[test]
fn default_send_is_not_supported() {
    let mock = MockProtocol { proto: Protocol::Tcp };
    let skb = SkBuff::from_dma(&[0u8; 20], 0).unwrap();
    assert_eq!(mock.send(skb, &SocketAddr::inet_any(1)), Err(ProtocolError::NotSupported));
}

#[test]
fn protocol_error_from_socket_error() {
    assert_eq!(ProtocolError::from(SocketError::InvalidSocket), ProtocolError::InvalidSocket);
    assert_eq!(ProtocolError::from(SocketError::WouldBlock), ProtocolError::NotSupported);
    assert_eq!(ProtocolError::from(SocketError::AddressInUse), ProtocolError::NotSupported);
}

#[test]
fn test_arp_protocol_lookup_no_socket() {
    let handler = ArpProtocol::new();
    let table = SocketTable::new();
    let skb = SkBuff::from_dma(&vec![0u8; 64], 0).unwrap();
    assert!(handler.lookup_socket(&table, &skb).is_none());
}

#[test]
fn test_arp_protocol_lookup_with_socket() {
    let mut table = SocketTable::new();
    let sock = table.create(AddressFamily::Packet, SocketType::Raw, Protocol::Arp).unwrap();
    table.bind(sock, SocketAddr::packet(0x0806)).unwrap();

    let handler = ArpProtocol::new();
    let skb = SkBuff::from_dma(&vec![0u8; 64], 0).unwrap();
    assert_eq!(handler.lookup_socket(&table, &skb), Some(sock));
    assert_eq!(handler.protocol(), Protocol::Arp);
}

#[test]
fn arp_protocol_receive_queues_or_reports() {
    let handler = ArpProtocol::new();
    let mut table = SocketTable::new();
    let mut counters = RouterStats::new();
    let skb = SkBuff::from_dma(&vec![1u8; 60], 0).unwrap();
    assert_eq!(handler.receive(&mut counters, &mut table, skb.clone()), Err(ProtocolError::NoSocket));
    // Every packet handed to the handler is counted, delivered or not.
    assert_eq!(arp_rx_count(&counters), 1);

    let sock = table.create(AddressFamily::Packet, SocketType::Raw, Protocol::Arp).unwrap();
    table.bind(sock, SocketAddr::packet(0x0806)).unwrap();
    assert_eq!(handler.receive(&mut counters, &mut table, skb), Ok(()));
    assert_eq!(arp_rx_count(&counters), 2);
    assert_eq!(stats(&counters), (0, 0, 0));
    assert_eq!(table.get(sock).unwrap().rx_queue.len(), 1);
    assert_eq!(handler.send(SkBuff::from_dma(&[0u8; 1], 0).unwrap(), &SocketAddr::packet(0x0806)), Err(ProtocolError::NotSupported));
}

fn frame(ethertype: u16) -> Vec<u8> {
    let payload = [0x5Au8; 28];
    let f = EthernetFrame::new(MacAddress::broadcast(), MacAddress::new([2, 0, 0, 0, 0, 1]), ethertype, &payload);
    let mut buf = vec![0u8; 42];
    assert_eq!(f.write_to(&mut buf), Some(42));
    buf
}

fn arp_registry() -> ProtocolRegistry<dyn ProtocolHandler> {
    let mut registry: ProtocolRegistry<dyn ProtocolHandler> = ProtocolRegistry::new();
    registry.register(Arc::new(ArpProtocol::new()));
    registry
}

#[test]
fn test_route_malformed_frame() {
    let registry = arp_registry();
    let mut table = SocketTable::new();
    let mut counters = RouterStats::new();
    let buffer = [0u8; 10];

    let routed = route_packet(&mut counters, &registry, &mut table, &buffer, 0);

    assert!(!routed);
    assert_eq!(stats(&counters), (0, 1, 0));
}

#[test]
fn route_packet_delivers_arp_to_bound_socket() {
    let registry = arp_registry();
    let mut table = SocketTable::new();
    let mut counters = RouterStats::new();

    // No socket yet: dropped.
    assert!(!route_packet(&mut counters, &registry, &mut table, &frame(ETHERTYPE_ARP), 1));
    // Unknown EtherType: dropped.
    assert!(!route_packet(&mut counters, &registry, &mut table, &frame(ETHERTYPE_IPV4), 2));

    let sock = socket(&mut table, AddressFamily::Packet, SocketType::Raw, Protocol::Arp).unwrap();
    bind(&mut table, sock, SocketAddr::packet(ETHERTYPE_ARP)).unwrap();
    assert!(route_packet(&mut counters, &registry, &mut table, &frame(ETHERTYPE_ARP), 3));
    assert_eq!(stats(&counters), (1, 2, 0));

    let got = recvfrom(&mut table, sock, &SocketOptions::non_blocking(), 0).unwrap().unwrap();
    assert_eq!(got.data, frame(ETHERTYPE_ARP));

    // Too large for a buffer: an allocation failure.
    let mut big = frame(ETHERTYPE_ARP);
    big.resize(3000, 0);
    assert!(!route_packet(&mut counters, &registry, &mut table, &big, 4));
    assert_eq!(stats(&counters), (1, 3, 1));

    // Without a registered handler nothing is delivered.
    let empty: ProtocolRegistry<dyn ProtocolHandler> = ProtocolRegistry::new();
    assert!(!route_packet(&mut counters, &empty, &mut table, &frame(ETHERTYPE_ARP), 5));
    assert_eq!(stats(&counters), (1, 4, 1));
}

#[test]
fn network_stats_report() {
    let quiet = NetworkStats {
        routed: 3,
        dropped: 0,
        alloc_failed: 0,
        protocols: 1,
        arp_packets: 3,
        sockets_total: 1,
        sockets_bound: 1,
        queues: vec![(0, 2)],
        irq_total: 10,
        rx_errors: 0,
        irq_spurious: 1,
    };
    let lines = debug_stats_lines(&quiet);
    let expected = vec![
        "\n=== Network Stack Statistics ===",
        "Router:",
        "  Packets routed:       3",
        "  Packets dropped:      0",
        "  sk_buff alloc failed: 0",
        "",
        "Protocols:",
        "  Registered:           1 (ARP)",
        "  ARP packets RX:       3",
        "",
        "Sockets:",
        "  Total allocated:      1",
        "  Bound sockets:        1",
        "  Socket 0 RX queue:    2 packets",
        "",
        "GENET Interrupts:",
        "  Total IRQs:           10",
        "  RX errors:            0",
        "  Spurious (current):   1",
        "=====================================\n",
    ];
    assert_eq!(lines, expected);

    let troubled = NetworkStats { routed: 0, dropped: 7, alloc_failed: 2, queues: vec![], ..quiet };
    let lines = debug_stats_lines(&troubled);
    let n = lines.len();
    assert_eq!(n, 19 + 3 + 4);
    assert_eq!(lines[18], "");
    assert_eq!(lines[19], "  [WARNING] Heap allocation failures detected!");
    assert_eq!(lines[21], "");
    assert_eq!(lines[22], "  [WARNING] No packets routed but some dropped!");
    assert_eq!(lines[n - 1], "=====================================\n");
}

#[test]
fn arp_rx_count_counts_frames_handed_to_arp() {
    let registry = arp_registry();
    let mut table = SocketTable::new();
    let mut counters = RouterStats::new();
    assert_eq!(arp_rx_count(&counters), 0);

    // Handed to the ARP handler but no socket: counted, not routed.
    assert!(!route_packet(&mut counters, &registry, &mut table, &frame(ETHERTYPE_ARP), 1));
    assert_eq!(arp_rx_count(&counters), 1);
    // Not ARP, or malformed: not counted.
    assert!(!route_packet(&mut counters, &registry, &mut table, &frame(ETHERTYPE_IPV4), 2));
    assert!(!route_packet(&mut counters, &registry, &mut table, &[0u8; 10], 3));
    assert_eq!(arp_rx_count(&counters), 1);

    let sock = socket(&mut table, AddressFamily::Packet, SocketType::Raw, Protocol::Arp).unwrap();
    bind(&mut table, sock, SocketAddr::packet(ETHERTYPE_ARP)).unwrap();
    assert!(route_packet(&mut counters, &registry, &mut table, &frame(ETHERTYPE_ARP), 4));
    assert_eq!(arp_rx_count(&counters), 2);
    assert_eq!(stats(&counters), (1, 3, 0));

    // No ARP handler registered: nothing reaches it.
    let empty: ProtocolRegistry<dyn ProtocolHandler> = ProtocolRegistry::new();
    assert!(!route_packet(&mut counters, &empty, &mut table, &frame(ETHERTYPE_ARP), 5));
    assert_eq!(arp_rx_count(&counters), 2);
}
