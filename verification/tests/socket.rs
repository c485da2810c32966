use std::sync::Arc;

use daedalus::drivers::netdev::NetworkError;
use daedalus::net::ethernet::{MacAddress, ETHERTYPE_ARP};
use daedalus::net::skbuff::SkBuff;
use daedalus::net::socket::{
    bind, close, recvfrom, sendto, socket, socket_stats, AddressFamily, Protocol, SkBuffQueue, SocketAddr,
    SocketError, SocketKey, SocketOptions, SocketState, SocketTable, SocketType,
};

fn test_skb(id: usize) -> Arc<SkBuff> {
    let data = vec![id as u8; 64];
    SkBuff::from_dma(&data, 0).unwrap()
}

// ---- socket calls ----

#[test]
fn test_socket_lifecycle() {
    let mut table = SocketTable::new();
    let sock = socket(&mut table, AddressFamily::Packet, SocketType::Raw, Protocol::Arp).unwrap();

    let addr = SocketAddr::packet(ETHERTYPE_ARP);
    assert_eq!(bind(&mut table, sock, addr), Ok(true));

    assert_eq!(close(&mut table, sock), Ok(true));

    assert_eq!(close(&mut table, sock), Err(SocketError::InvalidSocket));
}

#[test]
fn test_socket_bind_duplicate() {
    let mut table = SocketTable::new();
    let sock1 = socket(&mut table, AddressFamily::Packet, SocketType::Raw, Protocol::Arp).unwrap();
    let sock2 = socket(&mut table, AddressFamily::Packet, SocketType::Raw, Protocol::Arp).unwrap();

    let addr = SocketAddr::packet(ETHERTYPE_ARP);
    bind(&mut table, sock1, addr.clone()).unwrap();

    assert_eq!(bind(&mut table, sock2, addr), Err(SocketError::AddressInUse));

    close(&mut table, sock1).unwrap();
    close(&mut table, sock2).unwrap();
}

#[test]
fn test_recvfrom_non_blocking_would_block() {
    let mut table = SocketTable::new();
    let sock = socket(&mut table, AddressFamily::Packet, SocketType::Raw, Protocol::Arp).unwrap();
    let addr = SocketAddr::packet(ETHERTYPE_ARP);
    bind(&mut table, sock, addr).unwrap();

    let opts = SocketOptions::non_blocking();
    let result = recvfrom(&mut table, sock, &opts, 0);

    assert_eq!(result.map(|r| r.is_some()), Err(SocketError::WouldBlock));

    close(&mut table, sock).unwrap();
}

#[test]
fn bind_reports_only_the_first_binding() {
    let mut table = SocketTable::new();
    let a = socket(&mut table, AddressFamily::Packet, SocketType::Raw, Protocol::Arp).unwrap();
    let b = socket(&mut table, AddressFamily::Inet, SocketType::Dgram, Protocol::Udp).unwrap();
    assert_eq!(bind(&mut table, a, SocketAddr::packet(ETHERTYPE_ARP)), Ok(true));
    assert_eq!(bind(&mut table, b, SocketAddr::inet([10, 0, 0, 1], 5000)), Ok(false));
    assert_eq!(close(&mut table, a), Ok(false));
    assert_eq!(close(&mut table, b), Ok(true));
}

#[test]
fn recvfrom_delivers_queued_frame_and_times_out() {
    let mut table = SocketTable::new();
    let sock = socket(&mut table, AddressFamily::Packet, SocketType::Raw, Protocol::Arp).unwrap();
    bind(&mut table, sock, SocketAddr::packet(ETHERTYPE_ARP)).unwrap();

    let mut frame = vec![0u8; 42];
    frame[0..6].copy_from_slice(&[0xFF; 6]);
    frame[6..12].copy_from_slice(&[0xB8, 0x27, 0xEB, 0x12, 0x34, 0x56]);
    frame[12] = 0x08;
    frame[13] = 0x06;
    let skb = SkBuff::from_dma(&frame, 7).unwrap();
    let slot = table.get_mut(sock).unwrap();
    slot.rx_queue.enqueue(skb).unwrap();

    let got = recvfrom(&mut table, sock, &SocketOptions::blocking(), 0).unwrap().unwrap();
    assert_eq!(got.data, frame);
    assert_eq!(
        got.addr,
        SocketAddr::Packet { interface: Some(MacAddress::new([0xB8, 0x27, 0xEB, 0x12, 0x34, 0x56])), protocol: ETHERTYPE_ARP }
    );

    // A blocking call with nothing queued keeps waiting; with a timeout it
    // gives up once the time is over.
    assert_eq!(recvfrom(&mut table, sock, &SocketOptions::blocking(), 5_000_000).map(|r| r.is_none()), Ok(true));
    let timed = SocketOptions::with_timeout(10);
    assert_eq!(recvfrom(&mut table, sock, &timed, 9_999).map(|r| r.is_none()), Ok(true));
    assert_eq!(recvfrom(&mut table, sock, &timed, 10_000).map(|r| r.is_some()), Err(SocketError::Timeout));
}

#[test]
fn recvfrom_unbound_and_invalid_sockets() {
    let mut table = SocketTable::new();
    let sock = socket(&mut table, AddressFamily::Packet, SocketType::Raw, Protocol::Arp).unwrap();
    let opts = SocketOptions::non_blocking();
    assert_eq!(recvfrom(&mut table, sock, &opts, 0).map(|r| r.is_some()), Err(SocketError::NotBound));
    close(&mut table, sock).unwrap();
    assert_eq!(recvfrom(&mut table, sock, &opts, 0).map(|r| r.is_some()), Err(SocketError::InvalidSocket));
}

#[test]
fn sendto_checks_socket_and_frame() {
    let mut table = SocketTable::new();
    let sock = socket(&mut table, AddressFamily::Packet, SocketType::Raw, Protocol::Arp).unwrap();
    let addr = SocketAddr::packet(ETHERTYPE_ARP);
    let frame = [0u8; 42];
    assert_eq!(sendto(&table, sock, &frame, &addr), Err(SocketError::NotBound));
    bind(&mut table, sock, addr.clone()).unwrap();
    assert_eq!(sendto(&table, sock, &frame, &addr), Ok(42));
    assert_eq!(sendto(&table, sock, &frame[..10], &addr), Ok(10));

    let udp = socket(&mut table, AddressFamily::Inet, SocketType::Dgram, Protocol::Udp).unwrap();
    let inet = SocketAddr::inet([1, 2, 3, 4], 80);
    bind(&mut table, udp, inet.clone()).unwrap();
    assert_eq!(sendto(&table, udp, &frame, &inet), Err(SocketError::ProtocolNotSupported));
    close(&mut table, sock).unwrap();
    assert_eq!(sendto(&table, sock, &frame, &addr), Err(SocketError::InvalidSocket));
}

#[test]
fn socket_rejects_bad_combinations() {
    let mut table = SocketTable::new();
    assert_eq!(
        socket(&mut table, AddressFamily::Packet, SocketType::Dgram, Protocol::Arp),
        Err(SocketError::ProtocolNotSupported)
    );
    let sock = socket(&mut table, AddressFamily::Packet, SocketType::Raw, Protocol::Arp).unwrap();
    assert_eq!(bind(&mut table, sock, SocketAddr::inet_any(80)), Err(SocketError::InvalidAddressFamily));
    assert_eq!(bind(&mut table, daedalus::net::socket::Socket(7), SocketAddr::packet(0x0806)), Err(SocketError::InvalidSocket));
    let (total, bound, queues) = socket_stats(&table);
    assert_eq!((total, bound, queues.len()), (1, 0, 0));
    close(&mut table, sock).unwrap();
    let (total, bound, queues) = socket_stats(&table);
    assert_eq!((total, bound, queues.len()), (0, 0, 0));
}

// ---- queues ----

#[test]
fn test_queue_new_empty() {
    let queue = SkBuffQueue::new();
    assert_eq!(queue.len(), 0);
    assert!(queue.is_empty());
    assert!(!queue.is_full());
}

#[test]
fn test_queue_enqueue_dequeue() {
    let mut queue = SkBuffQueue::new();
    let skb1 = test_skb(42);

    assert!(queue.enqueue(skb1.clone()).is_ok());
    assert_eq!(queue.len(), 1);
    assert!(!queue.is_empty());

    let dequeued = queue.dequeue().unwrap();
    assert_eq!(dequeued.len(), 64);
    assert_eq!(queue.len(), 0);
    assert!(queue.is_empty());
}

#[test]
fn test_queue_full() {
    let mut queue = SkBuffQueue::new();
    for i in 0..(SkBuffQueue::CAPACITY - 1) {
        assert!(queue.enqueue(test_skb(i)).is_ok());
    }
    assert!(queue.is_full());
    assert!(queue.enqueue(test_skb(999)).is_err());
}

#[test]
fn test_queue_wraparound() {
    let mut queue = SkBuffQueue::new();
    for round in 0..3 {
        for i in 0..(SkBuffQueue::CAPACITY - 1) {
            assert!(queue.enqueue(test_skb(round * 100 + i)).is_ok());
        }
        for _i in 0..(SkBuffQueue::CAPACITY - 1) {
            assert!(queue.dequeue().is_some());
        }
        assert!(queue.is_empty());
    }
}

#[test]
fn test_queue_fifo_order() {
    let mut queue = SkBuffQueue::new();
    for i in 0..10 {
        queue.enqueue(test_skb(i)).unwrap();
    }
    for i in 0..10 {
        let skb = queue.dequeue().unwrap();
        assert_eq!(skb.data()[0], i as u8);
    }
}

#[test]
fn test_queue_dequeue_empty() {
    let mut queue = SkBuffQueue::new();
    assert!(queue.dequeue().is_none());
}

#[test]
fn test_queue_drain() {
    let mut queue = SkBuffQueue::new();
    for i in 0..5 {
        queue.enqueue(test_skb(i)).unwrap();
    }
    assert_eq!(queue.len(), 5);
    let drained = queue.drain();
    assert_eq!(drained.len(), 5);
    for (i, skb) in drained.iter().enumerate() {
        assert_eq!(skb.data()[0], i as u8);
    }
    assert!(queue.is_empty());
}

#[test]
fn queue_arc_refcounting() {
    let mut queue = SkBuffQueue::new();
    let skb = test_skb(42);
    assert_eq!(Arc::strong_count(&skb), 1);

    queue.enqueue(skb.clone()).unwrap();
    assert_eq!(Arc::strong_count(&skb), 2);

    let dequeued = queue.dequeue().unwrap();
    assert_eq!(Arc::strong_count(&skb), 2);

    drop(skb);
    assert_eq!(Arc::strong_count(&dequeued), 1);
}

// ---- socket table ----

#[test]
fn test_socket_create() {
    let mut table = SocketTable::new();
    let sock = table.create(AddressFamily::Packet, SocketType::Raw, Protocol::Arp).unwrap();
    assert_eq!(sock.0, 0);

    let socket = table.get(sock).unwrap();
    assert_eq!(socket.family, AddressFamily::Packet);
    assert_eq!(socket.socket_type, SocketType::Raw);
    assert_eq!(socket.protocol, Protocol::Arp);
    assert_eq!(socket.state, SocketState::Created);
}

#[test]
fn test_socket_bind() {
    let mut table = SocketTable::new();
    let sock = table.create(AddressFamily::Packet, SocketType::Raw, Protocol::Arp).unwrap();

    let addr = SocketAddr::packet(0x0806);
    table.bind(sock, addr).unwrap();

    let socket = table.get(sock).unwrap();
    assert_eq!(socket.state, SocketState::Bound);
    assert!(socket.bind_addr.is_some());
}

#[test]
fn table_socket_bind_duplicate() {
    let mut table = SocketTable::new();
    let sock1 = table.create(AddressFamily::Packet, SocketType::Raw, Protocol::Arp).unwrap();
    let sock2 = table.create(AddressFamily::Packet, SocketType::Raw, Protocol::Arp).unwrap();

    let addr = SocketAddr::packet(0x0806);
    table.bind(sock1, addr.clone()).unwrap();
    assert_eq!(table.bind(sock2, addr.clone()), Err(SocketError::AddressInUse));
    // A socket already bound cannot be bound again.
    assert_eq!(table.bind(sock1, addr), Err(SocketError::InvalidArgument));
}

#[test]
fn test_socket_lookup() {
    let mut table = SocketTable::new();
    let sock = table.create(AddressFamily::Packet, SocketType::Raw, Protocol::Arp).unwrap();
    table.bind(sock, SocketAddr::packet(0x0806)).unwrap();

    let key = SocketKey::packet(Protocol::Arp);
    let found = table.lookup(&key).unwrap();
    assert_eq!(found, sock.0);
    assert!(table.lookup(&SocketKey::packet(Protocol::Ipv4)).is_none());
}

#[test]
fn test_socket_close() {
    let mut table = SocketTable::new();
    let sock = table.create(AddressFamily::Packet, SocketType::Raw, Protocol::Arp).unwrap();
    let addr = SocketAddr::packet(0x0806);
    table.bind(sock, addr.clone()).unwrap();

    table.close(sock).unwrap();
    assert!(table.get(sock).is_none());

    let key = SocketKey::packet(Protocol::Arp);
    assert!(table.lookup(&key).is_none());

    let sock2 = table.create(AddressFamily::Packet, SocketType::Raw, Protocol::Arp).unwrap();
    assert!(table.bind(sock2, addr).is_ok());
}

#[test]
fn inet_bindings_and_lookup() {
    let mut table = SocketTable::new();
    let any = table.create(AddressFamily::Inet, SocketType::Dgram, Protocol::Udp).unwrap();
    table.bind(any, SocketAddr::inet_any(5000)).unwrap();
    let found = table.lookup(&SocketKey::inet_port(Protocol::Udp, None, 5000));
    assert_eq!(found, Some(any.0));
    assert!(table.lookup(&SocketKey::inet_port(Protocol::Udp, None, 5001)).is_none());

    let other = table.create(AddressFamily::Inet, SocketType::Dgram, Protocol::Udp).unwrap();
    assert_eq!(table.bind(other, SocketAddr::inet_any(5000)), Err(SocketError::AddressInUse));
    assert!(table.bind(other, SocketAddr::inet([192, 168, 1, 2], 5000)).is_ok());
    assert_eq!(table.bound_count(), 2);
}

// ---- types ----

#[test]
fn test_protocol_ethertype() {
    assert_eq!(Protocol::Arp.ethertype(), Some(0x0806));
    assert_eq!(Protocol::Ipv4.ethertype(), Some(0x0800));
    assert_eq!(Protocol::Icmp.ethertype(), Some(0x0800));
    assert_eq!(Protocol::Udp.ethertype(), Some(0x0800));
    assert_eq!(Protocol::Tcp.ethertype(), Some(0x0800));
    assert_eq!(Protocol::NoProtocol.ethertype(), None);
}

#[test]
fn test_protocol_ip_proto() {
    assert_eq!(Protocol::Icmp.ip_proto(), Some(1));
    assert_eq!(Protocol::Udp.ip_proto(), Some(17));
    assert_eq!(Protocol::Tcp.ip_proto(), Some(6));
    assert_eq!(Protocol::Arp.ip_proto(), None);
}

#[test]
fn test_socket_addr_display() {
    let addr = SocketAddr::packet(0x0806);
    assert_eq!(addr.to_string(), "*:0x0806");

    let addr = SocketAddr::inet([192, 168, 1, 100], 8080);
    assert_eq!(addr.to_string(), "192.168.1.100:8080");

    let addr = SocketAddr::Packet { interface: Some(MacAddress::new([0, 1, 2, 0xAB, 0xCD, 0xEF])), protocol: 0x86DD };
    assert_eq!(addr.to_string(), "00:01:02:AB:CD:EF:0x86DD");
    assert_eq!(SocketAddr::inet_any(0).to_string(), "0.0.0.0:0");
    assert_eq!(SocketAddr::inet([255, 255, 255, 255], 65535).to_string(), "255.255.255.255:65535");
}

#[test]
fn test_socket_options() {
    let opts = SocketOptions::default();
    assert!(!opts.non_blocking);
    assert_eq!(opts.timeout_ms, None);

    let opts = SocketOptions::non_blocking();
    assert!(opts.non_blocking);

    let opts = SocketOptions::with_timeout(1000);
    assert!(!opts.non_blocking);
    assert_eq!(opts.timeout_ms, Some(1000));
}

#[test]
fn socket_error_messages() {
    assert_eq!(SocketError::InvalidAddressFamily.to_string(), "Invalid address family");
    assert_eq!(SocketError::AddressInUse.to_string(), "Address already in use");
    assert_eq!(SocketError::WouldBlock.to_string(), "Operation would block");
    assert_eq!(SocketError::NotConnected.to_string(), "Not connected");
    assert_eq!(
        SocketError::NetworkError(NetworkError::TxBufferFull).to_string(),
        "Network error: Transmit buffer full"
    );
    assert_eq!(SocketError::from(NetworkError::Timeout), SocketError::NetworkError(NetworkError::Timeout));
}
