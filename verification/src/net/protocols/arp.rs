//! ARP protocol handler: delivers incoming ARP packets to the socket bound
//! to AF_PACKET + ARP.
use vstd::prelude::*;
use std::sync::Arc;
use crate::net::protocol::{ProtocolError, ProtocolHandler};
use crate::net::skbuff::SkBuff;
use crate::net::router::{spec_bump32, RouterStats};
use crate::net::socket::queue::SkBuffQueue;
use crate::net::socket::table::{same_but_rx, spec_lookup, RxError, SocketKey, SocketTable};
use crate::net::socket::types::{Protocol, Socket, SocketAddr};

verus! {

/// The key ARP packets are delivered under: AF_PACKET, protocol ARP.
pub open spec fn spec_arp_key() -> SocketKey {
    SocketKey { protocol: Protocol::Arp, local_ip: None, local_port: None }
}

/// How delivering `skb` to the socket at index `id` changes the table
/// and what it returns: the packet is appended to that socket's RX queue,
/// or, when the queue is full, dropped with `QueueFull`; nothing else
/// changes.
pub open spec fn spec_delivered(before: SocketTable, after: SocketTable, id: int, skb: Arc<SkBuff>, r: Result<(), ProtocolError>) -> bool {
    let s = before.spec_sockets();
    let t = after.spec_sockets();
    let o = s[id]->Some_0;
    let n = t[id]->Some_0;
    &&& t.len() == s.len()
    &&& forall|i: int| 0 <= i < s.len() && i != id ==> #[trigger] t[i] == s[i]
    &&& t[id] is Some
    &&& same_but_rx(o, n)
    &&& r is Ok || r == Err::<(), ProtocolError>(ProtocolError::QueueFull)
    &&& (o.rx_queue@.len() == SkBuffQueue::CAPACITY - 1 <==> r is Err)
    &&& r is Ok ==> n.rx_queue@ == o.rx_queue@.push(skb)
    &&& r is Err ==> n.rx_queue@ == o.rx_queue@
}

/// The ARP protocol handler.
pub struct ArpProtocol;

impl ArpProtocol {
    /// A new ARP handler.
    pub fn new() -> (h: Self)
        ensures
            h.spec_protocol() == Protocol::Arp,
    {
        ArpProtocol
    }
}

impl ProtocolHandler for ArpProtocol {
    open spec fn spec_protocol(&self) -> Protocol {
        Protocol::Arp
    }

    fn protocol(&self) -> (p: Protocol) {
        Protocol::Arp
    }

    /// `NoSocket` when no socket is bound for ARP; `QueueFull` when that
    /// socket's RX queue is full; else delivered.
    open spec fn spec_receive_result(&self, before: SocketTable, skb: Arc<SkBuff>) -> Result<(), ProtocolError> {
        match spec_lookup(before.spec_bindings(), spec_arp_key()) {
            None => Err(ProtocolError::NoSocket),
            Some(id) => if before.spec_sockets()[id as int]->Some_0.rx_queue@.len() == SkBuffQueue::CAPACITY - 1 {
                Err(ProtocolError::QueueFull)
            } else {
                Ok(())
            },
        }
    }

    /// Count the packet as ARP received, then deliver it to the socket
    /// bound for ARP; `NoSocket`, leaving the table as it was, when there
    /// is none.
    fn receive(&self, stats: &mut RouterStats, table: &mut SocketTable, skb: Arc<SkBuff>) -> (r: Result<(), ProtocolError>)
        ensures
            final(stats).arp_received == spec_bump32(old(stats).arp_received),
            match spec_lookup(old(table).spec_bindings(), spec_arp_key()) {
                None => r == Err::<(), ProtocolError>(ProtocolError::NoSocket) && *final(table) == *old(table),
                Some(id) => spec_delivered(*old(table), *final(table), id as int, skb, r),
            },
    {
        stats.arp_received = stats.arp_received.wrapping_add(1);
        let sock = match self.lookup_socket(table, &skb) {
            Some(sock) => sock,
            None => return Err(ProtocolError::NoSocket),
        };
        proof {
            let k = spec_arp_key();
            if old(table).spec_bindings().contains_key(k) {
                old(table).lemma_bound_slot(k);
            } else if k.local_ip is Some && old(table).spec_bindings().contains_key(crate::net::socket::table::spec_wildcard(k)) {
                old(table).lemma_bound_slot(crate::net::socket::table::spec_wildcard(k));
            }
        }
        let res = table.enqueue_rx(sock, skb);
        match res {
            Ok(()) => Ok(()),
            Err(RxError::QueueFull) => Err(ProtocolError::QueueFull),
            Err(RxError::InvalidSocket) => Err(ProtocolError::InvalidSocket),
        }
    }

    /// ARP frames are sent whole through `sendto`; not supported here.
    fn send(&self, skb: Arc<SkBuff>, dst: &SocketAddr) -> (r: Result<(), ProtocolError>)
        ensures
            r == Err::<(), ProtocolError>(ProtocolError::NotSupported),
    {
        Err(ProtocolError::NotSupported)
    }

    /// The socket bound for ARP, whatever the packet.
    fn lookup_socket(&self, table: &SocketTable, skb: &SkBuff) -> (r: Option<Socket>)
        ensures
            r == match spec_lookup(table.spec_bindings(), spec_arp_key()) {
                Some(id) => Some(Socket(id)),
                None => None::<Socket>,
            },
    {
        let key = SocketKey::packet(Protocol::Arp);
        match table.lookup(&key) {
            Some(id) => {
                proof {
                    table.lemma_bound_slot(key);
                }
                Some(Socket::from_id(id))
            },
            None => None,
        }
    }
}

/// ARP packets received so far: those the router handed to the ARP
/// handler, delivered or not.
pub fn arp_rx_count(stats: &RouterStats) -> (n: u32)
    ensures
        n == stats.arp_received,
{
    stats.arp_received
}

} // verus!
