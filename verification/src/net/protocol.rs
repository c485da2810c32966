//! Protocol handlers and their registry: the router hands each received
//! packet to the handler registered for its protocol, which finds the
//! socket and queues the packet.
use vstd::prelude::*;
use std::sync::Arc;
use crate::net::skbuff::SkBuff;
use crate::net::router::{spec_bump32, RouterStats};
use crate::net::socket::table::SocketTable;
use crate::net::socket::types::{Protocol, Socket, SocketAddr, SocketError};

verus! {

/// A network protocol (ARP, ICMP, UDP, TCP): its receive path, send path
/// and socket lookup.
pub trait ProtocolHandler: Send + Sync {
    /// The protocol this handler serves.
    spec fn spec_protocol(&self) -> Protocol;

    /// The protocol this handler serves.
    fn protocol(&self) -> (p: Protocol)
        ensures
            p == self.spec_protocol(),
    ;

    /// What receiving `skb` returns when the socket table is `before`:
    /// the handler's verdict on the packet.
    spec fn spec_receive_result(&self, before: SocketTable, skb: Arc<SkBuff>) -> Result<(), ProtocolError>;

    /// Handle an incoming packet: deliver it to the socket it is for.
    /// Returns `spec_receive_result` of the table as it was; the table
    /// stays consistent and no binding changes. A handler for ARP counts
    /// every packet it is given in `stats.arp_received`, delivered or
    /// not; no other counter changes.
    fn receive(&self, stats: &mut RouterStats, table: &mut SocketTable, skb: Arc<SkBuff>) -> (r: Result<(), ProtocolError>)
        requires
            old(table).wf(),
        ensures
            r == self.spec_receive_result(*old(table), skb),
            final(stats).packets_routed == old(stats).packets_routed,
            final(stats).packets_dropped == old(stats).packets_dropped,
            final(stats).alloc_failed == old(stats).alloc_failed,
            final(stats).arp_received == if self.spec_protocol() == Protocol::Arp {
                spec_bump32(old(stats).arp_received)
            } else {
                old(stats).arp_received
            },
            final(table).wf(),
            final(table).spec_bindings() == old(table).spec_bindings(),
            final(table).spec_bound_count() == old(table).spec_bound_count(),
            final(table).spec_next_ephemeral() == old(table).spec_next_ephemeral(),
    ;

    /// Send a packet to `dst`; unsupported unless the protocol says
    /// otherwise.
    fn send(&self, skb: Arc<SkBuff>, dst: &SocketAddr) -> (r: Result<(), ProtocolError>)
        default_ensures
            r == Err::<(), ProtocolError>(ProtocolError::NotSupported),
    {
        Err(ProtocolError::NotSupported)
    }

    /// The socket an incoming packet is for; only open sockets are
    /// returned.
    fn lookup_socket(&self, table: &SocketTable, skb: &SkBuff) -> (r: Option<Socket>)
        requires
            table.wf(),
        ensures
            r is Some ==> 0 <= r->Some_0.0 < table.spec_sockets().len() && table.spec_sockets()[r->Some_0.0 as int] is Some,
    ;
}

/// Protocol handler errors.
#[derive(Debug, Clone, Copy, PartialEq, Eq, Structural)]
pub enum ProtocolError {
    /// No socket is bound to receive the packet.
    NoSocket,
    /// The socket's queue is full; the packet is dropped.
    QueueFull,
    /// The packet could not be parsed.
    MalformedPacket,
    /// The operation is not supported by the protocol.
    NotSupported,
    /// The socket handle is invalid.
    InvalidSocket,
}

/// `InvalidSocket` stays `InvalidSocket`; every other socket error is
/// `NotSupported`.
pub open spec fn spec_protocol_error_from(err: SocketError) -> ProtocolError {
    match err {
        SocketError::InvalidSocket => ProtocolError::InvalidSocket,
        _ => ProtocolError::NotSupported,
    }
}

impl From<SocketError> for ProtocolError {
    fn from(err: SocketError) -> (r: Self) {
        match err {
            SocketError::InvalidSocket => ProtocolError::InvalidSocket,
            _ => ProtocolError::NotSupported,
        }
    }
}

impl vstd::std_specs::convert::FromSpecImpl<SocketError> for ProtocolError {
    open spec fn obeys_from_spec() -> bool {
        true
    }

    open spec fn from_spec(err: SocketError) -> Self {
        spec_protocol_error_from(err)
    }
}

/// Registered protocol handlers, one per protocol, in registration order.
/// `H` is the handler type, usually `dyn ProtocolHandler`.
pub struct ProtocolRegistry<H: ?Sized> {
    handlers: Vec<Arc<H>>,
}

impl<H: ProtocolHandler + ?Sized> ProtocolRegistry<H> {
    /// The protocols of the registered handlers, in registration order.
    pub closed spec fn spec_protocols(&self) -> Seq<Protocol> {
        self.handlers@.map_values(|e: Arc<H>| e.spec_protocol())
    }

    /// The `i`-th registered handler.
    pub closed spec fn spec_handler(&self, i: int) -> Arc<H> {
        self.handlers@[i]
    }

    /// No protocol is registered twice.
    pub closed spec fn wf(&self) -> bool {
        self.spec_protocols().no_duplicates()
    }

    /// An empty registry.
    pub fn new() -> (r: Self)
        ensures
            r.wf(),
            r.spec_protocols() == Seq::<Protocol>::empty(),
    {
        let r = ProtocolRegistry { handlers: Vec::new() };
        assert(r.spec_protocols() =~= Seq::<Protocol>::empty());
        r
    }

    /// Register a handler for a protocol not yet registered (registering
    /// a protocol twice is a programming error).
    pub fn register(&mut self, handler: Arc<H>)
        requires
            old(self).wf(),
            !old(self).spec_protocols().contains(handler.spec_protocol()),
        ensures
            final(self).wf(),
            final(self).spec_protocols() == old(self).spec_protocols().push(handler.spec_protocol()),
            forall|i: int| 0 <= i < old(self).spec_protocols().len() ==> #[trigger] final(self).spec_handler(i) == old(self).spec_handler(i),
            final(self).spec_handler(old(self).spec_protocols().len() as int) == handler,
    {
        let ghost h = handler;
        self.handlers.push(handler);
        proof {
            assert(self.spec_protocols() =~= old(self).spec_protocols().push(h.spec_protocol()));
        }
    }

    /// The handler registered for `protocol`, if any.
    pub fn get(&self, protocol: &Protocol) -> (r: Option<&Arc<H>>)
        requires
            self.wf(),
        ensures
            r is Some <==> self.spec_protocols().contains(*protocol),
            r is Some ==> exists|i: int| 0 <= i < self.spec_protocols().len() && self.spec_protocols()[i] == *protocol && *r->Some_0 == self.spec_handler(i),
            r is Some ==> (*r->Some_0).spec_protocol() == *protocol,
    {
        let n = self.handlers.len();
        let mut i: usize = 0;
        while i < n
            invariant
                n == self.handlers@.len(),
                0 <= i <= n,
                forall|j: int| 0 <= j < i ==> #[trigger] self.spec_protocols()[j] != *protocol,
            decreases n - i,
        {
            let entry = &self.handlers[i];
            if entry.protocol() == *protocol {
                assert(self.spec_protocols()[i as int] == *protocol);
                assert(self.spec_handler(i as int) == *entry);
                return Some(entry);
            }
            i = i + 1;
        }
        proof {
            if self.spec_protocols().contains(*protocol) {
                let j = choose|j: int| 0 <= j < self.spec_protocols().len() && self.spec_protocols()[j] == *protocol;
                assert(self.spec_protocols()[j] != *protocol);
            }
        }
        None
    }

    /// Number of registered protocols.
    pub fn len(&self) -> (n: usize)
        ensures
            n == self.spec_protocols().len(),
    {
        self.handlers.len()
    }

    /// Whether no protocol is registered.
    pub fn is_empty(&self) -> (b: bool)
        ensures
            b == (self.spec_protocols().len() == 0),
    {
        self.handlers.len() == 0
    }
}

/// After registering a handler, its protocol is found at the new last
/// position and nowhere else, every other protocol is found where it was
/// before with the same handler, and the count grows by one.
pub proof fn lemma_register_then_get<H: ProtocolHandler + ?Sized>(before: ProtocolRegistry<H>, after: ProtocolRegistry<H>, h: Arc<H>)
    requires
        before.wf(),
        !before.spec_protocols().contains(h.spec_protocol()),
        after.spec_protocols() == before.spec_protocols().push(h.spec_protocol()),
        forall|i: int| 0 <= i < before.spec_protocols().len() ==> #[trigger] after.spec_handler(i) == before.spec_handler(i),
        after.spec_handler(before.spec_protocols().len() as int) == h,
    ensures
        after.spec_protocols().len() == before.spec_protocols().len() + 1,
        after.spec_protocols().contains(h.spec_protocol()),
        forall|i: int| 0 <= i < after.spec_protocols().len() && after.spec_protocols()[i] == h.spec_protocol() ==> i == before.spec_protocols().len() && #[trigger] after.spec_handler(i) == h,
        forall|p: Protocol| p != h.spec_protocol() ==> (#[trigger] after.spec_protocols().contains(p) <==> before.spec_protocols().contains(p)),
        forall|i: int| 0 <= i < before.spec_protocols().len() ==> #[trigger] after.spec_protocols()[i] == before.spec_protocols()[i],
{
    let n = before.spec_protocols().len() as int;
    assert(after.spec_protocols()[n] == h.spec_protocol());
    assert forall|p: Protocol| p != h.spec_protocol() implies (#[trigger] after.spec_protocols().contains(p) <==> before.spec_protocols().contains(p)) by {
        if after.spec_protocols().contains(p) {
            let j = choose|j: int| 0 <= j < after.spec_protocols().len() && after.spec_protocols()[j] == p;
            assert(before.spec_protocols()[j] == p);
        }
        if before.spec_protocols().contains(p) {
            let j = choose|j: int| 0 <= j < before.spec_protocols().len() && before.spec_protocols()[j] == p;
            assert(after.spec_protocols()[j] == p);
        }
    }
    assert forall|i: int| 0 <= i < after.spec_protocols().len() && after.spec_protocols()[i] == h.spec_protocol() implies i == n && #[trigger] after.spec_handler(i) == h by {
        if i < n {
            assert(before.spec_protocols()[i] == h.spec_protocol());
        }
    }
}

/// Number of registered protocols.
pub fn registered_protocol_count<H: ProtocolHandler + ?Sized>(registry: &ProtocolRegistry<H>) -> (n: usize)
    ensures
        n == registry.spec_protocols().len(),
{
    registry.len()
}

} // verus!
