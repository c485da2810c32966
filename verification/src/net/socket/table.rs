//! The socket table: socket creation, binding, lookup and closing.
use vstd::prelude::*;
use super::queue::SkBuffQueue;
use super::types::{AddressFamily, Protocol, Socket, SocketAddr, SocketError, SocketType};
use crate::net::skbuff::SkBuff;
use std::sync::Arc;

verus! {

broadcast use vstd::array::group_array_axioms;

/// Maximum number of sockets.
pub const MAX_SOCKETS: usize = 64;

/// Lowest ephemeral port.
pub const EPHEMERAL_MIN: u16 = 49152;

/// Highest ephemeral port.
pub const EPHEMERAL_MAX: u16 = 65535;

/// Key under which a bound socket receives: protocol, local IP (None is
/// the wildcard) and local port (None for portless protocols).
#[derive(Debug, Clone, Copy)]
pub struct SocketKey {
    pub protocol: Protocol,
    pub local_ip: Option<[u8; 4]>,
    pub local_port: Option<u16>,
}

impl PartialEq for SocketKey {
    fn eq(&self, other: &Self) -> (r: bool) {
        let ip_eq = match (self.local_ip, other.local_ip) {
            (None, None) => true,
            (Some(a), Some(b)) => ip_equal(&a, &b),
            _ => false,
        };
        let port_eq = match (self.local_port, other.local_port) {
            (None, None) => true,
            (Some(a), Some(b)) => a == b,
            _ => false,
        };
        self.protocol == other.protocol && ip_eq && port_eq
    }
}

impl Eq for SocketKey {}

impl vstd::std_specs::cmp::PartialEqSpecImpl for SocketKey {
    open spec fn obeys_eq_spec() -> bool {
        true
    }

    open spec fn eq_spec(&self, other: &Self) -> bool {
        *self == *other
    }
}

/// Whether two IPv4 addresses are equal.
pub fn ip_equal(a: &[u8; 4], b: &[u8; 4]) -> (r: bool)
    ensures
        r == (*a == *b),
{
    let r = a[0] == b[0] && a[1] == b[1] && a[2] == b[2] && a[3] == b[3];
    proof {
        if r {
            assert(*a =~= *b);
        } else if *a == *b {
            assert(a@[0] == b@[0] && a@[1] == b@[1] && a@[2] == b@[2] && a@[3] == b@[3]);
        }
    }
    r
}

/// Whether an IPv4 address is the wildcard 0.0.0.0.
pub open spec fn spec_is_zero_ip(ip: [u8; 4]) -> bool {
    ip@ == seq![0u8, 0u8, 0u8, 0u8]
}

/// Whether `ip` is 0.0.0.0.
pub fn is_zero_ip(ip: &[u8; 4]) -> (r: bool)
    ensures
        r == spec_is_zero_ip(*ip),
{
    let r = ip[0] == 0 && ip[1] == 0 && ip[2] == 0 && ip[3] == 0;
    proof {
        if r {
            assert(ip@ =~= seq![0u8, 0u8, 0u8, 0u8]);
        } else if spec_is_zero_ip(*ip) {
            assert(ip@[0] == 0 && ip@[1] == 0 && ip@[2] == 0 && ip@[3] == 0);
        }
    }
    r
}

impl SocketKey {
    /// Key of an AF_PACKET socket: the protocol alone.
    pub fn packet(protocol: Protocol) -> (k: Self)
        ensures
            k == (SocketKey { protocol, local_ip: None, local_port: None }),
    {
        SocketKey { protocol, local_ip: None, local_port: None }
    }

    /// Key of a portless AF_INET socket (ICMP, raw IP).
    pub fn inet_raw(protocol: Protocol, ip: Option<[u8; 4]>) -> (k: Self)
        ensures
            k == (SocketKey { protocol, local_ip: ip, local_port: None }),
    {
        SocketKey { protocol, local_ip: ip, local_port: None }
    }

    /// Key of an AF_INET socket with a port (UDP, TCP).
    pub fn inet_port(protocol: Protocol, ip: Option<[u8; 4]>, port: u16) -> (k: Self)
        ensures
            k == (SocketKey { protocol, local_ip: ip, local_port: Some(port) }),
    {
        SocketKey { protocol, local_ip: ip, local_port: Some(port) }
    }
}

/// The key a socket of `protocol` bound to `addr` is registered under:
/// the protocol alone for AF_PACKET; for AF_INET the IP (None when it is
/// 0.0.0.0) and the port (None when it is 0).
pub open spec fn spec_key_for(protocol: Protocol, addr: SocketAddr) -> SocketKey {
    match addr {
        SocketAddr::Packet { .. } => SocketKey { protocol, local_ip: None, local_port: None },
        SocketAddr::Inet { ip, port } => {
            let ip_opt = if spec_is_zero_ip(ip) { None } else { Some(ip) };
            if port == 0 {
                SocketKey { protocol, local_ip: ip_opt, local_port: None }
            } else {
                SocketKey { protocol, local_ip: ip_opt, local_port: Some(port) }
            }
        },
    }
}

/// Computes `spec_key_for(protocol, *addr)`.
fn key_for(protocol: Protocol, addr: &SocketAddr) -> (k: SocketKey)
    ensures
        k == spec_key_for(protocol, *addr),
{
    match addr {
        SocketAddr::Packet { .. } => SocketKey::packet(protocol),
        SocketAddr::Inet { ip, port } => {
            let ip_opt = if is_zero_ip(ip) { None } else { Some(*ip) };
            if *port == 0 {
                SocketKey::inet_raw(protocol, ip_opt)
            } else {
                SocketKey::inet_port(protocol, ip_opt, *port)
            }
        },
    }
}

/// Why a packet could not be queued on a socket.
#[derive(Debug, Clone, Copy, PartialEq, Eq, Structural)]
pub enum RxError {
    /// No open socket has this handle.
    InvalidSocket,
    /// The socket's RX queue is full.
    QueueFull,
}

/// Socket lifecycle state.
#[derive(Debug, Clone, Copy, PartialEq, Eq, Structural)]
pub enum SocketState {
    Created,
    Bound,
    Connected,
    Closed,
}

/// Whether a socket bound as described receives packets for `key`: the
/// protocol must match; an AF_PACKET binding matches when the key's
/// protocol has the bound EtherType; an AF_INET binding matches when the
/// IP matches (key wildcard, bound wildcard, or equal) and the port
/// matches (portless key needs port 0; else bound port 0 or equal).
pub open spec fn spec_matches(protocol: Protocol, bind_addr: Option<SocketAddr>, key: SocketKey) -> bool {
    if protocol != key.protocol {
        false
    } else {
        match bind_addr {
            None => false,
            Some(SocketAddr::Packet { protocol: et, .. }) => super::types::spec_ethertype(key.protocol) == Some(et),
            Some(SocketAddr::Inet { ip, port }) => {
                let ip_matches = match key.local_ip {
                    None => true,
                    Some(key_ip) => spec_is_zero_ip(ip) || ip == key_ip,
                };
                let port_matches = match key.local_port {
                    None => port == 0,
                    Some(key_port) => port == 0 || port == key_port,
                };
                ip_matches && port_matches
            },
        }
    }
}

/// A socket and its queues.
pub struct SocketImpl {
    pub id: usize,
    pub family: AddressFamily,
    pub socket_type: SocketType,
    pub protocol: Protocol,
    pub state: SocketState,
    pub bind_addr: Option<SocketAddr>,
    pub remote_addr: Option<SocketAddr>,
    pub rx_queue: SkBuffQueue,
    pub tx_queue: SkBuffQueue,
    pub max_queue_size: usize,
}

impl SocketImpl {
    /// Queues consistent; created sockets unbound, bound sockets bound.
    pub open spec fn wf(&self) -> bool {
        &&& self.rx_queue.wf()
        &&& self.tx_queue.wf()
        &&& (self.state == SocketState::Created || self.state == SocketState::Bound)
        &&& (self.state == SocketState::Created ==> self.bind_addr is None)
        &&& (self.state == SocketState::Bound ==> self.bind_addr is Some)
    }

    /// The key this socket is registered under once bound.
    pub open spec fn spec_key(&self) -> SocketKey {
        spec_key_for(self.protocol, self.bind_addr->Some_0)
    }

    /// A new unbound socket with empty queues.
    pub fn new(id: usize, family: AddressFamily, socket_type: SocketType, protocol: Protocol) -> (s: Self)
        ensures
            s.wf(),
            s.id == id,
            s.family == family,
            s.socket_type == socket_type,
            s.protocol == protocol,
            s.state == SocketState::Created,
            s.bind_addr is None,
            s.remote_addr is None,
            s.rx_queue@.len() == 0,
            s.tx_queue@.len() == 0,
            s.max_queue_size == SkBuffQueue::CAPACITY,
    {
        SocketImpl {
            id,
            family,
            socket_type,
            protocol,
            state: SocketState::Created,
            bind_addr: None,
            remote_addr: None,
            rx_queue: SkBuffQueue::new(),
            tx_queue: SkBuffQueue::new(),
            max_queue_size: SkBuffQueue::CAPACITY,
        }
    }

    /// Whether this socket receives packets for `key`.
    pub fn matches(&self, key: &SocketKey) -> (b: bool)
        ensures
            b == spec_matches(self.protocol, self.bind_addr, *key),
    {
        if self.protocol != key.protocol {
            return false;
        }
        match &self.bind_addr {
            None => false,
            Some(SocketAddr::Packet { protocol, .. }) => {
                match key.protocol.ethertype() {
                    Some(et) => et == *protocol,
                    None => false,
                }
            },
            Some(SocketAddr::Inet { ip, port }) => {
                let ip_matches = match key.local_ip {
                    None => true,
                    Some(key_ip) => is_zero_ip(ip) || ip_equal(ip, &key_ip),
                };
                let port_matches = match key.local_port {
                    None => *port == 0,
                    Some(key_port) => *port == 0 || *port == key_port,
                };
                ip_matches && port_matches
            },
        }
    }
}

/// Slot `i` holds a bound socket.
pub open spec fn is_bound(s: Seq<Option<SocketImpl>>, i: int) -> bool {
    0 <= i < s.len() && s[i] is Some && s[i]->Some_0.state == SocketState::Bound
}

/// Slot `i` holds a socket bound under `k`.
pub open spec fn binds(s: Seq<Option<SocketImpl>>, i: int, k: SocketKey) -> bool {
    is_bound(s, i) && s[i]->Some_0.spec_key() == k
}

/// No two bound sockets share a key.
pub open spec fn keys_unique(s: Seq<Option<SocketImpl>>) -> bool {
    forall|i: int, j: int, k: SocketKey| #[trigger] binds(s, i, k) && #[trigger] binds(s, j, k) ==> i == j
}

/// The bindings of a table: each key of a bound socket to its index.
pub open spec fn spec_bindings_of(s: Seq<Option<SocketImpl>>) -> Map<SocketKey, usize> {
    Map::new(
        |k: SocketKey| exists|i: int| #[trigger] binds(s, i, k),
        |k: SocketKey| (choose|i: int| #[trigger] binds(s, i, k)) as usize,
    )
}

/// Number of bound sockets.
pub open spec fn count_bound(s: Seq<Option<SocketImpl>>) -> nat
    decreases s.len(),
{
    if s.len() == 0 {
        0
    } else {
        count_bound(s.drop_last()) + if is_bound(s, s.len() - 1) { 1nat } else { 0nat }
    }
}

/// Number of occupied slots.
pub open spec fn count_open(s: Seq<Option<SocketImpl>>) -> nat
    decreases s.len(),
{
    if s.len() == 0 {
        0
    } else {
        count_open(s.drop_last()) + if s.last() is Some { 1nat } else { 0nat }
    }
}

/// For each bound socket in slot order, its index and RX queue depth.
pub open spec fn spec_queue_depths(s: Seq<Option<SocketImpl>>) -> Seq<(usize, usize)>
    decreases s.len(),
{
    if s.len() == 0 {
        Seq::empty()
    } else {
        spec_queue_depths(s.drop_last()) + if is_bound(s, s.len() - 1) {
            seq![((s.len() - 1) as usize, s.last()->Some_0.rx_queue@.len() as usize)]
        } else {
            Seq::empty()
        }
    }
}

/// A binding found in `s` is the value the bindings map gives.
pub proof fn lemma_binding_value(s: Seq<Option<SocketImpl>>, i: int, k: SocketKey)
    requires
        keys_unique(s),
        binds(s, i, k),
        s.len() <= usize::MAX,
    ensures
        spec_bindings_of(s).contains_key(k),
        spec_bindings_of(s)[k] == i,
{
    let j = choose|j: int| #[trigger] binds(s, j, k);
    assert(binds(s, j, k));
}

/// The index the bindings map gives for a key holds a socket bound under
/// that key.
pub proof fn lemma_binding_is_bound(s: Seq<Option<SocketImpl>>, k: SocketKey)
    requires
        s.len() <= usize::MAX,
        spec_bindings_of(s).contains_key(k),
    ensures
        binds(s, spec_bindings_of(s)[k] as int, k),
{
    let i = choose|i: int| #[trigger] binds(s, i, k);
    assert(binds(s, i, k));
}

/// `n` is `o` with possibly another RX queue.
pub open spec fn same_but_rx(o: SocketImpl, n: SocketImpl) -> bool {
    &&& n.id == o.id && n.family == o.family && n.socket_type == o.socket_type
    &&& n.protocol == o.protocol && n.state == o.state && n.bind_addr == o.bind_addr
    &&& n.remote_addr == o.remote_addr && n.tx_queue == o.tx_queue
    &&& n.max_queue_size == o.max_queue_size
}

/// Counting bound slots after replacing one slot.
proof fn lemma_count_bound_update(s: Seq<Option<SocketImpl>>, i: int, x: Option<SocketImpl>)
    requires
        0 <= i < s.len(),
    ensures
        count_bound(s.update(i, x)) + (if is_bound(s, i) { 1nat } else { 0nat })
            == count_bound(s) + (if is_bound(s.update(i, x), i) { 1nat } else { 0nat }),
    decreases s.len(),
{
    let t = s.update(i, x);
    if i == s.len() - 1 {
        assert(t.drop_last() =~= s.drop_last());
    } else {
        assert(t.drop_last() =~= s.drop_last().update(i, x));
        lemma_count_bound_update(s.drop_last(), i, x);
        assert(is_bound(s, s.len() - 1) == is_bound(t, t.len() - 1));
        assert(is_bound(s, i) == is_bound(s.drop_last(), i));
        assert(is_bound(t, i) == is_bound(s.drop_last().update(i, x), i));
    }
}

/// The bound count never exceeds the number of slots.
proof fn lemma_count_bound_le(s: Seq<Option<SocketImpl>>)
    ensures
        count_bound(s) <= s.len(),
    decreases s.len(),
{
    if s.len() > 0 {
        lemma_count_bound_le(s.drop_last());
    }
}

/// The table of sockets, indexed by socket ID.
pub struct SocketTable {
    pub(crate) sockets: Vec<Option<SocketImpl>>,
    next_ephemeral: u16,
    bound_count: usize,
}

/// The ephemeral port `n` steps after `start`, cycling through
/// 49152..=65535.
pub open spec fn spec_port_after(start: u16, n: int) -> u16 {
    (49152 + (start - 49152 + n) % 16384) as u16
}

/// The ephemeral port that follows `p`.
pub open spec fn spec_next_port(p: u16) -> u16 {
    if p == 65535 { 49152 } else { (p + 1) as u16 }
}

impl SocketTable {
    /// The slots.
    pub closed spec fn spec_sockets(&self) -> Seq<Option<SocketImpl>> {
        self.sockets@
    }

    /// Key to socket index of every bound socket.
    pub open spec fn spec_bindings(&self) -> Map<SocketKey, usize> {
        spec_bindings_of(self.spec_sockets())
    }

    pub closed spec fn spec_next_ephemeral(&self) -> u16 {
        self.next_ephemeral
    }

    pub closed spec fn spec_bound_count(&self) -> usize {
        self.bound_count
    }

    /// Some bound socket uses local port `port`.
    pub open spec fn spec_port_in_use(&self, port: u16) -> bool {
        exists|i: int| #[trigger] is_bound(self.spec_sockets(), i) && self.spec_sockets()[i]->Some_0.spec_key().local_port == Some(port)
    }

    /// At most `MAX_SOCKETS` slots, each socket at its own index and
    /// consistent, bound keys unique, the bound count exact and the
    /// ephemeral cursor in range.
    pub closed spec fn wf(&self) -> bool {
        &&& self.sockets@.len() <= MAX_SOCKETS
        &&& forall|i: int| 0 <= i < self.sockets@.len() && (#[trigger] self.sockets@[i]) is Some ==> {
            &&& self.sockets@[i]->Some_0.id == i
            &&& self.sockets@[i]->Some_0.wf()
        }
        &&& keys_unique(self.sockets@)
        &&& self.bound_count == count_bound(self.sockets@)
        &&& self.next_ephemeral >= EPHEMERAL_MIN
    }

    /// The index the bindings give for a key holds an open socket bound
    /// under that key.
    pub proof fn lemma_bound_slot(&self, k: SocketKey)
        requires
            self.wf(),
            self.spec_bindings().contains_key(k),
        ensures
            binds(self.spec_sockets(), self.spec_bindings()[k] as int, k),
            0 <= self.spec_bindings()[k] < self.spec_sockets().len(),
            self.spec_sockets()[self.spec_bindings()[k] as int] is Some,
    {
        lemma_binding_is_bound(self.spec_sockets(), k);
    }

    /// An empty table.
    pub fn new() -> (t: Self)
        ensures
            t.wf(),
            t.spec_sockets().len() == 0,
            t.spec_bound_count() == 0,
            t.spec_next_ephemeral() == EPHEMERAL_MIN,
    {
        SocketTable { sockets: Vec::new(), next_ephemeral: EPHEMERAL_MIN, bound_count: 0 }
    }

    /// Create a socket. Only AF_PACKET/Raw/ARP, AF_INET/Raw/ICMP,
    /// AF_INET/Dgram/UDP and AF_INET/Stream/TCP are accepted, else
    /// `ProtocolNotSupported`. The socket takes the first free slot; with
    /// none free a slot is added, unless `MAX_SOCKETS` exist
    /// (`TooManySockets`).
    pub fn create(&mut self, family: AddressFamily, socket_type: SocketType, protocol: Protocol) -> (r: Result<Socket, SocketError>)
        requires
            old(self).wf(),
        ensures
            final(self).wf(),
            spec_create_outcome(*old(self), *final(self), family, socket_type, protocol, r),
    {
        if !valid_combination(family, socket_type, protocol) {
            return Err(SocketError::ProtocolNotSupported);
        }
        let mut id: usize = 0;
        let len = self.sockets.len();
        while id < len
            invariant
                len == self.sockets@.len(),
                self == old(self),
                0 <= id <= len,
                forall|j: int| 0 <= j < id ==> #[trigger] self.sockets@[j] is Some,
            ensures
                len == self.sockets@.len(),
                self == old(self),
                0 <= id <= len,
                forall|j: int| 0 <= j < id ==> #[trigger] self.sockets@[j] is Some,
                id < len ==> self.sockets@[id as int] is None,
            decreases len - id,
        {
            if self.sockets[id].is_none() {
                break;
            }
            id = id + 1;
        }
        proof {
            if id == len {
                assert(forall|j: int| 0 <= j < len ==> #[trigger] self.sockets@[j] is Some);
            }
        }
        if id == len {
            if len >= MAX_SOCKETS {
                return Err(SocketError::TooManySockets);
            }
            self.sockets.push(None);
            proof {
                let s = old(self).sockets@;
                let t = self.sockets@;
                assert(t.drop_last() =~= s);
                assert forall|i: int, j: int, k: SocketKey| #[trigger] binds(t, i, k) && #[trigger] binds(t, j, k) implies i == j by {
                    assert(binds(s, i, k) && binds(s, j, k));
                }
            }
        }
        let ghost mid = self.sockets@;
        let socket = SocketImpl::new(id, family, socket_type, protocol);
        self.sockets.set(id, Some(socket));
        proof {
            let s = old(self).sockets@;
            let t = self.sockets@;
            assert(!is_bound(mid, id as int));
            lemma_count_bound_update(mid, id as int, t[id as int]);
            assert(t =~= mid.update(id as int, t[id as int]));
            assert forall|i: int, k: SocketKey| binds(t, i, k) <==> binds(s, i, k) by {
                if i != id && 0 <= i < s.len() {
                    assert(mid[i] == s[i]);
                    assert(t[i] == s[i]);
                }
            }
            assert forall|i: int, j: int, k: SocketKey| #[trigger] binds(t, i, k) && #[trigger] binds(t, j, k) implies i == j by {
                assert(binds(s, i, k) && binds(s, j, k));
            }
            assert(spec_bindings_of(t) =~= spec_bindings_of(s)) by {
                assert forall|k: SocketKey| #[trigger] spec_bindings_of(t).contains_key(k) implies spec_bindings_of(s).contains_key(k) && spec_bindings_of(t)[k] == spec_bindings_of(s)[k] by {
                    let i = choose|i: int| #[trigger] binds(t, i, k);
                    lemma_binding_value(t, i, k);
                    lemma_binding_value(s, i, k);
                }
                assert forall|k: SocketKey| #[trigger] spec_bindings_of(s).contains_key(k) implies spec_bindings_of(t).contains_key(k) by {
                    let i = choose|i: int| #[trigger] binds(s, i, k);
                    assert(binds(t, i, k));
                }
            }
            if id < s.len() {
                assert(count_bound(mid) == count_bound(s));
            } else {
                assert(count_bound(mid) == count_bound(s)) by {
                    assert(mid.drop_last() =~= s);
                }
            }
        }
        Ok(Socket(id))
    }

    /// The index of the socket bound under `key`, if any.
    fn find_bound(&self, key: &SocketKey) -> (r: Option<usize>)
        requires
            self.wf(),
        ensures
            r == (if self.spec_bindings().contains_key(*key) { Some(self.spec_bindings()[*key]) } else { None::<usize> }),
    {
        let len = self.sockets.len();
        let mut i: usize = 0;
        while i < len
            invariant
                self.wf(),
                len == self.sockets@.len(),
                0 <= i <= len,
                forall|j: int| 0 <= j < i ==> !#[trigger] binds(self.sockets@, j, *key),
            decreases len - i,
        {
            match &self.sockets[i] {
                Some(sock) => {
                    if sock.state == SocketState::Bound {
                        let k = match &sock.bind_addr {
                            Some(a) => key_for(sock.protocol, a),
                            None => {
                                i = i + 1;
                                continue;
                            },
                        };
                        if k == *key {
                            proof {
                                assert(binds(self.sockets@, i as int, *key));
                                lemma_binding_value(self.sockets@, i as int, *key);
                            }
                            return Some(i);
                        }
                    }
                },
                None => {},
            }
            i = i + 1;
        }
        proof {
            if self.spec_bindings().contains_key(*key) {
                let w = choose|w: int| #[trigger] binds(self.sockets@, w, *key);
                assert(binds(self.sockets@, w, *key));
            }
        }
        None
    }

    /// Whether some bound socket uses local port `port`.
    fn port_in_use(&self, port: u16) -> (b: bool)
        requires
            self.wf(),
        ensures
            b == port_in_use_in(self.sockets@, port),
    {
        let len = self.sockets.len();
        let mut i: usize = 0;
        while i < len
            invariant
                self.wf(),
                len == self.sockets@.len(),
                0 <= i <= len,
                forall|j: int| 0 <= j < i ==> !(#[trigger] is_bound(self.sockets@, j) && self.sockets@[j]->Some_0.spec_key().local_port == Some(port)),
            decreases len - i,
        {
            match &self.sockets[i] {
                Some(sock) => {
                    if sock.state == SocketState::Bound {
                        match &sock.bind_addr {
                            Some(a) => {
                                let k = key_for(sock.protocol, a);
                                match k.local_port {
                                    Some(p) => {
                                        if p == port {
                                            assert(is_bound(self.sockets@, i as int));
                                            return true;
                                        }
                                    },
                                    None => {},
                                }
                            },
                            None => {},
                        }
                    }
                },
                None => {},
            }
            i = i + 1;
        }
        false
    }

    /// Take the first ephemeral port not in use, searching cyclically
    /// from the cursor, and move the cursor past it. When every port is
    /// in use, fail with `AddressInUse` and leave the cursor where it was.
    fn alloc_ephemeral_port(&mut self) -> (r: Result<u16, SocketError>)
        requires
            old(self).wf(),
        ensures
            final(self).wf(),
            final(self).sockets@ == old(self).sockets@,
            final(self).bound_count == old(self).bound_count,
            match spec_first_free_port(old(self).sockets@, old(self).next_ephemeral, 0) {
                Some(p) => r == Ok::<u16, SocketError>(p) && final(self).next_ephemeral == spec_next_port(p),
                None => r == Err::<u16, SocketError>(SocketError::AddressInUse) && final(self).next_ephemeral == old(self).next_ephemeral,
            },
    {
        let start = self.next_ephemeral;
        let ghost mut n: int = 0;
        loop
            invariant
                self.wf(),
                self.sockets@ == old(self).sockets@,
                self.bound_count == old(self).bound_count,
                start == old(self).next_ephemeral,
                start >= EPHEMERAL_MIN,
                0 <= n < 16384,
                self.next_ephemeral == spec_port_after(start, n),
                spec_first_free_port(old(self).sockets@, start, 0) == spec_first_free_port(old(self).sockets@, start, n),
            decreases 16384 - n,
        {
            let port = self.next_ephemeral;
            self.next_ephemeral = if port == EPHEMERAL_MAX { EPHEMERAL_MIN } else { port + 1 };
            assert(self.next_ephemeral == spec_port_after(start, n + 1));
            let in_use = self.port_in_use(port);
            if !in_use {
                return Ok(port);
            }
            if self.next_ephemeral == start {
                proof {
                    assert(n + 1 == 16384);
                    assert(port_in_use_in(old(self).sockets@, spec_port_after(start, n)));
                    assert(spec_first_free_port(old(self).sockets@, start, n + 1) is None);
                    assert(spec_first_free_port(old(self).sockets@, start, n) is None);
                }
                return Err(SocketError::AddressInUse);
            }
            proof {
                n = n + 1;
            }
        }
    }

    /// Bind a socket to an address. Fails with `InvalidSocket` for an
    /// unknown handle, `InvalidArgument` when the socket is already bound,
    /// `InvalidAddressFamily` when the address does not suit the socket,
    /// and `AddressInUse` when no ephemeral port is free or another socket
    /// is bound under the same key. An AF_INET port 0 takes the next free
    /// ephemeral port (the cursor moves even if the bind then fails).
    pub fn bind(&mut self, sock: Socket, addr: SocketAddr) -> (r: Result<(), SocketError>)
        requires
            old(self).wf(),
        ensures
            final(self).wf(),
            spec_bind_outcome(*old(self), *final(self), sock, addr, r),
    {
        let id = sock.0;
        if id >= self.sockets.len() {
            return Err(SocketError::InvalidSocket);
        }
        let (state, family, protocol) = match &self.sockets[id] {
            Some(so) => (so.state, so.family, so.protocol),
            None => return Err(SocketError::InvalidSocket),
        };
        if state != SocketState::Created {
            return Err(SocketError::InvalidArgument);
        }
        match (&family, &addr) {
            (AddressFamily::Packet, SocketAddr::Packet { .. }) => {},
            (AddressFamily::Inet, SocketAddr::Inet { .. }) => {},
            _ => return Err(SocketError::InvalidAddressFamily),
        }
        let bind_addr = match addr {
            SocketAddr::Packet { interface, protocol } => SocketAddr::Packet { interface, protocol },
            SocketAddr::Inet { ip, port } => {
                let final_port = if port == 0 {
                    match self.alloc_ephemeral_port() {
                        Ok(p) => p,
                        Err(e) => return Err(e),
                    }
                } else {
                    port
                };
                SocketAddr::Inet { ip, port: final_port }
            },
        };
        let key = key_for(protocol, &bind_addr);
        if self.find_bound(&key).is_some() {
            return Err(SocketError::AddressInUse);
        }
        let ghost s = self.sockets@;
        let mut slot: Option<SocketImpl> = None;
        self.sockets.set_and_swap(id, &mut slot);
        let mut so = match slot {
            Some(so) => so,
            None => {
                assert(false);
                return Err(SocketError::InvalidSocket);
            },
        };
        so.bind_addr = Some(bind_addr);
        so.state = SocketState::Bound;
        self.sockets.set(id, Some(so));
        proof {
            let t = self.sockets@;
            assert(t =~= s.update(id as int, t[id as int]));
            lemma_count_bound_update(s, id as int, t[id as int]);
            lemma_count_bound_le(s);
            assert(binds(t, id as int, key));
            assert forall|i: int, k: SocketKey| i != id implies (binds(t, i, k) <==> binds(s, i, k)) by {
                if i != id && 0 <= i < s.len() {
                    assert(t[i] == s[i]);
                }
            }
            assert forall|i: int, j: int, k: SocketKey| #[trigger] binds(t, i, k) && #[trigger] binds(t, j, k) implies i == j by {
                if i != id && j != id {
                    assert(binds(s, i, k) && binds(s, j, k));
                } else if i == id && j != id {
                    assert(binds(s, j, key));
                    lemma_binding_value(s, j, key);
                } else if j == id && i != id {
                    assert(binds(s, i, key));
                    lemma_binding_value(s, i, key);
                }
            }
            assert(spec_bindings_of(t) =~= spec_bindings_of(s).insert(key, id)) by {
                assert forall|k: SocketKey| #[trigger] spec_bindings_of(t).contains_key(k) implies spec_bindings_of(s).insert(key, id).contains_key(k) && spec_bindings_of(t)[k] == spec_bindings_of(s).insert(key, id)[k] by {
                    let i = choose|i: int| #[trigger] binds(t, i, k);
                    lemma_binding_value(t, i, k);
                    if i != id {
                        assert(binds(s, i, k));
                        lemma_binding_value(s, i, k);
                    }
                }
                assert forall|k: SocketKey| #[trigger] spec_bindings_of(s).insert(key, id).contains_key(k) implies spec_bindings_of(t).contains_key(k) by {
                    if k == key {
                        assert(binds(t, id as int, key));
                    } else {
                        let i = choose|i: int| #[trigger] binds(s, i, k);
                        assert(binds(s, i, k));
                        assert(i != id);
                        assert(binds(t, i, k));
                    }
                }
            }
        }
        self.bound_count = self.bound_count + 1;
        Ok(())
    }

    /// Close a socket: remove its binding, drop its queued packets and
    /// free its slot. Fails with `InvalidSocket`, changing nothing, for an
    /// unknown handle.
    pub fn close(&mut self, sock: Socket) -> (r: Result<(), SocketError>)
        requires
            old(self).wf(),
        ensures
            final(self).wf(),
            spec_close_outcome(*old(self), *final(self), sock, r),
    {
        let id = sock.0;
        if id >= self.sockets.len() {
            return Err(SocketError::InvalidSocket);
        }
        if self.sockets[id].is_none() {
            return Err(SocketError::InvalidSocket);
        }
        let ghost s = self.sockets@;
        let mut slot: Option<SocketImpl> = None;
        self.sockets.set_and_swap(id, &mut slot);
        let mut so = match slot {
            Some(so) => so,
            None => {
                assert(false);
                return Err(SocketError::InvalidSocket);
            },
        };
        let was_bound = so.state == SocketState::Bound;
        let _rx = so.rx_queue.drain();
        let _tx = so.tx_queue.drain();
        so.state = SocketState::Closed;
        proof {
            let t = self.sockets@;
            assert(t =~= s.update(id as int, None));
            lemma_count_bound_update(s, id as int, None);
            let key = s[id as int]->Some_0.spec_key();
            assert forall|i: int, k: SocketKey| i != id implies (binds(t, i, k) <==> binds(s, i, k)) by {
                if 0 <= i < s.len() {
                    assert(t[i] == s[i]);
                }
            }
            assert forall|i: int, j: int, k: SocketKey| #[trigger] binds(t, i, k) && #[trigger] binds(t, j, k) implies i == j by {
                assert(binds(s, i, k) && binds(s, j, k));
            }
            if was_bound {
                assert(binds(s, id as int, key));
                assert(spec_bindings_of(t) =~= spec_bindings_of(s).remove(key)) by {
                    assert forall|k: SocketKey| #[trigger] spec_bindings_of(t).contains_key(k) implies spec_bindings_of(s).remove(key).contains_key(k) && spec_bindings_of(t)[k] == spec_bindings_of(s).remove(key)[k] by {
                        let i = choose|i: int| #[trigger] binds(t, i, k);
                        lemma_binding_value(t, i, k);
                        assert(binds(s, i, k));
                        lemma_binding_value(s, i, k);
                        if k == key {
                            lemma_binding_value(s, id as int, key);
                        }
                    }
                    assert forall|k: SocketKey| #[trigger] spec_bindings_of(s).remove(key).contains_key(k) implies spec_bindings_of(t).contains_key(k) by {
                        let i = choose|i: int| #[trigger] binds(s, i, k);
                        assert(binds(s, i, k));
                        if i == id {
                            assert(k == key);
                        }
                        assert(binds(t, i, k));
                    }
                }
            } else {
                assert(spec_bindings_of(t) =~= spec_bindings_of(s)) by {
                    assert forall|k: SocketKey| #[trigger] spec_bindings_of(t).contains_key(k) implies spec_bindings_of(s).contains_key(k) && spec_bindings_of(t)[k] == spec_bindings_of(s)[k] by {
                        let i = choose|i: int| #[trigger] binds(t, i, k);
                        lemma_binding_value(t, i, k);
                        assert(binds(s, i, k));
                        lemma_binding_value(s, i, k);
                    }
                    assert forall|k: SocketKey| #[trigger] spec_bindings_of(s).contains_key(k) implies spec_bindings_of(t).contains_key(k) by {
                        let i = choose|i: int| #[trigger] binds(s, i, k);
                        assert(binds(s, i, k));
                        assert(i != id);
                        assert(binds(t, i, k));
                    }
                }
            }
        }
        if was_bound {
            self.bound_count = self.bound_count - 1;
        }
        Ok(())
    }

    /// Number of bound sockets.
    pub fn bound_count(&self) -> (n: usize)
        requires
            self.wf(),
        ensures
            n == self.spec_bound_count(),
            n == count_bound(self.spec_sockets()),
    {
        self.bound_count
    }

    /// The socket that receives packets for `key`: the one bound under the
    /// key itself, else, for a key with an IP, the one bound under the same
    /// key with the wildcard IP.
    pub fn lookup(&self, key: &SocketKey) -> (r: Option<usize>)
        requires
            self.wf(),
        ensures
            r == spec_lookup(self.spec_bindings(), *key),
    {
        match self.find_bound(key) {
            Some(id) => return Some(id),
            None => {},
        }
        if key.local_ip.is_some() {
            let wildcard = SocketKey { protocol: key.protocol, local_ip: None, local_port: key.local_port };
            return self.find_bound(&wildcard);
        }
        None
    }

    /// The socket with this handle, if open.
    pub fn get(&self, sock: Socket) -> (r: Option<&SocketImpl>)
        ensures
            (0 <= sock.0 < self.spec_sockets().len() && self.spec_sockets()[sock.0 as int] is Some) <==> r is Some,
            r is Some ==> *r->Some_0 == self.spec_sockets()[sock.0 as int]->Some_0,
    {
        if sock.0 < self.sockets.len() {
            self.sockets[sock.0].as_ref()
        } else {
            None
        }
    }

    /// Mutable access to the socket with this handle, if open. Whatever is
    /// written through it becomes that slot; nothing else changes.
    pub fn get_mut(&mut self, sock: Socket) -> (r: Option<&mut SocketImpl>)
        ensures
            (0 <= sock.0 < old(self).spec_sockets().len() && old(self).spec_sockets()[sock.0 as int] is Some) <==> r is Some,
            final(self).spec_next_ephemeral() == old(self).spec_next_ephemeral(),
            final(self).spec_bound_count() == old(self).spec_bound_count(),
            r is None ==> final(self).spec_sockets() == old(self).spec_sockets(),
            r is Some ==> {
                &&& *r->Some_0 == old(self).spec_sockets()[sock.0 as int]->Some_0
                &&& final(self).spec_sockets() == old(self).spec_sockets().update(sock.0 as int, Some(*final(r->Some_0)))
            },
    {
        let id = sock.0;
        if id >= self.sockets.len() {
            return None;
        }
        let slice = self.sockets.as_mut_slice();
        let (front, rest) = slice.split_at_mut(id);
        assert(final(front)@ == front@);
        match rest.first_mut() {
            Some(slot) => {
                slot.as_mut()
            },
            None => None,
        }
    }

    /// Drop every packet queued for receive on an open socket.
    pub(crate) fn drain_rx(&mut self, sock: Socket)
        requires
            old(self).wf(),
        ensures
            final(self).wf(),
            final(self).spec_bindings() == old(self).spec_bindings(),
            final(self).spec_bound_count() == old(self).spec_bound_count(),
            final(self).spec_next_ephemeral() == old(self).spec_next_ephemeral(),
            final(self).spec_sockets().len() == old(self).spec_sockets().len(),
            forall|i: int| 0 <= i < old(self).spec_sockets().len() && i != sock.0 ==> #[trigger] final(self).spec_sockets()[i] == old(self).spec_sockets()[i],
            (0 <= sock.0 < old(self).spec_sockets().len() && old(self).spec_sockets()[sock.0 as int] is Some) ==> {
                let o = old(self).spec_sockets()[sock.0 as int]->Some_0;
                let n = final(self).spec_sockets()[sock.0 as int]->Some_0;
                &&& final(self).spec_sockets()[sock.0 as int] is Some
                &&& same_but_rx(o, n)
                &&& n.rx_queue@.len() == 0
            },
            !(0 <= sock.0 < old(self).spec_sockets().len() && old(self).spec_sockets()[sock.0 as int] is Some) ==> *final(self) == *old(self),
    {
        let id = sock.0;
        if id >= self.sockets.len() || self.sockets[id].is_none() {
            return;
        }
        let ghost s = self.sockets@;
        let mut slot: Option<SocketImpl> = None;
        self.sockets.set_and_swap(id, &mut slot);
        let mut so = match slot {
            Some(so) => so,
            None => {
                assert(false);
                return;
            },
        };
        let _dropped = so.rx_queue.drain();
        self.sockets.set(id, Some(so));
        proof {
            assert(self.sockets@ =~= s.update(id as int, self.sockets@[id as int]));
            self.lemma_same_bindings_after_slot_update(s, id as int);
        }
    }

    /// Queue a received packet on an open socket's RX queue. Fails with
    /// `InvalidSocket` for an unknown handle; hands the packet back when
    /// the queue is full.
    pub(crate) fn enqueue_rx(&mut self, sock: Socket, skb: Arc<SkBuff>) -> (r: Result<(), RxError>)
        requires
            old(self).wf(),
        ensures
            final(self).wf(),
            final(self).spec_bindings() == old(self).spec_bindings(),
            final(self).spec_bound_count() == old(self).spec_bound_count(),
            final(self).spec_next_ephemeral() == old(self).spec_next_ephemeral(),
            final(self).spec_sockets().len() == old(self).spec_sockets().len(),
            forall|i: int| 0 <= i < old(self).spec_sockets().len() && i != sock.0 ==> #[trigger] final(self).spec_sockets()[i] == old(self).spec_sockets()[i],
            !(0 <= sock.0 < old(self).spec_sockets().len() && old(self).spec_sockets()[sock.0 as int] is Some) ==> r == Err::<(), RxError>(RxError::InvalidSocket) && final(self).spec_sockets() == old(self).spec_sockets(),
            (0 <= sock.0 < old(self).spec_sockets().len() && old(self).spec_sockets()[sock.0 as int] is Some) ==> {
                let o = old(self).spec_sockets()[sock.0 as int]->Some_0;
                let n = final(self).spec_sockets()[sock.0 as int]->Some_0;
                &&& final(self).spec_sockets()[sock.0 as int] is Some
                &&& same_but_rx(o, n)
                &&& (o.rx_queue@.len() == SkBuffQueue::CAPACITY - 1 <==> r == Err::<(), RxError>(RxError::QueueFull))
                &&& r is Ok || r == Err::<(), RxError>(RxError::QueueFull)
                &&& r is Ok ==> n.rx_queue@ == o.rx_queue@.push(skb)
                &&& r is Err ==> n.rx_queue@ == o.rx_queue@
            },
    {
        let id = sock.0;
        if id >= self.sockets.len() || self.sockets[id].is_none() {
            return Err(RxError::InvalidSocket);
        }
        let ghost s = self.sockets@;
        let mut slot: Option<SocketImpl> = None;
        self.sockets.set_and_swap(id, &mut slot);
        let mut so = match slot {
            Some(so) => so,
            None => {
                assert(false);
                return Err(RxError::InvalidSocket);
            },
        };
        let res = so.rx_queue.enqueue(skb);
        self.sockets.set(id, Some(so));
        proof {
            assert(self.sockets@ =~= s.update(id as int, self.sockets@[id as int]));
            self.lemma_same_bindings_after_slot_update(s, id as int);
        }
        match res {
            Ok(()) => Ok(()),
            Err(_) => Err(RxError::QueueFull),
        }
    }

    /// Take the oldest packet from an open socket's RX queue; `None` when
    /// the handle is unknown or the queue empty.
    pub(crate) fn dequeue_rx(&mut self, sock: Socket) -> (r: Option<Arc<SkBuff>>)
        requires
            old(self).wf(),
        ensures
            final(self).wf(),
            final(self).spec_bindings() == old(self).spec_bindings(),
            final(self).spec_bound_count() == old(self).spec_bound_count(),
            final(self).spec_next_ephemeral() == old(self).spec_next_ephemeral(),
            final(self).spec_sockets().len() == old(self).spec_sockets().len(),
            forall|i: int| 0 <= i < old(self).spec_sockets().len() && i != sock.0 ==> #[trigger] final(self).spec_sockets()[i] == old(self).spec_sockets()[i],
            !(0 <= sock.0 < old(self).spec_sockets().len() && old(self).spec_sockets()[sock.0 as int] is Some) ==> r is None && final(self).spec_sockets() == old(self).spec_sockets(),
            (0 <= sock.0 < old(self).spec_sockets().len() && old(self).spec_sockets()[sock.0 as int] is Some) ==> {
                let o = old(self).spec_sockets()[sock.0 as int]->Some_0;
                let n = final(self).spec_sockets()[sock.0 as int]->Some_0;
                &&& final(self).spec_sockets()[sock.0 as int] is Some
                &&& same_but_rx(o, n)
                &&& (o.rx_queue@.len() == 0 <==> r is None)
                &&& r is None ==> n.rx_queue@ == o.rx_queue@
                &&& r is Some ==> r->Some_0 == o.rx_queue@[0] && n.rx_queue@ == o.rx_queue@.drop_first()
            },
    {
        let id = sock.0;
        if id >= self.sockets.len() || self.sockets[id].is_none() {
            return None;
        }
        let ghost s = self.sockets@;
        let mut slot: Option<SocketImpl> = None;
        self.sockets.set_and_swap(id, &mut slot);
        let mut so = match slot {
            Some(so) => so,
            None => {
                assert(false);
                return None;
            },
        };
        let res = so.rx_queue.dequeue();
        self.sockets.set(id, Some(so));
        proof {
            assert(self.sockets@ =~= s.update(id as int, self.sockets@[id as int]));
            self.lemma_same_bindings_after_slot_update(s, id as int);
        }
        res
    }

    /// After replacing slot `id` of `s` by a socket with the same id,
    /// protocol, state and binding, the table is still consistent and its
    /// bindings and bound count are those of `s`.
    proof fn lemma_same_bindings_after_slot_update(&self, s: Seq<Option<SocketImpl>>, id: int)
        requires
            0 <= id < s.len(),
            s.len() <= MAX_SOCKETS,
            s[id] is Some,
            self.sockets@ == s.update(id, self.sockets@[id]),
            self.sockets@[id] is Some,
            self.sockets@[id]->Some_0.id == s[id]->Some_0.id,
            self.sockets@[id]->Some_0.wf(),
            self.sockets@[id]->Some_0.protocol == s[id]->Some_0.protocol,
            self.sockets@[id]->Some_0.state == s[id]->Some_0.state,
            self.sockets@[id]->Some_0.bind_addr == s[id]->Some_0.bind_addr,
            forall|i: int| 0 <= i < s.len() && (#[trigger] s[i]) is Some ==> {
                &&& s[i]->Some_0.id == i
                &&& s[i]->Some_0.wf()
            },
            keys_unique(s),
            self.bound_count == count_bound(s),
            self.next_ephemeral >= EPHEMERAL_MIN,
        ensures
            self.wf(),
            spec_bindings_of(self.sockets@) == spec_bindings_of(s),
            count_bound(self.sockets@) == count_bound(s),
    {
        let t = self.sockets@;
        lemma_count_bound_update(s, id, t[id]);
        assert forall|i: int, k: SocketKey| binds(t, i, k) <==> binds(s, i, k) by {
            if 0 <= i < s.len() && i != id {
                assert(t[i] == s[i]);
            }
        }
        assert forall|i: int, j: int, k: SocketKey| #[trigger] binds(t, i, k) && #[trigger] binds(t, j, k) implies i == j by {
            assert(binds(s, i, k) && binds(s, j, k));
        }
        assert(spec_bindings_of(t) =~= spec_bindings_of(s)) by {
            assert forall|k: SocketKey| #[trigger] spec_bindings_of(t).contains_key(k) implies spec_bindings_of(s).contains_key(k) && spec_bindings_of(t)[k] == spec_bindings_of(s)[k] by {
                let i = choose|i: int| #[trigger] binds(t, i, k);
                lemma_binding_value(t, i, k);
                assert(binds(s, i, k));
                lemma_binding_value(s, i, k);
            }
            assert forall|k: SocketKey| #[trigger] spec_bindings_of(s).contains_key(k) implies spec_bindings_of(t).contains_key(k) by {
                let i = choose|i: int| #[trigger] binds(s, i, k);
                assert(binds(s, i, k));
                assert(binds(t, i, k));
            }
        }
        assert forall|i: int| 0 <= i < t.len() && (#[trigger] t[i]) is Some implies {
            &&& t[i]->Some_0.id == i
            &&& t[i]->Some_0.wf()
        } by {
            if i != id {
                assert(t[i] == s[i]);
            }
        }
    }

    /// Statistics: open sockets, bound sockets, and for each bound socket
    /// in slot order its index and RX queue depth.
    pub fn stats(&self) -> (r: (usize, usize, Vec<(usize, usize)>))
        requires
            self.wf(),
        ensures
            r.0 == count_open(self.spec_sockets()),
            r.1 == self.spec_bound_count(),
            r.2@ == spec_queue_depths(self.spec_sockets()),
    {
        let len = self.sockets.len();
        let mut total: usize = 0;
        let mut depths: Vec<(usize, usize)> = Vec::new();
        let mut i: usize = 0;
        while i < len
            invariant
                self.wf(),
                len == self.sockets@.len(),
                len <= MAX_SOCKETS,
                0 <= i <= len,
                total == count_open(self.sockets@.subrange(0, i as int)),
                total <= i,
                depths@ == spec_queue_depths(self.sockets@.subrange(0, i as int)),
            decreases len - i,
        {
            let ghost pre = self.sockets@.subrange(0, i as int);
            let ghost next = self.sockets@.subrange(0, i + 1);
            assert(next.drop_last() =~= pre);
            match &self.sockets[i] {
                Some(sock) => {
                    total = total + 1;
                    if sock.state == SocketState::Bound {
                        depths.push((i, sock.rx_queue.len()));
                    }
                },
                None => {},
            }
            i = i + 1;
        }
        assert(self.sockets@.subrange(0, len as int) =~= self.sockets@);
        (total, self.bound_count, depths)
    }
}

/// Some socket bound in `s` uses local port `port`.
pub open spec fn port_in_use_in(s: Seq<Option<SocketImpl>>, port: u16) -> bool {
    exists|i: int| #[trigger] is_bound(s, i) && s[i]->Some_0.spec_key().local_port == Some(port)
}

/// The first ephemeral port not in use, searching from `start` onwards
/// (cyclically, `n` ports already checked); `None` when all are in use.
pub open spec fn spec_first_free_port(s: Seq<Option<SocketImpl>>, start: u16, n: int) -> Option<u16>
    decreases 16384 - n,
{
    if n < 0 || n >= 16384 {
        None
    } else if port_in_use_in(s, spec_port_after(start, n)) {
        spec_first_free_port(s, start, n + 1)
    } else {
        Some(spec_port_after(start, n))
    }
}

/// Whether an address suits a socket family.
pub open spec fn spec_family_matches(family: AddressFamily, addr: SocketAddr) -> bool {
    match addr {
        SocketAddr::Packet { .. } => family == AddressFamily::Packet,
        SocketAddr::Inet { .. } => family == AddressFamily::Inet,
    }
}

/// The address a bind to `addr` records: `addr` itself, except that an
/// AF_INET port 0 is replaced by the first free ephemeral port from
/// `start`; `None` when no ephemeral port is free.
pub open spec fn spec_bind_addr(s: Seq<Option<SocketImpl>>, start: u16, addr: SocketAddr) -> Option<SocketAddr> {
    match addr {
        SocketAddr::Packet { .. } => Some(addr),
        SocketAddr::Inet { ip, port } => {
            if port != 0 {
                Some(addr)
            } else {
                match spec_first_free_port(s, start, 0) {
                    Some(p) => Some(SocketAddr::Inet { ip, port: p }),
                    None => None,
                }
            }
        },
    }
}

/// The ephemeral cursor after binding to `addr`: advanced past the port
/// taken, back at `start` when none was free, unchanged when no port was
/// allocated.
pub open spec fn spec_next_after_bind(s: Seq<Option<SocketImpl>>, start: u16, addr: SocketAddr) -> u16 {
    match addr {
        SocketAddr::Inet { port, .. } => {
            if port == 0 {
                match spec_first_free_port(s, start, 0) {
                    Some(p) => spec_next_port(p),
                    None => start,
                }
            } else {
                start
            }
        },
        _ => start,
    }
}

/// `so` bound to `addr`.
pub open spec fn spec_with_binding(so: SocketImpl, addr: SocketAddr) -> SocketImpl {
    SocketImpl { state: SocketState::Bound, bind_addr: Some(addr), ..so }
}

/// The wildcard-IP variant of a key.
pub open spec fn spec_wildcard(key: SocketKey) -> SocketKey {
    SocketKey { protocol: key.protocol, local_ip: None, local_port: key.local_port }
}

/// What `lookup` returns: the socket bound under `key`, else (for a key
/// with an IP) the socket bound under its wildcard variant, else `None`.
pub open spec fn spec_lookup(bindings: Map<SocketKey, usize>, key: SocketKey) -> Option<usize> {
    if bindings.contains_key(key) {
        Some(bindings[key])
    } else if key.local_ip is Some && bindings.contains_key(spec_wildcard(key)) {
        Some(bindings[spec_wildcard(key)])
    } else {
        None
    }
}

/// The family/type/protocol combinations a socket can be created with.
pub open spec fn spec_valid_combination(family: AddressFamily, socket_type: SocketType, protocol: Protocol) -> bool {
    ||| family == AddressFamily::Packet && socket_type == SocketType::Raw && protocol == Protocol::Arp
    ||| family == AddressFamily::Inet && socket_type == SocketType::Raw && protocol == Protocol::Icmp
    ||| family == AddressFamily::Inet && socket_type == SocketType::Dgram && protocol == Protocol::Udp
    ||| family == AddressFamily::Inet && socket_type == SocketType::Stream && protocol == Protocol::Tcp
}

fn valid_combination(family: AddressFamily, socket_type: SocketType, protocol: Protocol) -> (b: bool)
    ensures
        b == spec_valid_combination(family, socket_type, protocol),
{
    match (family, socket_type, protocol) {
        (AddressFamily::Packet, SocketType::Raw, Protocol::Arp) => true,
        (AddressFamily::Inet, SocketType::Raw, Protocol::Icmp) => true,
        (AddressFamily::Inet, SocketType::Dgram, Protocol::Udp) => true,
        (AddressFamily::Inet, SocketType::Stream, Protocol::Tcp) => true,
        _ => false,
    }
}

/// How `create` changes the table and what it returns.
pub open spec fn spec_create_outcome(before: SocketTable, after: SocketTable, family: AddressFamily, socket_type: SocketType, protocol: Protocol, r: Result<Socket, SocketError>) -> bool {
    &&& after.spec_bindings() == before.spec_bindings()
    &&& after.spec_bound_count() == before.spec_bound_count()
    &&& after.spec_next_ephemeral() == before.spec_next_ephemeral()
    &&& !spec_valid_combination(family, socket_type, protocol) ==> r == Err::<Socket, SocketError>(SocketError::ProtocolNotSupported)
    &&& spec_valid_combination(family, socket_type, protocol) ==> {
        let s = before.spec_sockets();
        let free = exists|i: int| 0 <= i < s.len() && #[trigger] s[i] is None;
        &&& (!free && s.len() >= MAX_SOCKETS) <==> r == Err::<Socket, SocketError>(SocketError::TooManySockets)
        &&& !(!free && s.len() >= MAX_SOCKETS) ==> r is Ok
        &&& r is Ok ==> {
            let id = r->Ok_0.0 as int;
            &&& (free ==> 0 <= id < s.len() && s[id] is None && forall|j: int| 0 <= j < id ==> #[trigger] s[j] is Some)
            &&& (!free ==> id == s.len())
            &&& after.spec_sockets().len() == if free { s.len() } else { s.len() + 1 }
            &&& forall|j: int| 0 <= j < s.len() && j != id ==> #[trigger] after.spec_sockets()[j] == s[j]
            &&& after.spec_sockets()[id] matches Some(n) && {
                &&& n.id == id
                &&& n.family == family
                &&& n.socket_type == socket_type
                &&& n.protocol == protocol
                &&& n.state == SocketState::Created
                &&& n.bind_addr is None
                &&& n.remote_addr is None
                &&& n.rx_queue@.len() == 0
                &&& n.tx_queue@.len() == 0
            }
        }
    }
    &&& r is Err ==> after.spec_sockets() == before.spec_sockets()
}

/// How `bind` changes the table and what it returns.
pub open spec fn spec_bind_outcome(before: SocketTable, after: SocketTable, sock: Socket, addr: SocketAddr, r: Result<(), SocketError>) -> bool {
    let s = before.spec_sockets();
    let id = sock.0 as int;
    if !(0 <= id < s.len() && s[id] is Some) {
        r == Err::<(), SocketError>(SocketError::InvalidSocket) && after == before
    } else {
        let so = s[id]->Some_0;
        if so.state != SocketState::Created {
            r == Err::<(), SocketError>(SocketError::InvalidArgument) && after == before
        } else if !spec_family_matches(so.family, addr) {
            r == Err::<(), SocketError>(SocketError::InvalidAddressFamily) && after == before
        } else {
            let next = spec_next_after_bind(s, before.spec_next_ephemeral(), addr);
            &&& after.spec_next_ephemeral() == next
            &&& match spec_bind_addr(s, before.spec_next_ephemeral(), addr) {
                None => {
                    &&& r == Err::<(), SocketError>(SocketError::AddressInUse)
                    &&& after.spec_sockets() == s
                    &&& after.spec_bound_count() == before.spec_bound_count()
                },
                Some(a) => {
                    let key = spec_key_for(so.protocol, a);
                    if before.spec_bindings().contains_key(key) {
                        &&& r == Err::<(), SocketError>(SocketError::AddressInUse)
                        &&& after.spec_sockets() == s
                        &&& after.spec_bound_count() == before.spec_bound_count()
                    } else {
                        &&& r == Ok::<(), SocketError>(())
                        &&& after.spec_sockets() == s.update(id, Some(spec_with_binding(so, a)))
                        &&& after.spec_bindings() == before.spec_bindings().insert(key, sock.0)
                        &&& after.spec_bound_count() == before.spec_bound_count() + 1
                    }
                },
            }
        }
    }
}

/// How `close` changes the table and what it returns.
pub open spec fn spec_close_outcome(before: SocketTable, after: SocketTable, sock: Socket, r: Result<(), SocketError>) -> bool {
    let s = before.spec_sockets();
    let id = sock.0 as int;
    if !(0 <= id < s.len() && s[id] is Some) {
        r == Err::<(), SocketError>(SocketError::InvalidSocket) && after == before
    } else {
        let so = s[id]->Some_0;
        &&& r == Ok::<(), SocketError>(())
        &&& after.spec_sockets() == s.update(id, None)
        &&& after.spec_next_ephemeral() == before.spec_next_ephemeral()
        &&& if so.state == SocketState::Bound {
            &&& after.spec_bindings() == before.spec_bindings().remove(so.spec_key())
            &&& after.spec_bound_count() == before.spec_bound_count() - 1
        } else {
            &&& after.spec_bindings() == before.spec_bindings()
            &&& after.spec_bound_count() == before.spec_bound_count()
        }
    }
}


/// Binding a socket and then closing it leaves the bindings and the bound
/// count as they were before the bind: the address is free again.
pub proof fn lemma_bind_then_close_restores(
    t0: SocketTable,
    t1: SocketTable,
    t2: SocketTable,
    sock: Socket,
    addr: SocketAddr,
)
    requires
        spec_bind_outcome(t0, t1, sock, addr, Ok(())),
        spec_close_outcome(t1, t2, sock, Ok(())),
    ensures
        t2.spec_bindings() == t0.spec_bindings(),
        t2.spec_bound_count() == t0.spec_bound_count(),
        forall|k: SocketKey| !t0.spec_bindings().contains_key(k) ==> !(#[trigger] t2.spec_bindings().contains_key(k)),
{
    let s = t0.spec_sockets();
    let id = sock.0 as int;
    let so = s[id]->Some_0;
    let a = spec_bind_addr(s, t0.spec_next_ephemeral(), addr)->Some_0;
    let key = spec_key_for(so.protocol, a);
    let bound = spec_with_binding(so, a);
    assert(t1.spec_sockets()[id] == Some(bound));
    assert(bound.spec_key() == key);
    assert(t2.spec_bindings() =~= t0.spec_bindings().insert(key, sock.0).remove(key));
    assert(t0.spec_bindings().insert(key, sock.0).remove(key) =~= t0.spec_bindings());
}

/// A socket of `protocol` bound to the local address `ip:port` (a
/// specific IP, a nonzero port) receives the packets for that IP and
/// port.
pub proof fn lemma_lookup_exact_binding(t: SocketTable, protocol: Protocol, ip: [u8; 4], port: u16, j: int)
    requires
        t.wf(),
        !spec_is_zero_ip(ip),
        port != 0,
        is_bound(t.spec_sockets(), j),
        t.spec_sockets()[j]->Some_0.protocol == protocol,
        t.spec_sockets()[j]->Some_0.bind_addr == Some(SocketAddr::Inet { ip, port }),
    ensures
        spec_lookup(t.spec_bindings(), SocketKey { protocol, local_ip: Some(ip), local_port: Some(port) }) == Some(j as usize),
{
    let s = t.spec_sockets();
    let key = SocketKey { protocol, local_ip: Some(ip), local_port: Some(port) };
    assert(binds(s, j, key));
    lemma_binding_value(s, j, key);
}

/// A packet for a specific local IP and port goes to the socket bound to
/// the wildcard IP 0.0.0.0 on that port when no socket of the protocol is
/// bound to that IP and port itself.
pub proof fn lemma_lookup_wildcard_fallback(t: SocketTable, protocol: Protocol, ip: [u8; 4], port: u16, j: int)
    requires
        t.wf(),
        !spec_is_zero_ip(ip),
        port != 0,
        forall|i: int| #[trigger] is_bound(t.spec_sockets(), i) && t.spec_sockets()[i]->Some_0.protocol == protocol
            ==> t.spec_sockets()[i]->Some_0.bind_addr != Some(SocketAddr::Inet { ip, port }),
        is_bound(t.spec_sockets(), j),
        t.spec_sockets()[j]->Some_0.protocol == protocol,
        t.spec_sockets()[j]->Some_0.bind_addr matches Some(SocketAddr::Inet { ip: z, port: p }) && spec_is_zero_ip(z) && p == port,
    ensures
        spec_lookup(t.spec_bindings(), SocketKey { protocol, local_ip: Some(ip), local_port: Some(port) }) == Some(j as usize),
{
    let s = t.spec_sockets();
    let key = SocketKey { protocol, local_ip: Some(ip), local_port: Some(port) };
    let wk = SocketKey { protocol, local_ip: None, local_port: Some(port) };
    assert forall|i: int| !#[trigger] binds(s, i, key) by {
        if binds(s, i, key) {
            assert(is_bound(s, i));
            let so = s[i]->Some_0;
            assert(so.wf());
            match so.bind_addr->Some_0 {
                SocketAddr::Packet { .. } => {},
                SocketAddr::Inet { ip: ip2, port: p2 } => {
                    assert(ip2 == ip);
                    assert(p2 == port);
                    assert(so.bind_addr == Some(SocketAddr::Inet { ip, port }));
                },
            }
        }
    }
    assert(!t.spec_bindings().contains_key(key));
    assert(binds(s, j, wk));
    lemma_binding_value(s, j, wk);
    assert(spec_wildcard(key) == wk);
}

} // verus!
