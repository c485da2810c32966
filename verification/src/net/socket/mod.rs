//! Socket layer: types, packet queues, the socket table and the socket
//! calls.
//!
//! The calls work on a socket table handed to them. What they leave to
//! the caller is said in their results: `bind` and `close` report when
//! the first socket was bound or the last one closed (so the caller can
//! switch the network interrupt on or off), `sendto` reports the number
//! of bytes that are to be transmitted, and `recvfrom` is one poll of a
//! receive loop.

pub mod queue;
pub mod table;
pub mod types;

pub use queue::SkBuffQueue;
pub use table::{SocketImpl, SocketKey, SocketState, SocketTable};
pub use types::{AddressFamily, Protocol, RecvFrom, Socket, SocketAddr, SocketError, SocketOptions, SocketType};

use vstd::prelude::*;
use crate::net::ethernet::{spec_parse_frame, EthernetFrame};
use table::{same_but_rx, spec_bind_outcome, spec_close_outcome, spec_create_outcome, count_open, spec_queue_depths};

verus! {

/// The socket `sock` of `before` is open in `after` with the same
/// attributes and binding and an empty RX queue; the rest of the table
/// is unchanged.
pub open spec fn spec_rx_drained(before: SocketTable, after: SocketTable, sock: Socket) -> bool {
    let s = before.spec_sockets();
    let id = sock.0 as int;
    &&& after.spec_bindings() == before.spec_bindings()
    &&& after.spec_bound_count() == before.spec_bound_count()
    &&& after.spec_next_ephemeral() == before.spec_next_ephemeral()
    &&& after.spec_sockets().len() == s.len()
    &&& forall|i: int| 0 <= i < s.len() && i != id ==> #[trigger] after.spec_sockets()[i] == s[i]
    &&& (0 <= id < s.len() && s[id] is Some) ==> {
        let o = s[id]->Some_0;
        let n = after.spec_sockets()[id]->Some_0;
        &&& after.spec_sockets()[id] is Some
        &&& same_but_rx(o, n)
        &&& n.rx_queue@.len() == 0
    }
    &&& !(0 <= id < s.len() && s[id] is Some) ==> after == before
}

/// The source address reported for a received frame: its source MAC and
/// EtherType, or no interface and EtherType 0 when it is too short to
/// hold an Ethernet header.
pub open spec fn spec_recv_addr(data: Seq<u8>, addr: SocketAddr) -> bool {
    match spec_parse_frame(data) {
        Some((_, src, ethertype, _)) => addr matches SocketAddr::Packet { interface: Some(m), protocol } && m.0@ == src && protocol == ethertype,
        None => addr == SocketAddr::Packet { interface: None, protocol: 0 },
    }
}

/// Create a socket (see `SocketTable::create`).
pub fn socket(table: &mut SocketTable, family: AddressFamily, socket_type: SocketType, protocol: Protocol) -> (r: Result<Socket, SocketError>)
    requires
        old(table).wf(),
    ensures
        final(table).wf(),
        spec_create_outcome(*old(table), *final(table), family, socket_type, protocol, r),
{
    table.create(family, socket_type, protocol)
}

/// Bind a socket (see `SocketTable::bind`) and drop whatever was queued
/// on it before. On success, returns whether it is now the only bound
/// socket: then the caller enables packet reception.
pub fn bind(table: &mut SocketTable, sock: Socket, addr: SocketAddr) -> (r: Result<bool, SocketError>)
    requires
        old(table).wf(),
    ensures
        final(table).wf(),
        match r {
            Err(e) => spec_bind_outcome(*old(table), *final(table), sock, addr, Err(e)),
            Ok(first) => {
                &&& exists|mid: SocketTable| #[trigger] spec_bind_outcome(*old(table), mid, sock, addr, Ok(())) && spec_rx_drained(mid, *final(table), sock)
                &&& first == (final(table).spec_bound_count() == 1)
            },
        },
{
    let ghost before = *table;
    match table.bind(sock, addr) {
        Err(e) => Err(e),
        Ok(()) => {
            let ghost mid = *table;
            table.drain_rx(sock);
            proof {
                assert(spec_bind_outcome(before, mid, sock, addr, Ok(())));
                assert(spec_rx_drained(mid, *table, sock));
            }
            Ok(table.bound_count() == 1)
        },
    }
}

/// Check that a socket may send. For an AF_PACKET socket `buf` is a
/// whole Ethernet frame and the result is its length, the number of
/// bytes the caller transmits; AF_INET sending is not supported.
pub fn sendto(table: &SocketTable, sock: Socket, buf: &[u8], addr: &SocketAddr) -> (r: Result<usize, SocketError>)
    ensures
        ({
            let s = table.spec_sockets();
            let id = sock.0 as int;
            if !(0 <= id < s.len() && s[id] is Some) {
                r == Err::<usize, SocketError>(SocketError::InvalidSocket)
            } else if s[id]->Some_0.state != SocketState::Bound {
                r == Err::<usize, SocketError>(SocketError::NotBound)
            } else if s[id]->Some_0.family == AddressFamily::Packet {
                r == Ok::<usize, SocketError>(buf@.len() as usize)
            } else {
                r == Err::<usize, SocketError>(SocketError::ProtocolNotSupported)
            }
        }),
{
    let so = match table.get(sock) {
        Some(so) => so,
        None => return Err(SocketError::InvalidSocket),
    };
    if so.state != SocketState::Bound {
        return Err(SocketError::NotBound);
    }
    match so.family {
        AddressFamily::Packet => Ok(buf.len()),
        AddressFamily::Inet => Err(SocketError::ProtocolNotSupported),
    }
}

/// The source address of a received frame (see `spec_recv_addr`).
fn recv_addr(data: &[u8]) -> (a: SocketAddr)
    ensures
        spec_recv_addr(data@, a),
{
    match EthernetFrame::parse(data) {
        Some(frame) => SocketAddr::Packet { interface: Some(frame.src_mac), protocol: frame.ethertype },
        None => SocketAddr::Packet { interface: None, protocol: 0 },
    }
}

/// Whether a receive that has waited `elapsed_us` microseconds has timed
/// out under `opts`.
pub open spec fn spec_timed_out(opts: SocketOptions, elapsed_us: u64) -> bool {
    match opts.timeout_ms {
        Some(ms) => elapsed_us >= ms as int * 1000,
        None => false,
    }
}

/// One poll of a receive on `sock`, `elapsed_us` microseconds after the
/// receive began. Takes the oldest queued packet and returns it with its
/// source address. With nothing queued: `WouldBlock` for a non-blocking
/// socket, `Timeout` once the timeout has passed, else `Ok(None)`: the
/// caller polls again. Fails with `InvalidSocket` or `NotBound` first.
pub fn recvfrom(table: &mut SocketTable, sock: Socket, opts: &SocketOptions, elapsed_us: u64) -> (r: Result<Option<RecvFrom>, SocketError>)
    requires
        old(table).wf(),
    ensures
        final(table).wf(),
        final(table).spec_bindings() == old(table).spec_bindings(),
        final(table).spec_bound_count() == old(table).spec_bound_count(),
        final(table).spec_next_ephemeral() == old(table).spec_next_ephemeral(),
        ({
            let s = old(table).spec_sockets();
            let id = sock.0 as int;
            if !(0 <= id < s.len() && s[id] is Some) {
                r == Err::<Option<RecvFrom>, SocketError>(SocketError::InvalidSocket) && *final(table) == *old(table)
            } else if s[id]->Some_0.state != SocketState::Bound {
                r == Err::<Option<RecvFrom>, SocketError>(SocketError::NotBound) && *final(table) == *old(table)
            } else {
                let o = s[id]->Some_0;
                let t = final(table).spec_sockets();
                let n = t[id]->Some_0;
                &&& t.len() == s.len()
                &&& forall|i: int| 0 <= i < s.len() && i != id ==> #[trigger] t[i] == s[i]
                &&& t[id] is Some
                &&& same_but_rx(o, n)
                &&& if o.rx_queue@.len() > 0 {
                    &&& n.rx_queue@ == o.rx_queue@.drop_first()
                    &&& r matches Ok(Some(p)) && p.data@ == o.rx_queue@[0].spec_data() && spec_recv_addr(p.data@, p.addr)
                } else {
                    &&& n.rx_queue@ == o.rx_queue@
                    &&& if opts.non_blocking {
                        r == Err::<Option<RecvFrom>, SocketError>(SocketError::WouldBlock)
                    } else if spec_timed_out(*opts, elapsed_us) {
                        r == Err::<Option<RecvFrom>, SocketError>(SocketError::Timeout)
                    } else {
                        r == Ok::<Option<RecvFrom>, SocketError>(None)
                    }
                }
            }
        }),
{
    match table.get(sock) {
        None => return Err(SocketError::InvalidSocket),
        Some(so) => {
            if so.state != SocketState::Bound {
                return Err(SocketError::NotBound);
            }
        },
    }
    match table.dequeue_rx(sock) {
        Some(skb) => {
            let data = vstd::slice::slice_to_vec(skb.data());
            let addr = recv_addr(data.as_slice());
            Ok(Some(RecvFrom { addr, data }))
        },
        None => {
            if opts.non_blocking {
                return Err(SocketError::WouldBlock);
            }
            match opts.timeout_ms {
                Some(ms) => {
                    let timeout_us: u64 = ms as u64 * 1000;
                    if elapsed_us >= timeout_us {
                        return Err(SocketError::Timeout);
                    }
                },
                None => {},
            }
            Ok(None)
        },
    }
}

/// Close a socket (see `SocketTable::close`). On success, returns whether
/// no bound socket is left: then the caller disables packet reception.
pub fn close(table: &mut SocketTable, sock: Socket) -> (r: Result<bool, SocketError>)
    requires
        old(table).wf(),
    ensures
        final(table).wf(),
        match r {
            Err(e) => spec_close_outcome(*old(table), *final(table), sock, Err(e)),
            Ok(last) => {
                &&& spec_close_outcome(*old(table), *final(table), sock, Ok(()))
                &&& last == (final(table).spec_bound_count() == 0)
            },
        },
{
    match table.close(sock) {
        Err(e) => Err(e),
        Ok(()) => Ok(table.bound_count() == 0),
    }
}

/// Socket statistics: open sockets, bound sockets, and for each bound
/// socket its index and RX queue depth.
pub fn socket_stats(table: &SocketTable) -> (r: (usize, usize, Vec<(usize, usize)>))
    requires
        table.wf(),
    ensures
        r.0 == count_open(table.spec_sockets()),
        r.1 == table.spec_bound_count(),
        r.2@ == spec_queue_depths(table.spec_sockets()),
{
    table.stats()
}

} // verus!
