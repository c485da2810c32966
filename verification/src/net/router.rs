//! Packet router: demultiplexes received Ethernet frames to the protocol
//! handlers, which deliver them to sockets.
use vstd::prelude::*;
use crate::net::ethernet::{spec_parse_frame, EthernetFrame, ETHERTYPE_ARP};
use crate::net::protocol::{ProtocolHandler, ProtocolRegistry};
use crate::net::skbuff::{SkBuff, MAX_PACKET_SIZE};
use crate::net::socket::table::SocketTable;
use crate::net::socket::types::Protocol;
use crate::render::{push_decimal, spec_decimal};
use vstd::string::StringExecFns;
use std::sync::Arc;

verus! {

/// Routing counters; each wraps around on overflow.
#[derive(Debug, Clone, Copy)]
pub struct RouterStats {
    /// Packets delivered to a socket.
    pub packets_routed: usize,
    /// Packets dropped (malformed, unknown EtherType, no handler, no
    /// socket, full queue, or no buffer).
    pub packets_dropped: usize,
    /// Packets dropped because no buffer could be made for them.
    pub alloc_failed: usize,
    /// Packets handed to the ARP handler, delivered or not.
    pub arp_received: u32,
}

impl RouterStats {
    /// All counters at zero.
    pub fn new() -> (s: Self)
        ensures
            s.packets_routed == 0,
            s.packets_dropped == 0,
            s.alloc_failed == 0,
            s.arp_received == 0,
    {
        RouterStats { packets_routed: 0, packets_dropped: 0, alloc_failed: 0, arp_received: 0 }
    }
}

/// `n + 1`, wrapping to 0 past `usize::MAX`.
pub open spec fn spec_bump(n: usize) -> usize {
    if n == usize::MAX { 0 } else { (n + 1) as usize }
}

/// `n + 1`, wrapping to 0 past `u32::MAX`.
pub open spec fn spec_bump32(n: u32) -> u32 {
    if n == u32::MAX { 0 } else { (n + 1) as u32 }
}

/// Why a frame is dropped before any handler sees it: too short for an
/// Ethernet header, or an EtherType other than ARP.
pub open spec fn spec_rejected_frame(frame: Seq<u8>) -> bool {
    match spec_parse_frame(frame) {
        None => true,
        Some((_, _, ethertype, _)) => ethertype != ETHERTYPE_ARP,
    }
}

/// Route a received frame, received at `timestamp_us`. Frames too short
/// for an Ethernet header and frames with an EtherType other than ARP
/// are dropped; so are frames too large for a buffer (also counted as
/// allocation failures). The rest go, as a new sk_buff, to the handler
/// registered for their protocol; without one they are dropped. Returns
/// whether the frame was delivered, counting it as routed or dropped;
/// the ARP handler counts each frame it is handed as ARP received.
pub fn route_packet<H: ProtocolHandler + ?Sized>(
    stats: &mut RouterStats,
    registry: &ProtocolRegistry<H>,
    table: &mut SocketTable,
    frame_data: &[u8],
    timestamp_us: u64,
) -> (routed: bool)
    requires
        registry.wf(),
        old(table).wf(),
    ensures
        final(table).wf(),
        final(table).spec_bindings() == old(table).spec_bindings(),
        final(table).spec_bound_count() == old(table).spec_bound_count(),
        final(table).spec_next_ephemeral() == old(table).spec_next_ephemeral(),
        routed ==> final(stats).packets_routed == spec_bump(old(stats).packets_routed)
            && final(stats).packets_dropped == old(stats).packets_dropped
            && final(stats).alloc_failed == old(stats).alloc_failed,
        !routed ==> final(stats).packets_routed == old(stats).packets_routed
            && final(stats).packets_dropped == spec_bump(old(stats).packets_dropped),
        spec_rejected_frame(frame_data@) ==> !routed && *final(table) == *old(table)
            && final(stats).alloc_failed == old(stats).alloc_failed,
        !spec_rejected_frame(frame_data@) && frame_data@.len() > MAX_PACKET_SIZE ==> !routed
            && *final(table) == *old(table)
            && final(stats).alloc_failed == spec_bump(old(stats).alloc_failed),
        !spec_rejected_frame(frame_data@) && frame_data@.len() <= MAX_PACKET_SIZE ==>
            final(stats).alloc_failed == old(stats).alloc_failed,
        !spec_rejected_frame(frame_data@) && !registry.spec_protocols().contains(Protocol::Arp) ==> !routed && *final(table) == *old(table),
        !spec_rejected_frame(frame_data@) && frame_data@.len() <= MAX_PACKET_SIZE && registry.spec_protocols().contains(Protocol::Arp)
            ==> final(stats).arp_received == spec_bump32(old(stats).arp_received),
        !(!spec_rejected_frame(frame_data@) && frame_data@.len() <= MAX_PACKET_SIZE && registry.spec_protocols().contains(Protocol::Arp))
            ==> final(stats).arp_received == old(stats).arp_received,
        !spec_rejected_frame(frame_data@) && frame_data@.len() <= MAX_PACKET_SIZE && registry.spec_protocols().contains(Protocol::Arp) ==>
            exists|i: int, skb: Arc<SkBuff>|
                #![trigger registry.spec_handler(i), (*skb).spec_is_fresh(frame_data@, timestamp_us)]
                0 <= i < registry.spec_protocols().len()
                && registry.spec_protocols()[i] == Protocol::Arp
                && (*skb).spec_is_fresh(frame_data@, timestamp_us)
                && routed == (registry.spec_handler(i).spec_receive_result(*old(table), skb) is Ok),
{
    let frame = match EthernetFrame::parse(frame_data) {
        Some(frame) => frame,
        None => {
            stats.packets_dropped = stats.packets_dropped.wrapping_add(1);
            return false;
        },
    };
    let protocol = if frame.ethertype == ETHERTYPE_ARP {
        Protocol::Arp
    } else {
        stats.packets_dropped = stats.packets_dropped.wrapping_add(1);
        return false;
    };
    let skb = match SkBuff::from_dma(frame_data, timestamp_us) {
        Ok(skb) => skb,
        Err(_) => {
            stats.alloc_failed = stats.alloc_failed.wrapping_add(1);
            stats.packets_dropped = stats.packets_dropped.wrapping_add(1);
            return false;
        },
    };
    let ghost fresh = skb;
    let ghost table0 = *table;
    let routed = match registry.get(&protocol) {
        Some(handler) => {
            let ghost i = choose|i: int| 0 <= i < registry.spec_protocols().len()
                && registry.spec_protocols()[i] == protocol && *handler == registry.spec_handler(i);
            let r = handler.receive(stats, table, skb);
            proof {
                assert(registry.spec_protocols()[i] == Protocol::Arp);
                assert((*fresh).spec_is_fresh(frame_data@, timestamp_us));
                assert(r == registry.spec_handler(i).spec_receive_result(table0, fresh));
            }
            r.is_ok()
        },
        None => false,
    };
    if routed {
        stats.packets_routed = stats.packets_routed.wrapping_add(1);
    } else {
        stats.packets_dropped = stats.packets_dropped.wrapping_add(1);
    }
    routed
}


/// The figures shown by the network statistics report.
#[derive(Debug, Clone)]
pub struct NetworkStats {
    /// Router counters: routed, dropped, allocation failures.
    pub routed: usize,
    pub dropped: usize,
    pub alloc_failed: usize,
    /// Registered protocol handlers.
    pub protocols: usize,
    /// ARP packets received.
    pub arp_packets: u32,
    /// Open and bound sockets, and for each bound socket its index and
    /// RX queue depth.
    pub sockets_total: usize,
    pub sockets_bound: usize,
    pub queues: Vec<(usize, usize)>,
    /// Ethernet interrupts: total, RX errors, spurious.
    pub irq_total: u32,
    pub rx_errors: u32,
    pub irq_spurious: u32,
}

/// A label followed by a number in decimal.
pub open spec fn spec_count_line(label: Seq<char>, v: nat) -> Seq<char> {
    label + spec_decimal(v)
}

/// The line reporting one socket's RX queue.
pub open spec fn spec_queue_line(q: (usize, usize)) -> Seq<char> {
    "  Socket "@ + spec_decimal(q.0 as nat) + " RX queue:    "@ + spec_decimal(q.1 as nat) + " packets"@
}

/// Whether the report warns that buffers could not be allocated.
pub open spec fn spec_warn_alloc(s: NetworkStats) -> bool {
    s.alloc_failed > 0
}

/// Whether the report warns that packets are dropped and none routed.
pub open spec fn spec_warn_nothing_routed(s: NetworkStats) -> bool {
    s.dropped > 0 && s.routed == 0
}

/// The lines of the network statistics report: router counters,
/// protocols, sockets (one line per bound socket's queue), Ethernet
/// interrupts, then a warning when allocations failed and one when
/// packets were dropped but none routed.
pub open spec fn spec_stats_report(s: NetworkStats) -> Seq<Seq<char>> {
    let empty = Seq::<char>::empty();
    seq![
        "\n=== Network Stack Statistics ==="@,
        "Router:"@,
        spec_count_line("  Packets routed:       "@, s.routed as nat),
        spec_count_line("  Packets dropped:      "@, s.dropped as nat),
        spec_count_line("  sk_buff alloc failed: "@, s.alloc_failed as nat),
        empty,
        "Protocols:"@,
        spec_count_line("  Registered:           "@, s.protocols as nat) + " (ARP)"@,
        spec_count_line("  ARP packets RX:       "@, s.arp_packets as nat),
        empty,
        "Sockets:"@,
        spec_count_line("  Total allocated:      "@, s.sockets_total as nat),
        spec_count_line("  Bound sockets:        "@, s.sockets_bound as nat),
    ] + s.queues@.map_values(|q: (usize, usize)| spec_queue_line(q)) + seq![
        empty,
        "GENET Interrupts:"@,
        spec_count_line("  Total IRQs:           "@, s.irq_total as nat),
        spec_count_line("  RX errors:            "@, s.rx_errors as nat),
        spec_count_line("  Spurious (current):   "@, s.irq_spurious as nat),
    ] + (if spec_warn_alloc(s) {
        seq![empty, "  [WARNING] Heap allocation failures detected!"@,
            "            This indicates heap exhaustion - check memory usage"@]
    } else {
        Seq::empty()
    }) + (if spec_warn_nothing_routed(s) {
        seq![empty, "  [WARNING] No packets routed but some dropped!"@,
            "            Check: Is protocol registry initialized?"@, "                   Is socket bound?"@]
    } else {
        Seq::empty()
    }) + seq!["=====================================\n"@]
}

/// The texts of a list of lines.
pub open spec fn spec_texts(lines: Seq<String>) -> Seq<Seq<char>> {
    lines.map_values(|l: String| l@)
}

/// `label` followed by `v` in decimal.
fn count_line(label: &str, v: u64) -> (r: String)
    ensures
        r@ == spec_count_line(label@, v as nat),
{
    let mut out = String::from_str(label);
    push_decimal(&mut out, v);
    out
}

/// Append a line to the report.
fn push_line(lines: &mut Vec<String>, line: String)
    ensures
        spec_texts(final(lines)@) == spec_texts(old(lines)@).push(line@),
{
    lines.push(line);
    assert(spec_texts(lines@) =~= spec_texts(old(lines)@).push(line@));
}

/// The network statistics report, line by line (see
/// `spec_stats_report`).
pub fn debug_stats_lines(s: &NetworkStats) -> (lines: Vec<String>)
    ensures
        spec_texts(lines@) == spec_stats_report(*s),
{
    let mut lines: Vec<String> = Vec::new();
    push_line(&mut lines, String::from_str("\n=== Network Stack Statistics ==="));
    push_line(&mut lines, String::from_str("Router:"));
    push_line(&mut lines, count_line("  Packets routed:       ", s.routed as u64));
    push_line(&mut lines, count_line("  Packets dropped:      ", s.dropped as u64));
    push_line(&mut lines, count_line("  sk_buff alloc failed: ", s.alloc_failed as u64));
    push_line(&mut lines, String::new());
    push_line(&mut lines, String::from_str("Protocols:"));
    push_line(&mut lines, count_line("  Registered:           ", s.protocols as u64).concat(" (ARP)"));
    push_line(&mut lines, count_line("  ARP packets RX:       ", s.arp_packets as u64));
    push_line(&mut lines, String::new());
    push_line(&mut lines, String::from_str("Sockets:"));
    push_line(&mut lines, count_line("  Total allocated:      ", s.sockets_total as u64));
    push_line(&mut lines, count_line("  Bound sockets:        ", s.sockets_bound as u64));
    let ghost head = spec_texts(lines@);
    let mut i: usize = 0;
    while i < s.queues.len()
        invariant
            0 <= i <= s.queues@.len(),
            spec_texts(lines@) == head + s.queues@.take(i as int).map_values(|q: (usize, usize)| spec_queue_line(q)),
        decreases s.queues@.len() - i,
    {
        let (id, depth) = s.queues[i];
        let mut line = String::from_str("  Socket ");
        push_decimal(&mut line, id as u64);
        line.append(" RX queue:    ");
        push_decimal(&mut line, depth as u64);
        line.append(" packets");
        push_line(&mut lines, line);
        proof {
            assert(s.queues@.take(i + 1).map_values(|q: (usize, usize)| spec_queue_line(q))
                =~= s.queues@.take(i as int).map_values(|q: (usize, usize)| spec_queue_line(q)).push(spec_queue_line(s.queues@[i as int])));
        }
        i = i + 1;
    }
    proof {
        assert(s.queues@.take(s.queues@.len() as int) =~= s.queues@);
    }
    push_line(&mut lines, String::new());
    push_line(&mut lines, String::from_str("GENET Interrupts:"));
    push_line(&mut lines, count_line("  Total IRQs:           ", s.irq_total as u64));
    push_line(&mut lines, count_line("  RX errors:            ", s.rx_errors as u64));
    push_line(&mut lines, count_line("  Spurious (current):   ", s.irq_spurious as u64));
    if s.alloc_failed > 0 {
        push_line(&mut lines, String::new());
        push_line(&mut lines, String::from_str("  [WARNING] Heap allocation failures detected!"));
        push_line(&mut lines, String::from_str("            This indicates heap exhaustion - check memory usage"));
    }
    if s.dropped > 0 && s.routed == 0 {
        push_line(&mut lines, String::new());
        push_line(&mut lines, String::from_str("  [WARNING] No packets routed but some dropped!"));
        push_line(&mut lines, String::from_str("            Check: Is protocol registry initialized?"));
        push_line(&mut lines, String::from_str("                   Is socket bound?"));
    }
    push_line(&mut lines, String::from_str("=====================================\n"));
    proof {
        assert(spec_texts(lines@) =~= spec_stats_report(*s));
    }
    lines
}

/// The counters: routed, dropped, allocation failures.
pub fn stats(s: &RouterStats) -> (r: (usize, usize, usize))
    ensures
        r == (s.packets_routed, s.packets_dropped, s.alloc_failed),
{
    (s.packets_routed, s.packets_dropped, s.alloc_failed)
}

} // verus!
