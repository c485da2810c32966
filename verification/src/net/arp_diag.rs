//! ARP probe diagnostic: the probe frame sent, the recognition of ARP
//! replies among received frames, the bounded receive loop and the final
//! verdict. Sending, receiving and printing are the caller's.
use vstd::prelude::*;
use crate::net::arp::{spec_arp_bytes, spec_parse_arp, ArpOperation, ArpPacket};
use crate::net::ethernet::{spec_frame_bytes, spec_parse_frame, EthernetFrame, MacAddress, ETHERTYPE_ARP};

verus! {

/// Bytes the probe frame is padded to.
pub const PROBE_FRAME_SIZE: usize = 64;

/// Receive polls (100 ms apart) before giving up.
pub const PROBE_ITERATIONS: u32 = 20;

/// Frames taken in one poll before the watchdog stops the poll.
pub const FRAMES_PER_ITERATION: u32 = 100;

/// The probe: an ARP request from `our_mac`/`our_ip` for `target_ip`,
/// broadcast, padded with zeros to 64 bytes.
pub open spec fn spec_probe_frame(our_mac: Seq<u8>, our_ip: Seq<u8>, target_ip: Seq<u8>) -> Seq<u8> {
    spec_frame_bytes(
        seq![0xFFu8, 0xFFu8, 0xFFu8, 0xFFu8, 0xFFu8, 0xFFu8],
        our_mac,
        ETHERTYPE_ARP,
        spec_arp_bytes((1u16, 0x0800u16, 6u8, 4u8, ArpOperation::Request, our_mac, our_ip, seq![0u8, 0u8, 0u8, 0u8, 0u8, 0u8], target_ip)),
    ) + Seq::new(22, |i: int| 0u8)
}

/// The probe frame (see `spec_probe_frame`).
pub fn probe_frame(our_mac: MacAddress, our_ip: [u8; 4], target_ip: [u8; 4]) -> (frame: Vec<u8>)
    ensures
        frame@ == spec_probe_frame(our_mac.0@, our_ip@, target_ip@),
        frame@.len() == PROBE_FRAME_SIZE,
{
    let request = ArpPacket::request(our_mac, our_ip, target_ip);
    let mut arp_buffer: Vec<u8> = vec![0u8; 28];
    let arp_size = match request.write_to(arp_buffer.as_mut_slice()) {
        Some(n) => n,
        None => {
            assert(false);
            0
        },
    };
    let ghost arp_bytes = arp_buffer@;
    let bcast = MacAddress::broadcast();
    let eth = EthernetFrame::new(bcast, our_mac, ETHERTYPE_ARP, arp_buffer.as_slice());
    let mut frame: Vec<u8> = vec![0u8; PROBE_FRAME_SIZE];
    let ghost zeros = frame@;
    match eth.write_to(frame.as_mut_slice()) {
        Some(_) => {},
        None => {
            assert(false);
        },
    }
    proof {
        assert(arp_bytes =~= spec_arp_bytes(request.spec_fields()));
        assert(zeros.subrange(42, 64) =~= Seq::new(22, |i: int| 0u8));
        assert(request.target_mac.0@ =~= seq![0u8, 0u8, 0u8, 0u8, 0u8, 0u8]);
        assert(bcast.0@ =~= seq![0xFFu8, 0xFFu8, 0xFFu8, 0xFFu8, 0xFFu8, 0xFFu8]);
    }
    frame
}

/// Whether a received frame is an ARP reply: an Ethernet frame of type
/// ARP whose payload parses as an ARP packet with operation reply.
pub open spec fn spec_is_arp_reply(frame: Seq<u8>) -> bool {
    match spec_parse_frame(frame) {
        Some((_, _, ethertype, payload)) => ethertype == ETHERTYPE_ARP && match spec_parse_arp(payload) {
            Some(f) => f.4 == ArpOperation::Reply,
            None => false,
        },
        None => false,
    }
}

/// Whether a received frame is an ARP reply (see `spec_is_arp_reply`).
pub fn is_arp_reply(frame: &[u8]) -> (b: bool)
    ensures
        b == spec_is_arp_reply(frame@),
{
    match EthernetFrame::parse(frame) {
        None => false,
        Some(eth) => {
            if eth.ethertype != ETHERTYPE_ARP {
                return false;
            }
            match ArpPacket::parse(eth.payload) {
                Some(p) => match p.operation {
                    ArpOperation::Reply => true,
                    ArpOperation::Request => false,
                },
                None => false,
            }
        },
    }
}

/// What to do with a frame just taken.
#[derive(Debug, Clone, Copy, PartialEq, Eq, Structural)]
pub enum FrameAction {
    /// Give its buffer back and take the next one.
    Release,
    /// Too many frames in this poll: stop the poll (the frame's buffer
    /// is not given back).
    StopPoll,
}

/// Progress of the probe's receive loop.
#[derive(Debug, Clone, Copy, PartialEq, Eq, Structural)]
pub struct ProbeMonitor {
    /// Frames taken so far.
    pub total: u32,
    /// Frames taken in the current poll.
    pub in_iteration: u32,
    /// Polls finished.
    pub iteration: u32,
    /// Whether an ARP reply was seen.
    pub reply_received: bool,
    /// Whether a poll was cut short.
    pub watchdog: bool,
}

impl ProbeMonitor {
    /// Nothing received yet.
    pub fn new() -> (m: Self)
        ensures
            m == (ProbeMonitor { total: 0, in_iteration: 0, iteration: 0, reply_received: false, watchdog: false }),
    {
        ProbeMonitor { total: 0, in_iteration: 0, iteration: 0, reply_received: false, watchdog: false }
    }

    /// Count a frame taken in the current poll; past 100 frames the poll
    /// stops, else the frame is checked for an ARP reply.
    pub fn on_frame(&mut self, frame: &[u8]) -> (a: FrameAction)
        requires
            old(self).in_iteration <= FRAMES_PER_ITERATION,
            old(self).total < u32::MAX,
        ensures
            final(self).total == old(self).total + 1,
            final(self).in_iteration == old(self).in_iteration + 1,
            final(self).iteration == old(self).iteration,
            final(self).in_iteration > FRAMES_PER_ITERATION ==> a == FrameAction::StopPoll && final(self).watchdog
                && final(self).reply_received == old(self).reply_received,
            final(self).in_iteration <= FRAMES_PER_ITERATION ==> a == FrameAction::Release && final(self).watchdog == old(self).watchdog
                && final(self).reply_received == (old(self).reply_received || spec_is_arp_reply(frame@)),
    {
        self.total = self.total + 1;
        self.in_iteration = self.in_iteration + 1;
        if self.in_iteration > FRAMES_PER_ITERATION {
            self.watchdog = true;
            return FrameAction::StopPoll;
        }
        if is_arp_reply(frame) {
            self.reply_received = true;
        }
        FrameAction::Release
    }

    /// End the current poll; returns whether to wait 100 ms and poll
    /// again: not once a reply was seen, nor after the 20th poll.
    pub fn end_iteration(&mut self) -> (again: bool)
        requires
            old(self).iteration < PROBE_ITERATIONS,
        ensures
            final(self).total == old(self).total,
            final(self).reply_received == old(self).reply_received,
            final(self).watchdog == old(self).watchdog,
            final(self).in_iteration == 0,
            final(self).iteration == old(self).iteration + 1,
            again == (!old(self).reply_received && old(self).iteration + 1 < PROBE_ITERATIONS),
    {
        self.iteration = self.iteration + 1;
        self.in_iteration = 0;
        !self.reply_received && self.iteration < PROBE_ITERATIONS
    }
}

/// The outcome of the probe.
#[derive(Debug, Clone, Copy, PartialEq, Eq, Structural)]
pub enum ProbeVerdict {
    /// An ARP reply came back: sending and receiving work.
    Passed,
    /// Frames came in, but no ARP reply.
    ReceivedNoReply,
    /// The transmit counter moved but nothing came in.
    TxOnly,
    /// The transmit counter did not move.
    Failed,
}

/// The verdict from whether a reply came, how many frames came, and the
/// transmit counter before and after.
pub fn verdict(reply_received: bool, total_received: u32, tx_before: u32, tx_after: u32) -> (v: ProbeVerdict)
    ensures
        v == (if reply_received { ProbeVerdict::Passed }
            else if total_received > 0 { ProbeVerdict::ReceivedNoReply }
            else if tx_after > tx_before { ProbeVerdict::TxOnly }
            else { ProbeVerdict::Failed }),
{
    if reply_received {
        ProbeVerdict::Passed
    } else if total_received > 0 {
        ProbeVerdict::ReceivedNoReply
    } else if tx_after > tx_before {
        ProbeVerdict::TxOnly
    } else {
        ProbeVerdict::Failed
    }
}

/// How much a counter grew: `after - before`, or 0 if it went down.
pub fn counter_delta(after: u32, before: u32) -> (d: u32)
    ensures
        d == (if after >= before { (after - before) as u32 } else { 0u32 }),
{
    if after >= before {
        after - before
    } else {
        0
    }
}

} // verus!
