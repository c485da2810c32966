//! Per-socket packet queues (RX and TX), FIFO with a fixed capacity.
use vstd::prelude::*;
use std::sync::Arc;
use crate::net::skbuff::SkBuff;
use crate::ring::RingBuffer;

verus! {

/// FIFO queue of packets with `CAPACITY` slots, one of them always free,
/// so it holds at most `CAPACITY - 1` packets.
pub struct SkBuffQueue {
    ring: RingBuffer<Arc<SkBuff>>,
}

impl SkBuffQueue {
    /// Number of slots; a queue holds at most `CAPACITY - 1` packets.
    pub const CAPACITY: usize = 8192;

    /// The queued packets, oldest first.
    pub closed spec fn view(&self) -> Seq<Arc<SkBuff>> {
        self.ring@
    }

    /// Internal consistency of the ring with `CAPACITY` slots.
    pub closed spec fn wf(&self) -> bool {
        self.ring.wf() && self.ring.spec_capacity() == Self::CAPACITY
    }

    /// A consistent queue holds at most `CAPACITY - 1` packets, so
    /// `enqueue` succeeds exactly while fewer are queued.
    pub proof fn lemma_len_bound(&self)
        requires
            self.wf(),
        ensures
            self@.len() < Self::CAPACITY,
            self@.len() <= Self::CAPACITY - 1,
    {
        self.ring.lemma_len_bound();
    }

    /// An empty queue.
    pub fn new() -> (q: Self)
        ensures
            q.wf(),
            q@ == Seq::<Arc<SkBuff>>::empty(),
    {
        SkBuffQueue { ring: RingBuffer::new(Self::CAPACITY) }
    }

    /// Append a packet; when `CAPACITY - 1` packets are queued it is
    /// handed back as `Err` and the queue is unchanged.
    pub fn enqueue(&mut self, skb: Arc<SkBuff>) -> (r: Result<(), Arc<SkBuff>>)
        requires
            old(self).wf(),
        ensures
            final(self).wf(),
            old(self)@.len() == Self::CAPACITY - 1 <==> r is Err,
            r is Err ==> r->Err_0 == skb && final(self)@ == old(self)@,
            r is Ok ==> final(self)@ == old(self)@.push(skb),
    {
        self.ring.enqueue(skb)
    }

    /// Remove the oldest packet; `None` when empty.
    pub fn dequeue(&mut self) -> (r: Option<Arc<SkBuff>>)
        requires
            old(self).wf(),
        ensures
            final(self).wf(),
            old(self)@.len() == 0 <==> r is None,
            r is None ==> final(self)@ == old(self)@,
            r is Some ==> r->Some_0 == old(self)@[0] && final(self)@ == old(self)@.drop_first(),
    {
        self.ring.dequeue()
    }

    /// Remove all queued packets, returning them oldest first.
    pub fn drain(&mut self) -> (items: Vec<Arc<SkBuff>>)
        requires
            old(self).wf(),
        ensures
            final(self).wf(),
            final(self)@ == Seq::<Arc<SkBuff>>::empty(),
            items@ == old(self)@,
    {
        self.ring.drain()
    }

    /// Number of queued packets.
    pub fn len(&self) -> (n: usize)
        requires
            self.wf(),
        ensures
            n == self@.len(),
    {
        self.ring.len()
    }

    /// Whether no packet is queued.
    pub fn is_empty(&self) -> (b: bool)
        requires
            self.wf(),
        ensures
            b == (self@.len() == 0),
    {
        self.ring.is_empty()
    }

    /// Whether `CAPACITY - 1` packets are queued.
    pub fn is_full(&self) -> (b: bool)
        requires
            self.wf(),
        ensures
            b == (self@.len() == Self::CAPACITY - 1),
    {
        self.ring.is_full()
    }
}

} // verus!
