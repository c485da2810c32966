//! BCM2711 system timer: a 64-bit counter at 1 MHz read as two 32-bit
//! halves (CHI, CLO). The register reads are the caller's; this module
//! decides what they mean and when a delay is over.
use vstd::prelude::*;

verus! {

/// Physical base address of the system timer.
pub const TIMER_BASE: usize = 0xFE00_3000;

/// Offset of the control/status register.
pub const CS_OFFSET: usize = 0x00;

/// Offset of the lower 32 bits of the counter.
pub const CLO_OFFSET: usize = 0x04;

/// Offset of the upper 32 bits of the counter.
pub const CHI_OFFSET: usize = 0x08;

/// Counter ticks per second.
pub const TICKS_PER_SECOND: u64 = 1_000_000;

/// The 64-bit counter value with upper half `hi` and lower half `lo`.
pub open spec fn spec_counter(hi: u32, lo: u32) -> u64 {
    (hi as int * 0x1_0000_0000 + lo as int) as u64
}

/// `hi * 2^32 + lo` is the shifted-or of the halves.
proof fn lemma_combine(hi: u32, lo: u32)
    ensures
        ((hi as u64) << 32u64) | (lo as u64) == spec_counter(hi, lo),
        spec_counter(hi, lo) == hi as int * 0x1_0000_0000 + lo as int,
{
    assert(((hi as u64) << 32u64) | (lo as u64) == hi as u64 * 0x1_0000_0000u64 + lo as u64) by (bit_vector);
    assert(hi as int * 0x1_0000_0000 + lo as int <= u64::MAX) by (nonlinear_arith)
        requires hi <= u32::MAX, lo <= u32::MAX;
}

/// The system timer.
pub struct SystemTimer;

impl SystemTimer {
    /// The counter value from one read sequence CHI, CLO, CHI: the
    /// combined value when both CHI reads agree, else `None` (CLO rolled
    /// over between the reads; read again).
    pub fn read_counter(hi1: u32, lo: u32, hi2: u32) -> (r: Option<u64>)
        ensures
            hi1 == hi2 ==> r == Some(spec_counter(hi1, lo)),
            hi1 != hi2 ==> r is None,
    {
        if hi1 == hi2 {
            proof {
                lemma_combine(hi1, lo);
            }
            Some(((hi1 as u64) << 32u64) | (lo as u64))
        } else {
            None
        }
    }

    /// The timestamp in microseconds from one read sequence; the same as
    /// `read_counter`.
    pub fn timestamp_us(hi1: u32, lo: u32, hi2: u32) -> (r: Option<u64>)
        ensures
            hi1 == hi2 ==> r == Some(spec_counter(hi1, lo)),
            hi1 != hi2 ==> r is None,
    {
        Self::read_counter(hi1, lo, hi2)
    }

    /// A busy-wait of `microseconds` starting at counter value `start`.
    pub fn delay_us(start: u64, microseconds: u64) -> (d: Delay)
        ensures
            d.start == start,
            d.target == spec_wrapping_add(start, microseconds),
            d.waiting_for_wrap == (d.target < start),
    {
        let target = start.wrapping_add(microseconds);
        Delay { start, target, waiting_for_wrap: target < start }
    }

    /// A busy-wait of `milliseconds` (saturating at `u64::MAX`
    /// microseconds) starting at counter value `start`.
    pub fn delay_ms(start: u64, milliseconds: u64) -> (d: Delay)
        ensures
            d.start == start,
            d.target == spec_wrapping_add(start, spec_saturating_mul(milliseconds, 1000)),
            d.waiting_for_wrap == (d.target < start),
    {
        let us = match milliseconds.checked_mul(1000) {
            Some(us) => us,
            None => u64::MAX,
        };
        Self::delay_us(start, us)
    }

    /// Whole seconds of uptime for a counter value.
    pub fn uptime_seconds(counter: u64) -> (s: u64)
        ensures
            s == counter / 1_000_000,
    {
        counter / TICKS_PER_SECOND
    }
}

/// `a + b` modulo 2^64.
pub open spec fn spec_wrapping_add(a: u64, b: u64) -> u64 {
    if a + b > u64::MAX { (a + b - 0x1_0000_0000_0000_0000) as u64 } else { (a + b) as u64 }
}

/// `a * b`, or `u64::MAX` when that overflows.
pub open spec fn spec_saturating_mul(a: u64, b: u64) -> u64 {
    if a * b > u64::MAX { u64::MAX } else { (a * b) as u64 }
}

/// A busy-wait in progress: wait (if the target wrapped past zero) until
/// the counter wraps below `start`, then until it reaches `target`.
#[derive(Debug, Clone, Copy)]
pub struct Delay {
    pub start: u64,
    pub target: u64,
    pub waiting_for_wrap: bool,
}

impl Delay {
    /// Feed the counter value `now`; returns whether the delay is over.
    /// While waiting for the wrap, a value below `start` ends that wait
    /// (the delay goes on); afterwards the delay is over once `now`
    /// reaches `target`.
    pub fn poll(&mut self, now: u64) -> (done: bool)
        ensures
            final(self).start == old(self).start,
            final(self).target == old(self).target,
            old(self).waiting_for_wrap ==> !done && final(self).waiting_for_wrap == (now >= old(self).start),
            !old(self).waiting_for_wrap ==> !final(self).waiting_for_wrap && done == (now >= old(self).target),
    {
        if self.waiting_for_wrap {
            if now < self.start {
                self.waiting_for_wrap = false;
            }
            false
        } else {
            now >= self.target
        }
    }
}

/// A delay that has not wrapped is over exactly when the counter has
/// advanced by the requested time.
pub proof fn lemma_delay_done(start: u64, microseconds: u64, now: u64)
    requires
        start + microseconds <= u64::MAX,
    ensures
        spec_wrapping_add(start, microseconds) >= start,
        now >= spec_wrapping_add(start, microseconds) <==> now - start >= microseconds,
{
}


/// Reading the counter later never gives a smaller value: the combined
/// value follows the order of the halves (upper half first).
pub proof fn lemma_counter_order(hi1: u32, lo1: u32, hi2: u32, lo2: u32)
    requires
        hi1 < hi2 || (hi1 == hi2 && lo1 <= lo2),
    ensures
        spec_counter(hi1, lo1) <= spec_counter(hi2, lo2),
{
    lemma_combine(hi1, lo1);
    lemma_combine(hi2, lo2);
}

} // verus!
