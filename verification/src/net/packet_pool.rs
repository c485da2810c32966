//! Packet buffer pool with reference counting: a fixed set of buffers,
//! a bitmap of the ones in use, and per-buffer reference counts so that
//! several holders can share one received packet.
use vstd::prelude::*;

verus! {

/// Number of buffers in the pool.
pub const PACKET_POOL_SIZE: usize = 256;

/// Largest packet a buffer holds.
pub const MAX_PACKET_SIZE: usize = 2048;

/// Words in the allocation bitmap (32 bits each).
pub const BITMAP_WORDS: usize = 8;

/// Bit `j` of `w` is set.
pub open spec fn bit_set(w: u32, j: u32) -> bool {
    (w >> j) & 1u32 == 1u32
}

/// Setting bit `b` of `w` sets that bit and leaves the others.
proof fn lemma_set_bit(w: u32, b: u32)
    requires
        b < 32,
    ensures
        bit_set(w | (1u32 << b), b),
        forall|j: u32| j < 32 && j != b ==> bit_set(w | (1u32 << b), j) == #[trigger] bit_set(w, j),
{
    assert(((w | (1u32 << b)) >> b) & 1u32 == 1u32) by (bit_vector)
        requires b < 32;
    assert forall|j: u32| j < 32 && j != b implies bit_set(w | (1u32 << b), j) == #[trigger] bit_set(w, j) by {
        assert(((w | (1u32 << b)) >> j) & 1u32 == (w >> j) & 1u32) by (bit_vector)
            requires b < 32, j < 32, j != b;
    }
}

/// Clearing bit `b` of `w` clears that bit and leaves the others.
proof fn lemma_clear_bit(w: u32, b: u32)
    requires
        b < 32,
    ensures
        !bit_set(w & !(1u32 << b), b),
        forall|j: u32| j < 32 && j != b ==> bit_set(w & !(1u32 << b), j) == #[trigger] bit_set(w, j),
{
    assert(((w & !(1u32 << b)) >> b) & 1u32 == 0u32) by (bit_vector)
        requires b < 32;
    assert forall|j: u32| j < 32 && j != b implies bit_set(w & !(1u32 << b), j) == #[trigger] bit_set(w, j) by {
        assert(((w & !(1u32 << b)) >> j) & 1u32 == (w >> j) & 1u32) by (bit_vector)
            requires b < 32, j < 32, j != b;
    }
}

/// Testing bit `b` of `w` with a mask.
proof fn lemma_test_bit(w: u32, b: u32)
    requires
        b < 32,
    ensures
        (w & (1u32 << b) != 0) == bit_set(w, b),
{
    assert((w & (1u32 << b) != 0) == ((w >> b) & 1u32 == 1u32)) by (bit_vector)
        requires b < 32;
}

/// The index of the first free (`false`) entry of `s`, if any.
pub open spec fn spec_first_free(s: Seq<bool>) -> Option<int> {
    if exists|i: int| 0 <= i < s.len() && !#[trigger] s[i] {
        Some(choose|i: int| 0 <= i < s.len() && !#[trigger] s[i] && forall|j: int| 0 <= j < i ==> #[trigger] s[j])
    } else {
        None
    }
}

/// The first free entry is free and every entry before it is in use;
/// with no free entry, every entry is in use.
pub proof fn lemma_first_free(s: Seq<bool>)
    ensures
        match spec_first_free(s) {
            Some(i) => 0 <= i < s.len() && !s[i] && forall|j: int| 0 <= j < i ==> #[trigger] s[j],
            None => forall|j: int| 0 <= j < s.len() ==> #[trigger] s[j],
        },
    decreases s.len(),
{
    if exists|i: int| 0 <= i < s.len() && !#[trigger] s[i] {
        let k = choose|i: int| 0 <= i < s.len() && !#[trigger] s[i];
        lemma_least_free(s, k);
    }
}

/// Some free entry at or before `k` has only entries in use before it.
proof fn lemma_least_free(s: Seq<bool>, k: int)
    requires
        0 <= k < s.len(),
        !s[k],
    ensures
        exists|i: int| 0 <= i < s.len() && !#[trigger] s[i] && forall|j: int| 0 <= j < i ==> #[trigger] s[j],
    decreases k,
{
    if forall|j: int| 0 <= j < k ==> #[trigger] s[j] {
        assert(0 <= k < s.len() && !s[k] && forall|j: int| 0 <= j < k ==> #[trigger] s[j]);
    } else {
        let j = choose|j: int| 0 <= j < k && !#[trigger] s[j];
        lemma_least_free(s, j);
    }
}

/// The first free entry is unique: an index that is free with all
/// entries before it in use is the first free entry.
pub proof fn lemma_first_free_unique(s: Seq<bool>, i: int)
    requires
        0 <= i < s.len(),
        !s[i],
        forall|j: int| 0 <= j < i ==> #[trigger] s[j],
    ensures
        spec_first_free(s) == Some(i),
{
    lemma_first_free(s);
    let f = spec_first_free(s)->Some_0;
    if f < i {
        assert(s[f]);
    } else if f > i {
        assert(s[i]);
    }
}

/// Freeing entry `i` of `s`: the first free entry becomes `i` if it lies
/// before the old one (or there was none), else stays.
pub proof fn lemma_free_then_first_free(s: Seq<bool>, i: int)
    requires
        0 <= i < s.len(),
        s[i],
    ensures
        spec_first_free(s.update(i, false)) == match spec_first_free(s) {
            Some(f) => if i < f { Some(i) } else { Some(f) },
            None => Some(i),
        },
{
    let t = s.update(i, false);
    lemma_first_free(s);
    match spec_first_free(s) {
        Some(f) => {
            if i < f {
                lemma_first_free_unique(t, i);
            } else {
                assert(t[f] == s[f]);
                assert forall|j: int| 0 <= j < f implies #[trigger] t[j] by {
                    assert(s[j]);
                }
                lemma_first_free_unique(t, f);
            }
        },
        None => {
            lemma_first_free_unique(t, i);
        },
    }
}

/// Allocation bitmap: one bit per buffer, set while it is in use. (Access
/// is serialised by the pool's owner, so the bits need no atomic operations.)
pub struct AtomicBitmap {
    words: Vec<u32>,
}

impl AtomicBitmap {
    /// Whether each of the `PACKET_POOL_SIZE` buffers is in use.
    pub closed spec fn view(&self) -> Seq<bool> {
        Seq::new(PACKET_POOL_SIZE as nat, |i: int| bit_set(self.words@[i / 32], (i % 32) as u32))
    }

    /// Exactly `BITMAP_WORDS` words.
    pub closed spec fn wf(&self) -> bool {
        self.words@.len() == BITMAP_WORDS
    }

    /// All buffers free.
    pub fn new() -> (b: Self)
        ensures
            b.wf(),
            b@ == Seq::new(PACKET_POOL_SIZE as nat, |i: int| false),
    {
        let b = AtomicBitmap { words: vec![0u32; BITMAP_WORDS] };
        assert forall|w: u32, j: u32| w == 0 && j < 32 implies !bit_set(w, j) by {
            assert((0u32 >> j) & 1u32 == 0u32) by (bit_vector)
                requires j < 32;
        }
        assert(b@ =~= Seq::new(PACKET_POOL_SIZE as nat, |i: int| false)) by {
            assert forall|i: int| 0 <= i < PACKET_POOL_SIZE implies b@[i] == false by {
                assert(b.words@[i / 32] == 0);
            }
        }
        b
    }

    /// Mark the first free buffer in use and return its index; `None`,
    /// changing nothing, when all are in use.
    pub fn acquire_bit(&mut self) -> (r: Option<usize>)
        requires
            old(self).wf(),
        ensures
            final(self).wf(),
            match spec_first_free(old(self)@) {
                None => r is None && final(self)@ == old(self)@,
                Some(i) => r == Some(i as usize) && final(self)@ == old(self)@.update(i, true),
            },
    {
        let mut w: usize = 0;
        while w < BITMAP_WORDS
            invariant
                self.wf(),
                *self == *old(self),
                0 <= w <= BITMAP_WORDS,
                forall|i: int| 0 <= i < w * 32 ==> #[trigger] self@[i],
            decreases BITMAP_WORDS - w,
        {
            let current = self.words[w];
            let free_bit = current.trailing_ones();
            proof {
                vstd::std_specs::bits::axiom_u32_trailing_ones(current);
            }
            if free_bit < 32 {
                let new_value = current | (1u32 << free_bit);
                let ghost before = self@;
                self.words.set(w, new_value);
                let idx = w * 32 + free_bit as usize;
                proof {
                    lemma_set_bit(current, free_bit);
                    assert(!before[idx as int]);
                    assert forall|i: int| 0 <= i < idx implies #[trigger] before[i] by {
                        if i >= w * 32 {
                            let j = (i - w * 32) as u32;
                            assert(j < free_bit);
                            assert((current >> j) & 1u32 == 1u32);
                        }
                    }
                    lemma_first_free_unique(before, idx as int);
                    assert(self@ =~= before.update(idx as int, true)) by {
                        assert forall|i: int| 0 <= i < PACKET_POOL_SIZE implies self@[i] == before.update(idx as int, true)[i] by {
                            if i / 32 != w {
                                assert(self.words@[i / 32] == old(self).words@[i / 32]);
                            } else if i != idx {
                                assert((i % 32) as u32 != free_bit);
                            }
                        }
                    }
                }
                return Some(idx);
            }
            proof {
                assert(current == 0xffff_ffffu32);
                assert forall|i: int| w * 32 <= i < (w + 1) * 32 implies #[trigger] self@[i] by {
                    let j = (i % 32) as u32;
                    assert((0xffff_ffffu32 >> j) & 1u32 == 1u32) by (bit_vector)
                        requires j < 32;
                }
            }
            w = w + 1;
        }
        proof {
            lemma_first_free(self@);
            if spec_first_free(self@) is Some {
                let f = spec_first_free(self@)->Some_0;
                assert(self@[f]);
            }
        }
        None
    }

    /// Mark buffer `bit_idx` free. Freeing a free buffer is an error.
    pub fn release_bit(&mut self, bit_idx: usize)
        requires
            old(self).wf(),
            bit_idx < PACKET_POOL_SIZE,
            old(self)@[bit_idx as int],
        ensures
            final(self).wf(),
            final(self)@ == old(self)@.update(bit_idx as int, false),
    {
        let w = bit_idx / 32;
        let b = (bit_idx % 32) as u32;
        let current = self.words[w];
        self.words.set(w, current & !(1u32 << b));
        proof {
            lemma_clear_bit(current, b);
            assert(self@ =~= old(self)@.update(bit_idx as int, false)) by {
                assert forall|i: int| 0 <= i < PACKET_POOL_SIZE implies self@[i] == old(self)@.update(bit_idx as int, false)[i] by {
                    if i / 32 != w as int {
                        assert(self.words@[i / 32] == old(self).words@[i / 32]);
                    } else if i != bit_idx {
                        assert((i % 32) as u32 != b);
                    }
                }
            }
        }
    }

    /// Whether buffer `bit_idx` is in use.
    pub fn is_allocated(&self, bit_idx: usize) -> (r: bool)
        requires
            self.wf(),
            bit_idx < PACKET_POOL_SIZE,
        ensures
            r == self@[bit_idx as int],
    {
        let w = bit_idx / 32;
        let b = (bit_idx % 32) as u32;
        proof {
            lemma_test_bit(self.words@[w as int], b);
        }
        (self.words[w] & (1u32 << b)) != 0
    }
}

/// One pool buffer: the packet bytes, how many holders share it (0 when
/// free) and when it was received.
pub struct PacketBuffer {
    data: Vec<u8>,
    refcount: u32,
    timestamp: u64,
}

impl PacketBuffer {
    /// An empty, free buffer.
    fn new() -> (b: Self)
        ensures
            b.data@.len() == 0,
            b.refcount == 0,
            b.timestamp == 0,
    {
        PacketBuffer { data: Vec::new(), refcount: 0, timestamp: 0 }
    }
}

/// Pool counters; each wraps around on overflow.
#[derive(Debug, Clone, Copy)]
pub struct PacketPoolStats {
    /// Buffers handed out.
    pub alloc_count: usize,
    /// Buffers returned to the pool.
    pub free_count: usize,
    /// Allocations refused because every buffer was in use.
    pub alloc_failures: usize,
}

/// Pool of `PACKET_POOL_SIZE` reference-counted packet buffers.
pub struct PacketPool {
    buffers: Vec<PacketBuffer>,
    free_list: AtomicBitmap,
    alloc_count: usize,
    free_count: usize,
    alloc_failures: usize,
}

/// `n + 1`, wrapping to 0 past `usize::MAX`.
pub open spec fn spec_wrapping_inc(n: usize) -> usize {
    if n == usize::MAX { 0 } else { (n + 1) as usize }
}

impl PacketPool {
    /// Which buffers are in use.
    pub closed spec fn spec_in_use(&self) -> Seq<bool> {
        self.free_list@
    }

    /// The reference count of buffer `i`.
    pub closed spec fn spec_refcount(&self, i: int) -> u32 {
        self.buffers@[i].refcount
    }

    /// The packet held by buffer `i`.
    pub closed spec fn spec_data(&self, i: int) -> Seq<u8> {
        self.buffers@[i].data@
    }

    /// When the packet in buffer `i` was received.
    pub closed spec fn spec_timestamp(&self, i: int) -> u64 {
        self.buffers@[i].timestamp
    }

    /// The counters.
    pub closed spec fn spec_stats(&self) -> PacketPoolStats {
        PacketPoolStats { alloc_count: self.alloc_count, free_count: self.free_count, alloc_failures: self.alloc_failures }
    }

    /// `PACKET_POOL_SIZE` buffers; a buffer is marked in use exactly when
    /// it has holders.
    pub closed spec fn wf(&self) -> bool {
        &&& self.buffers@.len() == PACKET_POOL_SIZE
        &&& self.free_list.wf()
        &&& forall|i: int| 0 <= i < PACKET_POOL_SIZE ==> (#[trigger] self.free_list@[i] <==> self.buffers@[i].refcount > 0)
    }

    /// Buffer `i` has holders exactly when it is marked in use.
    pub proof fn lemma_in_use_iff_held(&self, i: int)
        requires
            self.wf(),
            0 <= i < PACKET_POOL_SIZE,
        ensures
            self.spec_in_use().len() == PACKET_POOL_SIZE,
            self.spec_in_use()[i] <==> self.spec_refcount(i) > 0,
    {
    }

    /// A pool with every buffer free and the counters at zero.
    pub fn new() -> (p: Self)
        ensures
            p.wf(),
            p.spec_in_use() == Seq::new(PACKET_POOL_SIZE as nat, |i: int| false),
            forall|i: int| 0 <= i < PACKET_POOL_SIZE ==> #[trigger] p.spec_refcount(i) == 0 && p.spec_timestamp(i) == 0 && p.spec_data(i).len() == 0,
            p.spec_stats() == (PacketPoolStats { alloc_count: 0, free_count: 0, alloc_failures: 0 }),
    {
        let mut buffers: Vec<PacketBuffer> = Vec::new();
        let mut i: usize = 0;
        while i < PACKET_POOL_SIZE
            invariant
                0 <= i <= PACKET_POOL_SIZE,
                buffers@.len() == i,
                forall|j: int| 0 <= j < i ==> #[trigger] buffers@[j].refcount == 0 && buffers@[j].timestamp == 0 && buffers@[j].data@.len() == 0,
            decreases PACKET_POOL_SIZE - i,
        {
            buffers.push(PacketBuffer::new());
            i = i + 1;
        }
        let p = PacketPool { buffers, free_list: AtomicBitmap::new(), alloc_count: 0, free_count: 0, alloc_failures: 0 };
        assert forall|i: int| 0 <= i < PACKET_POOL_SIZE implies #[trigger] p.spec_refcount(i) == 0 && p.spec_timestamp(i) == 0 && p.spec_data(i).len() == 0 by {
            assert(p.buffers@[i].refcount == 0);
        }
        p
    }

    /// Copy a received packet into the first free buffer, with one
    /// holder and receive time `timestamp_us`, and return its index.
    /// `None` when the packet is longer than `MAX_PACKET_SIZE` (nothing
    /// changes) or every buffer is in use (counted as a failure).
    pub fn allocate(&mut self, data: &[u8], timestamp_us: u64) -> (r: Option<usize>)
        requires
            old(self).wf(),
        ensures
            final(self).wf(),
            data@.len() > MAX_PACKET_SIZE ==> r is None && *final(self) == *old(self),
            data@.len() <= MAX_PACKET_SIZE ==> match spec_first_free(old(self).spec_in_use()) {
                None => {
                    &&& r is None
                    &&& final(self).spec_in_use() == old(self).spec_in_use()
                    &&& forall|i: int| 0 <= i < PACKET_POOL_SIZE ==> #[trigger] final(self).spec_refcount(i) == old(self).spec_refcount(i)
                        && final(self).spec_data(i) == old(self).spec_data(i) && final(self).spec_timestamp(i) == old(self).spec_timestamp(i)
                    &&& final(self).spec_stats() == (PacketPoolStats { alloc_failures: spec_wrapping_inc(old(self).spec_stats().alloc_failures), ..old(self).spec_stats() })
                },
                Some(id) => {
                    &&& r == Some(id as usize)
                    &&& final(self).spec_in_use() == old(self).spec_in_use().update(id, true)
                    &&& final(self).spec_refcount(id) == 1
                    &&& final(self).spec_data(id) == data@
                    &&& final(self).spec_timestamp(id) == timestamp_us
                    &&& forall|i: int| 0 <= i < PACKET_POOL_SIZE && i != id ==> #[trigger] final(self).spec_refcount(i) == old(self).spec_refcount(i)
                        && final(self).spec_data(i) == old(self).spec_data(i) && final(self).spec_timestamp(i) == old(self).spec_timestamp(i)
                    &&& final(self).spec_stats() == (PacketPoolStats { alloc_count: spec_wrapping_inc(old(self).spec_stats().alloc_count), ..old(self).spec_stats() })
                },
            },
    {
        if data.len() > MAX_PACKET_SIZE {
            return None;
        }
        let id = match self.free_list.acquire_bit() {
            Some(id) => id,
            None => {
                self.alloc_failures = self.alloc_failures.wrapping_add(1);
                return None;
            },
        };
        proof {
            lemma_first_free(old(self).free_list@);
        }
        let buffer = PacketBuffer { data: vstd::slice::slice_to_vec(data), refcount: 1, timestamp: timestamp_us };
        self.buffers.set(id, buffer);
        self.alloc_count = self.alloc_count.wrapping_add(1);
        Some(id)
    }

    /// Add a holder to buffer `buffer_id`, which must be in use.
    pub fn clone_ref(&mut self, buffer_id: usize)
        requires
            old(self).wf(),
            buffer_id < PACKET_POOL_SIZE,
            old(self).spec_refcount(buffer_id as int) > 0,
            old(self).spec_refcount(buffer_id as int) < u32::MAX,
        ensures
            final(self).wf(),
            final(self).spec_in_use() == old(self).spec_in_use(),
            final(self).spec_stats() == old(self).spec_stats(),
            final(self).spec_refcount(buffer_id as int) == old(self).spec_refcount(buffer_id as int) + 1,
            forall|i: int| 0 <= i < PACKET_POOL_SIZE ==> #[trigger] final(self).spec_data(i) == old(self).spec_data(i)
                && final(self).spec_timestamp(i) == old(self).spec_timestamp(i),
            forall|i: int| 0 <= i < PACKET_POOL_SIZE && i != buffer_id ==> #[trigger] final(self).spec_refcount(i) == old(self).spec_refcount(i),
    {
        let mut buffer = PacketBuffer::new();
        self.buffers.set_and_swap(buffer_id, &mut buffer);
        buffer.refcount = buffer.refcount + 1;
        self.buffers.set(buffer_id, buffer);
    }

    /// Drop a holder of buffer `buffer_id`, which must be in use; the last
    /// holder returns the buffer to the pool (counted as a free).
    pub fn free(&mut self, buffer_id: usize)
        requires
            old(self).wf(),
            buffer_id < PACKET_POOL_SIZE,
            old(self).spec_refcount(buffer_id as int) > 0,
        ensures
            final(self).wf(),
            final(self).spec_refcount(buffer_id as int) == old(self).spec_refcount(buffer_id as int) - 1,
            forall|i: int| 0 <= i < PACKET_POOL_SIZE ==> #[trigger] final(self).spec_data(i) == old(self).spec_data(i)
                && final(self).spec_timestamp(i) == old(self).spec_timestamp(i),
            forall|i: int| 0 <= i < PACKET_POOL_SIZE && i != buffer_id ==> #[trigger] final(self).spec_refcount(i) == old(self).spec_refcount(i),
            old(self).spec_refcount(buffer_id as int) == 1 ==> {
                &&& final(self).spec_in_use() == old(self).spec_in_use().update(buffer_id as int, false)
                &&& final(self).spec_stats() == (PacketPoolStats { free_count: spec_wrapping_inc(old(self).spec_stats().free_count), ..old(self).spec_stats() })
            },
            old(self).spec_refcount(buffer_id as int) > 1 ==> {
                &&& final(self).spec_in_use() == old(self).spec_in_use()
                &&& final(self).spec_stats() == old(self).spec_stats()
            },
    {
        let mut buffer = PacketBuffer::new();
        self.buffers.set_and_swap(buffer_id, &mut buffer);
        let was_last = buffer.refcount == 1;
        buffer.refcount = buffer.refcount - 1;
        self.buffers.set(buffer_id, buffer);
        if was_last {
            self.free_list.release_bit(buffer_id);
            self.free_count = self.free_count.wrapping_add(1);
        }
    }

    /// The packet in buffer `buffer_id`, which must be in use.
    pub fn get(&self, buffer_id: usize) -> (r: &[u8])
        requires
            self.wf(),
            buffer_id < PACKET_POOL_SIZE,
            self.spec_refcount(buffer_id as int) > 0,
        ensures
            r@ == self.spec_data(buffer_id as int),
    {
        self.buffers[buffer_id].data.as_slice()
    }

    /// When the packet in buffer `buffer_id` was received.
    pub fn timestamp(&self, buffer_id: usize) -> (t: u64)
        requires
            self.wf(),
            buffer_id < PACKET_POOL_SIZE,
        ensures
            t == self.spec_timestamp(buffer_id as int),
    {
        self.buffers[buffer_id].timestamp
    }

    /// The counters.
    pub fn stats(&self) -> (s: PacketPoolStats)
        ensures
            s == self.spec_stats(),
    {
        PacketPoolStats { alloc_count: self.alloc_count, free_count: self.free_count, alloc_failures: self.alloc_failures }
    }
}

/// Freeing the last holder of a buffer and allocating again hands out
/// that buffer when it is the lowest-numbered free one, and otherwise the
/// buffer that was first free before.
pub proof fn lemma_free_then_alloc(before: Seq<bool>, i: int)
    requires
        before.len() == PACKET_POOL_SIZE,
        0 <= i < PACKET_POOL_SIZE,
        before[i],
    ensures
        spec_first_free(before.update(i, false)) == match spec_first_free(before) {
            Some(f) => if i < f { Some(i) } else { Some(f) },
            None => Some(i),
        },
        spec_first_free(before) is None ==> spec_first_free(before.update(i, false)) == Some(i),
{
    lemma_free_then_first_free(before, i);
}

/// Allocation fails, with the packet size in bounds, exactly when every
/// buffer is in use.
pub proof fn lemma_alloc_fails_iff_full(in_use: Seq<bool>)
    requires
        in_use.len() == PACKET_POOL_SIZE,
    ensures
        spec_first_free(in_use) is None <==> forall|j: int| 0 <= j < PACKET_POOL_SIZE ==> #[trigger] in_use[j],
{
    lemma_first_free(in_use);
    if forall|j: int| 0 <= j < PACKET_POOL_SIZE ==> #[trigger] in_use[j] {
        if spec_first_free(in_use) is Some {
            let f = spec_first_free(in_use)->Some_0;
            assert(in_use[f]);
        }
    }
}

} // verus!
