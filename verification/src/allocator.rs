//! Bump allocator for the kernel heap: blocks are handed out one after
//! another, aligned, until the heap is used up; nothing is given back.
use vstd::prelude::*;

verus! {

/// Whether `a` is a power of two.
pub open spec fn is_power_of_two(a: usize) -> bool {
    a > 0 && a & ((a - 1) as usize) == 0
}

/// `n` rounded up to a multiple of the power of two `align`.
pub open spec fn spec_align_up(n: usize, align: usize) -> usize {
    ((n + align - 1) as usize) & !((align - 1) as usize)
}

/// Rounding up to a power of two gives a multiple of it (its low bits
/// clear) at or above `n` and below `n + align`.
pub proof fn lemma_align_up(n: usize, align: usize)
    requires
        is_power_of_two(align),
        n + align - 1 <= usize::MAX,
    ensures
        spec_align_up(n, align) >= n,
        spec_align_up(n, align) < n + align,
        spec_align_up(n, align) & ((align - 1) as usize) == 0,
{
    let m = (n + align - 1) as usize;
    let a1 = (align - 1) as usize;
    let x = m & !a1;
    assert(x <= m) by (bit_vector)
        requires x == m & !a1;
    assert(x + (m & a1) == m) by (bit_vector)
        requires x == m & !a1;
    assert(m & a1 <= a1) by (bit_vector);
    assert(x & a1 == 0) by (bit_vector)
        requires x == m & !a1;
}

/// A heap between `heap_start` and `heap_end`, with the next free byte.
pub struct BumpAllocator {
    heap_start: usize,
    heap_end: usize,
    next: usize,
}

impl BumpAllocator {
    pub closed spec fn spec_heap_start(&self) -> usize {
        self.heap_start
    }

    pub closed spec fn spec_heap_end(&self) -> usize {
        self.heap_end
    }

    /// The next free byte.
    pub closed spec fn spec_next(&self) -> usize {
        self.next
    }

    /// The next free byte lies within the heap.
    pub closed spec fn wf(&self) -> bool {
        self.heap_start <= self.next <= self.heap_end
    }

    /// An allocator without a heap.
    pub fn new() -> (a: Self)
        ensures
            a.wf(),
            a.spec_heap_start() == 0 && a.spec_heap_end() == 0 && a.spec_next() == 0,
    {
        BumpAllocator { heap_start: 0, heap_end: 0, next: 0 }
    }

    /// Give the allocator the heap `heap_start..heap_end`: non-zero
    /// bounds, at least 1 KiB, the start 16-byte aligned.
    pub fn init(&mut self, heap_start: usize, heap_end: usize)
        requires
            heap_start < heap_end,
            heap_start != 0,
            heap_end - heap_start >= 1024,
            heap_start % 16 == 0,
        ensures
            final(self).wf(),
            final(self).spec_heap_start() == heap_start,
            final(self).spec_heap_end() == heap_end,
            final(self).spec_next() == heap_start,
    {
        self.heap_start = heap_start;
        self.heap_end = heap_end;
        self.next = heap_start;
    }

    /// Size of the heap.
    pub fn heap_size(&self) -> (n: usize)
        requires
            self.wf(),
        ensures
            n == self.spec_heap_end() - self.spec_heap_start(),
    {
        self.heap_end - self.heap_start
    }

    /// Bytes handed out (alignment gaps included).
    pub fn used(&self) -> (n: usize)
        requires
            self.wf(),
        ensures
            n == self.spec_next() - self.spec_heap_start(),
    {
        self.next - self.heap_start
    }

    /// Bytes left.
    pub fn free(&self) -> (n: usize)
        requires
            self.wf(),
        ensures
            n == self.spec_heap_end() - self.spec_next(),
    {
        self.heap_end - self.next
    }

    /// Hand out `size` bytes aligned to `align` (a power of two): the
    /// next free byte rounded up to the alignment; `None`, changing
    /// nothing, when the block would end past the heap.
    pub fn allocate(&mut self, size: usize, align: usize) -> (r: Option<usize>)
        requires
            old(self).wf(),
            is_power_of_two(align),
            old(self).spec_heap_end() + align <= usize::MAX,
        ensures
            final(self).wf(),
            final(self).spec_heap_start() == old(self).spec_heap_start(),
            final(self).spec_heap_end() == old(self).spec_heap_end(),
            ({
                let start = spec_align_up(old(self).spec_next(), align);
                if start + size > old(self).spec_heap_end() {
                    r is None && *final(self) == *old(self)
                } else {
                    r == Some(start) && final(self).spec_next() == start + size
                }
            }),
    {
        let mask = align - 1;
        let alloc_start = (self.next + mask) & !mask;
        proof {
            lemma_align_up(self.next, align);
        }
        if alloc_start > self.heap_end || size > self.heap_end - alloc_start {
            return None;
        }
        self.next = alloc_start + size;
        Some(alloc_start)
    }
}

/// Used and free space always add up to the heap, and a block handed out
/// is aligned, lies within the heap, and starts at or after every block
/// handed out before it.
pub proof fn lemma_alloc_block(next: usize, heap_end: usize, size: usize, align: usize)
    requires
        is_power_of_two(align),
        next <= heap_end,
        heap_end + align <= usize::MAX,
        spec_align_up(next, align) + size <= heap_end,
    ensures
        spec_align_up(next, align) & ((align - 1) as usize) == 0,
        next <= spec_align_up(next, align),
        spec_align_up(next, align) + size <= heap_end,
{
    lemma_align_up(next, align);
}

} // verus!
