//! A fixed-capacity FIFO ring with one slot kept free to tell a full ring
//! from an empty one. Both the socket packet queues and the UART receive
//! buffer are built on it.
use vstd::prelude::*;

verus! {

/// `k` reduced once by `cap`: the slot index that follows a position
/// below `2 * cap`.
pub open spec fn wrap(k: int, cap: int) -> int {
    if k < cap { k } else { k - cap }
}

/// Ring of `cap` slots holding up to `cap - 1` items between `tail`
/// (oldest) and `head` (next free slot).
pub struct RingBuffer<T> {
    slots: Vec<Option<T>>,
    head: usize,
    tail: usize,
}

impl<T> RingBuffer<T> {
    /// Number of slots.
    pub closed spec fn spec_capacity(&self) -> nat {
        self.slots@.len()
    }

    /// Number of queued items.
    pub closed spec fn spec_len(&self) -> nat {
        if self.head >= self.tail {
            (self.head - self.tail) as nat
        } else {
            (self.head + self.slots@.len() - self.tail) as nat
        }
    }

    /// The queued items, oldest first.
    pub closed spec fn view(&self) -> Seq<T> {
        Seq::new(self.spec_len(), |i: int| self.slots@[wrap(self.tail + i, self.slots@.len() as int)]->Some_0)
    }

    /// Indices in range, and every slot between tail and head filled.
    pub closed spec fn wf(&self) -> bool {
        &&& self.slots@.len() >= 2
        &&& self.head < self.slots@.len()
        &&& self.tail < self.slots@.len()
        &&& forall|i: int| 0 <= i < self.spec_len() ==> (#[trigger] self.slots@[wrap(self.tail + i, self.slots@.len() as int)]) is Some
    }

    /// A ring holds fewer items than it has slots.
    pub proof fn lemma_len_bound(&self)
        requires
            self.wf(),
        ensures
            self@.len() < self.spec_capacity(),
    {
    }

    /// An empty ring with `capacity` slots.
    pub fn new(capacity: usize) -> (r: Self)
        requires
            capacity >= 2,
        ensures
            r.wf(),
            r.spec_capacity() == capacity,
            r@ == Seq::<T>::empty(),
    {
        let mut slots: Vec<Option<T>> = Vec::with_capacity(capacity);
        let mut i: usize = 0;
        while i < capacity
            invariant
                i <= capacity,
                slots@.len() == i,
            decreases capacity - i,
        {
            slots.push(None);
            i = i + 1;
        }
        let r = RingBuffer { slots, head: 0, tail: 0 };
        assert(r@ =~= Seq::<T>::empty());
        r
    }

    /// Number of queued items.
    pub fn len(&self) -> (n: usize)
        requires
            self.wf(),
        ensures
            n == self@.len(),
    {
        if self.head >= self.tail {
            self.head - self.tail
        } else {
            self.slots.len() - self.tail + self.head
        }
    }

    /// Whether nothing is queued.
    pub fn is_empty(&self) -> (b: bool)
        requires
            self.wf(),
        ensures
            b == (self@.len() == 0),
    {
        self.head == self.tail
    }

    /// Whether the ring holds `capacity - 1` items and refuses more.
    pub fn is_full(&self) -> (b: bool)
        requires
            self.wf(),
        ensures
            b == (self@.len() + 1 == self.spec_capacity()),
    {
        let cap = self.slots.len();
        let next = if self.head + 1 == cap { 0 } else { self.head + 1 };
        next == self.tail
    }

    /// Append `item` at the back; hands it back when the ring is full.
    pub fn enqueue(&mut self, item: T) -> (r: Result<(), T>)
        requires
            old(self).wf(),
        ensures
            final(self).wf(),
            final(self).spec_capacity() == old(self).spec_capacity(),
            old(self)@.len() + 1 == old(self).spec_capacity() <==> r is Err,
            r is Err ==> r->Err_0 == item && final(self)@ == old(self)@,
            r is Ok ==> final(self)@ == old(self)@.push(item),
    {
        let cap = self.slots.len();
        let next = if self.head + 1 == cap { 0 } else { self.head + 1 };
        if next == self.tail {
            return Err(item);
        }
        let ghost old_view = self@;
        let mut slot = Some(item);
        let h = self.head;
        self.slots.set_and_swap(h, &mut slot);
        self.head = next;
        assert forall|i: int| 0 <= i < self.spec_len() implies
            (#[trigger] self.slots@[wrap(self.tail + i, cap as int)]) is Some by {
            if i < old(self).spec_len() {
                assert(old(self).slots@[wrap(old(self).tail + i, cap as int)] is Some);
            }
        }
        assert(self@ =~= old_view.push(item)) by {
            assert forall|i: int| 0 <= i < old_view.len() implies self@[i] == old_view[i] by {
                assert(old(self).slots@[wrap(old(self).tail + i, cap as int)] is Some);
            }
        }
        Ok(())
    }

    /// Remove and return the oldest item; `None` when empty.
    pub fn dequeue(&mut self) -> (r: Option<T>)
        requires
            old(self).wf(),
        ensures
            final(self).wf(),
            final(self).spec_capacity() == old(self).spec_capacity(),
            old(self)@.len() == 0 <==> r is None,
            r is None ==> final(self)@ == old(self)@,
            r is Some ==> r->Some_0 == old(self)@[0] && final(self)@ == old(self)@.drop_first(),
    {
        if self.head == self.tail {
            return None;
        }
        let cap = self.slots.len();
        let ghost old_view = self@;
        let t = self.tail;
        assert(self.slots@[wrap(self.tail + 0, cap as int)] is Some);
        let mut slot: Option<T> = None;
        self.slots.set_and_swap(t, &mut slot);
        self.tail = if t + 1 == cap { 0 } else { t + 1 };
        assert forall|i: int| 0 <= i < self.spec_len() implies
            (#[trigger] self.slots@[wrap(self.tail + i, cap as int)]) is Some by {
            assert(old(self).slots@[wrap(old(self).tail + (i + 1), cap as int)] is Some);
        }
        assert(self@ =~= old_view.drop_first()) by {
            assert forall|i: int| 0 <= i < self@.len() implies self@[i] == old_view[i + 1] by {
                assert(old(self).slots@[wrap(old(self).tail + (i + 1), cap as int)] is Some);
            }
        }
        match slot {
            Some(item) => Some(item),
            None => None,
        }
    }

    /// Remove every queued item, returning them oldest first.
    pub fn drain(&mut self) -> (items: Vec<T>)
        requires
            old(self).wf(),
        ensures
            final(self).wf(),
            final(self).spec_capacity() == old(self).spec_capacity(),
            final(self)@ == Seq::<T>::empty(),
            items@ == old(self)@,
    {
        let mut items: Vec<T> = Vec::new();
        loop
            invariant
                self.wf(),
                self.spec_capacity() == old(self).spec_capacity(),
                items@ + self@ == old(self)@,
            ensures
                self.wf(),
                self.spec_capacity() == old(self).spec_capacity(),
                self@.len() == 0,
                items@ == old(self)@,
            decreases self@.len(),
        {
            let ghost before = self@;
            match self.dequeue() {
                Some(item) => {
                    items.push(item);
                    assert(items@ + self@ =~= old(self)@) by {
                        assert(before == seq![item] + self@) by {
                            assert(before =~= seq![item] + before.drop_first());
                        }
                    }
                },
                None => {
                    assert(self@ =~= Seq::<T>::empty());
                    assert(items@ =~= old(self)@);
                    break;
                },
            }
        }
        assert(self@ =~= Seq::<T>::empty());
        items
    }
}

} // verus!
