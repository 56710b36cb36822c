//! FIFO queues.
//!
//! The concurrent forms keep head and tail pointers into a chain of
//! intrusive entries: the single-producer/single-consumer variant moves
//! them with plain loads and stores, the multi-producer/multi-consumer
//! variant guards them with locks. Both linearize to the same first-in
//! first-out behaviour over the entries handed to them, and that behaviour
//! is modelled and verified here: the queue owns its entries, `enqueue`
//! appends at the back, `dequeue` removes from the front. The view of a
//! queue is the payload sequence from front to back.

use vstd::prelude::*;

verus! {

/// An entry of a FIFO: the payload of one intrusive node.
pub struct FifoEntry<T> {
    data: T,
}

impl<T> FifoEntry<T> {
    /// The payload, for contracts.
    pub closed spec fn spec_data(&self) -> T {
        self.data
    }

    /// Create a new entry around `data`.
    #[inline]
    pub fn new(data: T) -> (r: Self)
        ensures
            r.spec_data() == data,
    {
        FifoEntry { data }
    }

    /// Borrow the payload.
    #[inline]
    pub fn data(&self) -> (r: &T)
        ensures
            *r == self.spec_data(),
    {
        &self.data
    }

    /// Borrow the payload mutably.
    #[inline]
    pub fn data_mut(&mut self) -> (r: &mut T)
        ensures
            *r == old(self).spec_data(),
            final(self).spec_data() == *final(r),
    {
        &mut self.data
    }
}

/// Single-producer, single-consumer FIFO.
pub struct SpscFifo<T> {
    entries: Vec<FifoEntry<T>>,
}

impl<T> View for SpscFifo<T> {
    type V = Seq<T>;

    closed spec fn view(&self) -> Seq<T> {
        self.entries@.map_values(|e: FifoEntry<T>| e.spec_data())
    }
}

impl<T> SpscFifo<T> {
    /// Create a new empty queue.
    pub fn new() -> (r: Self)
        ensures
            r@ == Seq::<T>::empty(),
    {
        let q = SpscFifo { entries: Vec::new() };
        proof {
            assert(q@ =~= Seq::<T>::empty());
        }
        q
    }

    /// Check if the queue is empty.
    #[inline]
    pub fn is_empty(&self) -> (r: bool)
        ensures
            r == (self@.len() == 0),
    {
        self.entries.len() == 0
    }

    /// Enqueue an entry at the back (producer side).
    pub fn enqueue(&mut self, entry: FifoEntry<T>)
        ensures
            final(self)@ == old(self)@.push(entry.spec_data()),
    {
        self.entries.push(entry);
        proof {
            assert(self@ =~= old(self)@.push(entry.spec_data()));
        }
    }

    /// Dequeue the front entry (consumer side). Returns `None` exactly
    /// when the queue is empty; otherwise the entry enqueued first comes
    /// back and the rest keep their order.
    pub fn dequeue(&mut self) -> (r: Option<FifoEntry<T>>)
        ensures
            match r {
                Some(e) => old(self)@.len() > 0 && e.spec_data() == old(self)@.first() && final(self)@ == old(self)@.drop_first(),
                None => old(self)@.len() == 0 && final(self)@ == old(self)@,
            },
    {
        if self.entries.len() == 0 {
            return None;
        }
        let e = self.entries.remove(0);
        proof {
            assert(self@ =~= old(self)@.drop_first());
        }
        Some(e)
    }
}

impl<T> Default for SpscFifo<T> {
    /// Same as [`SpscFifo::new`].
    fn default() -> (r: Self)
        ensures
            r@ == Seq::<T>::empty(),
    {
        SpscFifo::new()
    }
}

/// Multi-producer, multi-consumer FIFO. The concurrent form serializes
/// enqueue and dequeue with spinlocks around the head and tail pointers;
/// the serialized behaviour is the same queue.
pub struct MpmcFifo<T> {
    entries: Vec<FifoEntry<T>>,
}

impl<T> View for MpmcFifo<T> {
    type V = Seq<T>;

    closed spec fn view(&self) -> Seq<T> {
        self.entries@.map_values(|e: FifoEntry<T>| e.spec_data())
    }
}

impl<T> MpmcFifo<T> {
    /// Create a new empty queue.
    pub fn new() -> (r: Self)
        ensures
            r@ == Seq::<T>::empty(),
    {
        let q = MpmcFifo { entries: Vec::new() };
        proof {
            assert(q@ =~= Seq::<T>::empty());
        }
        q
    }

    /// Check if the queue is empty.
    #[inline]
    pub fn is_empty(&self) -> (r: bool)
        ensures
            r == (self@.len() == 0),
    {
        self.entries.len() == 0
    }

    /// Enqueue an entry at the back.
    pub fn enqueue(&mut self, entry: FifoEntry<T>)
        ensures
            final(self)@ == old(self)@.push(entry.spec_data()),
    {
        self.entries.push(entry);
        proof {
            assert(self@ =~= old(self)@.push(entry.spec_data()));
        }
    }

    /// Dequeue the front entry. Returns `None` exactly when the queue is
    /// empty.
    pub fn dequeue(&mut self) -> (r: Option<FifoEntry<T>>)
        ensures
            match r {
                Some(e) => old(self)@.len() > 0 && e.spec_data() == old(self)@.first() && final(self)@ == old(self)@.drop_first(),
                None => old(self)@.len() == 0 && final(self)@ == old(self)@,
            },
    {
        if self.entries.len() == 0 {
            return None;
        }
        let e = self.entries.remove(0);
        proof {
            assert(self@ =~= old(self)@.drop_first());
        }
        Some(e)
    }
}

impl<T> Default for MpmcFifo<T> {
    /// Same as [`MpmcFifo::new`].
    fn default() -> (r: Self)
        ensures
            r@ == Seq::<T>::empty(),
    {
        MpmcFifo::new()
    }
}

/// The values obtained by dequeuing a queue until it is empty: each step
/// takes the front, exactly as `dequeue` does.
pub open spec fn drain_fifo<T>(s: Seq<T>) -> Seq<T>
    decreases s.len(),
{
    if s.len() == 0 {
        Seq::<T>::empty()
    } else {
        seq![s.first()] + drain_fifo(s.drop_first())
    }
}

/// FIFO order: with one producer and one consumer, dequeuing until empty
/// returns exactly the enqueued values in the order they were enqueued —
/// the drained sequence is the contents themselves.
pub proof fn lemma_fifo_order<T>(s: Seq<T>)
    ensures
        drain_fifo(s) == s,
    decreases s.len(),
{
    if s.len() == 0 {
        assert(drain_fifo(s) =~= s);
    } else {
        lemma_fifo_order(s.drop_first());
        assert(seq![s.first()] + s.drop_first() =~= s);
    }
}

} // verus!
