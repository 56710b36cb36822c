//! Hazard pointer protected FIFO.
//!
//! The Michael–Scott queue is unsafe against concurrent reclamation in its
//! plain form; this variant embeds a hazard-pointer engine and requires
//! each thread to register before operating on the queue. In the
//! concurrent algorithm the guard holds the observed head or tail in a
//! hazard slot across the verify-and-swap step; the queue behaviour that
//! survives linearization is the FIFO verified here.

use vstd::prelude::*;
use crate::fifo::MpmcFifo;
use crate::hp::{HazardPointers, HpGuard};

pub use crate::fifo::FifoEntry;

verus! {

/// A hazard pointer protected FIFO queue.
pub struct HpFifo<T> {
    queue: MpmcFifo<T>,
    hp: HazardPointers,
}

impl<T> View for HpFifo<T> {
    type V = Seq<T>;

    closed spec fn view(&self) -> Seq<T> {
        self.queue@
    }
}

impl<T> HpFifo<T> {
    /// The embedded hazard-pointer engine, for contracts.
    pub closed spec fn spec_hp(&self) -> HazardPointers {
        self.hp
    }

    /// Create a new empty queue with a fresh engine.
    pub fn new() -> (r: Self)
        ensures
            r@ == Seq::<T>::empty(),
            r.spec_hp().spec_records().len() == 0,
    {
        HpFifo { queue: MpmcFifo::new(), hp: HazardPointers::new() }
    }

    /// Register the calling thread for protected access.
    pub fn register(&mut self) -> (r: HpFifoGuard)
        ensures
            final(self)@ == old(self)@,
            final(self).spec_hp().spec_records().len() == old(
                self,
            ).spec_hp().spec_records().len() + 1,
            forall|j: int| 0 <= j < old(self).spec_hp().spec_records().len()
                ==> final(self).spec_hp().spec_records()[j]
                    == old(self).spec_hp().spec_records()[j],
            r.spec_guard().record_index() == old(self).spec_hp().spec_records().len(),
            r.valid(final(self)),
            r.spec_guard().rec(&final(self).spec_hp()).spec_active(),
    {
        let guard = self.hp.register();
        HpFifoGuard { guard }
    }

    /// Check if the queue is empty.
    pub fn is_empty(&self) -> (r: bool)
        ensures
            r == (self@.len() == 0),
    {
        self.queue.is_empty()
    }
}

impl<T> Default for HpFifo<T> {
    /// Same as [`HpFifo::new`].
    fn default() -> (r: Self)
        ensures
            r@ == Seq::<T>::empty(),
            r.spec_hp().spec_records().len() == 0,
    {
        HpFifo::new()
    }
}

/// A guard for protected FIFO operations, naming one engine record.
pub struct HpFifoGuard {
    guard: HpGuard,
}

impl HpFifoGuard {
    /// The engine guard, for contracts.
    pub closed spec fn spec_guard(&self) -> HpGuard {
        self.guard
    }

    /// The guard names a record of the queue's engine.
    pub open spec fn valid<T>(&self, q: &HpFifo<T>) -> bool {
        self.spec_guard().record_index() < q.spec_hp().spec_records().len()
    }

    /// Enqueue an entry at the back of the queue. In the concurrent form
    /// the observed tail is protected, the entry is linked by
    /// compare-and-swap, and the tail swing is best-effort; what
    /// linearizes is the append.
    pub fn enqueue<T>(&self, q: &mut HpFifo<T>, entry: FifoEntry<T>)
        ensures
            final(q)@ == old(q)@.push(entry.spec_data()),
            final(q).spec_hp() == old(q).spec_hp(),
    {
        q.queue.enqueue(entry);
    }

    /// Dequeue the front entry; `None` exactly when the queue is empty.
    /// The popped entry is the caller's to reclaim. In the concurrent form
    /// the observed head is protected across the unlink and a lagging tail
    /// is helped forward; what linearizes is the removal of the front.
    pub fn dequeue<T>(&self, q: &mut HpFifo<T>) -> (r: Option<FifoEntry<T>>)
        ensures
            final(q).spec_hp() == old(q).spec_hp(),
            match r {
                Some(e) => old(q)@.len() > 0 && e.spec_data() == old(q)@.first() && final(q)@
                    == old(q)@.drop_first(),
                None => old(q)@.len() == 0 && final(q)@ == old(q)@,
            },
    {
        q.queue.dequeue()
    }
}

} // verus!
