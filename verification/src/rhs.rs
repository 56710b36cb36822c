//! Robin-hood hash set.
//!
//! An open-addressed set of 64-bit keys with linear probing: a lookup
//! starts at the key's home bucket and walks forward, wrapping around,
//! until it meets the key, an empty slot, or has examined every slot.
//! Each stored entry records its probe distance — how far from home it
//! landed — for scan locality. The concurrency contract is the
//! single-writer/many-reader discipline of the other hash containers.
//!
//! The probe walk itself is the specification: `contains`, `insert` and
//! `remove` are specified exactly by the spec-level probe functions
//! [`probe_find`] and [`probe_empty`] that this crate's hash containers
//! share, over the slot sequence.

use vstd::prelude::*;
use crate::hs::{
    bucket_of, hash_u64, lemma_occupied_le_len, lemma_occupied_positive, lemma_occupied_update,
    lemma_probe_insert_found, occupied, probe_empty, probe_find, spec_hash_u64,
};

verus! {

/// Number of buckets.
pub const DEFAULT_CAPACITY: usize = 16;

/// A robin-hood hash set of 64-bit keys.
pub struct RobinHoodSet {
    slots: Vec<Option<u64>>,
    dists: Vec<usize>,
    size: usize,
}

impl RobinHoodSet {
    /// The slot sequence, for contracts.
    pub closed spec fn spec_slots(&self) -> Seq<Option<u64>> {
        self.slots@
    }

    /// The element count the set maintains.
    pub closed spec fn spec_len(&self) -> usize {
        self.size
    }

    /// The recorded probe distances, one per slot.
    pub closed spec fn spec_dists(&self) -> Seq<usize> {
        self.dists@
    }

    /// The set has at least one slot, a probe distance per slot, and its
    /// element counter equals the number of occupied slots.
    pub open spec fn wf(&self) -> bool {
        &&& self.spec_slots().len() > 0
        &&& self.spec_dists().len() == self.spec_slots().len()
        &&& self.spec_len() == occupied(self.spec_slots())
    }

    /// The home slot of `value`.
    pub open spec fn spec_home(&self, value: u64) -> int {
        bucket_of(spec_hash_u64(value), self.spec_slots().len() as int)
    }

    /// Where the probe walk finds `value`, if anywhere.
    pub open spec fn spec_find(&self, value: u64) -> Option<int> {
        probe_find(
            self.spec_slots(),
            value,
            self.spec_home(value),
            self.spec_slots().len() as nat,
        )
    }

    /// Where an insert of `value` would land: the first empty slot of its
    /// probe walk.
    pub open spec fn spec_free_slot(&self, value: u64) -> Option<int> {
        probe_empty(
            self.spec_slots(),
            self.spec_home(value),
            self.spec_slots().len() as nat,
        )
    }

    /// Create a new empty set.
    pub fn new() -> (r: Self)
        ensures
            r.wf(),
            r.spec_len() == 0,
            r.spec_slots().len() == DEFAULT_CAPACITY,
            forall|i: int| 0 <= i < r.spec_slots().len() ==> r.spec_slots()[i].is_none(),
    {
        let mut slots: Vec<Option<u64>> = Vec::new();
        let mut dists: Vec<usize> = Vec::new();
        let mut i: usize = 0;
        while i < DEFAULT_CAPACITY
            invariant
                i <= DEFAULT_CAPACITY,
                slots@.len() == i,
                dists@.len() == i,
                occupied(slots@) == 0,
                forall|j: int| 0 <= j < i ==> slots@[j].is_none(),
            decreases DEFAULT_CAPACITY - i,
        {
            proof {
                crate::hs::lemma_occupied_push(slots@, None::<u64>);
            }
            slots.push(None);
            dists.push(0);
            i = i + 1;
        }
        RobinHoodSet { slots, dists, size: 0 }
    }

    /// Create a new empty set that will allocate through the given
    /// allocator.
    #[inline]
    pub fn with_allocator(allocator: crate::malloc::GlobalAllocator) -> (r: Self)
        ensures
            r.wf(),
            r.spec_len() == 0,
            r.spec_slots().len() == DEFAULT_CAPACITY,
            forall|i: int| 0 <= i < r.spec_slots().len() ==> r.spec_slots()[i].is_none(),
    {
        RobinHoodSet::new()
    }

    /// Check whether the probe walk for `value` finds it.
    pub fn contains(&self, value: &u64) -> (r: bool)
        requires
            self.wf(),
        ensures
            r == self.spec_find(*value).is_some(),
    {
        let cap = self.slots.len();
        let h = hash_u64(*value);
        let home = (h % (cap as u64)) as usize;
        proof {
            assert(home as int == self.spec_home(*value));
        }
        let mut idx = home;
        let mut step: usize = 0;
        while step < cap
            invariant
                self.wf(),
                cap == self.spec_slots().len(),
                idx < cap,
                step <= cap,
                self.spec_find(*value) == probe_find(
                    self.spec_slots(),
                    *value,
                    idx as int,
                    (cap - step) as nat,
                ),
            decreases cap - step,
        {
            match self.slots[idx] {
                None => {
                    return false;
                },
                Some(x) => {
                    if x == *value {
                        return true;
                    }
                },
            }
            idx = (idx + 1) % cap;
            step = step + 1;
        }
        false
    }

    /// The number of elements: with a well-formed set, exactly the number
    /// of occupied slots.
    #[inline]
    pub fn len(&self) -> (r: usize)
        ensures
            r == self.spec_len(),
            self.wf() ==> r == occupied(self.spec_slots()),
    {
        self.size
    }

    /// Check if the set is empty.
    #[inline]
    pub fn is_empty(&self) -> (r: bool)
        ensures
            r == (self.spec_len() == 0),
    {
        self.size == 0
    }

    /// Insert `value` (single writer only): if the probe walk does not
    /// find it, it lands in the first empty slot of the walk, with its
    /// probe distance recorded. Returns false when the value is already
    /// present or every slot of the walk is occupied.
    #[verifier::loop_isolation(false)]
    pub fn insert(&mut self, value: u64) -> (r: bool)
        requires
            old(self).wf(),
        ensures
            final(self).wf(),
            final(self).spec_slots().len() == old(self).spec_slots().len(),
            old(self).spec_find(value).is_some() ==> !r && *final(self) == *old(self),
            old(self).spec_find(value).is_none() ==> match old(self).spec_free_slot(value) {
                Some(i) => r && final(self).spec_slots() == old(self).spec_slots().update(
                    i,
                    Some(value),
                ) && final(self).spec_len() == old(self).spec_len() + 1 && final(self).spec_find(value).is_some(),
                None => !r && *final(self) == *old(self),
            },
    {
        if self.contains(&value) {
            return false;
        }
        let cap = self.slots.len();
        let h = hash_u64(value);
        let home = (h % (cap as u64)) as usize;
        proof {
            assert(home as int == self.spec_home(value));
        }
        let mut idx = home;
        let mut step: usize = 0;
        while step < cap
            invariant
                self.wf(),
                *self == *old(self),
                cap == self.spec_slots().len(),
                idx < cap,
                step <= cap,
                self.spec_free_slot(value) == probe_empty(
                    self.spec_slots(),
                    idx as int,
                    (cap - step) as nat,
                ),
            decreases cap - step,
        {
            match self.slots[idx] {
                None => {
                    proof {
                        lemma_occupied_update(self.spec_slots(), idx as int, Some(value));
                        lemma_occupied_le_len(self.spec_slots().update(idx as int, Some(value)));
                        lemma_probe_insert_found(self.spec_slots(), value, home as int, cap as nat);
                    }
                    self.slots[idx] = Some(value);
                    self.dists[idx] = step;
                    self.size = self.size + 1;
                    return true;
                },
                Some(x) => {
                },
            }
            idx = (idx + 1) % cap;
            step = step + 1;
        }
        false
    }

    /// Remove `value` (single writer only): the slot where the probe walk
    /// finds it is emptied. Returns false when the walk does not find it.
    /// The emptied slot ends later probe walks that used to pass through
    /// it; a probe meeting the hole stops there.
    #[verifier::loop_isolation(false)]
    pub fn remove(&mut self, value: &u64) -> (r: bool)
        requires
            old(self).wf(),
        ensures
            final(self).wf(),
            final(self).spec_slots().len() == old(self).spec_slots().len(),
            old(self).spec_find(*value).is_none() ==> !r && *final(self) == *old(self),
            old(self).spec_find(*value).is_some() ==> r && final(self).spec_slots() == old(self).spec_slots().update(old(self).spec_find(*value).unwrap(), None::<u64>) && final(self).spec_len() == old(self).spec_len() - 1,
    {
        let cap = self.slots.len();
        let h = hash_u64(*value);
        let home = (h % (cap as u64)) as usize;
        proof {
            assert(home as int == self.spec_home(*value));
        }
        let mut idx = home;
        let mut step: usize = 0;
        while step < cap
            invariant
                self.wf(),
                *self == *old(self),
                cap == self.spec_slots().len(),
                idx < cap,
                step <= cap,
                self.spec_find(*value) == probe_find(
                    self.spec_slots(),
                    *value,
                    idx as int,
                    (cap - step) as nat,
                ),
            decreases cap - step,
        {
            match self.slots[idx] {
                None => {
                    return false;
                },
                Some(x) => {
                    if x == *value {
                        proof {
                            lemma_occupied_positive(self.spec_slots(), idx as int);
                            lemma_occupied_update(self.spec_slots(), idx as int, None::<u64>);
                        }
                        self.slots[idx] = None;
                        self.size = self.size - 1;
                        return true;
                    }
                },
            }
            idx = (idx + 1) % cap;
            step = step + 1;
        }
        false
    }
}

impl Default for RobinHoodSet {
    /// Same as [`RobinHoodSet::new`].
    fn default() -> (r: Self)
        ensures
            r.wf(),
            r.spec_len() == 0,
    {
        RobinHoodSet::new()
    }
}

} // verus!
