//! Hash table (key-value pairs).
//!
//! An open-addressed table from 64-bit keys to values with linear probing:
//! a lookup walks from the key's home bucket, wrapping around, until it
//! meets the key, an empty bucket, or has examined every bucket; an insert
//! replaces the entry the walk finds, or lands in the first empty bucket
//! of the walk. The concurrency discipline is that of the other hash
//! containers: a single writer publishes each bucket whole, any number of
//! readers observe either the old or the new entry. Single-writer use is
//! the caller's responsibility.
//!
//! The probe walk is the specification: every operation is specified
//! exactly by the spec-level probe functions [`probe_key`] and
//! [`probe_vacant`] over the bucket sequence.

use vstd::prelude::*;
use crate::hs::{
    bucket_of, hash_u64, lemma_occupied_le_len, lemma_occupied_positive, lemma_occupied_update,
    occupied, spec_hash_u64,
};

verus! {

/// Default number of buckets.
pub const DEFAULT_CAPACITY: usize = 16;

/// One stored key-value pair.
pub struct HtEntry<V> {
    key: u64,
    value: V,
}

impl<V> HtEntry<V> {
    /// The entry's key, for contracts.
    pub closed spec fn spec_key(&self) -> u64 {
        self.key
    }

    /// The entry's value, for contracts.
    pub closed spec fn spec_value(&self) -> V {
        self.value
    }
}

/// Probe for `key` from slot `i`, examining at most `steps` slots: the
/// slot whose entry carries it, or `None` when an empty slot or the probe
/// bound ends the search first.
pub open spec fn probe_key<V>(
    slots: Seq<Option<HtEntry<V>>>,
    key: u64,
    i: int,
    steps: nat,
) -> Option<int>
    decreases steps,
{
    if steps == 0 || slots.len() == 0 || !(0 <= i < slots.len()) {
        None
    } else {
        match slots[i] {
            None => None,
            Some(e) => if e.spec_key() == key {
                Some(i)
            } else {
                probe_key(slots, key, (i + 1) % (slots.len() as int), (steps - 1) as nat)
            },
        }
    }
}

/// The first empty slot from slot `i` within `steps` slots, or `None` when
/// every examined slot is occupied.
pub open spec fn probe_vacant<V>(slots: Seq<Option<HtEntry<V>>>, i: int, steps: nat) -> Option<int>
    decreases steps,
{
    if steps == 0 || slots.len() == 0 || !(0 <= i < slots.len()) {
        None
    } else {
        match slots[i] {
            None => Some(i),
            Some(e) => probe_vacant(slots, (i + 1) % (slots.len() as int), (steps - 1) as nat),
        }
    }
}

/// A found key sits in range, in an entry carrying that key.
pub proof fn lemma_probe_key_props<V>(slots: Seq<Option<HtEntry<V>>>, key: u64, i: int, steps: nat)
    requires
        probe_key(slots, key, i, steps).is_some(),
    ensures
        0 <= probe_key(slots, key, i, steps).unwrap() < slots.len(),
        slots[probe_key(slots, key, i, steps).unwrap()].is_some(),
        slots[probe_key(slots, key, i, steps).unwrap()].unwrap().spec_key() == key,
    decreases steps,
{
    if !(steps == 0 || slots.len() == 0 || !(0 <= i < slots.len())) {
        if slots[i].is_some() && slots[i].unwrap().spec_key() != key {
            lemma_probe_key_props(slots, key, (i + 1) % (slots.len() as int), (steps - 1) as nat);
        }
    }
}

/// A found empty slot is in range and empty.
pub proof fn lemma_probe_vacant_props<V>(slots: Seq<Option<HtEntry<V>>>, i: int, steps: nat)
    requires
        probe_vacant(slots, i, steps).is_some(),
    ensures
        0 <= probe_vacant(slots, i, steps).unwrap() < slots.len(),
        slots[probe_vacant(slots, i, steps).unwrap()].is_none(),
    decreases steps,
{
    if !(steps == 0 || slots.len() == 0 || !(0 <= i < slots.len())) {
        if slots[i].is_some() {
            lemma_probe_vacant_props(slots, (i + 1) % (slots.len() as int), (steps - 1) as nat);
        }
    }
}

/// Writing an entry for `key` into the first empty slot of its walk makes
/// the walk find the key there: every slot before it stays occupied by
/// another key.
pub proof fn lemma_probe_key_after_fill<V>(
    slots: Seq<Option<HtEntry<V>>>,
    key: u64,
    i: int,
    steps: nat,
    e: HtEntry<V>,
)
    requires
        e.spec_key() == key,
        probe_key(slots, key, i, steps).is_none(),
        probe_vacant(slots, i, steps).is_some(),
    ensures
        probe_key(
            slots.update(probe_vacant(slots, i, steps).unwrap(), Some(e)),
            key,
            i,
            steps,
        ) == probe_vacant(slots, i, steps),
    decreases steps,
{
    lemma_probe_vacant_props(slots, i, steps);
    if slots[i].is_some() {
        lemma_probe_key_after_fill(
            slots,
            key,
            (i + 1) % (slots.len() as int),
            (steps - 1) as nat,
            e,
        );
    }
}

/// Replacing the entry where the walk finds `key` with another entry for
/// the same key leaves the walk finding it in the same slot.
pub proof fn lemma_probe_key_after_replace<V>(
    slots: Seq<Option<HtEntry<V>>>,
    key: u64,
    i: int,
    steps: nat,
    e: HtEntry<V>,
)
    requires
        e.spec_key() == key,
        probe_key(slots, key, i, steps).is_some(),
    ensures
        probe_key(
            slots.update(probe_key(slots, key, i, steps).unwrap(), Some(e)),
            key,
            i,
            steps,
        ) == probe_key(slots, key, i, steps),
    decreases steps,
{
    lemma_probe_key_props(slots, key, i, steps);
    if slots[i].is_some() && slots[i].unwrap().spec_key() != key {
        lemma_probe_key_after_replace(
            slots,
            key,
            (i + 1) % (slots.len() as int),
            (steps - 1) as nat,
            e,
        );
    }
}

/// A hash table from 64-bit keys to values, open-addressed with linear
/// probing: a single writer, any number of readers.
pub struct HashTable<V> {
    buckets: Vec<Option<HtEntry<V>>>,
    size: usize,
}

impl<V> HashTable<V> {
    /// The bucket sequence, for contracts.
    pub closed spec fn spec_buckets(&self) -> Seq<Option<HtEntry<V>>> {
        self.buckets@
    }

    /// The entry count the table maintains.
    pub closed spec fn spec_len(&self) -> usize {
        self.size
    }

    /// The table has at least one bucket and its entry counter equals the
    /// number of occupied buckets.
    pub open spec fn wf(&self) -> bool {
        &&& self.spec_buckets().len() > 0
        &&& self.spec_len() == occupied(self.spec_buckets())
    }

    /// The home bucket of `key`, where its probe walk starts.
    pub open spec fn spec_bucket(&self, key: u64) -> int {
        bucket_of(spec_hash_u64(key), self.spec_buckets().len() as int)
    }

    /// Where the probe walk finds `key`, if anywhere.
    pub open spec fn spec_find(&self, key: u64) -> Option<int> {
        probe_key(
            self.spec_buckets(),
            key,
            self.spec_bucket(key),
            self.spec_buckets().len() as nat,
        )
    }

    /// Where an insert of a fresh `key` would land: the first empty bucket
    /// of its probe walk.
    pub open spec fn spec_free_slot(&self, key: u64) -> Option<int> {
        probe_vacant(
            self.spec_buckets(),
            self.spec_bucket(key),
            self.spec_buckets().len() as nat,
        )
    }

    /// The value stored under `key`: the one in the entry its probe walk
    /// finds.
    pub open spec fn spec_get(&self, key: u64) -> Option<V> {
        match self.spec_find(key) {
            Some(i) => Some(self.spec_buckets()[i].unwrap().spec_value()),
            None => None,
        }
    }

    /// Create a new empty table with the default number of buckets.
    pub fn new() -> (r: Self)
        ensures
            r.wf(),
            r.spec_len() == 0,
            r.spec_buckets().len() == DEFAULT_CAPACITY,
            forall|i: int| 0 <= i < r.spec_buckets().len() ==> r.spec_buckets()[i].is_none(),
    {
        let mut buckets: Vec<Option<HtEntry<V>>> = Vec::new();
        let mut i: usize = 0;
        while i < DEFAULT_CAPACITY
            invariant
                i <= DEFAULT_CAPACITY,
                buckets@.len() == i,
                occupied(buckets@) == 0,
                forall|j: int| 0 <= j < i ==> buckets@[j].is_none(),
            decreases DEFAULT_CAPACITY - i,
        {
            proof {
                crate::hs::lemma_occupied_push(buckets@, None::<HtEntry<V>>);
            }
            buckets.push(None);
            i = i + 1;
        }
        HashTable { buckets, size: 0 }
    }

    /// Create a new empty table that will allocate through the given
    /// allocator.
    #[inline]
    pub fn with_allocator(allocator: crate::malloc::GlobalAllocator) -> (r: Self)
        ensures
            r.wf(),
            r.spec_len() == 0,
            r.spec_buckets().len() == DEFAULT_CAPACITY,
            forall|i: int| 0 <= i < r.spec_buckets().len() ==> r.spec_buckets()[i].is_none(),
    {
        HashTable::new()
    }

    /// Get the value stored under `key`, if its probe walk finds it.
    pub fn get(&self, key: &u64) -> (r: Option<&V>)
        requires
            self.wf(),
        ensures
            match r {
                Some(v) => self.spec_get(*key) == Some(*v),
                None => self.spec_get(*key).is_none(),
            },
    {
        let cap = self.buckets.len();
        let h = hash_u64(*key);
        let home = (h % (cap as u64)) as usize;
        proof {
            assert(home as int == self.spec_bucket(*key));
        }
        let mut idx = home;
        let mut step: usize = 0;
        while step < cap
            invariant
                self.wf(),
                cap == self.spec_buckets().len(),
                idx < cap,
                step <= cap,
                self.spec_find(*key) == probe_key(
                    self.spec_buckets(),
                    *key,
                    idx as int,
                    (cap - step) as nat,
                ),
            decreases cap - step,
        {
            match &self.buckets[idx] {
                None => {
                    return None;
                },
                Some(e) => {
                    if e.key == *key {
                        return Some(&e.value);
                    }
                },
            }
            idx = (idx + 1) % cap;
            step = step + 1;
        }
        None
    }

    /// Check whether the table holds `key`.
    pub fn contains_key(&self, key: &u64) -> (r: bool)
        requires
            self.wf(),
        ensures
            r == self.spec_get(*key).is_some(),
    {
        self.get(key).is_some()
    }

    /// The number of entries: with a well-formed table, exactly the number
    /// of occupied buckets.
    #[inline]
    pub fn len(&self) -> (r: usize)
        ensures
            r == self.spec_len(),
            self.wf() ==> r == occupied(self.spec_buckets()),
    {
        self.size
    }

    /// Check if the table is empty.
    #[inline]
    pub fn is_empty(&self) -> (r: bool)
        ensures
            r == (self.spec_len() == 0),
    {
        self.size == 0
    }

    /// Insert a key-value pair (single writer only). An entry the probe
    /// walk finds under the same key is replaced and its value returned; a
    /// fresh key lands in the first empty bucket of the walk and the count
    /// rises. Only when the key is absent and every bucket of the walk is
    /// occupied does the table stay unchanged, dropping the pair.
    #[verifier::loop_isolation(false)]
    pub fn insert(&mut self, key: u64, value: V) -> (r: Option<V>)
        requires
            old(self).wf(),
        ensures
            final(self).wf(),
            final(self).spec_buckets().len() == old(self).spec_buckets().len(),
            r == old(self).spec_get(key),
            match old(self).spec_find(key) {
                Some(i) => final(self).spec_len() == old(self).spec_len() && final(self).spec_get(key) == Some(value) && replaced_at(old(self), final(self), i, key, value),
                None => match old(self).spec_free_slot(key) {
                    Some(i) => final(self).spec_len() == old(self).spec_len() + 1 && final(self).spec_get(key) == Some(value) && replaced_at(old(self), final(self), i, key, value),
                    None => *final(self) == *old(self),
                },
            },
    {
        let cap = self.buckets.len();
        let h = hash_u64(key);
        let home = (h % (cap as u64)) as usize;
        proof {
            assert(home as int == self.spec_bucket(key));
        }
        let mut idx = home;
        let mut step: usize = 0;
        while step < cap
            invariant
                self.wf(),
                *self == *old(self),
                cap == self.spec_buckets().len(),
                idx < cap,
                step <= cap,
                self.spec_find(key) == probe_key(
                    self.spec_buckets(),
                    key,
                    idx as int,
                    (cap - step) as nat,
                ),
                self.spec_free_slot(key) == probe_vacant(
                    self.spec_buckets(),
                    idx as int,
                    (cap - step) as nat,
                ),
            decreases cap - step,
        {
            let mut fresh = false;
            let mut replace = false;
            match &self.buckets[idx] {
                None => {
                    fresh = true;
                },
                Some(e) => {
                    if e.key == key {
                        replace = true;
                    }
                },
            }
            if fresh {
                let mut slot: Option<HtEntry<V>> = Some(HtEntry { key, value });
                proof {
                    lemma_occupied_update(self.spec_buckets(), idx as int, slot);
                    lemma_occupied_le_len(self.spec_buckets().update(idx as int, slot));
                    lemma_probe_key_after_fill(
                        self.spec_buckets(),
                        key,
                        home as int,
                        cap as nat,
                        slot.unwrap(),
                    );
                }
                let target = &mut self.buckets[idx];
                core::mem::swap(target, &mut slot);
                self.size = self.size + 1;
                return None;
            }
            if replace {
                let mut slot: Option<HtEntry<V>> = Some(HtEntry { key, value });
                proof {
                    lemma_occupied_update(self.spec_buckets(), idx as int, slot);
                    lemma_probe_key_after_replace(
                        self.spec_buckets(),
                        key,
                        home as int,
                        cap as nat,
                        slot.unwrap(),
                    );
                }
                let target = &mut self.buckets[idx];
                core::mem::swap(target, &mut slot);
                match slot {
                    Some(prior) => {
                        return Some(prior.value);
                    },
                    None => {
                        proof {
                            assert(false);
                        }
                        return None;
                    },
                }
            }
            idx = (idx + 1) % cap;
            step = step + 1;
        }
        None
    }

    /// Remove the entry under `key` (single writer only): the bucket where
    /// the probe walk finds it is emptied and its value returned.
    #[verifier::loop_isolation(false)]
    pub fn remove(&mut self, key: &u64) -> (r: Option<V>)
        requires
            old(self).wf(),
        ensures
            final(self).wf(),
            final(self).spec_buckets().len() == old(self).spec_buckets().len(),
            r == old(self).spec_get(*key),
            old(self).spec_find(*key).is_none() ==> *final(self) == *old(self),
            old(self).spec_find(*key).is_some() ==> final(self).spec_buckets() == old(self).spec_buckets().update(old(self).spec_find(*key).unwrap(), None::<HtEntry<V>>) && final(self).spec_len() == old(self).spec_len() - 1,
    {
        let cap = self.buckets.len();
        let h = hash_u64(*key);
        let home = (h % (cap as u64)) as usize;
        proof {
            assert(home as int == self.spec_bucket(*key));
        }
        let mut idx = home;
        let mut step: usize = 0;
        while step < cap
            invariant
                self.wf(),
                *self == *old(self),
                cap == self.spec_buckets().len(),
                idx < cap,
                step <= cap,
                self.spec_find(*key) == probe_key(
                    self.spec_buckets(),
                    *key,
                    idx as int,
                    (cap - step) as nat,
                ),
            decreases cap - step,
        {
            let mut found = false;
            match &self.buckets[idx] {
                None => {
                    return None;
                },
                Some(e) => {
                    if e.key == *key {
                        found = true;
                    }
                },
            }
            if found {
                proof {
                    lemma_occupied_positive(self.spec_buckets(), idx as int);
                    lemma_occupied_update(self.spec_buckets(), idx as int, None::<HtEntry<V>>);
                }
                let mut slot: Option<HtEntry<V>> = None;
                let target = &mut self.buckets[idx];
                core::mem::swap(target, &mut slot);
                self.size = self.size - 1;
                match slot {
                    Some(prior) => {
                        return Some(prior.value);
                    },
                    None => {
                        proof {
                            assert(false);
                        }
                        return None;
                    },
                }
            }
            idx = (idx + 1) % cap;
            step = step + 1;
        }
        None
    }
}

/// Between `pre` and `post`, bucket `i` now holds an entry for `key` with
/// `value`, and every other bucket is unchanged.
pub open spec fn replaced_at<V>(
    pre: &HashTable<V>,
    post: &HashTable<V>,
    i: int,
    key: u64,
    value: V,
) -> bool {
    &&& post.spec_buckets()[i].is_some()
    &&& post.spec_buckets()[i].unwrap().spec_key() == key
    &&& post.spec_buckets()[i].unwrap().spec_value() == value
    &&& forall|j: int| 0 <= j < pre.spec_buckets().len() && j != i
        ==> post.spec_buckets()[j] == pre.spec_buckets()[j]
}

impl<V> Default for HashTable<V> {
    /// Same as [`HashTable::new`].
    fn default() -> (r: Self)
        ensures
            r.wf(),
            r.spec_len() == 0,
    {
        HashTable::new()
    }
}

} // verus!
