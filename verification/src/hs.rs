//! Hash set (single-writer, many-reader).
//!
//! An open-addressed set of 64-bit keys with linear probing: a lookup
//! walks from the value's home bucket, wrapping around, until it meets the
//! value, an empty bucket, or has examined every bucket; an insert lands
//! in the first empty bucket of that walk. In the concurrent form any
//! number of readers may call `contains` while a single writer inserts and
//! removes; the writer publishes each bucket whole, so a reader sees
//! either the old or the new entry, never a torn one. Single-writer use is
//! the caller's responsibility.
//!
//! The probe walk is the specification: every operation is specified
//! exactly by the spec-level probe functions [`probe_find`] and
//! [`probe_empty`] over the bucket sequence. Keys are hashed by
//! [`AHasher`], a byte-folding hasher whose result is a specified function
//! of its input bytes.

use vstd::prelude::*;

verus! {

/// Default number of buckets.
pub const DEFAULT_CAPACITY: usize = 16;

/// One step of the byte fold: the state times 31 plus the byte, wrapping.
pub open spec fn fold_step(state: u64, byte: u8) -> u64 {
    vstd::wrapping::u64_specs::wrapping_add(
        vstd::wrapping::u64_specs::wrapping_mul(state, 31),
        byte as u64,
    )
}

/// The hasher state after folding `bytes` into `state`, first byte first.
pub open spec fn fold_hash(state: u64, bytes: Seq<u8>) -> u64
    decreases bytes.len(),
{
    if bytes.len() == 0 {
        state
    } else {
        fold_hash(fold_step(state, bytes.first()), bytes.drop_first())
    }
}

/// Folding one more byte at the end folds it into the result.
proof fn lemma_fold_hash_push(state: u64, bytes: Seq<u8>, b: u8)
    ensures
        fold_hash(state, bytes.push(b)) == fold_step(fold_hash(state, bytes), b),
    decreases bytes.len(),
{
    if bytes.len() == 0 {
        assert(bytes.push(b).first() == b);
        assert(bytes.push(b).drop_first() =~= Seq::<u8>::empty());
        assert(fold_hash(fold_step(state, b), Seq::<u8>::empty()) == fold_step(state, b));
    } else {
        assert(bytes.push(b).first() == bytes.first());
        assert(bytes.push(b).drop_first() =~= bytes.drop_first().push(b));
        lemma_fold_hash_push(fold_step(state, bytes.first()), bytes.drop_first(), b);
    }
}

/// A simple byte-folding hasher: state is multiplied by 31 and the byte
/// added, wrapping, for each input byte.
pub struct AHasher {
    state: u64,
}

impl AHasher {
    /// The hasher state, for contracts.
    pub closed spec fn spec_state(&self) -> u64 {
        self.state
    }

    /// Create a hasher with state zero.
    #[inline]
    pub fn new() -> (r: Self)
        ensures
            r.spec_state() == 0,
    {
        AHasher { state: 0 }
    }

    /// Fold a byte slice into the state, first byte first.
    pub fn write(&mut self, bytes: &[u8])
        ensures
            final(self).spec_state() == fold_hash(old(self).spec_state(), bytes@),
    {
        let ghost orig = self.state;
        let n = bytes.len();
        let mut i: usize = 0;
        while i < n
            invariant
                i <= n,
                n == bytes@.len(),
                self.state == fold_hash(orig, bytes@.take(i as int)),
            decreases n - i,
        {
            let b = bytes[i];
            self.state = self.state.wrapping_mul(31).wrapping_add(b as u64);
            proof {
                assert(bytes@.take(i as int + 1) =~= bytes@.take(i as int).push(b));
                lemma_fold_hash_push(orig, bytes@.take(i as int), b);
            }
            i = i + 1;
        }
        proof {
            assert(bytes@.take(n as int) =~= bytes@);
        }
    }

    /// The current hash value.
    #[inline]
    pub fn finish(&self) -> (r: u64)
        ensures
            r == self.spec_state(),
    {
        self.state
    }
}

impl Default for AHasher {
    /// Same as [`AHasher::new`].
    fn default() -> (r: Self)
        ensures
            r.spec_state() == 0,
    {
        AHasher::new()
    }
}

/// The little-endian bytes of a 64-bit key.
pub open spec fn le_bytes(v: u64) -> Seq<u8> {
    Seq::new(8, |i: int| ((v >> (8 * i)) & 0xFF) as u8)
}

/// The hash of a 64-bit key: its little-endian bytes folded into a fresh
/// hasher.
pub open spec fn spec_hash_u64(v: u64) -> u64 {
    fold_hash(0, le_bytes(v))
}

/// Hash a 64-bit key as the containers of this crate do.
pub fn hash_u64(v: u64) -> (r: u64)
    ensures
        r == spec_hash_u64(v),
{
    let mut h = AHasher::new();
    let mut bytes: Vec<u8> = Vec::new();
    let mut i: usize = 0;
    while i < 8
        invariant
            i <= 8,
            bytes@ =~= le_bytes(v).take(i as int),
        decreases 8 - i,
    {
        let shift: u32 = 8 * (i as u32);
        bytes.push(((v >> shift) & 0xFF) as u8);
        proof {
            assert(le_bytes(v).take(i as int + 1) =~= le_bytes(v).take(i as int).push(
                ((v >> (8 * i as u32)) & 0xFF) as u8,
            ));
        }
        i = i + 1;
    }
    proof {
        assert(le_bytes(v).take(8) =~= le_bytes(v));
    }
    h.write(bytes.as_slice());
    h.finish()
}

/// The bucket a key with hash `h` belongs to, among `len` buckets.
pub open spec fn bucket_of(h: u64, len: int) -> int {
    h as int % len
}

/// The number of occupied buckets in a bucket sequence.
pub open spec fn occupied<T>(s: Seq<Option<T>>) -> nat {
    s.filter(|o: Option<T>| o.is_some()).len()
}

/// Appending a bucket adds its occupancy to the count.
pub proof fn lemma_occupied_push<T>(s: Seq<Option<T>>, o: Option<T>)
    ensures
        occupied(s.push(o)) == occupied(s) + if o.is_some() { 1nat } else { 0nat },
{
    reveal(Seq::filter);
    assert(s.push(o).drop_last() =~= s);
}

/// Replacing one bucket changes the occupancy count by the difference of
/// the two buckets' occupancy.
pub proof fn lemma_occupied_update<T>(s: Seq<Option<T>>, i: int, v: Option<T>)
    requires
        0 <= i < s.len(),
    ensures
        occupied(s.update(i, v)) + if s[i].is_some() { 1nat } else { 0nat } == occupied(s) + if v.is_some() { 1nat } else { 0nat },
    decreases s.len(),
{
    reveal(Seq::filter);
    if i == s.len() - 1 {
        assert(s.update(i, v).drop_last() =~= s.drop_last());
        assert(s.update(i, v).last() == v);
        assert(s.drop_last().push(s.last()) =~= s);
        lemma_occupied_push(s.drop_last(), s.last());
        lemma_occupied_push(s.drop_last(), v);
        assert(s.update(i, v).drop_last().push(v) =~= s.update(i, v));
    } else {
        assert(s.update(i, v).drop_last() =~= s.drop_last().update(i, v));
        assert(s.update(i, v).last() == s.last());
        lemma_occupied_update(s.drop_last(), i, v);
        lemma_occupied_push(s.drop_last().update(i, v), s.last());
        assert(s.drop_last().update(i, v).push(s.last()) =~= s.update(i, v));
        lemma_occupied_push(s.drop_last(), s.last());
        assert(s.drop_last().push(s.last()) =~= s);
    }
}

/// At most every bucket is occupied.
pub proof fn lemma_occupied_le_len<T>(s: Seq<Option<T>>)
    ensures
        occupied(s) <= s.len(),
    decreases s.len(),
{
    reveal(Seq::filter);
    if s.len() > 0 {
        lemma_occupied_le_len(s.drop_last());
        lemma_occupied_push(s.drop_last(), s.last());
        assert(s.drop_last().push(s.last()) =~= s);
    }
}

/// A sequence with an occupied bucket has a positive occupancy count.
pub proof fn lemma_occupied_positive<T>(s: Seq<Option<T>>, i: int)
    requires
        0 <= i < s.len(),
        s[i].is_some(),
    ensures
        occupied(s) >= 1,
{
    s.lemma_filter_contains(|o: Option<T>| o.is_some(), i);
}

/// Probe for `v` from slot `i`, examining at most `steps` slots: the slot
/// where it sits, or `None` when an empty slot or the probe bound ends the
/// search first.
pub open spec fn probe_find(slots: Seq<Option<u64>>, v: u64, i: int, steps: nat) -> Option<int>
    decreases steps,
{
    if steps == 0 || slots.len() == 0 || !(0 <= i < slots.len()) {
        None
    } else {
        match slots[i] {
            None => None,
            Some(x) => if x == v {
                Some(i)
            } else {
                probe_find(slots, v, (i + 1) % (slots.len() as int), (steps - 1) as nat)
            },
        }
    }
}

/// The first empty slot from slot `i` within `steps` slots, or `None` when
/// every examined slot is occupied.
pub open spec fn probe_empty(slots: Seq<Option<u64>>, i: int, steps: nat) -> Option<int>
    decreases steps,
{
    if steps == 0 || slots.len() == 0 || !(0 <= i < slots.len()) {
        None
    } else {
        match slots[i] {
            None => Some(i),
            Some(x) => probe_empty(slots, (i + 1) % (slots.len() as int), (steps - 1) as nat),
        }
    }
}

/// A found empty slot is in range and empty.
pub proof fn lemma_probe_empty_props(slots: Seq<Option<u64>>, i: int, steps: nat)
    requires
        probe_empty(slots, i, steps).is_some(),
    ensures
        0 <= probe_empty(slots, i, steps).unwrap() < slots.len(),
        slots[probe_empty(slots, i, steps).unwrap()].is_none(),
    decreases steps,
{
    if !(steps == 0 || slots.len() == 0 || !(0 <= i < slots.len())) {
        if slots[i].is_some() {
            lemma_probe_empty_props(slots, (i + 1) % (slots.len() as int), (steps - 1) as nat);
        }
    }
}

/// Writing `v` into the first empty slot of its probe walk makes the walk
/// find it there: every slot before it stays occupied by another value.
pub proof fn lemma_probe_insert_found(slots: Seq<Option<u64>>, v: u64, i: int, steps: nat)
    requires
        probe_find(slots, v, i, steps).is_none(),
        probe_empty(slots, i, steps).is_some(),
    ensures
        probe_find(
            slots.update(probe_empty(slots, i, steps).unwrap(), Some(v)),
            v,
            i,
            steps,
        ) == probe_empty(slots, i, steps),
    decreases steps,
{
    lemma_probe_empty_props(slots, i, steps);
    let j = probe_empty(slots, i, steps).unwrap();
    let renewed = slots.update(j, Some(v));
    if slots[i].is_some() {
        lemma_probe_insert_found(slots, v, (i + 1) % (slots.len() as int), (steps - 1) as nat);
    }
}

/// A hash set of 64-bit keys, open-addressed with linear probing: a single
/// writer, any number of readers.
pub struct HashSet {
    buckets: Vec<Option<u64>>,
    size: usize,
}

impl HashSet {
    /// The bucket sequence, for contracts.
    pub closed spec fn spec_buckets(&self) -> Seq<Option<u64>> {
        self.buckets@
    }

    /// The element count the set maintains.
    pub closed spec fn spec_len(&self) -> usize {
        self.size
    }

    /// The set has at least one bucket, and its element counter equals
    /// the number of occupied buckets.
    pub open spec fn wf(&self) -> bool {
        &&& self.spec_buckets().len() > 0
        &&& self.spec_len() == occupied(self.spec_buckets())
    }

    /// The home bucket of `value`, where its probe walk starts.
    pub open spec fn spec_bucket(&self, value: u64) -> int {
        bucket_of(spec_hash_u64(value), self.spec_buckets().len() as int)
    }

    /// Where the probe walk finds `value`, if anywhere.
    pub open spec fn spec_find(&self, value: u64) -> Option<int> {
        probe_find(
            self.spec_buckets(),
            value,
            self.spec_bucket(value),
            self.spec_buckets().len() as nat,
        )
    }

    /// Where an insert of `value` would land: the first empty bucket of
    /// its probe walk.
    pub open spec fn spec_free_slot(&self, value: u64) -> Option<int> {
        probe_empty(
            self.spec_buckets(),
            self.spec_bucket(value),
            self.spec_buckets().len() as nat,
        )
    }

    /// `value` is stored: its probe walk finds it.
    pub open spec fn spec_contains(&self, value: u64) -> bool {
        self.spec_find(value).is_some()
    }

    /// Create a new empty set with the default number of buckets.
    #[inline]
    pub fn new() -> (r: Self)
        ensures
            r.wf(),
            r.spec_len() == 0,
            r.spec_buckets().len() == DEFAULT_CAPACITY,
            forall|i: int| 0 <= i < r.spec_buckets().len() ==> r.spec_buckets()[i].is_none(),
    {
        HashSet::with_capacity(DEFAULT_CAPACITY)
    }

    /// Create a new empty set that will allocate through the given
    /// allocator.
    #[inline]
    pub fn with_allocator(allocator: crate::malloc::GlobalAllocator) -> (r: Self)
        ensures
            r.wf(),
            r.spec_len() == 0,
            r.spec_buckets().len() == DEFAULT_CAPACITY,
            forall|i: int| 0 <= i < r.spec_buckets().len() ==> r.spec_buckets()[i].is_none(),
    {
        HashSet::new()
    }

    /// Create a new empty set with the given capacity and allocator.
    #[inline]
    pub fn with_capacity_and_allocator(
        capacity: usize,
        allocator: crate::malloc::GlobalAllocator,
    ) -> (r: Self)
        requires
            capacity <= usize::MAX / 2,
        ensures
            r.wf(),
            r.spec_len() == 0,
            r.spec_buckets().len() >= DEFAULT_CAPACITY,
            r.spec_buckets().len() >= capacity,
            forall|i: int| 0 <= i < r.spec_buckets().len() ==> r.spec_buckets()[i].is_none(),
    {
        HashSet::with_capacity(capacity)
    }

    /// Create a new empty set with room for `capacity` buckets, rounded up
    /// to a power of two and at least the default.
    pub fn with_capacity(capacity: usize) -> (r: Self)
        requires
            capacity <= usize::MAX / 2,
        ensures
            r.wf(),
            r.spec_len() == 0,
            r.spec_buckets().len() >= DEFAULT_CAPACITY,
            r.spec_buckets().len() >= capacity,
            capacity <= DEFAULT_CAPACITY ==> r.spec_buckets().len() == DEFAULT_CAPACITY,
            forall|i: int| 0 <= i < r.spec_buckets().len() ==> r.spec_buckets()[i].is_none(),
    {
        let mut cap: usize = DEFAULT_CAPACITY;
        if capacity > DEFAULT_CAPACITY {
            while cap < capacity
                invariant
                    DEFAULT_CAPACITY <= cap <= 2 * capacity,
                    DEFAULT_CAPACITY < capacity <= usize::MAX / 2,
                decreases 2 * capacity - cap,
            {
                cap = cap * 2;
            }
        }
        let mut buckets: Vec<Option<u64>> = Vec::new();
        let mut i: usize = 0;
        while i < cap
            invariant
                i <= cap,
                buckets@.len() == i,
                occupied(buckets@) == 0,
                forall|j: int| 0 <= j < i ==> buckets@[j].is_none(),
            decreases cap - i,
        {
            proof {
                lemma_occupied_push(buckets@, None::<u64>);
            }
            buckets.push(None);
            i = i + 1;
        }
        HashSet { buckets, size: 0 }
    }

    /// Check whether the probe walk for `value` finds it.
    pub fn contains(&self, value: &u64) -> (r: bool)
        requires
            self.wf(),
        ensures
            r == self.spec_contains(*value),
    {
        let cap = self.buckets.len();
        let h = hash_u64(*value);
        let home = (h % (cap as u64)) as usize;
        proof {
            assert(home as int == self.spec_bucket(*value));
        }
        let mut idx = home;
        let mut step: usize = 0;
        while step < cap
            invariant
                self.wf(),
                cap == self.spec_buckets().len(),
                idx < cap,
                step <= cap,
                self.spec_find(*value) == probe_find(
                    self.spec_buckets(),
                    *value,
                    idx as int,
                    (cap - step) as nat,
                ),
            decreases cap - step,
        {
            match self.buckets[idx] {
                None => {
                    return false;
                },
                Some(stored) => {
                    if stored == *value {
                        return true;
                    }
                },
            }
            idx = (idx + 1) % cap;
            step = step + 1;
        }
        false
    }

    /// The number of elements: with a well-formed set, exactly the number
    /// of occupied buckets.
    #[inline]
    pub fn len(&self) -> (r: usize)
        ensures
            r == self.spec_len(),
            self.wf() ==> r == occupied(self.spec_buckets()),
    {
        self.size
    }

    /// Check if the set is empty.
    #[inline]
    pub fn is_empty(&self) -> (r: bool)
        ensures
            r == (self.spec_len() == 0),
    {
        self.size == 0
    }

    /// Insert `value` (single writer only): if the probe walk does not
    /// find it, it lands in the first empty bucket of the walk, where a
    /// later lookup finds it. Returns false when the value is already
    /// present or every bucket of the walk is occupied.
    #[verifier::loop_isolation(false)]
    pub fn insert(&mut self, value: u64) -> (r: bool)
        requires
            old(self).wf(),
        ensures
            final(self).wf(),
            final(self).spec_buckets().len() == old(self).spec_buckets().len(),
            old(self).spec_contains(value) ==> !r && *final(self) == *old(self),
            !old(self).spec_contains(value) ==> match old(self).spec_free_slot(value) {
                Some(i) => r && final(self).spec_buckets() == old(self).spec_buckets().update(
                    i,
                    Some(value),
                ) && final(self).spec_len() == old(self).spec_len() + 1 && final(self).spec_contains(value),
                None => !r && *final(self) == *old(self),
            },
    {
        if self.contains(&value) {
            return false;
        }
        let cap = self.buckets.len();
        let h = hash_u64(value);
        let home = (h % (cap as u64)) as usize;
        proof {
            assert(home as int == self.spec_bucket(value));
        }
        let mut idx = home;
        let mut step: usize = 0;
        while step < cap
            invariant
                self.wf(),
                *self == *old(self),
                cap == self.spec_buckets().len(),
                idx < cap,
                step <= cap,
                self.spec_free_slot(value) == probe_empty(
                    self.spec_buckets(),
                    idx as int,
                    (cap - step) as nat,
                ),
            decreases cap - step,
        {
            match self.buckets[idx] {
                None => {
                    proof {
                        lemma_occupied_update(self.spec_buckets(), idx as int, Some(value));
                        lemma_occupied_le_len(
                            self.spec_buckets().update(idx as int, Some(value)),
                        );
                        lemma_probe_insert_found(
                            self.spec_buckets(),
                            value,
                            home as int,
                            cap as nat,
                        );
                    }
                    self.buckets[idx] = Some(value);
                    self.size = self.size + 1;
                    return true;
                },
                Some(stored) => {
                },
            }
            idx = (idx + 1) % cap;
            step = step + 1;
        }
        false
    }

    /// Remove `value` (single writer only): the bucket where the probe
    /// walk finds it is emptied. Returns false when the walk does not
    /// find it.
    #[verifier::loop_isolation(false)]
    pub fn remove(&mut self, value: &u64) -> (r: bool)
        requires
            old(self).wf(),
        ensures
            final(self).wf(),
            final(self).spec_buckets().len() == old(self).spec_buckets().len(),
            r == old(self).spec_contains(*value),
            !old(self).spec_contains(*value) ==> *final(self) == *old(self),
            old(self).spec_contains(*value) ==> final(self).spec_buckets() == old(self).spec_buckets().update(old(self).spec_find(*value).unwrap(), None::<u64>) && final(self).spec_len() == old(self).spec_len() - 1,
    {
        let cap = self.buckets.len();
        let h = hash_u64(*value);
        let home = (h % (cap as u64)) as usize;
        proof {
            assert(home as int == self.spec_bucket(*value));
        }
        let mut idx = home;
        let mut step: usize = 0;
        while step < cap
            invariant
                self.wf(),
                *self == *old(self),
                cap == self.spec_buckets().len(),
                idx < cap,
                step <= cap,
                self.spec_find(*value) == probe_find(
                    self.spec_buckets(),
                    *value,
                    idx as int,
                    (cap - step) as nat,
                ),
            decreases cap - step,
        {
            match self.buckets[idx] {
                None => {
                    return false;
                },
                Some(stored) => {
                    if stored == *value {
                        proof {
                            lemma_occupied_positive(self.spec_buckets(), idx as int);
                            lemma_occupied_update(self.spec_buckets(), idx as int, None::<u64>);
                        }
                        self.buckets[idx] = None;
                        self.size = self.size - 1;
                        return true;
                    }
                },
            }
            idx = (idx + 1) % cap;
            step = step + 1;
        }
        false
    }
}

impl Default for HashSet {
    /// Same as [`HashSet::new`].
    fn default() -> (r: Self)
        ensures
            r.wf(),
            r.spec_len() == 0,
    {
        HashSet::new()
    }
}

} // verus!
