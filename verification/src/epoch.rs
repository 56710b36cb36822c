//! Epoch-based safe memory reclamation.
//!
//! Epoch-based reclamation defers the freeing of memory unlinked from a
//! lock-free structure until every thread that could still hold a reference
//! has passed through a grace period. The engine keeps a global epoch
//! counter and one record per registered thread; each record carries a local
//! epoch snapshot, a critical-section nesting count, and three garbage
//! buckets indexed by epoch modulo three.
//!
//! A freed location is modelled by its address alone: `defer_free` files an
//! address in the bucket of the record's local epoch, and `try_reclaim`
//! hands back the addresses whose grace period has passed; the caller frees
//! the memory behind them. With a grace of two epochs and three buckets,
//! the drained bucket is never the bucket of the current or previous local
//! epoch — [`lemma_grace_buckets_disjoint`] proves that — and a reclaim
//! drains only the calling record's own buckets, never another record's.
//! The protocol keeps every active record within one epoch of the global
//! counter; [`epoch_window_inv`] states that window and the
//! `lemma_window_inv` family proves each operation preserves it.

use vstd::prelude::*;

verus! {

/// Number of epochs before a deferred address may be handed back.
pub const EPOCH_GRACE: u64 = 2;

/// The bucket in which an address deferred at local epoch `e` is filed.
pub open spec fn defer_bucket(e: u64) -> int {
    e as int % 3
}

/// The bucket that a reclaim at local epoch `e` drains: the one two epochs
/// behind, which is the one ahead modulo three.
pub open spec fn reclaim_bucket(e: u64) -> int {
    (e as int + 1) % 3
}

/// The drained bucket is never the bucket of the current local epoch nor of
/// the one before it: an address deferred while any record is still pinned
/// at its epoch or the previous one stays filed. With a grace of two epochs
/// and three buckets this holds for every epoch value.
pub proof fn lemma_grace_buckets_disjoint(e: u64)
    ensures
        reclaim_bucket(e) != defer_bucket(e),
        e >= 1 ==> reclaim_bucket(e) != defer_bucket((e - 1) as u64),
{
}

/// A record for a registered thread.
pub struct EpochRecord {
    epoch: u64,
    active: u64,
    g0: Vec<usize>,
    g1: Vec<usize>,
    g2: Vec<usize>,
}

impl EpochRecord {
    /// The record's local epoch snapshot.
    pub closed spec fn local_epoch(&self) -> u64 {
        self.epoch
    }

    /// The record's critical-section nesting count; the record is active
    /// while this is positive.
    pub closed spec fn active_count(&self) -> u64 {
        self.active
    }

    /// The addresses filed in bucket `i`.
    pub closed spec fn bucket(&self, i: int) -> Seq<usize> {
        if i == 0 {
            self.g0@
        } else if i == 1 {
            self.g1@
        } else {
            self.g2@
        }
    }
}

/// The reclamation engine: a global epoch counter and the records of the
/// registered threads.
pub struct Epoch {
    global_epoch: u64,
    records: Vec<EpochRecord>,
}

impl Epoch {
    /// The global epoch counter.
    pub closed spec fn global(&self) -> u64 {
        self.global_epoch
    }

    /// The registered records.
    pub closed spec fn spec_records(&self) -> Seq<EpochRecord> {
        self.records@
    }

    /// Create a new engine with no registered threads and epoch zero.
    pub fn new() -> (r: Self)
        ensures
            r.global() == 0,
            r.spec_records().len() == 0,
    {
        Epoch { global_epoch: 0, records: Vec::new() }
    }

    /// Register a thread: appends a fresh record (local epoch zero, not
    /// active, empty buckets) and returns the guard that names it.
    pub fn register(&mut self) -> (r: Guard)
        ensures
            final(self).global() == old(self).global(),
            final(self).spec_records().len() == old(self).spec_records().len() + 1,
            forall|j: int| 0 <= j < old(self).spec_records().len()
                ==> final(self).spec_records()[j] == old(self).spec_records()[j],
            r.record_index() == old(self).spec_records().len(),
            r.rec(final(self)).local_epoch() == 0,
            r.rec(final(self)).active_count() == 0,
            forall|k: int| 0 <= k < 3 ==> r.rec(final(self)).bucket(k) == Seq::<usize>::empty(),
    {
        let index = self.records.len();
        self.records.push(
            EpochRecord { epoch: 0, active: 0, g0: Vec::new(), g1: Vec::new(), g2: Vec::new() },
        );
        Guard { index }
    }

    /// Try to advance the global epoch. Succeeds exactly when every active
    /// record has observed the current global epoch; on success the counter
    /// moves one forward.
    pub fn try_advance(&mut self) -> (r: bool)
        requires
            old(self).global() < u64::MAX,
        ensures
            r == (forall|j: int| 0 <= j < old(self).spec_records().len()
                && old(self).spec_records()[j].active_count() > 0
                ==> old(self).spec_records()[j].local_epoch() == old(self).global()),
            final(self).spec_records() == old(self).spec_records(),
            final(self).global()
                == if r { (old(self).global() + 1) as u64 } else { old(self).global() },
    {
        let global = self.global_epoch;
        let n = self.records.len();
        let mut i: usize = 0;
        while i < n
            invariant
                i <= n,
                n == self.spec_records().len(),
                global == self.global(),
                forall|j: int| 0 <= j < i && self.spec_records()[j].active_count() > 0
                    ==> self.spec_records()[j].local_epoch() == global,
            decreases n - i,
        {
            let rec = &self.records[i];
            if rec.active > 0 && rec.epoch != global {
                return false;
            }
            i = i + 1;
        }
        self.global_epoch = global + 1;
        true
    }
}

impl Default for Epoch {
    /// Same as [`Epoch::new`].
    fn default() -> (r: Self)
        ensures
            r.global() == 0,
            r.spec_records().len() == 0,
    {
        Epoch::new()
    }
}

/// A guard naming one registered record of an engine. Operations take the
/// engine explicitly: a guard carries no data beyond the record it names.
pub struct Guard {
    index: usize,
}

impl Guard {
    /// The index of the record this guard names.
    pub closed spec fn record_index(&self) -> usize {
        self.index
    }

    /// The guard names a record of `e`.
    pub open spec fn valid(&self, e: &Epoch) -> bool {
        self.record_index() < e.spec_records().len()
    }

    /// The record this guard names in `e`.
    pub open spec fn rec(&self, e: &Epoch) -> EpochRecord {
        e.spec_records()[self.record_index() as int]
    }

    /// All records of `e` other than the guard's own are the same in `f`,
    /// the record count is unchanged, and so is the global epoch.
    pub open spec fn others_unchanged(&self, e: &Epoch, f: &Epoch) -> bool {
        &&& f.global() == e.global()
        &&& f.spec_records().len() == e.spec_records().len()
        &&& forall|j: int| 0 <= j < e.spec_records().len() && j != self.record_index()
            ==> f.spec_records()[j] == e.spec_records()[j]
    }

    /// Enter a critical section: snapshot the global epoch into the record
    /// and raise its nesting count.
    pub fn enter(&self, e: &mut Epoch)
        requires
            self.valid(old(e)),
            self.rec(old(e)).active_count() < u64::MAX,
        ensures
            self.others_unchanged(old(e), final(e)),
            self.rec(final(e)).local_epoch() == old(e).global(),
            self.rec(final(e)).active_count() == self.rec(old(e)).active_count() + 1,
            forall|k: int| 0 <= k < 3
                ==> self.rec(final(e)).bucket(k) == self.rec(old(e)).bucket(k),
    {
        let global = e.global_epoch;
        let rec = &mut e.records[self.index];
        rec.epoch = global;
        rec.active = rec.active + 1;
    }

    /// Leave a critical section: lower the record's nesting count.
    pub fn leave(&self, e: &mut Epoch)
        requires
            self.valid(old(e)),
            self.rec(old(e)).active_count() > 0,
        ensures
            self.others_unchanged(old(e), final(e)),
            self.rec(final(e)).local_epoch() == self.rec(old(e)).local_epoch(),
            self.rec(final(e)).active_count() == self.rec(old(e)).active_count() - 1,
            forall|k: int| 0 <= k < 3
                ==> self.rec(final(e)).bucket(k) == self.rec(old(e)).bucket(k),
    {
        let rec = &mut e.records[self.index];
        rec.active = rec.active - 1;
    }

    /// Defer the freeing of `addr`: file it in the bucket of the record's
    /// local epoch. The address is handed back by a later `try_reclaim`
    /// once its grace period has passed.
    pub fn defer_free(&self, e: &mut Epoch, addr: usize)
        requires
            self.valid(old(e)),
        ensures
            self.others_unchanged(old(e), final(e)),
            self.rec(final(e)).local_epoch() == self.rec(old(e)).local_epoch(),
            self.rec(final(e)).active_count() == self.rec(old(e)).active_count(),
            self.rec(final(e)).bucket(defer_bucket(self.rec(old(e)).local_epoch()))
                == self.rec(old(e)).bucket(defer_bucket(self.rec(old(e)).local_epoch())).push(addr),
            forall|k: int| 0 <= k < 3 && k != defer_bucket(self.rec(old(e)).local_epoch())
                ==> self.rec(final(e)).bucket(k) == self.rec(old(e)).bucket(k),
    {
        let rec = &mut e.records[self.index];
        let b = rec.epoch % 3;
        if b == 0 {
            rec.g0.push(addr);
        } else if b == 1 {
            rec.g1.push(addr);
        } else {
            rec.g2.push(addr);
        }
    }

    /// Reclaim the bucket whose grace period has passed: at local epoch `e`
    /// the bucket two epochs behind is drained and its addresses returned
    /// for the caller to free. The buckets of epochs `e` and `e - 1` are
    /// untouched, so an address deferred while any record is pinned there
    /// stays filed.
    pub fn try_reclaim(&self, e: &mut Epoch) -> (r: Vec<usize>)
        requires
            self.valid(old(e)),
        ensures
            self.others_unchanged(old(e), final(e)),
            self.rec(final(e)).local_epoch() == self.rec(old(e)).local_epoch(),
            self.rec(final(e)).active_count() == self.rec(old(e)).active_count(),
            r@ == self.rec(old(e)).bucket(reclaim_bucket(self.rec(old(e)).local_epoch())),
            self.rec(final(e)).bucket(reclaim_bucket(self.rec(old(e)).local_epoch()))
                == Seq::<usize>::empty(),
            forall|k: int| 0 <= k < 3 && k != reclaim_bucket(self.rec(old(e)).local_epoch())
                ==> self.rec(final(e)).bucket(k) == self.rec(old(e)).bucket(k),
    {
        let rec = &mut e.records[self.index];
        let b = (rec.epoch % 3 + 1) % 3;
        let mut drained: Vec<usize> = Vec::new();
        if b == 0 {
            core::mem::swap(&mut drained, &mut rec.g0);
        } else if b == 1 {
            core::mem::swap(&mut drained, &mut rec.g1);
        } else {
            core::mem::swap(&mut drained, &mut rec.g2);
        }
        drained
    }
}

/// The window invariant of the epoch protocol: every active record's
/// local epoch is the global epoch or the one just before it. A record
/// pins the epoch it observed on entry, and the global epoch moves only
/// when every active record has observed it, so no active record can fall
/// further behind.
pub open spec fn epoch_window_inv(e: &Epoch) -> bool {
    forall|j: int| 0 <= j < e.spec_records().len()
        && #[trigger] e.spec_records()[j].active_count() > 0
        ==> e.spec_records()[j].local_epoch() == e.global() || e.spec_records()[j].local_epoch()
            + 1 == e.global()
}

/// A fresh engine satisfies the window invariant: it has no records.
pub proof fn lemma_window_inv_new(e: &Epoch)
    requires
        e.spec_records().len() == 0,
    ensures
        epoch_window_inv(e),
{
}

/// Registration preserves the window invariant: the fresh record is not
/// active, and the rest are unchanged.
pub proof fn lemma_window_inv_register(pre: &Epoch, post: &Epoch, g: Guard)
    requires
        epoch_window_inv(pre),
        post.global() == pre.global(),
        post.spec_records().len() == pre.spec_records().len() + 1,
        forall|j: int| 0 <= j < pre.spec_records().len()
            ==> post.spec_records()[j] == pre.spec_records()[j],
        g.record_index() == pre.spec_records().len(),
        g.rec(post).active_count() == 0,
    ensures
        epoch_window_inv(post),
{
}

/// Entering a critical section preserves the window invariant: the record
/// snapshots the global epoch itself.
pub proof fn lemma_window_inv_enter(pre: &Epoch, post: &Epoch, g: Guard)
    requires
        epoch_window_inv(pre),
        g.valid(pre),
        g.others_unchanged(pre, post),
        g.rec(post).local_epoch() == pre.global(),
    ensures
        epoch_window_inv(post),
{
}

/// Leaving a critical section preserves the window invariant: an inactive
/// record is unconstrained, and the rest are unchanged.
pub proof fn lemma_window_inv_leave(pre: &Epoch, post: &Epoch, g: Guard)
    requires
        epoch_window_inv(pre),
        g.valid(pre),
        g.others_unchanged(pre, post),
        g.rec(post).local_epoch() == g.rec(pre).local_epoch(),
        g.rec(post).active_count() <= g.rec(pre).active_count(),
    ensures
        epoch_window_inv(post),
{
}

/// An epoch advance preserves the window invariant: it happens only when
/// every active record has observed the current global epoch, which then
/// becomes the epoch just before the new one.
pub proof fn lemma_window_inv_advance(pre: &Epoch, post: &Epoch)
    requires
        epoch_window_inv(pre),
        pre.global() < u64::MAX,
        forall|j: int| 0 <= j < pre.spec_records().len()
            && #[trigger] pre.spec_records()[j].active_count() > 0
            ==> pre.spec_records()[j].local_epoch() == pre.global(),
        post.spec_records() == pre.spec_records(),
        post.global() == pre.global() + 1,
    ensures
        epoch_window_inv(post),
{
}

/// Filing and draining garbage preserve the window invariant: neither
/// touches a local epoch, an activity count or the global epoch.
pub proof fn lemma_window_inv_garbage(pre: &Epoch, post: &Epoch, g: Guard)
    requires
        epoch_window_inv(pre),
        g.valid(pre),
        g.others_unchanged(pre, post),
        g.rec(post).local_epoch() == g.rec(pre).local_epoch(),
        g.rec(post).active_count() == g.rec(pre).active_count(),
    ensures
        epoch_window_inv(post),
{
    lemma_window_inv_leave(pre, post, g);
}

} // verus!
