//! Hazard pointer memory reclamation.
//!
//! Each registered thread owns a record with a small fixed number of hazard
//! slots and a retire list. A reader advertises the address it is about to
//! dereference in one of its slots; a writer that has unlinked a node files
//! its address with `retire`. `scan` walks every active record's slots and
//! hands back exactly the retired addresses found in no slot — the caller
//! frees those — while the advertised ones stay on the retire list. A
//! thread done with the engine calls `deactivate`: its slots clear and its
//! record stops counting as active.
//!
//! Addresses are plain values here; zero stands for an empty slot.
//! [`lemma_hazard_slot_protects`] states the protection guarantee and
//! [`lemma_retire_scan_frees_once`] that an unprotected retired address is
//! handed back exactly once.

use vstd::prelude::*;

verus! {

/// Number of hazard slots per thread record.
pub const HP_PER_THREAD: usize = 4;

/// Retire-list length at which `retire` triggers a scan.
pub const SCAN_THRESHOLD: usize = 8;

/// A hazard pointer record for one thread: four hazard slots, an active
/// flag, and the list of retired addresses not yet handed back.
pub struct HpRecord {
    h0: usize,
    h1: usize,
    h2: usize,
    h3: usize,
    active: bool,
    retire_list: Vec<usize>,
}

impl HpRecord {
    /// The four hazard slots, zero meaning empty.
    pub closed spec fn spec_hazards(&self) -> Seq<usize> {
        seq![self.h0, self.h1, self.h2, self.h3]
    }

    /// Whether the record belongs to a live registration.
    pub closed spec fn spec_active(&self) -> bool {
        self.active
    }

    /// The retired addresses waiting for a scan.
    pub closed spec fn spec_retired(&self) -> Seq<usize> {
        self.retire_list@
    }
}

/// A nonzero address held in some hazard slot of some active record.
pub open spec fn spec_hazardous(records: Seq<HpRecord>, a: usize) -> bool {
    a != 0 && exists|j: int, s: int|
        0 <= j < records.len() && 0 <= s < HP_PER_THREAD && records[j].spec_active()
            && records[j].spec_hazards()[s] == a
}

/// The predicate `scan` keeps a retired address by: it is still advertised.
pub open spec fn keep_pred(records: Seq<HpRecord>) -> spec_fn(usize) -> bool {
    |a: usize| spec_hazardous(records, a)
}

/// The predicate `scan` frees a retired address by: no slot advertises it.
pub open spec fn drop_pred(records: Seq<HpRecord>) -> spec_fn(usize) -> bool {
    |a: usize| !spec_hazardous(records, a)
}

/// The number of occurrences of `p` in `s`.
pub open spec fn occurrences(s: Seq<usize>, p: usize) -> nat {
    s.filter(|x: usize| x == p).len()
}

/// The global hazard pointer engine: the records of the registered threads.
pub struct HazardPointers {
    records: Vec<HpRecord>,
}

impl HazardPointers {
    /// The registered records.
    pub closed spec fn spec_records(&self) -> Seq<HpRecord> {
        self.records@
    }

    /// Create a new engine with no registered threads.
    pub fn new() -> (r: Self)
        ensures
            r.spec_records().len() == 0,
    {
        HazardPointers { records: Vec::new() }
    }

    /// Register the calling thread: appends a fresh active record with
    /// empty slots and an empty retire list, and returns the guard that
    /// names it.
    pub fn register(&mut self) -> (r: HpGuard)
        ensures
            final(self).spec_records().len() == old(self).spec_records().len() + 1,
            forall|j: int| 0 <= j < old(self).spec_records().len()
                ==> final(self).spec_records()[j] == old(self).spec_records()[j],
            r.record_index() == old(self).spec_records().len(),
            r.rec(final(self)).spec_hazards() == seq![0usize, 0usize, 0usize, 0usize],
            r.rec(final(self)).spec_active(),
            r.rec(final(self)).spec_retired() == Seq::<usize>::empty(),
    {
        let index = self.records.len();
        self.records.push(
            HpRecord { h0: 0, h1: 0, h2: 0, h3: 0, active: true, retire_list: Vec::new() },
        );
        HpGuard { index }
    }
}

impl Default for HazardPointers {
    /// Same as [`HazardPointers::new`].
    fn default() -> (r: Self)
        ensures
            r.spec_records().len() == 0,
    {
        HazardPointers::new()
    }
}

/// Whether any active record advertises `addr` in one of its slots.
fn is_protected(hp: &HazardPointers, addr: usize) -> (r: bool)
    ensures
        r == spec_hazardous(hp.spec_records(), addr),
{
    if addr == 0 {
        return false;
    }
    let n = hp.records.len();
    let mut i: usize = 0;
    while i < n
        invariant
            i <= n,
            n == hp.spec_records().len(),
            addr != 0,
            forall|j: int, s: int|
                0 <= j < i && 0 <= s < HP_PER_THREAD && hp.spec_records()[j].spec_active()
                    ==> hp.spec_records()[j].spec_hazards()[s] != addr,
        decreases n - i,
    {
        let rec = &hp.records[i];
        if rec.active {
            if rec.h0 == addr || rec.h1 == addr || rec.h2 == addr || rec.h3 == addr {
                proof {
                    let r = hp.spec_records()[i as int];
                    if r.spec_hazards()[0] == addr {
                        assert(spec_hazardous(hp.spec_records(), addr));
                    } else if r.spec_hazards()[1] == addr {
                        assert(spec_hazardous(hp.spec_records(), addr));
                    } else if r.spec_hazards()[2] == addr {
                        assert(spec_hazardous(hp.spec_records(), addr));
                    } else {
                        assert(r.spec_hazards()[3] == addr);
                        assert(spec_hazardous(hp.spec_records(), addr));
                    }
                }
                return true;
            }
        }
        proof {
            assert forall|s: int| 0 <= s < HP_PER_THREAD && hp.spec_records()[i as int].spec_active()
                implies hp.spec_records()[i as int].spec_hazards()[s] != addr by {
                assert(hp.spec_records()[i as int].spec_hazards() == seq![
                    hp.records@[i as int].spec_hazards()[0],
                    hp.records@[i as int].spec_hazards()[1],
                    hp.records@[i as int].spec_hazards()[2],
                    hp.records@[i as int].spec_hazards()[3],
                ]);
            }
        }
        i = i + 1;
    }
    false
}

/// A guard naming one registered record of an engine. Operations take the
/// engine explicitly.
pub struct HpGuard {
    index: usize,
}

impl HpGuard {
    /// The index of the record this guard names.
    pub closed spec fn record_index(&self) -> usize {
        self.index
    }

    /// The guard names a record of `e`.
    pub open spec fn valid(&self, e: &HazardPointers) -> bool {
        self.record_index() < e.spec_records().len()
    }

    /// The record this guard names in `e`.
    pub open spec fn rec(&self, e: &HazardPointers) -> HpRecord {
        e.spec_records()[self.record_index() as int]
    }

    /// All records of `e` other than the guard's own are the same in `f`,
    /// and the record count is unchanged.
    pub open spec fn others_unchanged(&self, e: &HazardPointers, f: &HazardPointers) -> bool {
        &&& f.spec_records().len() == e.spec_records().len()
        &&& forall|j: int| 0 <= j < e.spec_records().len() && j != self.record_index()
            ==> f.spec_records()[j] == e.spec_records()[j]
    }

    /// The guard's own record keeps its slots and active flag between `e`
    /// and `f`.
    pub open spec fn own_slots_unchanged(&self, e: &HazardPointers, f: &HazardPointers) -> bool {
        &&& self.rec(f).spec_hazards() == self.rec(e).spec_hazards()
        &&& self.rec(f).spec_active() == self.rec(e).spec_active()
    }

    /// Advertise `ptr` in hazard slot `slot`. Returns the slot index, or
    /// `None` if the index is out of range. The caller must re-read the
    /// source location afterwards and re-protect if it changed.
    pub fn protect(&self, hp: &mut HazardPointers, slot: usize, ptr: usize) -> (r: Option<usize>)
        requires
            self.valid(old(hp)),
        ensures
            self.others_unchanged(old(hp), final(hp)),
            self.rec(final(hp)).spec_active() == self.rec(old(hp)).spec_active(),
            self.rec(final(hp)).spec_retired() == self.rec(old(hp)).spec_retired(),
            r == if slot < HP_PER_THREAD { Some(slot) } else { None::<usize> },
            slot < HP_PER_THREAD ==> self.rec(final(hp)).spec_hazards()
                == self.rec(old(hp)).spec_hazards().update(slot as int, ptr),
            slot >= HP_PER_THREAD ==> self.rec(final(hp)) == self.rec(old(hp)),
    {
        if slot >= HP_PER_THREAD {
            return None;
        }
        let rec = &mut hp.records[self.index];
        if slot == 0 {
            rec.h0 = ptr;
        } else if slot == 1 {
            rec.h1 = ptr;
        } else if slot == 2 {
            rec.h2 = ptr;
        } else {
            rec.h3 = ptr;
        }
        proof {
            assert(self.rec(hp).spec_hazards() =~= self.rec(old(hp)).spec_hazards().update(
                slot as int, ptr));
        }
        Some(slot)
    }

    /// Clear hazard slot `slot`; an out-of-range index clears nothing.
    pub fn clear(&self, hp: &mut HazardPointers, slot: usize)
        requires
            self.valid(old(hp)),
        ensures
            self.others_unchanged(old(hp), final(hp)),
            self.rec(final(hp)).spec_active() == self.rec(old(hp)).spec_active(),
            self.rec(final(hp)).spec_retired() == self.rec(old(hp)).spec_retired(),
            slot < HP_PER_THREAD ==> self.rec(final(hp)).spec_hazards()
                == self.rec(old(hp)).spec_hazards().update(slot as int, 0usize),
            slot >= HP_PER_THREAD ==> self.rec(final(hp)) == self.rec(old(hp)),
    {
        if slot < HP_PER_THREAD {
            let cleared = self.protect(hp, slot, 0);
            proof {
                assert(cleared == Some(slot));
            }
        }
    }

    /// Clear every hazard slot of the guard's record.
    pub fn clear_all(&self, hp: &mut HazardPointers)
        requires
            self.valid(old(hp)),
        ensures
            self.others_unchanged(old(hp), final(hp)),
            self.rec(final(hp)).spec_active() == self.rec(old(hp)).spec_active(),
            self.rec(final(hp)).spec_retired() == self.rec(old(hp)).spec_retired(),
            self.rec(final(hp)).spec_hazards() == seq![0usize, 0usize, 0usize, 0usize],
    {
        let rec = &mut hp.records[self.index];
        rec.h0 = 0;
        rec.h1 = 0;
        rec.h2 = 0;
        rec.h3 = 0;
        proof {
            assert(self.rec(hp).spec_hazards() =~= seq![0usize, 0usize, 0usize, 0usize]);
        }
    }

    /// Retire this guard's registration: every hazard slot is cleared and
    /// the record goes inactive, so nothing it advertised holds back a
    /// scan any more. Addresses still on its retire list stay filed.
    pub fn deactivate(&self, hp: &mut HazardPointers)
        requires
            self.valid(old(hp)),
        ensures
            self.others_unchanged(old(hp), final(hp)),
            self.rec(final(hp)).spec_hazards() == seq![0usize, 0usize, 0usize, 0usize],
            !self.rec(final(hp)).spec_active(),
            self.rec(final(hp)).spec_retired() == self.rec(old(hp)).spec_retired(),
    {
        let rec = &mut hp.records[self.index];
        rec.h0 = 0;
        rec.h1 = 0;
        rec.h2 = 0;
        rec.h3 = 0;
        rec.active = false;
        proof {
            assert(self.rec(hp).spec_hazards() =~= seq![0usize, 0usize, 0usize, 0usize]);
        }
    }

    /// Scan all records' hazard slots and hand back the retired addresses
    /// of this guard's record that no active record advertises; the
    /// advertised ones stay on the retire list.
    pub fn scan(&self, hp: &mut HazardPointers) -> (r: Vec<usize>)
        requires
            self.valid(old(hp)),
        ensures
            self.others_unchanged(old(hp), final(hp)),
            self.own_slots_unchanged(old(hp), final(hp)),
            r@ == self.rec(old(hp)).spec_retired().filter(drop_pred(old(hp).spec_records())),
            self.rec(final(hp)).spec_retired()
                == self.rec(old(hp)).spec_retired().filter(keep_pred(old(hp).spec_records())),
    {
        let ghost retired = self.rec(old(hp)).spec_retired();
        let ghost records = old(hp).spec_records();
        let n = hp.records[self.index].retire_list.len();
        let mut kept: Vec<usize> = Vec::new();
        let mut freed: Vec<usize> = Vec::new();
        let mut i: usize = 0;
        while i < n
            invariant
                self.valid(hp),
                *hp == *old(hp),
                retired == self.rec(hp).spec_retired(),
                records == hp.spec_records(),
                i <= n,
                n == retired.len(),
                kept@ == retired.take(i as int).filter(keep_pred(records)),
                freed@ == retired.take(i as int).filter(drop_pred(records)),
            decreases n - i,
        {
            let a = hp.records[self.index].retire_list[i];
            proof {
                reveal(Seq::filter);
                assert(retired.take(i as int + 1).drop_last() =~= retired.take(i as int));
                assert(retired.take(i as int + 1).last() == retired[i as int]);
            }
            if is_protected(hp, a) {
                kept.push(a);
            } else {
                freed.push(a);
            }
            i = i + 1;
        }
        proof {
            assert(retired.take(n as int) =~= retired);
        }
        let rec = &mut hp.records[self.index];
        rec.retire_list = kept;
        freed
    }

    /// Retire `ptr`: file it on this record's retire list. When the list
    /// reaches [`SCAN_THRESHOLD`] entries a scan runs at once, and its freed
    /// addresses are returned; otherwise the result is empty.
    pub fn retire(&self, hp: &mut HazardPointers, ptr: usize) -> (r: Vec<usize>)
        requires
            self.valid(old(hp)),
        ensures
            self.others_unchanged(old(hp), final(hp)),
            self.own_slots_unchanged(old(hp), final(hp)),
            ({
                let pushed = self.rec(old(hp)).spec_retired().push(ptr);
                if pushed.len() >= SCAN_THRESHOLD {
                    r@ == pushed.filter(drop_pred(old(hp).spec_records()))
                        && self.rec(final(hp)).spec_retired()
                            == pushed.filter(keep_pred(old(hp).spec_records()))
                } else {
                    r@ == Seq::<usize>::empty()
                        && self.rec(final(hp)).spec_retired() == pushed
                }
            }),
    {
        let rec = &mut hp.records[self.index];
        rec.retire_list.push(ptr);
        let len = rec.retire_list.len();
        if len >= SCAN_THRESHOLD {
            let ghost mid = *hp;
            let freed = self.scan(hp);
            proof {
                let pushed = self.rec(old(hp)).spec_retired().push(ptr);
                lemma_hazardous_same_slots(mid.spec_records(), old(hp).spec_records());
                lemma_filter_congruence(pushed, keep_pred(mid.spec_records()),
                    keep_pred(old(hp).spec_records()));
                lemma_filter_congruence(pushed, drop_pred(mid.spec_records()),
                    drop_pred(old(hp).spec_records()));
            }
            freed
        } else {
            Vec::new()
        }
    }
}

/// Two record sequences whose slots and active flags agree pointwise agree
/// on which addresses are hazardous.
proof fn lemma_hazardous_same_slots(r1: Seq<HpRecord>, r2: Seq<HpRecord>)
    requires
        r1.len() == r2.len(),
        forall|j: int| 0 <= j < r1.len()
            ==> r1[j].spec_hazards() == r2[j].spec_hazards() && r1[j].spec_active()
                == r2[j].spec_active(),
    ensures
        forall|a: usize| #[trigger] spec_hazardous(r1, a) == spec_hazardous(r2, a),
{
    assert forall|a: usize| #[trigger] spec_hazardous(r1, a) == spec_hazardous(r2, a) by {
        if spec_hazardous(r1, a) {
            let (j, s) = choose|j: int, s: int|
                0 <= j < r1.len() && 0 <= s < HP_PER_THREAD && r1[j].spec_active()
                    && r1[j].spec_hazards()[s] == a;
            assert(r2[j].spec_active() && r2[j].spec_hazards()[s] == a);
        }
        if spec_hazardous(r2, a) {
            let (j, s) = choose|j: int, s: int|
                0 <= j < r2.len() && 0 <= s < HP_PER_THREAD && r2[j].spec_active()
                    && r2[j].spec_hazards()[s] == a;
            assert(r1[j].spec_active() && r1[j].spec_hazards()[s] == a);
        }
    }
}

/// Filtering by pointwise-equal predicates gives the same sequence.
proof fn lemma_filter_congruence(
    s: Seq<usize>,
    p1: spec_fn(usize) -> bool,
    p2: spec_fn(usize) -> bool,
)
    requires
        forall|x: usize| #[trigger] p1(x) == p2(x),
    ensures
        s.filter(p1) == s.filter(p2),
    decreases s.len(),
{
    reveal(Seq::filter);
    if s.len() > 0 {
        lemma_filter_congruence(s.drop_last(), p1, p2);
    }
}

/// An address advertised in any active hazard slot is never among the
/// addresses a scan frees.
pub proof fn lemma_hazard_slot_protects(records: Seq<HpRecord>, retired: Seq<usize>, a: usize)
    requires
        spec_hazardous(records, a),
    ensures
        !retired.filter(drop_pred(records)).contains(a),
{
    let f = retired.filter(drop_pred(records));
    if f.contains(a) {
        let i = choose|i: int| 0 <= i < f.len() && f[i] == a;
        retired.lemma_filter_pred(drop_pred(records), i);
    }
}

/// How many occurrences of `p` survive pushing `a`.
proof fn lemma_occurrences_push(s: Seq<usize>, a: usize, p: usize)
    ensures
        occurrences(s.push(a), p) == occurrences(s, p) + if a == p { 1nat } else { 0nat },
{
    reveal(Seq::filter);
    assert(s.push(a).drop_last() =~= s);
}

/// A retired address held in no hazard slot is handed back by a scan
/// exactly as often as it was retired, and the kept list no longer holds
/// it: retiring once and scanning frees it exactly once.
pub proof fn lemma_retire_scan_frees_once(records: Seq<HpRecord>, retired: Seq<usize>, p: usize)
    requires
        !spec_hazardous(records, p),
    ensures
        occurrences(retired.filter(drop_pred(records)), p) == occurrences(retired, p),
        !retired.filter(keep_pred(records)).contains(p),
    decreases retired.len(),
{
    reveal(Seq::filter);
    if retired.len() == 0 {
        assert(retired.filter(drop_pred(records)) =~= Seq::<usize>::empty());
        assert(retired.filter(keep_pred(records)) =~= Seq::<usize>::empty());
    } else {
        let s = retired.drop_last();
        let a = retired.last();
        lemma_retire_scan_frees_once(records, s, p);
        lemma_occurrences_push(s, a, p);
        assert(retired.drop_last() == s && retired.last() == a);
        if drop_pred(records)(a) {
            lemma_occurrences_push(s.filter(drop_pred(records)), a, p);
        }
        let kept = retired.filter(keep_pred(records));
        if kept.contains(p) {
            let i = choose|i: int| 0 <= i < kept.len() && kept[i] == p;
            retired.lemma_filter_pred(keep_pred(records), i);
        }
    }
}

} // verus!
