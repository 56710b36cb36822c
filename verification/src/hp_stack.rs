//! Hazard pointer protected stack.
//!
//! The plain Treiber stack is unsafe against concurrent reclamation: a
//! popped entry's memory may only be freed once no other thread can still
//! hold its address. This variant embeds a hazard-pointer engine; a thread
//! registers once, and retires a popped entry's address through its guard,
//! which hands back only addresses that no hazard slot advertises.
//!
//! The stack behaviour is the LIFO of [`crate::stack::Stack`]; the
//! reclamation behaviour is that of [`crate::hp`]. An entry's address is
//! the caller's name for its allocation, as everywhere in this crate.

use vstd::prelude::*;
use crate::hp::{HazardPointers, HpGuard, SCAN_THRESHOLD, drop_pred, keep_pred};
use crate::stack::{Stack, StackEntry};

verus! {

/// A hazard pointer protected stack.
pub struct HpStack<T> {
    stack: Stack<T>,
    hp: HazardPointers,
}

impl<T> View for HpStack<T> {
    type V = Seq<T>;

    closed spec fn view(&self) -> Seq<T> {
        self.stack@
    }
}

impl<T> HpStack<T> {
    /// The embedded hazard-pointer engine, for contracts.
    pub closed spec fn spec_hp(&self) -> HazardPointers {
        self.hp
    }

    /// Create a new empty stack with a fresh engine.
    pub fn new() -> (r: Self)
        ensures
            r@ == Seq::<T>::empty(),
            r.spec_hp().spec_records().len() == 0,
    {
        HpStack { stack: Stack::new(), hp: HazardPointers::new() }
    }

    /// Register the calling thread for protected access: a fresh active
    /// record with empty slots joins the engine and the returned guard
    /// names it.
    pub fn register(&mut self) -> (r: HpStackGuard)
        ensures
            final(self)@ == old(self)@,
            final(self).spec_hp().spec_records().len() == old(
                self,
            ).spec_hp().spec_records().len() + 1,
            forall|j: int| 0 <= j < old(self).spec_hp().spec_records().len()
                ==> final(self).spec_hp().spec_records()[j]
                    == old(self).spec_hp().spec_records()[j],
            r.spec_guard().record_index() == old(self).spec_hp().spec_records().len(),
            r.valid(final(self)),
            r.spec_guard().rec(&final(self).spec_hp()).spec_hazards() == seq![
                0usize,
                0usize,
                0usize,
                0usize,
            ],
            r.spec_guard().rec(&final(self).spec_hp()).spec_active(),
            r.spec_guard().rec(&final(self).spec_hp()).spec_retired() == Seq::<usize>::empty(),
    {
        let guard = self.hp.register();
        HpStackGuard { guard }
    }

    /// Check if the stack is empty.
    pub fn is_empty(&self) -> (r: bool)
        ensures
            r == (self@.len() == 0),
    {
        self.stack.is_empty()
    }
}

impl<T> Default for HpStack<T> {
    /// Same as [`HpStack::new`].
    fn default() -> (r: Self)
        ensures
            r@ == Seq::<T>::empty(),
            r.spec_hp().spec_records().len() == 0,
    {
        HpStack::new()
    }
}

/// A guard for protected stack operations, naming one engine record.
pub struct HpStackGuard {
    guard: HpGuard,
}

impl HpStackGuard {
    /// The engine guard, for contracts.
    pub closed spec fn spec_guard(&self) -> HpGuard {
        self.guard
    }

    /// The guard names a record of the stack's engine.
    pub open spec fn valid<T>(&self, st: &HpStack<T>) -> bool {
        self.spec_guard().record_index() < st.spec_hp().spec_records().len()
    }

    /// Push an entry onto the top of the stack.
    pub fn push<T>(&self, st: &mut HpStack<T>, entry: StackEntry<T>)
        ensures
            final(st)@ == old(st)@.push(entry.spec_data()),
            final(st).spec_hp() == old(st).spec_hp(),
    {
        st.stack.push(entry);
    }

    /// Pop the top entry; `None` exactly when the stack is empty. The
    /// popped entry is now the caller's to retire once it is done reading
    /// it. In the concurrent form the head is held in a hazard slot across
    /// the unlink; the slot traffic has no observable effect here.
    pub fn pop<T>(&self, st: &mut HpStack<T>) -> (r: Option<StackEntry<T>>)
        ensures
            final(st).spec_hp() == old(st).spec_hp(),
            match r {
                Some(e) => old(st)@.len() > 0 && e.spec_data() == old(st)@.last() && final(st)@
                    == old(st)@.drop_last(),
                None => old(st)@.len() == 0 && final(st)@ == old(st)@,
            },
    {
        st.stack.pop()
    }

    /// Retire the address of a popped entry: it is filed on this record's
    /// retire list, and once the list reaches [`SCAN_THRESHOLD`] a scan
    /// runs and returns the addresses no hazard slot advertises; those the
    /// caller frees.
    pub fn retire<T>(&self, st: &mut HpStack<T>, addr: usize) -> (r: Vec<usize>)
        requires
            self.valid(old(st)),
        ensures
            final(st)@ == old(st)@,
            self.spec_guard().others_unchanged(&old(st).spec_hp(), &final(st).spec_hp()),
            self.spec_guard().own_slots_unchanged(&old(st).spec_hp(), &final(st).spec_hp()),
            ({
                let pushed = self.spec_guard().rec(&old(st).spec_hp()).spec_retired().push(addr);
                if pushed.len() >= SCAN_THRESHOLD {
                    r@ == pushed.filter(drop_pred(old(st).spec_hp().spec_records()))
                        && self.spec_guard().rec(&final(st).spec_hp()).spec_retired()
                            == pushed.filter(keep_pred(old(st).spec_hp().spec_records()))
                } else {
                    r@ == Seq::<usize>::empty()
                        && self.spec_guard().rec(&final(st).spec_hp()).spec_retired() == pushed
                }
            }),
    {
        self.guard.retire(&mut st.hp, addr)
    }
}

} // verus!
