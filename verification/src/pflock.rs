//! Phase-fair reader-writer lock.
//!
//! A single 32-bit state word: bit 0 is the writer bit, bits 2 and up
//! count active readers in steps of four; bit 1 is unused and stays clear.
//! A reader may enter only while the writer bit is clear; a writer first
//! sets its bit — which shuts out new readers — and then waits for the
//! reader count to drain to zero. That bounds every writer's wait and
//! keeps readers from starving writers.
//!
//! In this sequential model an acquire that would spin on another thread
//! is excluded by its precondition: `read` demands the writer bit clear,
//! `write` demands the lock free of readers too. Guards are plain tokens;
//! release is an explicit call. [`lemma_pf_phase_invariant`] proves the
//! phase-fair state invariant across every transition.

use vstd::prelude::*;

verus! {

/// Writer bit of the state word.
pub const PF_WBIT: u32 = 0x1;

/// Reader increment of the state word.
pub const PF_RINC: u32 = 0x4;

/// A writer holds or waits in state `s`.
pub open spec fn pf_writer(s: u32) -> bool {
    s % 2 == 1
}

/// The number of active readers in state `s`.
pub open spec fn pf_readers(s: u32) -> u32 {
    s / 4
}

/// The state invariant: bit 1 is never used, and while the writer holds
/// the lock no reader is active.
pub open spec fn pf_inv(s: u32) -> bool {
    &&& (s / 2) % 2 == 0
    &&& pf_writer(s) ==> pf_readers(s) == 0
}

/// The transitions of the lock, exactly as the four operations change the
/// state word: a reader enters, a reader leaves, a writer acquires, a
/// writer releases.
pub open spec fn pf_step(pre: u32, post: u32) -> bool {
    ||| (!pf_writer(pre) && pre + 4 <= u32::MAX && post == pre + 4)
    ||| (pf_readers(pre) > 0 && post == pre - 4)
    ||| (!pf_writer(pre) && pf_readers(pre) == 0 && post == pre + 1)
    ||| (pf_writer(pre) && pf_readers(pre) == 0 && post == pre - 1)
}

/// Phase-fair exclusion: the state invariant — either the writer bit is
/// clear, or it is set and the reader count is zero — holds of a new lock
/// and is preserved by every transition. In particular a writer acquires
/// only a reader-free lock and readers are shut out until it releases.
pub proof fn lemma_pf_phase_invariant(pre: u32, post: u32)
    requires
        pf_inv(pre),
        pf_step(pre, post),
    ensures
        pf_inv(post),
{
}

/// A phase-fair reader-writer lock around a protected value.
pub struct PfLock<T> {
    state: u32,
    data: T,
}

impl<T> PfLock<T> {
    /// The state word, for contracts.
    pub closed spec fn spec_state(&self) -> u32 {
        self.state
    }

    /// The protected value, for contracts.
    pub closed spec fn spec_data(&self) -> T {
        self.data
    }

    /// A writer holds the lock.
    pub open spec fn writer_held(&self) -> bool {
        pf_writer(self.spec_state())
    }

    /// The number of active readers.
    pub open spec fn reader_count(&self) -> u32 {
        pf_readers(self.spec_state())
    }

    /// Create a new unlocked lock around `data`.
    #[inline]
    pub fn new(data: T) -> (r: Self)
        ensures
            r.spec_state() == 0,
            !r.writer_held(),
            r.reader_count() == 0,
            r.spec_data() == data,
    {
        PfLock { state: 0, data }
    }

    /// Acquire a read lock: the reader count rises by one. A writer that
    /// holds or waits excludes new readers, so the writer bit must be
    /// clear; with one waiting, the concurrent form backs off and retries.
    #[inline]
    pub fn read(&mut self) -> (r: PfLockReadGuard)
        requires
            !old(self).writer_held(),
            old(self).spec_state() + PF_RINC <= u32::MAX,
        ensures
            final(self).spec_state() == old(self).spec_state() + PF_RINC,
            final(self).reader_count() == old(self).reader_count() + 1,
            !final(self).writer_held(),
            final(self).spec_data() == old(self).spec_data(),
    {
        self.state = self.state + PF_RINC;
        PfLockReadGuard { token: () }
    }

    /// Release a read lock: the reader count falls by one.
    #[inline]
    pub fn read_unlock(&mut self, guard: PfLockReadGuard)
        requires
            old(self).reader_count() > 0,
        ensures
            final(self).spec_state() == old(self).spec_state() - PF_RINC,
            final(self).reader_count() == old(self).reader_count() - 1,
            final(self).writer_held() == old(self).writer_held(),
            final(self).spec_data() == old(self).spec_data(),
    {
        self.state = self.state - PF_RINC;
    }

    /// Acquire the write lock: the writer bit is set with the reader count
    /// at zero. The concurrent form first sets the bit, shutting out new
    /// readers, then spins until the active ones have left; here that
    /// drained state is the precondition.
    #[inline]
    pub fn write(&mut self) -> (r: PfLockWriteGuard)
        requires
            !old(self).writer_held(),
            old(self).reader_count() == 0,
        ensures
            final(self).spec_state() == old(self).spec_state() + PF_WBIT,
            final(self).writer_held(),
            final(self).reader_count() == 0,
            final(self).spec_data() == old(self).spec_data(),
    {
        self.state = self.state + PF_WBIT;
        PfLockWriteGuard { token: () }
    }

    /// Release the write lock: the writer bit is cleared.
    #[inline]
    pub fn write_unlock(&mut self, guard: PfLockWriteGuard)
        requires
            old(self).writer_held(),
        ensures
            final(self).spec_state() == old(self).spec_state() - PF_WBIT,
            !final(self).writer_held(),
            final(self).reader_count() == old(self).reader_count(),
            final(self).spec_data() == old(self).spec_data(),
    {
        self.state = self.state - PF_WBIT;
    }

    /// Borrow the protected value; hold a read or write guard to do so.
    #[inline]
    pub fn data(&self) -> (r: &T)
        requires
            self.writer_held() || self.reader_count() > 0,
        ensures
            *r == self.spec_data(),
    {
        &self.data
    }

    /// Borrow the protected value mutably; hold the write guard to do so.
    #[inline]
    pub fn data_mut(&mut self) -> (r: &mut T)
        requires
            old(self).writer_held(),
        ensures
            *r == old(self).spec_data(),
            final(self).spec_data() == *final(r),
            final(self).spec_state() == old(self).spec_state(),
    {
        &mut self.data
    }
}

/// Token witnessing a read acquisition; hand it back to `read_unlock`.
pub struct PfLockReadGuard {
    token: (),
}

/// Token witnessing the write acquisition; hand it back to `write_unlock`.
pub struct PfLockWriteGuard {
    token: (),
}

} // verus!
