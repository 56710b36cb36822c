//! Reader-writer lock cohorting.
//!
//! The reader-writer shape of the cohort lock: a state word counts
//! readers in steps of two with the writer in bit zero, as in
//! [`crate::rwlock`], acquired by compare-and-swap with backoff in the
//! concurrent form.

use vstd::prelude::*;

verus! {

/// A reader-writer cohort lock around a protected value.
pub struct RwCohortLock<T> {
    state: usize,
    data: T,
}

impl<T> RwCohortLock<T> {
    /// The state word, for contracts.
    pub closed spec fn spec_state(&self) -> usize {
        self.state
    }

    /// The protected value, for contracts.
    pub closed spec fn spec_data(&self) -> T {
        self.data
    }

    /// A writer holds the lock.
    pub open spec fn writer_held(&self) -> bool {
        self.spec_state() % 2 == 1
    }

    /// The number of active readers.
    pub open spec fn spec_readers(&self) -> usize {
        self.spec_state() / 2
    }

    /// Create a new unlocked lock around `data`.
    #[inline]
    pub fn new(data: T) -> (r: Self)
        ensures
            r.spec_state() == 0,
            !r.writer_held(),
            r.spec_readers() == 0,
            r.spec_data() == data,
    {
        RwCohortLock { state: 0, data }
    }

    /// Acquire a read lock. With a writer holding, the concurrent form
    /// backs off and retries; here that state is excluded by precondition.
    #[inline]
    pub fn read(&mut self) -> (r: RwCohortReadGuard)
        requires
            !old(self).writer_held(),
            old(self).spec_state() <= usize::MAX - 2,
        ensures
            final(self).spec_state() == old(self).spec_state() + 2,
            final(self).spec_readers() == old(self).spec_readers() + 1,
            !final(self).writer_held(),
            final(self).spec_data() == old(self).spec_data(),
    {
        self.state = self.state + 2;
        RwCohortReadGuard { token: () }
    }

    /// Release a read lock.
    #[inline]
    pub fn read_unlock(&mut self, guard: RwCohortReadGuard)
        requires
            old(self).spec_readers() > 0,
        ensures
            final(self).spec_state() == old(self).spec_state() - 2,
            final(self).spec_readers() == old(self).spec_readers() - 1,
            final(self).writer_held() == old(self).writer_held(),
            final(self).spec_data() == old(self).spec_data(),
    {
        self.state = self.state - 2;
    }

    /// Acquire the write lock: only from the idle state, with no readers
    /// and no writer.
    #[inline]
    pub fn write(&mut self) -> (r: RwCohortWriteGuard)
        requires
            old(self).spec_state() == 0,
        ensures
            final(self).spec_state() == 1,
            final(self).writer_held(),
            final(self).spec_readers() == 0,
            final(self).spec_data() == old(self).spec_data(),
    {
        self.state = 1;
        RwCohortWriteGuard { token: () }
    }

    /// Release the write lock.
    #[inline]
    pub fn write_unlock(&mut self, guard: RwCohortWriteGuard)
        requires
            old(self).writer_held(),
        ensures
            final(self).spec_state() == old(self).spec_state() - 1,
            !final(self).writer_held(),
            final(self).spec_readers() == old(self).spec_readers(),
            final(self).spec_data() == old(self).spec_data(),
    {
        self.state = self.state - 1;
    }

    /// Borrow the protected value; hold a guard to do so.
    #[inline]
    pub fn data(&self) -> (r: &T)
        requires
            self.writer_held() || self.spec_readers() > 0,
        ensures
            *r == self.spec_data(),
    {
        &self.data
    }

    /// Borrow the protected value mutably; hold the write guard to do so.
    #[inline]
    pub fn data_mut(&mut self) -> (r: &mut T)
        requires
            old(self).writer_held(),
        ensures
            *r == old(self).spec_data(),
            final(self).spec_data() == *final(r),
            final(self).spec_state() == old(self).spec_state(),
    {
        &mut self.data
    }
}

/// Token witnessing a read acquisition.
pub struct RwCohortReadGuard {
    token: (),
}

/// Token witnessing the write acquisition.
pub struct RwCohortWriteGuard {
    token: (),
}

} // verus!
