//! Lock cohorting.
//!
//! A cohort lock prefers to hand the lock to a waiter of the same cohort
//! — threads sharing a cache or memory domain — up to a threshold of
//! consecutive local hand-offs, after which it yields to the other
//! cohorts. The single-cohort form here keeps the hand-off counter and
//! the threshold; its acquisition behaviour is that of a plain mutex.

use vstd::prelude::*;

verus! {

/// Default number of consecutive local hand-offs before yielding.
pub const DEFAULT_THRESHOLD: usize = 64;

/// A cohort lock around a protected value.
pub struct CohortLock<T> {
    global_locked: bool,
    local_count: usize,
    threshold: usize,
    data: T,
}

impl<T> CohortLock<T> {
    /// Whether the lock is held, for contracts.
    pub closed spec fn spec_locked(&self) -> bool {
        self.global_locked
    }

    /// The count of hand-offs within the cohort, for contracts.
    pub closed spec fn spec_local_count(&self) -> usize {
        self.local_count
    }

    /// The configured hand-off threshold, for contracts.
    pub closed spec fn spec_threshold(&self) -> usize {
        self.threshold
    }

    /// The protected value, for contracts.
    pub closed spec fn spec_data(&self) -> T {
        self.data
    }

    /// Create a new unlocked cohort lock with the default threshold.
    #[inline]
    pub fn new(data: T) -> (r: Self)
        ensures
            !r.spec_locked(),
            r.spec_threshold() == DEFAULT_THRESHOLD,
            r.spec_data() == data,
    {
        CohortLock::with_threshold(data, DEFAULT_THRESHOLD)
    }

    /// Create a new unlocked cohort lock with a custom hand-off threshold.
    #[inline]
    pub fn with_threshold(data: T, threshold: usize) -> (r: Self)
        ensures
            !r.spec_locked(),
            r.spec_threshold() == threshold,
            r.spec_data() == data,
    {
        CohortLock { global_locked: false, local_count: 0, threshold, data }
    }

    /// Acquire the lock; a fresh acquisition resets the local hand-off
    /// count. A held lock would be spun on; that state is excluded by
    /// precondition.
    #[inline]
    pub fn lock(&mut self) -> (r: CohortLockGuard)
        requires
            !old(self).spec_locked(),
        ensures
            final(self).spec_locked(),
            final(self).spec_local_count() == 0,
            final(self).spec_threshold() == old(self).spec_threshold(),
            final(self).spec_data() == old(self).spec_data(),
    {
        self.global_locked = true;
        self.local_count = 0;
        CohortLockGuard { token: () }
    }

    /// Try to acquire without spinning: succeeds exactly when the lock was
    /// free.
    #[inline]
    pub fn try_lock(&mut self) -> (r: Option<CohortLockGuard>)
        ensures
            r.is_some() == !old(self).spec_locked(),
            final(self).spec_locked(),
            old(self).spec_locked() ==> *final(self) == *old(self),
            !old(self).spec_locked() ==> final(self).spec_local_count() == 0,
            final(self).spec_threshold() == old(self).spec_threshold(),
            final(self).spec_data() == old(self).spec_data(),
    {
        if self.global_locked {
            None
        } else {
            self.global_locked = true;
            self.local_count = 0;
            Some(CohortLockGuard { token: () })
        }
    }

    /// Release the lock, counting one more hand-off within the cohort.
    #[inline]
    pub fn unlock(&mut self, guard: CohortLockGuard)
        requires
            old(self).spec_locked(),
            old(self).spec_local_count() < usize::MAX,
        ensures
            !final(self).spec_locked(),
            final(self).spec_local_count() == old(self).spec_local_count() + 1,
            final(self).spec_threshold() == old(self).spec_threshold(),
            final(self).spec_data() == old(self).spec_data(),
    {
        self.local_count = self.local_count + 1;
        self.global_locked = false;
    }

    /// Check if the lock is held.
    #[inline]
    pub fn is_locked(&self) -> (r: bool)
        ensures
            r == self.spec_locked(),
    {
        self.global_locked
    }

    /// Borrow the protected value; hold the guard to do so.
    #[inline]
    pub fn data(&self) -> (r: &T)
        requires
            self.spec_locked(),
        ensures
            *r == self.spec_data(),
    {
        &self.data
    }

    /// Borrow the protected value mutably; hold the guard to do so.
    #[inline]
    pub fn data_mut(&mut self) -> (r: &mut T)
        requires
            old(self).spec_locked(),
        ensures
            *r == old(self).spec_data(),
            final(self).spec_data() == *final(r),
            final(self).spec_locked() == old(self).spec_locked(),
            final(self).spec_local_count() == old(self).spec_local_count(),
            final(self).spec_threshold() == old(self).spec_threshold(),
    {
        &mut self.data
    }
}

/// Token witnessing a [`CohortLock`] acquisition.
pub struct CohortLockGuard {
    token: (),
}

} // verus!
