//! Big-reader lock.
//!
//! Optimized for read-heavy workloads: in the concurrent form each reader
//! announces itself in a per-slot counter of its own cache line, so
//! readers never contend with each other; a writer raises its flag and
//! then waits for every slot to drain. The observable behaviour is that
//! of a reader-writer lock whose reader count is the total over the
//! slots, which is how it is modelled here.

use vstd::prelude::*;

verus! {

/// A big-reader lock around a protected value.
pub struct BrLock<T> {
    writer: bool,
    readers: u64,
    data: T,
}

impl<T> BrLock<T> {
    /// The writer flag, for contracts.
    pub closed spec fn writer_held(&self) -> bool {
        self.writer
    }

    /// The total reader count over all slots, for contracts.
    pub closed spec fn spec_readers(&self) -> u64 {
        self.readers
    }

    /// The protected value, for contracts.
    pub closed spec fn spec_data(&self) -> T {
        self.data
    }

    /// Create a new unlocked lock around `data`.
    pub fn new(data: T) -> (r: Self)
        ensures
            !r.writer_held(),
            r.spec_readers() == 0,
            r.spec_data() == data,
    {
        BrLock { writer: false, readers: 0, data }
    }

    /// Acquire a read lock: the reader joins its slot. With the writer
    /// flag raised the concurrent form backs off and retries; here that
    /// state is excluded by precondition.
    #[inline]
    pub fn read(&mut self) -> (r: BrLockReadGuard)
        requires
            !old(self).writer_held(),
            old(self).spec_readers() < u64::MAX,
        ensures
            !final(self).writer_held(),
            final(self).spec_readers() == old(self).spec_readers() + 1,
            final(self).spec_data() == old(self).spec_data(),
    {
        self.readers = self.readers + 1;
        BrLockReadGuard { token: () }
    }

    /// Release a read lock.
    #[inline]
    pub fn read_unlock(&mut self, guard: BrLockReadGuard)
        requires
            old(self).spec_readers() > 0,
        ensures
            final(self).writer_held() == old(self).writer_held(),
            final(self).spec_readers() == old(self).spec_readers() - 1,
            final(self).spec_data() == old(self).spec_data(),
    {
        self.readers = self.readers - 1;
    }

    /// Acquire the write lock: raise the flag and wait for every reader
    /// slot to drain; here the drained, flag-free state is the
    /// precondition.
    #[inline]
    pub fn write(&mut self) -> (r: BrLockWriteGuard)
        requires
            !old(self).writer_held(),
            old(self).spec_readers() == 0,
        ensures
            final(self).writer_held(),
            final(self).spec_readers() == 0,
            final(self).spec_data() == old(self).spec_data(),
    {
        self.writer = true;
        BrLockWriteGuard { token: () }
    }

    /// Release the write lock.
    #[inline]
    pub fn write_unlock(&mut self, guard: BrLockWriteGuard)
        requires
            old(self).writer_held(),
        ensures
            !final(self).writer_held(),
            final(self).spec_readers() == old(self).spec_readers(),
            final(self).spec_data() == old(self).spec_data(),
    {
        self.writer = false;
    }

    /// Borrow the protected value; hold a guard to do so.
    #[inline]
    pub fn data(&self) -> (r: &T)
        requires
            self.writer_held() || self.spec_readers() > 0,
        ensures
            *r == self.spec_data(),
    {
        &self.data
    }

    /// Borrow the protected value mutably; hold the write guard to do so.
    #[inline]
    pub fn data_mut(&mut self) -> (r: &mut T)
        requires
            old(self).writer_held(),
        ensures
            *r == old(self).spec_data(),
            final(self).spec_data() == *final(r),
            final(self).writer_held() == old(self).writer_held(),
            final(self).spec_readers() == old(self).spec_readers(),
    {
        &mut self.data
    }
}

/// Token witnessing a read acquisition.
pub struct BrLockReadGuard {
    token: (),
}

/// Token witnessing the write acquisition.
pub struct BrLockWriteGuard {
    token: (),
}

} // verus!
