//! Single-writer reader-writer lock.
//!
//! Optimized for one designated writer and many readers: a reader only
//! bumps the reader count — it never checks for a writer — and the writer
//! waits for the count to drain before entering. Exclusion among writers
//! is the caller's responsibility: only the one designated writer thread
//! may call `write`.

use vstd::prelude::*;

verus! {

/// A single-writer reader-writer lock around a protected value.
pub struct SwLock<T> {
    readers: usize,
    data: T,
}

impl<T> SwLock<T> {
    /// The reader count, for contracts.
    pub closed spec fn spec_readers(&self) -> usize {
        self.readers
    }

    /// The protected value, for contracts.
    pub closed spec fn spec_data(&self) -> T {
        self.data
    }

    /// Create a new unlocked lock around `data`.
    #[inline]
    pub fn new(data: T) -> (r: Self)
        ensures
            r.spec_readers() == 0,
            r.spec_data() == data,
    {
        SwLock { readers: 0, data }
    }

    /// Acquire a read lock: the reader count rises, unconditionally — the
    /// single writer is the one who waits.
    #[inline]
    pub fn read(&mut self) -> (r: SwLockReadGuard)
        requires
            old(self).spec_readers() < usize::MAX,
        ensures
            final(self).spec_readers() == old(self).spec_readers() + 1,
            final(self).spec_data() == old(self).spec_data(),
    {
        self.readers = self.readers + 1;
        SwLockReadGuard { token: () }
    }

    /// Release a read lock.
    #[inline]
    pub fn read_unlock(&mut self, guard: SwLockReadGuard)
        requires
            old(self).spec_readers() > 0,
        ensures
            final(self).spec_readers() == old(self).spec_readers() - 1,
            final(self).spec_data() == old(self).spec_data(),
    {
        self.readers = self.readers - 1;
    }

    /// Acquire the write lock (the designated writer only): the writer
    /// waits until no readers remain; here the drained state is the
    /// precondition. The lock itself records nothing — writer exclusion
    /// is entirely the caller's.
    #[inline]
    pub fn write(&mut self) -> (r: SwLockWriteGuard)
        requires
            old(self).spec_readers() == 0,
        ensures
            final(self).spec_readers() == 0,
            final(self).spec_data() == old(self).spec_data(),
    {
        SwLockWriteGuard { token: () }
    }

    /// Release the write lock: publishes the writes; the state is
    /// unchanged.
    #[inline]
    pub fn write_unlock(&mut self, guard: SwLockWriteGuard)
        ensures
            final(self).spec_readers() == old(self).spec_readers(),
            final(self).spec_data() == old(self).spec_data(),
    {
        crate::pr::fence_release();
    }

    /// Borrow the protected value; hold a guard to do so.
    #[inline]
    pub fn data(&self) -> (r: &T)
        ensures
            *r == self.spec_data(),
    {
        &self.data
    }

    /// Borrow the protected value mutably; hold the write guard to do so.
    #[inline]
    pub fn data_mut(&mut self) -> (r: &mut T)
        requires
            old(self).spec_readers() == 0,
        ensures
            *r == old(self).spec_data(),
            final(self).spec_data() == *final(r),
            final(self).spec_readers() == old(self).spec_readers(),
    {
        &mut self.data
    }
}

/// Token witnessing a read acquisition.
pub struct SwLockReadGuard {
    token: (),
}

/// Token witnessing the write acquisition.
pub struct SwLockWriteGuard {
    token: (),
}

} // verus!
