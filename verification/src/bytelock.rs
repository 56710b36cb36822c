//! Byte-level reader-writer lock.
//!
//! In the concurrent form each reader announces itself in a byte-sized
//! slot of its own, cutting cache-line contention on the read side; a
//! writer raises its flag and waits for every byte to clear. The
//! observable behaviour is that of a reader-writer lock whose reader
//! count is the number of set bytes, which is how it is modelled here.

use vstd::prelude::*;

verus! {

/// A byte lock around a protected value.
pub struct ByteLock<T> {
    writer: bool,
    readers: u64,
    data: T,
}

impl<T> ByteLock<T> {
    /// The writer flag, for contracts.
    pub closed spec fn writer_held(&self) -> bool {
        self.writer
    }

    /// The number of set reader bytes, for contracts.
    pub closed spec fn spec_readers(&self) -> u64 {
        self.readers
    }

    /// The protected value, for contracts.
    pub closed spec fn spec_data(&self) -> T {
        self.data
    }

    /// Create a new unlocked lock around `data`.
    pub fn new(data: T) -> (r: Self)
        ensures
            !r.writer_held(),
            r.spec_readers() == 0,
            r.spec_data() == data,
    {
        ByteLock { writer: false, readers: 0, data }
    }

    /// Acquire a read lock: the reader sets its byte. With the writer
    /// flag raised the concurrent form backs off and retries; here that
    /// state is excluded by precondition.
    #[inline]
    pub fn read(&mut self) -> (r: ByteLockReadGuard)
        requires
            !old(self).writer_held(),
            old(self).spec_readers() < u64::MAX,
        ensures
            !final(self).writer_held(),
            final(self).spec_readers() == old(self).spec_readers() + 1,
            final(self).spec_data() == old(self).spec_data(),
    {
        self.readers = self.readers + 1;
        ByteLockReadGuard { token: () }
    }

    /// Release a read lock.
    #[inline]
    pub fn read_unlock(&mut self, guard: ByteLockReadGuard)
        requires
            old(self).spec_readers() > 0,
        ensures
            final(self).writer_held() == old(self).writer_held(),
            final(self).spec_readers() == old(self).spec_readers() - 1,
            final(self).spec_data() == old(self).spec_data(),
    {
        self.readers = self.readers - 1;
    }

    /// Acquire the write lock: raise the flag and wait for every reader
    /// byte to clear; here the cleared, flag-free state is the
    /// precondition.
    #[inline]
    pub fn write(&mut self) -> (r: ByteLockWriteGuard)
        requires
            !old(self).writer_held(),
            old(self).spec_readers() == 0,
        ensures
            final(self).writer_held(),
            final(self).spec_readers() == 0,
            final(self).spec_data() == old(self).spec_data(),
    {
        self.writer = true;
        ByteLockWriteGuard { token: () }
    }

    /// Release the write lock.
    #[inline]
    pub fn write_unlock(&mut self, guard: ByteLockWriteGuard)
        requires
            old(self).writer_held(),
        ensures
            !final(self).writer_held(),
            final(self).spec_readers() == old(self).spec_readers(),
            final(self).spec_data() == old(self).spec_data(),
    {
        self.writer = false;
    }

    /// Borrow the protected value; hold a guard to do so.
    #[inline]
    pub fn data(&self) -> (r: &T)
        requires
            self.writer_held() || self.spec_readers() > 0,
        ensures
            *r == self.spec_data(),
    {
        &self.data
    }

    /// Borrow the protected value mutably; hold the write guard to do so.
    #[inline]
    pub fn data_mut(&mut self) -> (r: &mut T)
        requires
            old(self).writer_held(),
        ensures
            *r == old(self).spec_data(),
            final(self).spec_data() == *final(r),
            final(self).writer_held() == old(self).writer_held(),
            final(self).spec_readers() == old(self).spec_readers(),
    {
        &mut self.data
    }
}

/// Token witnessing a read acquisition.
pub struct ByteLockReadGuard {
    token: (),
}

/// Token witnessing the write acquisition.
pub struct ByteLockWriteGuard {
    token: (),
}

} // verus!
