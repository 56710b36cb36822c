//! Reader-writer lock.
//!
//! Allows any number of concurrent readers or one exclusive writer. The
//! state word counts readers in steps of two with the writer in bit zero:
//! a writer acquires only from the idle state, and readers enter only
//! while no writer holds the lock.

use vstd::prelude::*;

verus! {

/// A reader-writer lock around a protected value.
pub struct RwLock<T> {
    state: usize,
    data: T,
}

impl<T> RwLock<T> {
    /// The state word, for contracts.
    pub closed spec fn spec_state(&self) -> usize {
        self.state
    }

    /// The protected value, for contracts.
    pub closed spec fn spec_data(&self) -> T {
        self.data
    }

    /// A writer holds the lock.
    pub open spec fn writer_held(&self) -> bool {
        self.spec_state() % 2 == 1
    }

    /// The number of active readers.
    pub open spec fn spec_readers(&self) -> usize {
        self.spec_state() / 2
    }

    /// Create a new unlocked lock around `data`.
    #[inline]
    pub fn new(data: T) -> (r: Self)
        ensures
            r.spec_state() == 0,
            !r.writer_held(),
            r.spec_readers() == 0,
            r.spec_data() == data,
    {
        RwLock { state: 0, data }
    }

    /// Try to acquire a read lock without spinning: succeeds exactly when
    /// no writer holds the lock.
    #[inline]
    pub fn try_read(&mut self) -> (r: Option<RwLockReadGuard>)
        requires
            old(self).spec_state() <= usize::MAX - 2,
        ensures
            final(self).spec_data() == old(self).spec_data(),
            r.is_some() == !old(self).writer_held(),
            old(self).writer_held() ==> *final(self) == *old(self),
            !old(self).writer_held() ==> final(self).spec_state() == old(self).spec_state() + 2
                && final(self).spec_readers() == old(self).spec_readers() + 1,
    {
        if self.state % 2 == 1 {
            None
        } else {
            self.state = self.state + 2;
            Some(RwLockReadGuard { token: () })
        }
    }

    /// Acquire a read lock. With a writer holding, the concurrent form
    /// spins with backoff; here that state is excluded by precondition.
    #[inline]
    pub fn read(&mut self) -> (r: RwLockReadGuard)
        requires
            !old(self).writer_held(),
            old(self).spec_state() <= usize::MAX - 2,
        ensures
            final(self).spec_data() == old(self).spec_data(),
            final(self).spec_state() == old(self).spec_state() + 2,
            final(self).spec_readers() == old(self).spec_readers() + 1,
            !final(self).writer_held(),
    {
        self.state = self.state + 2;
        RwLockReadGuard { token: () }
    }

    /// Release a read lock.
    #[inline]
    pub fn read_unlock(&mut self, guard: RwLockReadGuard)
        requires
            old(self).spec_readers() > 0,
        ensures
            final(self).spec_data() == old(self).spec_data(),
            final(self).spec_state() == old(self).spec_state() - 2,
            final(self).spec_readers() == old(self).spec_readers() - 1,
            final(self).writer_held() == old(self).writer_held(),
    {
        self.state = self.state - 2;
    }

    /// Try to acquire the write lock without spinning: succeeds exactly
    /// from the idle state, with no readers and no writer.
    #[inline]
    pub fn try_write(&mut self) -> (r: Option<RwLockWriteGuard>)
        ensures
            final(self).spec_data() == old(self).spec_data(),
            r.is_some() == (old(self).spec_state() == 0),
            old(self).spec_state() != 0 ==> *final(self) == *old(self),
            old(self).spec_state() == 0 ==> final(self).spec_state() == 1 && final(self).writer_held(),
    {
        if self.state == 0 {
            self.state = 1;
            Some(RwLockWriteGuard { token: () })
        } else {
            None
        }
    }

    /// Acquire the write lock. With readers or a writer active the
    /// concurrent form spins with backoff; here the idle state is the
    /// precondition.
    #[inline]
    pub fn write(&mut self) -> (r: RwLockWriteGuard)
        requires
            old(self).spec_state() == 0,
        ensures
            final(self).spec_data() == old(self).spec_data(),
            final(self).spec_state() == 1,
            final(self).writer_held(),
            final(self).spec_readers() == 0,
    {
        self.state = 1;
        RwLockWriteGuard { token: () }
    }

    /// Release the write lock.
    #[inline]
    pub fn write_unlock(&mut self, guard: RwLockWriteGuard)
        requires
            old(self).writer_held(),
        ensures
            final(self).spec_data() == old(self).spec_data(),
            final(self).spec_state() == old(self).spec_state() - 1,
            !final(self).writer_held(),
            final(self).spec_readers() == old(self).spec_readers(),
    {
        self.state = self.state - 1;
    }

    /// Check if the lock is held for writing.
    #[inline]
    pub fn is_locked_exclusive(&self) -> (r: bool)
        ensures
            r == self.writer_held(),
    {
        self.state % 2 == 1
    }

    /// Get the current reader count.
    #[inline]
    pub fn reader_count(&self) -> (r: usize)
        ensures
            r == self.spec_readers(),
    {
        self.state / 2
    }

    /// Borrow the protected value; hold a guard to do so.
    #[inline]
    pub fn data(&self) -> (r: &T)
        requires
            self.writer_held() || self.spec_readers() > 0,
        ensures
            *r == self.spec_data(),
    {
        &self.data
    }

    /// Borrow the protected value mutably; hold the write guard to do so.
    #[inline]
    pub fn data_mut(&mut self) -> (r: &mut T)
        requires
            old(self).writer_held(),
        ensures
            *r == old(self).spec_data(),
            final(self).spec_data() == *final(r),
            final(self).spec_state() == old(self).spec_state(),
    {
        &mut self.data
    }
}

/// Token witnessing a read acquisition.
pub struct RwLockReadGuard {
    token: (),
}

/// Token witnessing the write acquisition.
pub struct RwLockWriteGuard {
    token: (),
}

} // verus!
