//! Task-fair reader-writer lock.
//!
//! All acquisitions — reads and writes alike — draw a ticket and are
//! served strictly first-in first-out. A reader passes the turn on as
//! soon as it is admitted, so consecutive readers overlap; a writer keeps
//! the turn until it releases, after waiting for admitted readers to
//! drain.

use vstd::prelude::*;

verus! {

/// A task-fair reader-writer lock around a protected value.
pub struct TfLock<T> {
    ticket: u64,
    now_serving: u64,
    readers: u64,
    data: T,
}

impl<T> TfLock<T> {
    /// The next ticket to be drawn, for contracts.
    pub closed spec fn spec_ticket(&self) -> u64 {
        self.ticket
    }

    /// The ticket currently served, for contracts.
    pub closed spec fn spec_now_serving(&self) -> u64 {
        self.now_serving
    }

    /// The number of admitted readers, for contracts.
    pub closed spec fn spec_readers(&self) -> u64 {
        self.readers
    }

    /// The protected value, for contracts.
    pub closed spec fn spec_data(&self) -> T {
        self.data
    }

    /// Create a new unlocked lock around `data`.
    #[inline]
    pub fn new(data: T) -> (r: Self)
        ensures
            r.spec_ticket() == 0,
            r.spec_now_serving() == 0,
            r.spec_readers() == 0,
            r.spec_data() == data,
    {
        TfLock { ticket: 0, now_serving: 0, readers: 0, data }
    }

    /// Acquire a read lock: draw a ticket, wait for the turn, join the
    /// admitted readers and pass the turn on. A queue ahead would spin
    /// here; that state is excluded by precondition.
    #[inline]
    pub fn read(&mut self) -> (r: TfLockReadGuard)
        requires
            old(self).spec_ticket() == old(self).spec_now_serving(),
            old(self).spec_ticket() < u64::MAX,
            old(self).spec_readers() < u64::MAX,
        ensures
            final(self).spec_ticket() == old(self).spec_ticket() + 1,
            final(self).spec_now_serving() == old(self).spec_now_serving() + 1,
            final(self).spec_readers() == old(self).spec_readers() + 1,
            final(self).spec_data() == old(self).spec_data(),
    {
        self.ticket = self.ticket + 1;
        self.readers = self.readers + 1;
        self.now_serving = self.now_serving + 1;
        TfLockReadGuard { token: () }
    }

    /// Release a read lock.
    #[inline]
    pub fn read_unlock(&mut self, guard: TfLockReadGuard)
        requires
            old(self).spec_readers() > 0,
        ensures
            final(self).spec_readers() == old(self).spec_readers() - 1,
            final(self).spec_ticket() == old(self).spec_ticket(),
            final(self).spec_now_serving() == old(self).spec_now_serving(),
            final(self).spec_data() == old(self).spec_data(),
    {
        self.readers = self.readers - 1;
    }

    /// Acquire the write lock: draw a ticket, wait for the turn and for
    /// the admitted readers to drain; the turn is kept until release.
    #[inline]
    pub fn write(&mut self) -> (r: TfLockWriteGuard)
        requires
            old(self).spec_ticket() == old(self).spec_now_serving(),
            old(self).spec_readers() == 0,
            old(self).spec_ticket() < u64::MAX,
        ensures
            final(self).spec_ticket() == old(self).spec_ticket() + 1,
            final(self).spec_now_serving() == old(self).spec_now_serving(),
            final(self).spec_readers() == 0,
            final(self).spec_data() == old(self).spec_data(),
    {
        self.ticket = self.ticket + 1;
        TfLockWriteGuard { token: () }
    }

    /// Release the write lock: the turn passes to the next ticket.
    #[inline]
    pub fn write_unlock(&mut self, guard: TfLockWriteGuard)
        requires
            old(self).spec_now_serving() < old(self).spec_ticket(),
        ensures
            final(self).spec_now_serving() == old(self).spec_now_serving() + 1,
            final(self).spec_ticket() == old(self).spec_ticket(),
            final(self).spec_readers() == old(self).spec_readers(),
            final(self).spec_data() == old(self).spec_data(),
    {
        self.now_serving = self.now_serving + 1;
    }

    /// Borrow the protected value; hold a guard to do so.
    #[inline]
    pub fn data(&self) -> (r: &T)
        requires
            self.spec_readers() > 0 || self.spec_now_serving() < self.spec_ticket(),
        ensures
            *r == self.spec_data(),
    {
        &self.data
    }

    /// Borrow the protected value mutably; hold the write guard to do so.
    #[inline]
    pub fn data_mut(&mut self) -> (r: &mut T)
        requires
            old(self).spec_now_serving() < old(self).spec_ticket(),
            old(self).spec_readers() == 0,
        ensures
            *r == old(self).spec_data(),
            final(self).spec_data() == *final(r),
            final(self).spec_ticket() == old(self).spec_ticket(),
            final(self).spec_now_serving() == old(self).spec_now_serving(),
            final(self).spec_readers() == old(self).spec_readers(),
    {
        &mut self.data
    }
}

/// Token witnessing a read acquisition.
pub struct TfLockReadGuard {
    token: (),
}

/// Token witnessing the write acquisition.
pub struct TfLockWriteGuard {
    token: (),
}

} // verus!
