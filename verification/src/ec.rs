//! Event counts.
//!
//! An event count packs an epoch counter and a waiter count into one
//! 64-bit word: the epoch in the upper half, the waiters in the lower. A
//! thread that wants to wait registers with `prepare_wait`, re-checks its
//! condition, and either cancels or waits for the epoch to move; a notify
//! bumps the epoch, releasing the waiters. Waits are spin waits with
//! backoff; there is no integration with the operating system.

use vstd::prelude::*;
use crate::backoff::Backoff;

verus! {

/// One unit of the epoch half of the state word.
pub const EPOCH_UNIT: u64 = 0x1_0000_0000;

/// An event count: epoch in the upper 32 bits, waiter count in the lower.
pub struct EventCount {
    state: u64,
}

impl EventCount {
    /// The packed state word, for contracts.
    pub closed spec fn spec_state(&self) -> u64 {
        self.state
    }

    /// The epoch half of the word.
    pub open spec fn spec_epoch(&self) -> u64 {
        self.spec_state() / EPOCH_UNIT
    }

    /// The waiter half of the word.
    pub open spec fn spec_waiters(&self) -> u64 {
        self.spec_state() % EPOCH_UNIT
    }

    /// Create a new event count at epoch zero with no waiters.
    #[inline]
    pub fn new() -> (r: Self)
        ensures
            r.spec_epoch() == 0,
            r.spec_waiters() == 0,
    {
        EventCount { state: 0 }
    }

    /// Get the current epoch.
    #[inline]
    pub fn get(&self) -> (r: u64)
        ensures
            r == self.spec_epoch(),
    {
        self.state / EPOCH_UNIT
    }

    /// Prepare to wait: the waiter count rises by one and the epoch at
    /// registration comes back, to be handed to [`EventCount::wait`].
    #[inline]
    pub fn prepare_wait(&mut self) -> (r: u64)
        requires
            old(self).spec_waiters() < EPOCH_UNIT - 1,
        ensures
            r == old(self).spec_epoch(),
            final(self).spec_epoch() == old(self).spec_epoch(),
            final(self).spec_waiters() == old(self).spec_waiters() + 1,
    {
        let state = self.state;
        self.state = state + 1;
        state / EPOCH_UNIT
    }

    /// Cancel a prepared wait: the waiter count falls by one.
    #[inline]
    pub fn cancel_wait(&mut self)
        requires
            old(self).spec_waiters() > 0,
        ensures
            final(self).spec_epoch() == old(self).spec_epoch(),
            final(self).spec_waiters() == old(self).spec_waiters() - 1,
    {
        self.state = self.state - 1;
    }

    /// Wait until the epoch moves past `epoch`: the waiter deregisters and
    /// spins. An epoch still equal to `epoch` would be spun on forever
    /// here, so it is excluded by precondition.
    pub fn wait(&mut self, epoch: u64)
        requires
            old(self).spec_waiters() > 0,
            old(self).spec_epoch() != epoch,
        ensures
            final(self).spec_epoch() == old(self).spec_epoch(),
            final(self).spec_waiters() == old(self).spec_waiters() - 1,
    {
        self.state = self.state - 1;
        let mut backoff = Backoff::new();
        while self.state / EPOCH_UNIT == epoch
            invariant
                self.spec_epoch() != epoch,
                self.spec_epoch() == old(self).spec_epoch(),
                self.spec_waiters() == old(self).spec_waiters() - 1,
            decreases 0int,
        {
            backoff.spin();
        }
    }

    /// Notify one waiting thread: the epoch moves forward.
    #[inline]
    pub fn notify_one(&mut self)
        requires
            old(self).spec_epoch() < EPOCH_UNIT - 1,
        ensures
            final(self).spec_epoch() == old(self).spec_epoch() + 1,
            final(self).spec_waiters() == old(self).spec_waiters(),
    {
        self.advance();
    }

    /// Notify all waiting threads: the epoch moves forward.
    #[inline]
    pub fn notify_all(&mut self)
        requires
            old(self).spec_epoch() < EPOCH_UNIT - 1,
        ensures
            final(self).spec_epoch() == old(self).spec_epoch() + 1,
            final(self).spec_waiters() == old(self).spec_waiters(),
    {
        self.advance();
    }

    /// Move the epoch forward by one.
    #[inline]
    fn advance(&mut self)
        requires
            old(self).spec_epoch() < EPOCH_UNIT - 1,
        ensures
            final(self).spec_epoch() == old(self).spec_epoch() + 1,
            final(self).spec_waiters() == old(self).spec_waiters(),
    {
        self.state = self.state + EPOCH_UNIT;
    }

    /// Get the number of registered waiters.
    #[inline]
    pub fn waiters(&self) -> (r: u32)
        ensures
            r == self.spec_waiters(),
    {
        (self.state % EPOCH_UNIT) as u32
    }
}

impl Default for EventCount {
    /// Same as [`EventCount::new`].
    fn default() -> (r: Self)
        ensures
            r.spec_epoch() == 0,
            r.spec_waiters() == 0,
    {
        EventCount::new()
    }
}

/// A condition variable built on an event count.
pub struct Condvar {
    ec: EventCount,
}

impl Condvar {
    /// The underlying event count, for contracts.
    pub closed spec fn spec_ec(&self) -> EventCount {
        self.ec
    }

    /// Create a new condition variable.
    #[inline]
    pub fn new() -> (r: Self)
        ensures
            r.spec_ec().spec_epoch() == 0,
            r.spec_ec().spec_waiters() == 0,
    {
        Condvar { ec: EventCount::new() }
    }

    /// Wait until `condition` holds, re-checking it after each wake-up.
    /// A condition only another thread could make true would be waited on
    /// forever here, so the condition must already hold.
    pub fn wait<F: FnMut() -> bool>(&mut self, condition: F)
        requires
            old(self).spec_ec().spec_waiters() < EPOCH_UNIT - 1,
            call_requires(condition, ()),
            forall|r: bool| call_ensures(condition, (), r) ==> r,
        ensures
            final(self).spec_ec().spec_epoch() == old(self).spec_ec().spec_epoch(),
            final(self).spec_ec().spec_waiters() == old(self).spec_ec().spec_waiters(),
    {
        let mut condition = condition;
        let registered = self.ec.prepare_wait();
        let holds = condition();
        if holds {
            self.ec.cancel_wait();
            return;
        }
        proof {
            assert(false);
        }
        self.ec.wait(registered);
    }

    /// Notify one waiting thread.
    #[inline]
    pub fn notify_one(&mut self)
        requires
            old(self).spec_ec().spec_epoch() < EPOCH_UNIT - 1,
        ensures
            final(self).spec_ec().spec_epoch() == old(self).spec_ec().spec_epoch() + 1,
            final(self).spec_ec().spec_waiters() == old(self).spec_ec().spec_waiters(),
    {
        self.ec.notify_one();
    }

    /// Notify all waiting threads.
    #[inline]
    pub fn notify_all(&mut self)
        requires
            old(self).spec_ec().spec_epoch() < EPOCH_UNIT - 1,
        ensures
            final(self).spec_ec().spec_epoch() == old(self).spec_ec().spec_epoch() + 1,
            final(self).spec_ec().spec_waiters() == old(self).spec_ec().spec_waiters(),
    {
        self.ec.notify_all();
    }
}

impl Default for Condvar {
    /// Same as [`Condvar::new`].
    fn default() -> (r: Self)
        ensures
            r.spec_ec().spec_epoch() == 0,
            r.spec_ec().spec_waiters() == 0,
    {
        Condvar::new()
    }
}

} // verus!
