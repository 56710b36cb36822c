//! Sequence counter (seqlock).
//!
//! A sequence lock lets readers read a protected region optimistically: a
//! reader samples the counter before and after its reads, and retries when
//! the two samples differ. The counter is even in the stable state and odd
//! while a write is in progress; a writer increments it once before and
//! once after its modification. Writer exclusion is the caller's business,
//! typically an outer mutex.
//!
//! Retry is the sole failure mode, surfaced to readers by the return of
//! [`SeqLock::read_retry`]. A completed write cycle always changes the
//! counter — [`lemma_seqlock_write_detected`] — so a reader whose two
//! samples agree saw no complete write between them.

use vstd::prelude::*;

verus! {

/// The counter after a full write cycle starting from `v`: two wrapping
/// increments.
pub open spec fn write_cycle(v: u32) -> u32 {
    vstd::wrapping::u32_specs::wrapping_add(vstd::wrapping::u32_specs::wrapping_add(v, 1), 1)
}

/// The counter after `k` wrapping increments starting from `v`: every
/// `write_begin` and every `write_end` contributes one step.
pub open spec fn counter_after(v: u32, k: nat) -> u32
    decreases k,
{
    if k == 0 {
        v
    } else {
        vstd::wrapping::u32_specs::wrapping_add(counter_after(v, (k - 1) as nat), 1)
    }
}

/// Stepping the counter wraps it around the word size.
proof fn lemma_counter_after_value(v: u32, k: nat)
    requires
        k < 0x1_0000_0000,
    ensures
        counter_after(v, k) == if v + k < 0x1_0000_0000 {
            (v + k) as u32
        } else {
            (v + k - 0x1_0000_0000) as u32
        },
    decreases k,
{
    if k > 0 {
        lemma_counter_after_value(v, (k - 1) as nat);
    }
}

/// A read validated against its begin sample saw no write activity: any
/// positive number of counter steps below a full wrap of the word moves
/// the counter away from `v`, so if `read_begin` returned `v` and
/// `read_retry(v)` reports the counter still equal to `v`, no `write_end`
/// — indeed no write step at all — happened between the two samples.
pub proof fn lemma_seqlock_steps_detected(v: u32, k: nat)
    requires
        0 < k < 0x1_0000_0000,
    ensures
        counter_after(v, k) != v,
{
    lemma_counter_after_value(v, k);
}

/// A single complete write cycle never returns the counter to its prior
/// value.
pub proof fn lemma_seqlock_write_detected(v: u32)
    ensures
        write_cycle(v) != v,
        write_cycle(v) == counter_after(v, 2),
{
    assert(counter_after(v, 0) == v);
    assert(counter_after(v, 1) == vstd::wrapping::u32_specs::wrapping_add(v, 1));
    assert(counter_after(v, 2) == vstd::wrapping::u32_specs::wrapping_add(
        counter_after(v, 1),
        1,
    ));
}

/// A sequence lock: a counter, even when stable, odd while a write is in
/// progress.
pub struct SeqLock {
    sequence: u32,
}

impl SeqLock {
    /// The counter value, for contracts.
    pub closed spec fn spec_sequence(&self) -> u32 {
        self.sequence
    }

    /// No write is in progress.
    pub open spec fn stable(&self) -> bool {
        self.spec_sequence() % 2 == 0
    }

    /// Create a new sequence lock in the stable state.
    #[inline]
    pub fn new() -> (r: Self)
        ensures
            r.spec_sequence() == 0,
            r.stable(),
    {
        SeqLock { sequence: 0 }
    }

    /// Reset the lock to the stable zero state.
    #[inline]
    pub fn init(&mut self)
        ensures
            final(self).spec_sequence() == 0,
            final(self).stable(),
    {
        self.sequence = 0;
    }

    /// Get the raw counter value.
    #[inline]
    pub fn raw_sequence(&self) -> (r: u32)
        ensures
            r == self.spec_sequence(),
    {
        self.sequence
    }

    /// Begin an optimistic read: returns the counter, which the caller
    /// hands to [`SeqLock::read_retry`] after reading the protected data.
    /// While a writer is mid-cycle the concurrent form spins until the
    /// counter is even; here that state is excluded by precondition.
    #[inline]
    pub fn read_begin(&self) -> (r: u32)
        requires
            self.stable(),
        ensures
            r == self.spec_sequence(),
            r % 2 == 0,
    {
        self.sequence
    }

    /// Whether a read that began at counter `version` must be retried:
    /// true exactly when the counter has changed since.
    #[inline]
    pub fn read_retry(&self, version: u32) -> (r: bool)
        ensures
            r == (self.spec_sequence() != version),
    {
        self.sequence != version
    }

    /// Begin a write: the counter becomes odd. The caller must hold the
    /// writers' mutex; beginning a write inside another write is excluded.
    #[inline]
    pub fn write_begin(&mut self)
        requires
            old(self).stable(),
        ensures
            final(self).spec_sequence() == vstd::wrapping::u32_specs::wrapping_add(
                old(self).spec_sequence(),
                1,
            ),
            !final(self).stable(),
    {
        self.sequence = self.sequence.wrapping_add(1);
    }

    /// End a write: the counter becomes even again, and differs from every
    /// value a reader can have sampled before the write began.
    #[inline]
    pub fn write_end(&mut self)
        requires
            !old(self).stable(),
        ensures
            final(self).spec_sequence() == vstd::wrapping::u32_specs::wrapping_add(
                old(self).spec_sequence(),
                1,
            ),
            final(self).stable(),
    {
        self.sequence = self.sequence.wrapping_add(1);
    }

    /// Perform a read with automatic retry: the closure reads the
    /// protected data and its result is returned once a consistent pass
    /// completes. Here the first pass is consistent, since nothing can
    /// move the counter during it.
    #[inline]
    pub fn read<T, F: FnMut() -> T>(&self, f: F) -> (r: T)
        requires
            self.stable(),
            call_requires(f, ()),
        ensures
            call_ensures(f, (), r),
    {
        let version = self.read_begin();
        let mut f = f;
        let result = f();
        let retry = self.read_retry(version);
        result
    }

    /// Perform a write with automatic begin and end around the closure.
    /// The caller must hold the writers' mutex.
    #[inline]
    pub fn write<F: FnOnce()>(&mut self, f: F)
        requires
            old(self).stable(),
            call_requires(f, ()),
        ensures
            final(self).spec_sequence() == write_cycle(old(self).spec_sequence()),
            final(self).stable(),
            call_ensures(f, (), ()),
    {
        self.write_begin();
        f();
        self.write_end();
    }
}

impl Default for SeqLock {
    /// Same as [`SeqLock::new`].
    fn default() -> (r: Self)
        ensures
            r.spec_sequence() == 0,
            r.stable(),
    {
        SeqLock::new()
    }
}

} // verus!
