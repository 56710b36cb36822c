//! Exponential backoff for spin loops.
//!
//! Exponential backoff reduces contention on shared resources by introducing
//! progressively longer delays between retry attempts. Each thread keeps its
//! own [`Backoff`] state; the state is never shared.
//!
//! Two presets exist: the default initial value [`BACKOFF_INITIAL`] with
//! ceiling [`BACKOFF_CEILING`], and a caller-chosen initial value through
//! [`Backoff::with_initial`].

use vstd::prelude::*;
use crate::pr;

verus! {

/// Default initial backoff value (512 iterations).
pub const BACKOFF_INITIAL: u32 = 512;

/// Maximum backoff ceiling (about one million iterations).
pub const BACKOFF_CEILING: u32 = 0xFFFFF;

/// The backoff value after one delay step starting from `v`: doubled,
/// saturating at [`BACKOFF_CEILING`]; a value at or above the ceiling is
/// left unchanged.
pub open spec fn backoff_step(v: u32) -> u32 {
    if v >= BACKOFF_CEILING {
        v
    } else if 2 * v < BACKOFF_CEILING {
        (2 * v) as u32
    } else {
        BACKOFF_CEILING
    }
}

/// Exponential backoff state.
///
/// Each call to [`Backoff::spin`] executes a delay proportional to the
/// current value, then doubles the value up to [`BACKOFF_CEILING`].
#[derive(Debug, Clone, Copy)]
pub struct Backoff {
    value: u32,
}

impl Backoff {
    /// The current backoff value, for contracts.
    pub closed spec fn spec_value(&self) -> u32 {
        self.value
    }

    /// Create a new backoff state with the default initial value.
    #[inline]
    pub fn new() -> (r: Self)
        ensures
            r.spec_value() == BACKOFF_INITIAL,
    {
        Backoff { value: BACKOFF_INITIAL }
    }

    /// Create a new backoff state with a custom initial value.
    ///
    /// A zero initial value never grows: the doubling of zero is zero.
    #[inline]
    pub fn with_initial(initial: u32) -> (r: Self)
        ensures
            r.spec_value() == initial,
    {
        Backoff { value: initial }
    }

    /// Get the current backoff value.
    #[inline]
    pub fn value(&self) -> (r: u32)
        ensures
            r == self.spec_value(),
    {
        self.value
    }

    /// Reset the backoff to the initial value.
    #[inline]
    pub fn reset(&mut self)
        ensures
            final(self).spec_value() == BACKOFF_INITIAL,
    {
        self.value = BACKOFF_INITIAL;
    }

    /// Execute the exponential backoff delay: pause for `value` iterations,
    /// then double `value`, saturating at [`BACKOFF_CEILING`].
    #[inline]
    pub fn spin(&mut self)
        ensures
            final(self).spec_value() == backoff_step(old(self).spec_value()),
    {
        let ceiling = self.value;
        let mut i: u32 = 0;
        while i < ceiling
            invariant
                i <= ceiling,
            decreases ceiling - i,
        {
            pr::stall();
            i = i + 1;
        }
        if ceiling < BACKOFF_CEILING {
            let doubled = if ceiling < BACKOFF_CEILING / 2 + 1 {
                ceiling * 2
            } else {
                BACKOFF_CEILING
            };
            self.value = if doubled < BACKOFF_CEILING {
                doubled
            } else {
                BACKOFF_CEILING
            };
        }
    }

    /// Execute a single delay of the current length without updating the
    /// backoff value.
    #[inline]
    pub fn spin_once(&self) {
        let mut i: u32 = 0;
        while i < self.value
            invariant
                i <= self.value,
            decreases self.value - i,
        {
            pr::stall();
            i = i + 1;
        }
    }
}

impl Default for Backoff {
    /// Same as [`Backoff::new`].
    fn default() -> (r: Self)
        ensures
            r.spec_value() == BACKOFF_INITIAL,
    {
        Backoff::new()
    }
}

/// Backoff state type for the function-style API.
pub type BackoffT = u32;

/// Function-style backoff: executes the delay and updates the value in
/// place, exactly as [`Backoff::spin`] does.
#[inline]
pub fn eb(ceiling: &mut BackoffT)
    ensures
        *final(ceiling) == backoff_step(*old(ceiling)),
{
    let c = *ceiling;
    let mut i: u32 = 0;
    while i < c
        invariant
            i <= c,
        decreases c - i,
    {
        pr::stall();
        i = i + 1;
    }
    if c < BACKOFF_CEILING {
        let doubled = if c < BACKOFF_CEILING / 2 + 1 {
            c * 2
        } else {
            BACKOFF_CEILING
        };
        *ceiling = if doubled < BACKOFF_CEILING {
            doubled
        } else {
            BACKOFF_CEILING
        };
    }
}

/// The backoff value after a reset, whatever it was before.
pub open spec fn backoff_reset(v: u32) -> u32 {
    BACKOFF_INITIAL
}

/// `reset(); spin(); reset();` ends in the initial state: chaining the three
/// transitions from any starting value yields exactly the value that
/// [`Backoff::new`] establishes.
pub proof fn lemma_reset_spin_reset(v: u32)
    ensures
        backoff_reset(backoff_step(backoff_reset(v))) == BACKOFF_INITIAL,
{
}

} // verus!
