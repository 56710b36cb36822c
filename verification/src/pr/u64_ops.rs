//! Operations on a 64-bit atomic word.
//!
//! Loads take the word by shared reference; stores and read-modify-write
//! operations take it by `&mut` and state the exact prior value returned and
//! the exact new value left behind. Additive operations wrap, as the
//! hardware's fetch-and-add does.

use vstd::prelude::*;

verus! {

/// A 64-bit atomic word, modelled as an owned word.
pub struct AtomicU64 {
    value: u64,
}

impl View for AtomicU64 {
    type V = u64;

    closed spec fn view(&self) -> u64 {
        self.value
    }
}

impl AtomicU64 {
    /// Create a word holding `value`.
    #[inline]
    pub fn new(value: u64) -> (r: Self)
        ensures
            r@ == value,
    {
        AtomicU64 { value }
    }
}

/// Atomic load with acquire semantics.
#[inline]
pub fn load(target: &AtomicU64) -> (r: u64)
    ensures
        r == target@,
{
    target.value
}

/// Atomic load with relaxed semantics.
#[inline]
pub fn load_relaxed(target: &AtomicU64) -> (r: u64)
    ensures
        r == target@,
{
    target.value
}

/// Atomic store with release semantics.
#[inline]
pub fn store(target: &mut AtomicU64, value: u64)
    ensures
        final(target)@ == value,
{
    target.value = value;
}

/// Atomic store with relaxed semantics.
#[inline]
pub fn store_relaxed(target: &mut AtomicU64, value: u64)
    ensures
        final(target)@ == value,
{
    target.value = value;
}

/// Compare-and-swap: if the word equals `compare`, set it to `set` and
/// return true; otherwise leave it and return false.
#[inline]
pub fn cas(target: &mut AtomicU64, compare: u64, set: u64) -> (r: bool)
    ensures
        r == (old(target)@ == compare),
        final(target)@ == if old(target)@ == compare { set } else { old(target)@ },
{
    if target.value == compare {
        target.value = set;
        true
    } else {
        false
    }
}

/// Weak compare-and-swap. Concurrent hardware may fail it spuriously; the
/// sequential model never does.
#[inline]
pub fn cas_weak(target: &mut AtomicU64, compare: u64, set: u64) -> (r: bool)
    ensures
        r == (old(target)@ == compare),
        final(target)@ == if old(target)@ == compare { set } else { old(target)@ },
{
    cas(target, compare, set)
}

/// Compare-and-swap returning `(success, prior_value)`.
#[inline]
pub fn cas_value(target: &mut AtomicU64, compare: u64, set: u64) -> (r: (bool, u64))
    ensures
        r.0 == (old(target)@ == compare),
        r.1 == old(target)@,
        final(target)@ == if old(target)@ == compare { set } else { old(target)@ },
{
    if target.value == compare {
        target.value = set;
        (true, compare)
    } else {
        (false, target.value)
    }
}

/// Fetch-and-add (wrapping). Returns the previous value.
#[inline]
pub fn faa(target: &mut AtomicU64, delta: u64) -> (r: u64)
    ensures
        r == old(target)@,
        final(target)@ == vstd::wrapping::u64_specs::wrapping_add(old(target)@, delta),
{
    let prior = target.value;
    target.value = prior.wrapping_add(delta);
    prior
}

/// Fetch-and-subtract (wrapping). Returns the previous value.
#[inline]
pub fn fas_sub(target: &mut AtomicU64, delta: u64) -> (r: u64)
    ensures
        r == old(target)@,
        final(target)@ == vstd::wrapping::u64_specs::wrapping_sub(old(target)@, delta),
{
    let prior = target.value;
    target.value = prior.wrapping_sub(delta);
    prior
}

/// Fetch-and-store (exchange). Returns the previous value.
#[inline]
pub fn fas(target: &mut AtomicU64, value: u64) -> (r: u64)
    ensures
        r == old(target)@,
        final(target)@ == value,
{
    let prior = target.value;
    target.value = value;
    prior
}

/// Atomic add (wrapping, no return value).
#[inline]
pub fn add(target: &mut AtomicU64, delta: u64)
    ensures
        final(target)@ == vstd::wrapping::u64_specs::wrapping_add(old(target)@, delta),
{
    target.value = target.value.wrapping_add(delta);
}

/// Atomic subtract (wrapping, no return value).
#[inline]
pub fn sub(target: &mut AtomicU64, delta: u64)
    ensures
        final(target)@ == vstd::wrapping::u64_specs::wrapping_sub(old(target)@, delta),
{
    target.value = target.value.wrapping_sub(delta);
}

/// Atomic increment (wrapping).
#[inline]
pub fn inc(target: &mut AtomicU64)
    ensures
        final(target)@ == vstd::wrapping::u64_specs::wrapping_add(old(target)@, 1),
{
    target.value = target.value.wrapping_add(1);
}

/// Atomic decrement (wrapping).
#[inline]
pub fn dec(target: &mut AtomicU64)
    ensures
        final(target)@ == vstd::wrapping::u64_specs::wrapping_sub(old(target)@, 1),
{
    target.value = target.value.wrapping_sub(1);
}

/// Atomic increment; returns true if the result wrapped to zero.
#[inline]
pub fn inc_is_zero(target: &mut AtomicU64) -> (r: bool)
    ensures
        r == (old(target)@ == u64::MAX),
        final(target)@ == vstd::wrapping::u64_specs::wrapping_add(old(target)@, 1),
{
    let prior = target.value;
    target.value = prior.wrapping_add(1);
    prior == u64::MAX
}

/// Atomic decrement; returns true if the result is zero.
#[inline]
pub fn dec_is_zero(target: &mut AtomicU64) -> (r: bool)
    ensures
        r == (old(target)@ == 1),
        final(target)@ == vstd::wrapping::u64_specs::wrapping_sub(old(target)@, 1),
{
    let prior = target.value;
    target.value = prior.wrapping_sub(1);
    prior == 1
}

/// Atomic bitwise AND.
#[inline]
pub fn and(target: &mut AtomicU64, mask: u64)
    ensures
        final(target)@ == (old(target)@ & mask),
{
    target.value = target.value & mask;
}

/// Atomic bitwise OR.
#[inline]
pub fn or(target: &mut AtomicU64, mask: u64)
    ensures
        final(target)@ == (old(target)@ | mask),
{
    target.value = target.value | mask;
}

/// Atomic bitwise XOR.
#[inline]
pub fn xor(target: &mut AtomicU64, mask: u64)
    ensures
        final(target)@ == (old(target)@ ^ mask),
{
    target.value = target.value ^ mask;
}

/// Fetch-and-AND. Returns the previous value.
#[inline]
pub fn faa_and(target: &mut AtomicU64, mask: u64) -> (r: u64)
    ensures
        r == old(target)@,
        final(target)@ == (old(target)@ & mask),
{
    let prior = target.value;
    target.value = prior & mask;
    prior
}

/// Fetch-and-OR. Returns the previous value.
#[inline]
pub fn faa_or(target: &mut AtomicU64, mask: u64) -> (r: u64)
    ensures
        r == old(target)@,
        final(target)@ == (old(target)@ | mask),
{
    let prior = target.value;
    target.value = prior | mask;
    prior
}

/// Fetch-and-XOR. Returns the previous value.
#[inline]
pub fn faa_xor(target: &mut AtomicU64, mask: u64) -> (r: u64)
    ensures
        r == old(target)@,
        final(target)@ == (old(target)@ ^ mask),
{
    let prior = target.value;
    target.value = prior ^ mask;
    prior
}

/// Atomic bitwise NOT.
#[inline]
pub fn not(target: &mut AtomicU64)
    ensures
        final(target)@ == !old(target)@,
{
    target.value = !target.value;
}

/// Atomic two's-complement negation.
#[inline]
pub fn neg(target: &mut AtomicU64)
    ensures
        final(target)@ == vstd::wrapping::u64_specs::wrapping_sub(0, old(target)@),
{
    target.value = 0u64.wrapping_sub(target.value);
}

/// Bit test-and-set at `offset`. Returns the previous state of the bit.
#[inline]
pub fn bts(target: &mut AtomicU64, offset: u32) -> (r: bool)
    requires
        offset < 64,
    ensures
        r == ((old(target)@ & (1u64 << offset)) != 0),
        final(target)@ == (old(target)@ | (1u64 << offset)),
{
    let mask = 1u64 << offset;
    let prior = target.value;
    target.value = prior | mask;
    (prior & mask) != 0
}

/// Bit test-and-reset at `offset`. Returns the previous state of the bit.
#[inline]
pub fn btr(target: &mut AtomicU64, offset: u32) -> (r: bool)
    requires
        offset < 64,
    ensures
        r == ((old(target)@ & (1u64 << offset)) != 0),
        final(target)@ == (old(target)@ & !(1u64 << offset)),
{
    let mask = 1u64 << offset;
    let prior = target.value;
    target.value = prior & !mask;
    (prior & mask) != 0
}

/// Bit test-and-complement at `offset`. Returns the previous state of the
/// bit.
#[inline]
pub fn btc(target: &mut AtomicU64, offset: u32) -> (r: bool)
    requires
        offset < 64,
    ensures
        r == ((old(target)@ & (1u64 << offset)) != 0),
        final(target)@ == (old(target)@ ^ (1u64 << offset)),
{
    let mask = 1u64 << offset;
    let prior = target.value;
    target.value = prior ^ mask;
    (prior & mask) != 0
}

} // verus!
