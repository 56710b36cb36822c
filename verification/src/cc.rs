//! Bit manipulation helpers and branch prediction hints.
//!
//! Find-first-set in three widths, count-trailing-zeros and population
//! count, each specified exactly over the input's bits, plus the identity
//! branch hints `likely` and `unlikely` and the conventional cache line
//! size.

use vstd::prelude::*;
use vstd::std_specs::bits::{u32_trailing_zeros, u64_trailing_zeros};

verus! {

/// Cache line size in bytes, for padding against false sharing.
pub const CACHELINE: usize = 64;

/// The number of set bits of `x` below bit `n`.
pub open spec fn count_bits32(x: u32, n: nat) -> nat
    decreases n,
{
    if n == 0 {
        0
    } else {
        count_bits32(x, (n - 1) as nat) + if (x >> ((n - 1) as u32)) & 1 == 1 {
            1nat
        } else {
            0nat
        }
    }
}

/// Find first set bit in a 32-bit unsigned integer: the 1-indexed position
/// of the least significant set bit, or 0 if no bit is set.
#[inline]
pub fn ffs(v: u32) -> (r: i32)
    ensures
        v == 0 ==> r == 0,
        v != 0 ==> r == u32_trailing_zeros(v) + 1,
{
    proof {
        vstd::std_specs::bits::axiom_u32_trailing_zeros(v);
    }
    if v == 0 {
        0
    } else {
        (v.trailing_zeros() + 1) as i32
    }
}

/// Find first set bit in a pointer-sized unsigned integer, 1-indexed; 0 if
/// no bit is set.
#[inline]
pub fn ffsl(v: usize) -> (r: i32)
    ensures
        v == 0 ==> r == 0,
        v != 0 ==> r == u64_trailing_zeros(v as u64) + 1,
{
    let w = v as u64;
    proof {
        vstd::std_specs::bits::axiom_u64_trailing_zeros(w);
    }
    if w == 0 {
        0
    } else {
        (w.trailing_zeros() + 1) as i32
    }
}

/// Find first set bit in a 64-bit unsigned integer, 1-indexed; 0 if no bit
/// is set.
#[inline]
pub fn ffsll(v: u64) -> (r: i32)
    ensures
        v == 0 ==> r == 0,
        v != 0 ==> r == u64_trailing_zeros(v) + 1,
{
    proof {
        vstd::std_specs::bits::axiom_u64_trailing_zeros(v);
    }
    if v == 0 {
        0
    } else {
        (v.trailing_zeros() + 1) as i32
    }
}

/// Count trailing zeros of a 32-bit unsigned integer; 0 for a zero input,
/// so the result is always a valid bit position.
#[inline]
pub fn ctz(x: u32) -> (r: i32)
    ensures
        x == 0 ==> r == 0,
        x != 0 ==> r == u32_trailing_zeros(x),
{
    proof {
        vstd::std_specs::bits::axiom_u32_trailing_zeros(x);
    }
    if x == 0 {
        0
    } else {
        x.trailing_zeros() as i32
    }
}

/// Count the set bits of a 32-bit unsigned integer: exactly the number of
/// bit positions holding a one.
pub fn popcount(x: u32) -> (r: i32)
    ensures
        r == count_bits32(x, 32),
{
    let mut count: u32 = 0;
    let mut i: u32 = 0;
    while i < 32
        invariant
            i <= 32,
            count == count_bits32(x, i as nat),
            count <= i,
        decreases 32 - i,
    {
        if (x >> i) & 1 == 1 {
            count = count + 1;
        }
        i = i + 1;
    }
    count as i32
}

/// Hint that a condition is likely true; the value passes through
/// unchanged.
#[inline]
#[must_use]
pub fn likely(b: bool) -> (r: bool)
    ensures
        r == b,
{
    b
}

/// Hint that a condition is likely false; the value passes through
/// unchanged.
#[inline]
#[must_use]
pub fn unlikely(b: bool) -> (r: bool)
    ensures
        r == b,
{
    b
}

} // verus!
