//! Atomic primitives and memory barriers.
//!
//! The hardware surface is a set of typed atomic words with explicit
//! orderings, memory fences and a CPU pause hint. Here an atomic word is
//! modelled by an owned word: a load reads it, a store or read-modify-write
//! takes the word by `&mut` and its contract states the exact new value and
//! the exact value returned. Orderings and fences order nothing in the
//! sequential model, so the fence functions keep their names as empty hints;
//! only the pause hint reaches the processor.
//!
//! The typed operations live in [`u32_ops`] and [`u64_ops`], one set per
//! word width.

use vstd::prelude::*;

/// Operations on a 32-bit atomic word.
pub mod u32_ops;

/// Operations on a 64-bit atomic word.
pub mod u64_ops;

verus! {

/// Compiler barrier: prevents compiler reordering, no hardware fence.
/// No effect on the sequential model.
#[inline(always)]
pub fn barrier() {
}

/// Acquire fence: later reads may not move before it. No effect on the
/// sequential model.
#[inline(always)]
pub fn fence_acquire() {
}

/// Release fence: earlier writes may not move after it. No effect on the
/// sequential model.
#[inline(always)]
pub fn fence_release() {
}

/// Acquire-release fence. No effect on the sequential model.
#[inline(always)]
pub fn fence_acqrel() {
}

/// Full (sequentially consistent) memory fence. No effect on the sequential
/// model.
#[inline(always)]
pub fn fence_memory() {
}

/// Load fence: prevents load-load reordering. No effect on the sequential
/// model.
#[inline(always)]
pub fn fence_load() {
}

/// Store fence: prevents store-store reordering. No effect on the sequential
/// model.
#[inline(always)]
pub fn fence_store() {
}

/// Store-load fence, the most expensive ordering on common hardware. No
/// effect on the sequential model.
#[inline(always)]
pub fn fence_store_load() {
}

/// Load-store fence. No effect on the sequential model.
#[inline(always)]
pub fn fence_load_store() {
}

/// Fence for atomic operations. No effect on the sequential model.
#[inline(always)]
pub fn fence_atomic() {
}

/// Fence for lock acquisition. No effect on the sequential model.
#[inline(always)]
pub fn fence_lock() {
}

/// Fence for lock release. No effect on the sequential model.
#[inline(always)]
pub fn fence_unlock() {
}

/// CPU pause hint for spin loops: reduces power use and contention while
/// waiting.
///
/// Relies on core::hint::spin_loop: emits the architecture's pause or yield
/// instruction and changes no program state.
#[verifier::external_body]
#[inline(always)]
pub fn stall() {
    core::hint::spin_loop();
}

} // verus!
