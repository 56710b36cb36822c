//! Memory allocator capability.
//!
//! The containers of this crate can be built over a caller-supplied
//! allocator. The capability has three operations — allocate, reallocate
//! and free — over abstract addresses: an address is a plain word naming
//! an allocation, as everywhere in this crate, and the caller maps it to
//! real memory. Errors come back as typed outcomes, never by trapping.
//!
//! [`GlobalAllocator`] is the default implementation: a monotone bump
//! allocator over the abstract address space, whose addresses are nonzero
//! and never reused. A zero-sized allocation yields a valid, freeable
//! address.

use vstd::prelude::*;

verus! {

/// Error type for allocation failures.
#[derive(Debug, Clone, Copy, PartialEq, Eq, Structural)]
pub enum AllocError {
    /// Memory allocation failed: out of memory.
    OutOfMemory,
    /// Reallocation failed because in-place resize was not possible.
    CannotResizeInPlace,
}

/// Result type for allocation operations.
pub type AllocResult = Result<usize, AllocError>;

/// Memory allocator capability: size-aware allocate, reallocate and free
/// over abstract addresses. Implementations must be thread-safe when
/// shared.
pub trait Allocator {
    /// Allocate a block of `size` bytes: the address of the block, or out
    /// of memory. A zero-sized request yields a valid, freeable address.
    fn malloc(&mut self, size: usize) -> AllocResult;

    /// Resize the block at `ptr` from `old_size` to `new_size` bytes. With
    /// `may_move` the block may be relocated and the new address comes
    /// back; without it, an allocator that cannot grow the block in place
    /// reports so, and the original block stays valid.
    fn realloc(&mut self, ptr: usize, old_size: usize, new_size: usize, may_move: bool)
        -> AllocResult;

    /// Free the block at `ptr`. The size is an optimization hint; `defer`
    /// permits the allocator to batch the release or hand it to a
    /// reclamation engine.
    fn free(&mut self, ptr: usize, size: usize, defer: bool);
}

/// Convenience operations over any allocator.
pub trait AllocatorExt: Allocator {
    /// Allocate an array of `count` elements of `elem_size` bytes each. A
    /// size product past the address space reports out of memory without
    /// consulting the allocator; otherwise the allocator's answer for the
    /// product is handed through.
    fn alloc_array(&mut self, elem_size: usize, count: usize) -> (r: AllocResult)
        ensures
            elem_size * count > usize::MAX ==> r == Result::<usize, AllocError>::Err(
                AllocError::OutOfMemory,
            ),
    {
        match elem_size.checked_mul(count) {
            Some(size) => self.malloc(size),
            None => Err(AllocError::OutOfMemory),
        }
    }

    /// Free an array of `count` elements of `elem_size` bytes each; an
    /// overflowing size hint is clamped, the address is what counts.
    fn dealloc_array(&mut self, ptr: usize, elem_size: usize, count: usize, defer: bool) {
        let size = match elem_size.checked_mul(count) {
            Some(s) => s,
            None => usize::MAX,
        };
        self.free(ptr, size, defer);
    }
}

impl<A: Allocator> AllocatorExt for A {

}

/// The default allocator: a bump allocator over the abstract address
/// space. Addresses start past zero, grow monotonically and are never
/// reused; free is accepted and ignored.
pub struct GlobalAllocator {
    next: usize,
}

impl GlobalAllocator {
    /// The next address to hand out, for contracts.
    pub closed spec fn spec_next(&self) -> usize {
        self.next
    }

    /// Create a fresh bump allocator.
    pub fn new() -> (r: Self)
        ensures
            r.spec_next() > 0,
    {
        GlobalAllocator { next: 8 }
    }
}

impl Default for GlobalAllocator {
    /// Same as [`GlobalAllocator::new`].
    fn default() -> (r: Self)
        ensures
            r.spec_next() > 0,
    {
        GlobalAllocator::new()
    }
}

impl Allocator for GlobalAllocator {
    /// Hand out the next address and advance by the requested size; a
    /// request past the end of the address space is out of memory. The
    /// address never moves backwards, so no address is handed out twice
    /// for a nonzero size; a zero-size request yields the current address,
    /// a valid sentinel that `free` accepts.
    fn malloc(&mut self, size: usize) -> (r: AllocResult)
        ensures
            final(self).spec_next() >= old(self).spec_next(),
            old(self).spec_next() + size <= usize::MAX ==> r == Result::<usize, AllocError>::Ok(
                old(self).spec_next(),
            ) && final(self).spec_next() == old(self).spec_next() + size,
            old(self).spec_next() + size > usize::MAX ==> r == Result::<usize, AllocError>::Err(
                AllocError::OutOfMemory,
            ) && *final(self) == *old(self),
    {
        let addr = self.next;
        match self.next.checked_add(size) {
            Some(next) => {
                self.next = next;
                Ok(addr)
            },
            None => Err(AllocError::OutOfMemory),
        }
    }

    /// A bump allocator never grows a block in place; with `may_move` the
    /// request is served by a fresh allocation.
    fn realloc(&mut self, ptr: usize, old_size: usize, new_size: usize, may_move: bool) -> (r:
        AllocResult)
        ensures
            final(self).spec_next() >= old(self).spec_next(),
            !may_move ==> r == Result::<usize, AllocError>::Err(AllocError::CannotResizeInPlace)
                && *final(self) == *old(self),
            may_move && old(self).spec_next() + new_size <= usize::MAX ==> r == Result::<
                usize,
                AllocError,
            >::Ok(old(self).spec_next()) && final(self).spec_next() == old(self).spec_next()
                + new_size,
            may_move && old(self).spec_next() + new_size > usize::MAX ==> r == Result::<
                usize,
                AllocError,
            >::Err(AllocError::OutOfMemory) && *final(self) == *old(self),
    {
        if may_move {
            self.malloc(new_size)
        } else {
            Err(AllocError::CannotResizeInPlace)
        }
    }

    /// A bump allocator reclaims nothing: every address stays valid.
    fn free(&mut self, ptr: usize, size: usize, defer: bool)
        ensures
            *final(self) == *old(self),
    {
    }
}

} // verus!
