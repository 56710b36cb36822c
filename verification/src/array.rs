//! Concurrently-readable dynamic array.
//!
//! A dynamic array with one writer and any number of readers: the writer
//! builds a fresh copy for each change and publishes it by a single
//! pointer swap, so a reader's snapshot is always a complete, immutable
//! vector — either the one before the change or the one after. Old
//! copies are candidates for reclamation once a grace period passes;
//! pair the array with the epoch or hazard-pointer engine for that.
//!
//! A snapshot here is a clone of the current contents; its elements are
//! related to the array's by the element type's clone.

use vstd::prelude::*;
use vstd::pervasive::cloned;
use crate::malloc::GlobalAllocator;

verus! {

/// A concurrently-readable dynamic array.
pub struct Array<T> {
    items: Vec<T>,
}

impl<T: Clone> Array<T> {
    /// Create a new empty array.
    #[inline]
    pub fn new() -> (r: Self)
        ensures
            r@ == Seq::<T>::empty(),
    {
        let a = Array { items: Vec::new() };
        proof {
            assert(a@ =~= Seq::<T>::empty());
        }
        a
    }

    /// Create a new empty array that will allocate through the given
    /// allocator.
    #[inline]
    pub fn with_allocator(allocator: GlobalAllocator) -> (r: Self)
        ensures
            r@ == Seq::<T>::empty(),
    {
        Array::new()
    }

    /// Take a snapshot of the current contents: a complete copy, element
    /// by element, never a half-published state.
    pub fn snapshot(&self) -> (r: ArraySnapshot<T>)
        ensures
            r@.len() == self@.len(),
            forall|i: int| 0 <= i < self@.len() ==> cloned::<T>(self@[i], #[trigger] r@[i]),
    {
        ArraySnapshot { data: self.items.clone() }
    }

    /// The number of elements.
    #[inline]
    pub fn len(&self) -> (r: usize)
        ensures
            r == self@.len(),
    {
        self.items.len()
    }

    /// Check if the array is empty.
    #[inline]
    pub fn is_empty(&self) -> (r: bool)
        ensures
            r == (self@.len() == 0),
    {
        self.items.len() == 0
    }

    /// Append an element (single writer only). The concurrent form builds
    /// a copy with the element appended and publishes it whole.
    pub fn push(&mut self, value: T)
        ensures
            final(self)@ == old(self)@.push(value),
    {
        self.items.push(value);
    }

    /// Remove and return the last element (single writer only); `None`
    /// exactly when the array is empty.
    pub fn pop(&mut self) -> (r: Option<T>)
        ensures
            match r {
                Some(v) => old(self)@.len() > 0 && v == old(self)@.last() && final(self)@ == old(
                    self,
                )@.drop_last(),
                None => old(self)@.len() == 0 && final(self)@ == old(self)@,
            },
    {
        self.items.pop()
    }
}

impl<T> View for Array<T> {
    type V = Seq<T>;

    closed spec fn view(&self) -> Seq<T> {
        self.items@
    }
}

impl<T: Clone> Default for Array<T> {
    /// Same as [`Array::new`].
    fn default() -> (r: Self)
        ensures
            r@ == Seq::<T>::empty(),
    {
        Array::new()
    }
}

/// A read-only snapshot of an [`Array`].
pub struct ArraySnapshot<T> {
    data: Vec<T>,
}

impl<T> View for ArraySnapshot<T> {
    type V = Seq<T>;

    closed spec fn view(&self) -> Seq<T> {
        self.data@
    }
}

impl<T> ArraySnapshot<T> {
    /// The snapshot's contents as a slice.
    #[inline]
    pub fn as_slice(&self) -> (r: &[T])
        ensures
            r@ == self@,
    {
        self.data.as_slice()
    }

    /// The number of elements in the snapshot.
    #[inline]
    pub fn len(&self) -> (r: usize)
        ensures
            r == self@.len(),
    {
        self.data.len()
    }

    /// Check if the snapshot is empty.
    #[inline]
    pub fn is_empty(&self) -> (r: bool)
        ensures
            r == (self@.len() == 0),
    {
        self.data.len() == 0
    }

    /// Get an element of the snapshot by index.
    #[inline]
    pub fn get(&self, index: usize) -> (r: Option<&T>)
        ensures
            index < self@.len() ==> r == Some(&self@[index as int]),
            index >= self@.len() ==> r.is_none(),
    {
        if index < self.data.len() {
            Some(&self.data[index])
        } else {
            None
        }
    }
}

} // verus!
