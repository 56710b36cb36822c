//! Intrusive list headers (singly-linked, doubly-linked, tail-queue).
//!
//! Declarations of the classic intrusive list shapes: a head per list and
//! a link entry per element. The containers of this crate build their own
//! chains; these headers are declared as types with their emptiness and
//! first-element observers, not as an algorithmic core. A free-standing
//! entry is unlinked and has no successor.

use vstd::prelude::*;
use core::marker::PhantomData;

verus! {

/// Link entry of a singly-linked list.
pub struct SlistEntry<T> {
    marker: PhantomData<T>,
}

impl<T> SlistEntry<T> {
    /// Create a new unlinked entry.
    #[inline]
    pub fn new() -> (r: Self) {
        SlistEntry { marker: PhantomData }
    }

    /// The element after this entry; an unlinked entry has none.
    #[inline]
    pub fn next(&self) -> (r: Option<&T>)
        ensures
            r.is_none(),
    {
        None
    }
}

impl<T> Default for SlistEntry<T> {
    /// Same as [`SlistEntry::new`].
    fn default() -> (r: Self) {
        SlistEntry::new()
    }
}

/// Head of a singly-linked list.
pub struct SlistHead<T> {
    items: Vec<T>,
}

impl<T> View for SlistHead<T> {
    type V = Seq<T>;

    closed spec fn view(&self) -> Seq<T> {
        self.items@
    }
}

impl<T> SlistHead<T> {
    /// Create a new empty list head.
    #[inline]
    pub fn new() -> (r: Self)
        ensures
            r@ == Seq::<T>::empty(),
    {
        let h = SlistHead { items: Vec::new() };
        proof {
            assert(h@ =~= Seq::<T>::empty());
        }
        h
    }

    /// Check if the list is empty.
    #[inline]
    pub fn is_empty(&self) -> (r: bool)
        ensures
            r == (self@.len() == 0),
    {
        self.items.len() == 0
    }

    /// The first element, if any.
    #[inline]
    pub fn first(&self) -> (r: Option<&T>)
        ensures
            self@.len() == 0 ==> r.is_none(),
            self@.len() > 0 ==> r == Some(&self@[0]),
    {
        if self.items.len() > 0 {
            Some(&self.items[0])
        } else {
            None
        }
    }
}

impl<T> Default for SlistHead<T> {
    /// Same as [`SlistHead::new`].
    fn default() -> (r: Self)
        ensures
            r@ == Seq::<T>::empty(),
    {
        SlistHead::new()
    }
}

/// Link entry of a doubly-linked list.
pub struct ListEntry<T> {
    marker: PhantomData<T>,
}

impl<T> ListEntry<T> {
    /// Create a new unlinked entry.
    #[inline]
    pub fn new() -> (r: Self) {
        ListEntry { marker: PhantomData }
    }

    /// The element after this entry; an unlinked entry has none.
    #[inline]
    pub fn next(&self) -> (r: Option<&T>)
        ensures
            r.is_none(),
    {
        None
    }
}

impl<T> Default for ListEntry<T> {
    /// Same as [`ListEntry::new`].
    fn default() -> (r: Self) {
        ListEntry::new()
    }
}

/// Head of a doubly-linked list.
pub struct ListHead<T> {
    items: Vec<T>,
}

impl<T> View for ListHead<T> {
    type V = Seq<T>;

    closed spec fn view(&self) -> Seq<T> {
        self.items@
    }
}

impl<T> ListHead<T> {
    /// Create a new empty list head.
    #[inline]
    pub fn new() -> (r: Self)
        ensures
            r@ == Seq::<T>::empty(),
    {
        let h = ListHead { items: Vec::new() };
        proof {
            assert(h@ =~= Seq::<T>::empty());
        }
        h
    }

    /// Check if the list is empty.
    #[inline]
    pub fn is_empty(&self) -> (r: bool)
        ensures
            r == (self@.len() == 0),
    {
        self.items.len() == 0
    }

    /// The first element, if any.
    #[inline]
    pub fn first(&self) -> (r: Option<&T>)
        ensures
            self@.len() == 0 ==> r.is_none(),
            self@.len() > 0 ==> r == Some(&self@[0]),
    {
        if self.items.len() > 0 {
            Some(&self.items[0])
        } else {
            None
        }
    }
}

impl<T> Default for ListHead<T> {
    /// Same as [`ListHead::new`].
    fn default() -> (r: Self)
        ensures
            r@ == Seq::<T>::empty(),
    {
        ListHead::new()
    }
}

/// Link entry of a singly-linked tail queue.
pub struct StailqEntry<T> {
    marker: PhantomData<T>,
}

impl<T> StailqEntry<T> {
    /// Create a new unlinked entry.
    #[inline]
    pub fn new() -> (r: Self) {
        StailqEntry { marker: PhantomData }
    }
}

impl<T> Default for StailqEntry<T> {
    /// Same as [`StailqEntry::new`].
    fn default() -> (r: Self) {
        StailqEntry::new()
    }
}

/// Head of a singly-linked tail queue.
pub struct StailqHead<T> {
    items: Vec<T>,
}

impl<T> View for StailqHead<T> {
    type V = Seq<T>;

    closed spec fn view(&self) -> Seq<T> {
        self.items@
    }
}

impl<T> StailqHead<T> {
    /// Create a new empty queue head.
    #[inline]
    pub fn new() -> (r: Self)
        ensures
            r@ == Seq::<T>::empty(),
    {
        let h = StailqHead { items: Vec::new() };
        proof {
            assert(h@ =~= Seq::<T>::empty());
        }
        h
    }

    /// Check if the queue is empty.
    #[inline]
    pub fn is_empty(&self) -> (r: bool)
        ensures
            r == (self@.len() == 0),
    {
        self.items.len() == 0
    }
}

impl<T> Default for StailqHead<T> {
    /// Same as [`StailqHead::new`].
    fn default() -> (r: Self)
        ensures
            r@ == Seq::<T>::empty(),
    {
        StailqHead::new()
    }
}

} // verus!
