//! Treiber-style lock-free stack, modelled sequentially.
//!
//! The concurrent algorithm keeps a single head pointer into a chain of
//! intrusive entries and swings it by compare-and-swap; its observable
//! behaviour is a LIFO over the entries handed to it. That behaviour is
//! what is modelled and verified here: the stack owns its entries, `push`
//! appends at the top and `pop` removes from the top. The view of a stack
//! is the sequence of entry payloads from bottom to top.
//!
//! Reclamation of popped entries is the caller's business: pair the stack
//! with the epoch engine or use the hazard-pointer protected variant.

use vstd::prelude::*;

verus! {

/// An entry of the stack: the payload of one intrusive node. The chain
/// link of the concurrent form is represented by the entry's position.
pub struct StackEntry<T> {
    data: T,
}

impl<T> StackEntry<T> {
    /// The payload, for contracts.
    pub closed spec fn spec_data(&self) -> T {
        self.data
    }

    /// Create a new entry around `data`.
    #[inline]
    pub fn new(data: T) -> (r: Self)
        ensures
            r.spec_data() == data,
    {
        StackEntry { data }
    }

    /// Borrow the payload.
    #[inline]
    pub fn data(&self) -> (r: &T)
        ensures
            *r == self.spec_data(),
    {
        &self.data
    }

    /// Borrow the payload mutably.
    #[inline]
    pub fn data_mut(&mut self) -> (r: &mut T)
        ensures
            *r == old(self).spec_data(),
            final(self).spec_data() == *final(r),
    {
        &mut self.data
    }

    /// Consume the entry and return the payload.
    #[inline]
    pub fn into_data(self) -> (r: T)
        ensures
            r == self.spec_data(),
    {
        self.data
    }
}

/// A LIFO stack of intrusive entries. The view is the payload sequence,
/// bottom first.
pub struct Stack<T> {
    entries: Vec<StackEntry<T>>,
}

/// The payloads of a sequence of entries, in order.
pub open spec fn entry_datas<T>(s: Seq<StackEntry<T>>) -> Seq<T> {
    s.map_values(|e: StackEntry<T>| e.spec_data())
}

impl<T> View for Stack<T> {
    type V = Seq<T>;

    closed spec fn view(&self) -> Seq<T> {
        entry_datas(self.entries@)
    }
}

impl<T> Stack<T> {
    /// Create a new empty stack.
    #[inline]
    pub fn new() -> (r: Self)
        ensures
            r@ == Seq::<T>::empty(),
    {
        let s = Stack { entries: Vec::new() };
        proof {
            assert(s@ =~= Seq::<T>::empty());
        }
        s
    }

    /// Check if the stack is empty.
    #[inline]
    pub fn is_empty(&self) -> (r: bool)
        ensures
            r == (self@.len() == 0),
    {
        self.entries.len() == 0
    }

    /// Push an entry onto the top of the stack.
    #[inline]
    pub fn push(&mut self, entry: StackEntry<T>)
        ensures
            final(self)@ == old(self)@.push(entry.spec_data()),
    {
        self.entries.push(entry);
        proof {
            assert(self@ =~= old(self)@.push(entry.spec_data()));
        }
    }

    /// Pop the top entry. Returns `None` exactly when the stack is empty;
    /// otherwise the entry pushed last comes back and the rest stay.
    #[inline]
    pub fn pop(&mut self) -> (r: Option<StackEntry<T>>)
        ensures
            match r {
                Some(e) => old(self)@.len() > 0 && e.spec_data() == old(self)@.last() && final(self)@ == old(self)@.drop_last(),
                None => old(self)@.len() == 0 && final(self)@ == old(self)@,
            },
    {
        let r = self.entries.pop();
        proof {
            if old(self).entries@.len() > 0 {
                assert(self@ =~= old(self)@.drop_last());
            } else {
                assert(self@ =~= old(self)@);
            }
        }
        r
    }

    /// Pop all entries at once: the whole chain leaves the stack, topmost
    /// entry first, exactly the reverse of the view.
    pub fn pop_all(&mut self) -> (r: Vec<StackEntry<T>>)
        ensures
            final(self)@ == Seq::<T>::empty(),
            entry_datas(r@) == old(self)@.reverse(),
    {
        let ghost orig = self.entries@;
        let mut out: Vec<StackEntry<T>> = Vec::new();
        while self.entries.len() > 0
            invariant
                out@.len() + self.entries@.len() == orig.len(),
                self.entries@ == orig.take(self.entries@.len() as int),
                out@ == orig.skip(self.entries@.len() as int).reverse(),
            decreases self.entries@.len(),
        {
            let ghost pre = self.entries@;
            let ghost pre_out = out@;
            let e = self.entries.pop();
            match e {
                Some(entry) => {
                    let ghost m = pre.len() - 1;
                    out.push(entry);
                    proof {
                        assert(self.entries@ == pre.subrange(0, m));
                        assert(self.entries@ =~= orig.take(m));
                        assert(out@ == pre_out.push(entry));
                        assert forall|k: int| 0 <= k < out@.len() implies out@[k] == orig.skip(
                            m,
                        ).reverse()[k] by {
                            if k < pre_out.len() {
                                assert(pre_out[k] == orig.skip(m + 1).reverse()[k]);
                            } else {
                                assert(out@[k] == entry);
                                assert(pre[m] == orig[m]);
                            }
                        }
                        assert(out@ =~= orig.skip(m).reverse());
                    }
                },
                None => {
                    proof {
                        assert(false);
                    }
                },
            }
        }
        proof {
            assert(self@ =~= Seq::<T>::empty());
            assert(out@ =~= orig.reverse());
            lemma_map_values_reverse(orig);
            assert(orig == old(self).entries@);
            assert(entry_datas(out@) == old(self)@.reverse());
        }
        out
    }
}

impl<T> Default for Stack<T> {
    /// Same as [`Stack::new`].
    fn default() -> (r: Self)
        ensures
            r@ == Seq::<T>::empty(),
    {
        Stack::new()
    }
}

/// Taking payloads commutes with reversing the entry sequence.
proof fn lemma_map_values_reverse<T>(s: Seq<StackEntry<T>>)
    ensures
        entry_datas(s.reverse()) == entry_datas(s).reverse(),
{
    assert(entry_datas(s.reverse()) =~= entry_datas(s).reverse());
}

/// The values obtained by popping a stack until it is empty: each step
/// takes the top, exactly as [`Stack::pop`] does.
pub open spec fn drain_lifo<T>(s: Seq<T>) -> Seq<T>
    decreases s.len(),
{
    if s.len() == 0 {
        Seq::<T>::empty()
    } else {
        seq![s.last()] + drain_lifo(s.drop_last())
    }
}

/// LIFO order: after any sequence of pushes producing stack contents `s`,
/// popping until empty returns the pushed values in reverse order, with no
/// duplicates and no omissions — the drained sequence is exactly the
/// reverse of the contents.
pub proof fn lemma_stack_lifo<T>(s: Seq<T>)
    ensures
        drain_lifo(s) == s.reverse(),
    decreases s.len(),
{
    if s.len() == 0 {
        assert(drain_lifo(s) =~= s.reverse());
    } else {
        lemma_stack_lifo(s.drop_last());
        assert(seq![s.last()] + s.drop_last().reverse() =~= s.reverse());
    }
}

} // verus!
