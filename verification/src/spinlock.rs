//! Spinlock implementations.
//!
//! Two variants with different fairness tradeoffs: [`FasLock`], a simple
//! fetch-and-store lock — fast but unfair — and [`TicketLock`], which
//! serves waiters strictly first-in first-out: each acquire draws a ticket
//! by fetch-and-add and the lock serves tickets in draw order.
//!
//! In this sequential model an acquire that would spin on another thread
//! is excluded by precondition; guards are plain tokens handed back to an
//! explicit unlock. The ticket lock's fairness is proved over its
//! transition system: [`lemma_ticket_fifo`] shows that a ticket is served
//! only after every earlier ticket has been served.

use vstd::prelude::*;

verus! {

/// A simple fetch-and-store spinlock around a protected value. Unfair:
/// under contention the hardware decides who wins the swap.
pub struct FasLock<T> {
    locked: bool,
    data: T,
}

impl<T> FasLock<T> {
    /// Whether the lock is held, for contracts.
    pub closed spec fn spec_locked(&self) -> bool {
        self.locked
    }

    /// The protected value, for contracts.
    pub closed spec fn spec_data(&self) -> T {
        self.data
    }

    /// Create a new unlocked lock around `data`.
    #[inline]
    pub fn new(data: T) -> (r: Self)
        ensures
            !r.spec_locked(),
            r.spec_data() == data,
    {
        FasLock { locked: false, data }
    }

    /// Try to acquire without spinning: succeeds exactly when the lock was
    /// free.
    #[inline]
    pub fn try_lock(&mut self) -> (r: Option<FasLockGuard>)
        ensures
            r.is_some() == !old(self).spec_locked(),
            final(self).spec_locked(),
            final(self).spec_data() == old(self).spec_data(),
    {
        if self.locked {
            None
        } else {
            self.locked = true;
            Some(FasLockGuard { token: () })
        }
    }

    /// Acquire the lock. With another holder the concurrent form spins
    /// with backoff; here that state is excluded by precondition.
    #[inline]
    pub fn lock(&mut self) -> (r: FasLockGuard)
        requires
            !old(self).spec_locked(),
        ensures
            final(self).spec_locked(),
            final(self).spec_data() == old(self).spec_data(),
    {
        self.locked = true;
        FasLockGuard { token: () }
    }

    /// Release the lock, consuming its guard.
    #[inline]
    pub fn unlock(&mut self, guard: FasLockGuard)
        requires
            old(self).spec_locked(),
        ensures
            !final(self).spec_locked(),
            final(self).spec_data() == old(self).spec_data(),
    {
        self.locked = false;
    }

    /// Check if the lock is currently held.
    #[inline]
    pub fn is_locked(&self) -> (r: bool)
        ensures
            r == self.spec_locked(),
    {
        self.locked
    }

    /// Borrow the protected value; hold the guard to do so.
    #[inline]
    pub fn data(&self) -> (r: &T)
        requires
            self.spec_locked(),
        ensures
            *r == self.spec_data(),
    {
        &self.data
    }

    /// Borrow the protected value mutably; hold the guard to do so.
    #[inline]
    pub fn data_mut(&mut self) -> (r: &mut T)
        requires
            old(self).spec_locked(),
        ensures
            *r == old(self).spec_data(),
            final(self).spec_data() == *final(r),
            final(self).spec_locked() == old(self).spec_locked(),
    {
        &mut self.data
    }
}

/// Token witnessing a [`FasLock`] acquisition.
pub struct FasLockGuard {
    token: (),
}

/// A ticket lock with strict FIFO fairness: an acquire draws the next
/// ticket; the lock serves tickets in order.
pub struct TicketLock<T> {
    next_ticket: u64,
    now_serving: u64,
    data: T,
}

impl<T> TicketLock<T> {
    /// The next ticket to be drawn, for contracts.
    pub closed spec fn spec_next_ticket(&self) -> u64 {
        self.next_ticket
    }

    /// The ticket currently being served, for contracts.
    pub closed spec fn spec_now_serving(&self) -> u64 {
        self.now_serving
    }

    /// The protected value, for contracts.
    pub closed spec fn spec_data(&self) -> T {
        self.data
    }

    /// The lock is held while a drawn ticket has not been released.
    pub open spec fn spec_locked(&self) -> bool {
        self.spec_next_ticket() != self.spec_now_serving()
    }

    /// Every drawn ticket is at or past the serving counter.
    pub open spec fn wf(&self) -> bool {
        self.spec_now_serving() <= self.spec_next_ticket()
    }

    /// Create a new unlocked ticket lock around `data`.
    #[inline]
    pub fn new(data: T) -> (r: Self)
        ensures
            r.wf(),
            !r.spec_locked(),
            r.spec_next_ticket() == 0,
            r.spec_now_serving() == 0,
            r.spec_data() == data,
    {
        TicketLock { next_ticket: 0, now_serving: 0, data }
    }

    /// Try to acquire without spinning: succeeds exactly when no ticket is
    /// outstanding, drawing the next ticket.
    #[inline]
    pub fn try_lock(&mut self) -> (r: Option<TicketLockGuard>)
        requires
            old(self).wf(),
            old(self).spec_next_ticket() < u64::MAX,
        ensures
            final(self).wf(),
            final(self).spec_data() == old(self).spec_data(),
            r.is_some() == !old(self).spec_locked(),
            old(self).spec_locked() ==> *final(self) == *old(self),
            !old(self).spec_locked() ==> final(self).spec_next_ticket() == old(self).spec_next_ticket() + 1 && final(self).spec_now_serving() == old(self).spec_now_serving() && r.unwrap().spec_ticket() == old(self).spec_next_ticket(),
    {
        if self.next_ticket == self.now_serving {
            let ticket = self.next_ticket;
            self.next_ticket = self.next_ticket + 1;
            Some(TicketLockGuard { ticket })
        } else {
            None
        }
    }

    /// Acquire the lock: draw the next ticket and wait to be served. With
    /// tickets outstanding the concurrent form spins with backoff; here
    /// that state is excluded by precondition.
    #[inline]
    pub fn lock(&mut self) -> (r: TicketLockGuard)
        requires
            old(self).wf(),
            !old(self).spec_locked(),
            old(self).spec_next_ticket() < u64::MAX,
        ensures
            final(self).wf(),
            final(self).spec_locked(),
            final(self).spec_data() == old(self).spec_data(),
            final(self).spec_next_ticket() == old(self).spec_next_ticket() + 1,
            final(self).spec_now_serving() == old(self).spec_now_serving(),
            r.spec_ticket() == old(self).spec_next_ticket(),
    {
        let ticket = self.next_ticket;
        self.next_ticket = self.next_ticket + 1;
        TicketLockGuard { ticket }
    }

    /// Release the lock: the serving counter moves to the next ticket.
    #[inline]
    pub fn unlock(&mut self, guard: TicketLockGuard)
        requires
            old(self).wf(),
            old(self).spec_locked(),
            guard.spec_ticket() == old(self).spec_now_serving(),
        ensures
            final(self).wf(),
            final(self).spec_data() == old(self).spec_data(),
            final(self).spec_next_ticket() == old(self).spec_next_ticket(),
            final(self).spec_now_serving() == old(self).spec_now_serving() + 1,
    {
        self.now_serving = self.now_serving + 1;
    }

    /// Check if the lock is currently held.
    #[inline]
    pub fn is_locked(&self) -> (r: bool)
        ensures
            r == self.spec_locked(),
    {
        self.next_ticket != self.now_serving
    }

    /// Borrow the protected value; hold the guard to do so.
    #[inline]
    pub fn data(&self) -> (r: &T)
        requires
            self.spec_locked(),
        ensures
            *r == self.spec_data(),
    {
        &self.data
    }

    /// Borrow the protected value mutably; hold the guard to do so.
    #[inline]
    pub fn data_mut(&mut self) -> (r: &mut T)
        requires
            old(self).spec_locked(),
        ensures
            *r == old(self).spec_data(),
            final(self).spec_data() == *final(r),
            final(self).spec_next_ticket() == old(self).spec_next_ticket(),
            final(self).spec_now_serving() == old(self).spec_now_serving(),
    {
        &mut self.data
    }
}

/// Token witnessing a [`TicketLock`] acquisition; it carries the drawn
/// ticket.
pub struct TicketLockGuard {
    ticket: u64,
}

impl TicketLockGuard {
    /// The ticket this guard was issued, for contracts.
    pub closed spec fn spec_ticket(&self) -> u64 {
        self.ticket
    }
}

/// The default spinlock type.
pub type SpinLock<T> = FasLock<T>;

/// The default spinlock guard.
pub type SpinLockGuard = FasLockGuard;

/// The counter pair of a ticket lock: tickets drawn so far and the ticket
/// being served.
pub type TicketState = (u64, u64);

/// The transitions of the ticket counters: a ticket is drawn by
/// fetch-and-add, or the holder releases and the serving counter moves
/// forward by one.
pub open spec fn ticket_step(pre: TicketState, post: TicketState) -> bool {
    ||| (pre.0 < u64::MAX && post == (((pre.0 + 1) as u64), pre.1))
    ||| (pre.1 < pre.0 && post == (pre.0, ((pre.1 + 1) as u64)))
}

/// A sequence of ticket-lock states each reached from the last by one
/// transition.
pub open spec fn ticket_trace_ok(tr: Seq<TicketState>) -> bool {
    forall|i: int| 0 <= i < tr.len() - 1 ==> ticket_step(tr[i], #[trigger] tr[i + 1])
}

/// The serving counter never moves backwards along a trace.
pub proof fn lemma_serving_monotone(tr: Seq<TicketState>, i: int, j: int)
    requires
        ticket_trace_ok(tr),
        0 <= i <= j < tr.len(),
    ensures
        tr[i].1 <= tr[j].1,
    decreases j - i,
{
    if i < j {
        lemma_serving_monotone(tr, i, j - 1);
        assert(ticket_step(tr[j - 1], tr[j - 1 + 1]));
    }
}

/// The serving counter passes through every value between two of its
/// samples: it only ever moves by single steps.
pub proof fn lemma_serving_no_skip(tr: Seq<TicketState>, i: int, j: int, t: u64)
    requires
        ticket_trace_ok(tr),
        0 <= i <= j < tr.len(),
        tr[i].1 <= t <= tr[j].1,
    ensures
        exists|k: int| i <= k <= j && #[trigger] tr[k].1 == t,
    decreases j - i,
{
    if tr[i].1 == t {
        assert(tr[i].1 == t);
    } else {
        assert(ticket_step(tr[i], tr[i + 1]));
        lemma_serving_no_skip(tr, i + 1, j, t);
        assert(exists|k: int| i + 1 <= k <= j && #[trigger] tr[k].1 == t);
        let k = choose|k: int| i + 1 <= k <= j && #[trigger] tr[k].1 == t;
        assert(i <= k <= j && tr[k].1 == t);
    }
}

/// FIFO fairness of the ticket lock: among a set of acquisitions, the
/// order in which tickets are served matches the order in which they were
/// drawn. A ticket `t` acquires the lock exactly when the serving counter
/// reaches `t`; so when a later ticket `t2` is being served, the counter
/// already passed every earlier ticket `t1` — each earlier draw was served
/// first.
pub proof fn lemma_ticket_fifo(tr: Seq<TicketState>, t1: u64, t2: u64, j: int)
    requires
        ticket_trace_ok(tr),
        0 <= j < tr.len(),
        tr[0].1 <= t1 < t2,
        tr[j].1 == t2,
    ensures
        exists|k: int| 0 <= k <= j && #[trigger] tr[k].1 == t1,
{
    lemma_serving_no_skip(tr, 0, j, t1);
}

} // verus!
