//! Execution barriers.
//!
//! A barrier gathers a fixed number of threads at a common point: each
//! arrival raises a counter, the last arrival resets it and releases the
//! rest, and exactly that last arrival is told it leads. Waiting is a
//! spin with backoff.
//!
//! In this sequential model only the releasing arrival — the one that
//! completes the group — can return, so `wait` demands that every other
//! party has already arrived and always answers as the leader.

use vstd::prelude::*;

verus! {

/// A centralized barrier.
pub struct Barrier {
    count: usize,
    total: usize,
    generation: u64,
}

impl Barrier {
    /// The number of arrivals in the current generation, for contracts.
    pub closed spec fn spec_count(&self) -> usize {
        self.count
    }

    /// The number of parties the barrier waits for, for contracts.
    pub closed spec fn spec_total(&self) -> usize {
        self.total
    }

    /// The generation counter, for contracts.
    pub closed spec fn spec_generation(&self) -> u64 {
        self.generation
    }

    /// Create a new barrier for `n` parties.
    #[inline]
    pub fn new(n: usize) -> (r: Self)
        ensures
            r.spec_count() == 0,
            r.spec_total() == n,
            r.spec_generation() == 0,
    {
        Barrier { count: 0, total: n, generation: 0 }
    }

    /// Arrive at the barrier. The completing arrival resets the count,
    /// advances the generation and is told it leads; an incomplete group
    /// would be waited on, so this arrival must complete it.
    pub fn wait(&mut self) -> (r: bool)
        requires
            old(self).spec_count() + 1 == old(self).spec_total(),
            old(self).spec_generation() < u64::MAX,
        ensures
            r,
            final(self).spec_count() == 0,
            final(self).spec_total() == old(self).spec_total(),
            final(self).spec_generation() == old(self).spec_generation() + 1,
    {
        self.count = 0;
        self.generation = self.generation + 1;
        true
    }

    /// Reset the barrier for reuse: the count clears and the generation
    /// advances, releasing any spinning waiters.
    #[inline]
    pub fn reset(&mut self)
        requires
            old(self).spec_generation() < u64::MAX,
        ensures
            final(self).spec_count() == 0,
            final(self).spec_total() == old(self).spec_total(),
            final(self).spec_generation() == old(self).spec_generation() + 1,
    {
        self.count = 0;
        self.generation = self.generation + 1;
    }
}

/// A sense-reversing barrier: instead of a generation counter, waiters
/// spin on a flag whose sense flips each round; each thread carries its
/// own local sense.
pub struct SenseBarrier {
    count: usize,
    total: usize,
    sense: usize,
}

impl SenseBarrier {
    /// The number of arrivals in the current round, for contracts.
    pub closed spec fn spec_count(&self) -> usize {
        self.count
    }

    /// The number of parties the barrier waits for, for contracts.
    pub closed spec fn spec_total(&self) -> usize {
        self.total
    }

    /// The global sense flag, for contracts.
    pub closed spec fn spec_sense(&self) -> usize {
        self.sense
    }

    /// Create a new sense-reversing barrier for `n` parties.
    #[inline]
    pub fn new(n: usize) -> (r: Self)
        ensures
            r.spec_count() == 0,
            r.spec_total() == n,
            r.spec_sense() == 0,
    {
        SenseBarrier { count: 0, total: n, sense: 0 }
    }

    /// Arrive at the barrier with this thread's sense, which flips. The
    /// completing arrival publishes the new sense and is told it leads; an
    /// incomplete group would be waited on, so this arrival must complete
    /// it.
    pub fn wait(&mut self, local_sense: &mut usize) -> (r: bool)
        requires
            old(self).spec_count() + 1 == old(self).spec_total(),
            *old(local_sense) <= 1,
        ensures
            r,
            *final(local_sense) == 1 - *old(local_sense),
            final(self).spec_count() == 0,
            final(self).spec_total() == old(self).spec_total(),
            final(self).spec_sense() == *final(local_sense),
    {
        *local_sense = 1 - *local_sense;
        self.count = 0;
        self.sense = *local_sense;
        true
    }
}

/// A combining-tree barrier. The tree is allocated, but arrival falls
/// back to the centralized counter in its root node.
pub struct CombiningBarrier {
    nodes: Vec<usize>,
    total: usize,
}

impl CombiningBarrier {
    /// The node counters, for contracts; arrivals gather in node zero.
    pub closed spec fn spec_nodes(&self) -> Seq<usize> {
        self.nodes@
    }

    /// The number of parties the barrier waits for, for contracts.
    pub closed spec fn spec_total(&self) -> usize {
        self.total
    }

    /// Create a new combining barrier for `n` parties, with a node count
    /// rounded up to a power of two.
    pub fn new(n: usize) -> (r: Self)
        requires
            n <= usize::MAX / 2,
        ensures
            r.spec_total() == n,
            r.spec_nodes().len() >= 1,
            r.spec_nodes().len() >= n,
            forall|i: int| 0 <= i < r.spec_nodes().len() ==> r.spec_nodes()[i] == 0,
    {
        let mut num_nodes: usize = 1;
        if n > 1 {
            while num_nodes < n
                invariant
                    1 <= num_nodes <= 2 * n,
                    1 < n <= usize::MAX / 2,
                decreases 2 * n - num_nodes,
            {
                num_nodes = num_nodes * 2;
            }
        }
        let mut nodes: Vec<usize> = Vec::new();
        let mut i: usize = 0;
        while i < num_nodes
            invariant
                i <= num_nodes,
                nodes@.len() == i,
                forall|j: int| 0 <= j < i ==> nodes@[j] == 0,
            decreases num_nodes - i,
        {
            nodes.push(0);
            i = i + 1;
        }
        CombiningBarrier { nodes, total: n }
    }

    /// Arrive at the barrier. The completing arrival resets the root node
    /// and is told it leads; an incomplete group would be waited on, so
    /// this arrival must complete it.
    pub fn wait(&mut self, thread_id: usize) -> (r: bool)
        requires
            old(self).spec_nodes().len() >= 1,
            old(self).spec_nodes()[0] + 1 == old(self).spec_total(),
        ensures
            r,
            final(self).spec_nodes() == old(self).spec_nodes().update(0, 0usize),
            final(self).spec_total() == old(self).spec_total(),
    {
        self.nodes[0] = 0;
        true
    }
}

} // verus!
