//! Concurrency-primitive toolkit: locks with different fairness tradeoffs,
//! lock-free containers (stack, FIFO, SPSC ring, bitmap, hash set/table,
//! dynamic array), and safe memory reclamation engines (epoch-based and
//! hazard-pointer) on which the lock-free containers rely.
//!
//! Every structure is specified and verified as a sequential state machine
//! over plain values: an atomic word is modelled by an owned word, a pointer
//! by an abstract address, and each operation's contract states exactly how
//! it reads or changes that state. Orderings, fences and spin waits are kept
//! as API surface; in the sequential model they have no observable effect.

/// Bit manipulation helpers and branch prediction hints.
pub mod cc;

/// Memory allocator capability.
pub mod malloc;

/// Atomic word operations, memory fences and the CPU pause hint.
pub mod pr;

/// Exponential backoff for contention management.
pub mod backoff;

/// Epoch-based safe memory reclamation.
pub mod epoch;

/// Hazard pointer memory reclamation.
pub mod hp;

/// Treiber-style lock-free stack, modelled sequentially.
pub mod stack;

/// FIFO queues.
pub mod fifo;

/// Hazard pointer protected stack.
pub mod hp_stack;

/// Hazard pointer protected FIFO.
pub mod hp_fifo;

/// Phase-fair reader-writer lock.
pub mod pflock;

/// Hash set (single-writer, many-reader).
pub mod hs;

/// Hash table (key-value pairs).
pub mod ht;

/// Robin-hood hash set.
pub mod rhs;

/// Sequence counter (seqlock).
pub mod sequence;

/// Spinlock implementations.
pub mod spinlock;

/// Reader-writer lock.
pub mod rwlock;

/// Bounded single-producer/single-consumer ring.
pub mod ring;

/// Task-fair reader-writer lock.
pub mod tflock;

/// Big-reader lock.
pub mod brlock;

/// Byte-level reader-writer lock.
pub mod bytelock;

/// Single-writer reader-writer lock.
pub mod swlock;

/// Lock cohorting.
pub mod cohort;

/// Reader-writer lock cohorting.
pub mod rwcohort;

/// Lock elision wrapper.
pub mod elide;

/// Event counts.
pub mod ec;

/// Execution barriers.
pub mod barrier;

/// Bitmap with word-level operations.
pub mod bitmap;

/// Concurrently-readable dynamic array.
pub mod array;

/// Intrusive list headers (singly-linked, doubly-linked, tail-queue).
pub mod queue;

pub use cc::{ctz, ffs, ffsl, ffsll, popcount};
pub use malloc::Allocator;
