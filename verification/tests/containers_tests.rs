use concurrencykit::array::Array;
use concurrencykit::fifo::{FifoEntry, MpmcFifo, SpscFifo};
use concurrencykit::queue::{ListEntry, ListHead, SlistEntry, SlistHead, StailqHead};
use concurrencykit::ring::SpscRing;
use concurrencykit::stack::{Stack, StackEntry};

// ---- stack ----

#[test]
fn test_new_stack_is_empty() {
    let stack: Stack<i32> = Stack::new();
    assert!(stack.is_empty());
}

#[test]
fn stack_test_push_pop() {
    let mut stack: Stack<i32> = Stack::new();

    stack.push(StackEntry::new(42));
    assert!(!stack.is_empty());

    let popped = stack.pop().unwrap();
    assert_eq!(*popped.data(), 42);
    assert!(stack.is_empty());
}

#[test]
fn test_lifo_order() {
    let mut stack: Stack<i32> = Stack::new();

    stack.push(StackEntry::new(1));
    stack.push(StackEntry::new(2));
    stack.push(StackEntry::new(3));

    assert_eq!(*stack.pop().unwrap().data(), 3);
    assert_eq!(*stack.pop().unwrap().data(), 2);
    assert_eq!(*stack.pop().unwrap().data(), 1);
    assert!(stack.pop().is_none());
}

#[test]
fn test_pop_empty() {
    let mut stack: Stack<i32> = Stack::new();
    assert!(stack.pop().is_none());
}

#[test]
fn test_pop_all() {
    let mut stack: Stack<i32> = Stack::new();

    stack.push(StackEntry::new(1));
    stack.push(StackEntry::new(2));

    let chain = stack.pop_all();
    assert!(stack.is_empty());

    assert_eq!(*chain[0].data(), 2);
    assert_eq!(*chain[1].data(), 1);
}

#[test]
fn test_stack_entry_accessors() {
    let mut entry = StackEntry::new(7);
    assert_eq!(*entry.data(), 7);
    *entry.data_mut() = 9;
    assert_eq!(entry.into_data(), 9);
}

// ---- fifo ----

#[test]
fn test_spsc_new() {
    let fifo: SpscFifo<i32> = SpscFifo::new();
    assert!(fifo.is_empty());
}

#[test]
fn test_spsc_enqueue_dequeue() {
    let mut fifo: SpscFifo<i32> = SpscFifo::new();

    fifo.enqueue(FifoEntry::new(1));
    fifo.enqueue(FifoEntry::new(2));

    assert!(!fifo.is_empty());

    assert_eq!(*fifo.dequeue().unwrap().data(), 1);
    assert_eq!(*fifo.dequeue().unwrap().data(), 2);
    assert!(fifo.dequeue().is_none());
}

#[test]
fn test_mpmc_new() {
    let fifo: MpmcFifo<i32> = MpmcFifo::new();
    assert!(fifo.is_empty());
}

#[test]
fn test_mpmc_enqueue_dequeue() {
    let mut fifo: MpmcFifo<i32> = MpmcFifo::new();

    fifo.enqueue(FifoEntry::new(42));
    assert!(!fifo.is_empty());

    let dequeued = fifo.dequeue().unwrap();
    assert_eq!(*dequeued.data(), 42);
}

// ---- ring ----

#[test]
fn ring_test_new() {
    let ring: SpscRing<i32, 16> = SpscRing::new();
    assert!(ring.is_empty());
    assert!(!ring.is_full());
}

#[test]
fn test_capacity() {
    let ring: SpscRing<i32, 16> = SpscRing::new();
    assert_eq!(ring.capacity(), 15);
}

#[test]
fn ring_test_enqueue_dequeue() {
    let mut ring: SpscRing<i32, 4> = SpscRing::new();

    assert!(ring.enqueue(1).is_ok());
    assert!(ring.enqueue(2).is_ok());
    assert!(ring.enqueue(3).is_ok());
    assert!(ring.enqueue(4).is_err());

    assert_eq!(ring.dequeue(), Some(1));
    assert_eq!(ring.dequeue(), Some(2));
    assert_eq!(ring.dequeue(), Some(3));
    assert_eq!(ring.dequeue(), None);
}

#[test]
fn test_wrap_around() {
    let mut ring: SpscRing<i32, 4> = SpscRing::new();

    ring.enqueue(1).unwrap();
    ring.enqueue(2).unwrap();
    ring.enqueue(3).unwrap();
    ring.dequeue();
    ring.dequeue();
    ring.dequeue();

    ring.enqueue(4).unwrap();
    ring.enqueue(5).unwrap();
    ring.enqueue(6).unwrap();

    assert_eq!(ring.dequeue(), Some(4));
    assert_eq!(ring.dequeue(), Some(5));
    assert_eq!(ring.dequeue(), Some(6));
}

#[test]
fn test_ring_full_then_drain() {
    let mut ring: SpscRing<i32, 4> = SpscRing::new();
    assert!(ring.enqueue(1).is_ok());
    assert!(ring.enqueue(2).is_ok());
    assert!(ring.enqueue(3).is_ok());
    assert!(ring.is_full());
    assert_eq!(ring.enqueue(4), Err(4));
    assert_eq!(ring.dequeue(), Some(1));
    assert!(ring.enqueue(4).is_ok());
    assert_eq!(ring.dequeue(), Some(2));
    assert_eq!(ring.dequeue(), Some(3));
    assert_eq!(ring.dequeue(), Some(4));
    assert_eq!(ring.dequeue(), None);
    assert!(ring.is_empty());
}

// ---- array ----

#[test]
fn array_test_new() {
    let arr: Array<i32> = Array::new();
    assert!(arr.is_empty());
    assert_eq!(arr.len(), 0);
}

#[test]
fn test_push() {
    let mut arr: Array<i32> = Array::new();
    arr.push(1);
    arr.push(2);
    arr.push(3);
    assert_eq!(arr.len(), 3);

    let snap = arr.snapshot();
    assert_eq!(snap.get(0), Some(&1));
    assert_eq!(snap.get(1), Some(&2));
    assert_eq!(snap.get(2), Some(&3));
}

#[test]
fn test_pop() {
    let mut arr: Array<i32> = Array::new();
    arr.push(1);
    arr.push(2);

    assert_eq!(arr.pop(), Some(2));
    assert_eq!(arr.pop(), Some(1));
    assert_eq!(arr.pop(), None);
}

#[test]
fn test_snapshot_is_complete() {
    let mut arr: Array<i32> = Array::new();
    arr.push(10);
    arr.push(20);
    let snap = arr.snapshot();
    assert_eq!(snap.len(), 2);
    assert!(!snap.is_empty());
    assert_eq!(snap.as_slice(), &[10, 20]);
    assert_eq!(snap.get(2), None);
}

// ---- queue ----

#[test]
fn test_slist_head_new() {
    let head: SlistHead<i32> = SlistHead::new();
    assert!(head.is_empty());
}

#[test]
fn test_list_head_new() {
    let head: ListHead<i32> = ListHead::new();
    assert!(head.is_empty());
}

#[test]
fn test_stailq_head_new() {
    let head: StailqHead<i32> = StailqHead::new();
    assert!(head.is_empty());
}

#[test]
fn test_slist_entry_new() {
    let entry: SlistEntry<i32> = SlistEntry::new();
    assert!(entry.next().is_none());
}

#[test]
fn test_list_entry_new() {
    let entry: ListEntry<i32> = ListEntry::new();
    assert!(entry.next().is_none());
}
