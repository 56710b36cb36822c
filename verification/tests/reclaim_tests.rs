use concurrencykit::epoch::Epoch;
use concurrencykit::hp::HazardPointers;
use concurrencykit::hp_fifo::{FifoEntry, HpFifo};
use concurrencykit::hp_stack::HpStack;
use concurrencykit::stack::StackEntry;

// ---- epoch ----

#[test]
fn epoch_test_new() {
    let mut epoch = Epoch::new();
    let guard = epoch.register();
    guard.enter(&mut epoch);
    guard.leave(&mut epoch);
}

#[test]
fn test_defer_free() {
    let mut epoch = Epoch::new();
    let guard = epoch.register();
    guard.enter(&mut epoch);

    guard.defer_free(&mut epoch, 0x1000);

    guard.leave(&mut epoch);
}

#[test]
fn test_epoch_reclaim_after_grace_period() {
    let mut epoch = Epoch::new();
    let guard = epoch.register();

    guard.enter(&mut epoch);
    guard.defer_free(&mut epoch, 0x2000);
    guard.leave(&mut epoch);

    assert!(epoch.try_advance());
    assert!(epoch.try_advance());

    guard.enter(&mut epoch);
    let freed = guard.try_reclaim(&mut epoch);
    assert_eq!(freed, vec![0x2000]);
    guard.leave(&mut epoch);
}

#[test]
fn test_epoch_pinned_record_blocks_advance() {
    let mut epoch = Epoch::new();
    let worker = epoch.register();
    let pinned = epoch.register();

    pinned.enter(&mut epoch);
    worker.enter(&mut epoch);
    worker.defer_free(&mut epoch, 0x3000);
    worker.leave(&mut epoch);

    assert!(epoch.try_advance());
    assert!(!epoch.try_advance());

    worker.enter(&mut epoch);
    let freed = worker.try_reclaim(&mut epoch);
    assert!(freed.is_empty());
    worker.leave(&mut epoch);
    pinned.leave(&mut epoch);
}

#[test]
fn test_epoch_deferred_stays_while_recent() {
    let mut epoch = Epoch::new();
    let guard = epoch.register();
    guard.enter(&mut epoch);
    guard.defer_free(&mut epoch, 0x4000);
    let freed = guard.try_reclaim(&mut epoch);
    assert!(freed.is_empty());
    guard.leave(&mut epoch);
}

// ---- hp ----

#[test]
fn hp_test_new() {
    let mut hp = HazardPointers::new();
    let guard = hp.register();
    guard.clear_all(&mut hp);
}

#[test]
fn test_protect() {
    let mut hp = HazardPointers::new();
    let guard = hp.register();

    let ptr = 0x5000;

    guard.protect(&mut hp, 0, ptr);
    guard.clear(&mut hp, 0);
}

#[test]
fn test_retire() {
    let mut hp = HazardPointers::new();
    let guard = hp.register();

    let ptr = 0x6000;

    guard.retire(&mut hp, ptr);

    guard.scan(&mut hp);
}

#[test]
fn test_hp_protect_blocks_scan() {
    let mut hp = HazardPointers::new();
    let reader = hp.register();
    let writer = hp.register();

    let addr = 0x7000;
    assert_eq!(reader.protect(&mut hp, 0, addr), Some(0));

    let early = writer.retire(&mut hp, addr);
    assert!(early.is_empty());
    let freed = writer.scan(&mut hp);
    assert!(freed.is_empty());

    reader.clear(&mut hp, 0);
    let freed_after = writer.scan(&mut hp);
    assert_eq!(freed_after, vec![addr]);
    let freed_again = writer.scan(&mut hp);
    assert!(freed_again.is_empty());
}

#[test]
fn test_hp_scan_frees_unprotected_once() {
    let mut hp = HazardPointers::new();
    let guard = hp.register();

    guard.retire(&mut hp, 0x8000);
    let freed = guard.scan(&mut hp);
    assert_eq!(freed, vec![0x8000]);
    let freed_again = guard.scan(&mut hp);
    assert!(freed_again.is_empty());
}

#[test]
fn test_hp_retire_threshold_triggers_scan() {
    let mut hp = HazardPointers::new();
    let guard = hp.register();

    let mut freed_total = 0;
    for i in 0..8u32 {
        let freed = guard.retire(&mut hp, 0x9000 + i as usize);
        freed_total += freed.len();
    }
    assert_eq!(freed_total, 8);
}

#[test]
fn test_hp_deactivate_releases_protection() {
    let mut hp = HazardPointers::new();
    let reader = hp.register();
    let writer = hp.register();
    let addr = 0xC000;
    reader.protect(&mut hp, 0, addr);
    writer.retire(&mut hp, addr);
    assert!(writer.scan(&mut hp).is_empty());
    reader.deactivate(&mut hp);
    assert_eq!(writer.scan(&mut hp), vec![addr]);
}

#[test]
fn test_hp_out_of_range_slot() {
    let mut hp = HazardPointers::new();
    let guard = hp.register();
    assert_eq!(guard.protect(&mut hp, 99, 0xA000), None);
}

// ---- hp_stack ----

#[test]
fn hp_stack_test_new() {
    let stack: HpStack<i32> = HpStack::new();
    assert!(stack.is_empty());
}

#[test]
fn hp_stack_test_push_pop() {
    let mut stack: HpStack<i32> = HpStack::new();
    let guard = stack.register();

    guard.push(&mut stack, StackEntry::new(42));
    assert!(!stack.is_empty());

    let popped = guard.pop(&mut stack).unwrap();
    assert_eq!(*popped.data(), 42);
    assert!(stack.is_empty());
}

#[test]
fn test_hp_stack_retire_popped_address() {
    let mut stack: HpStack<i32> = HpStack::new();
    let guard = stack.register();
    guard.push(&mut stack, StackEntry::new(5));
    let entry = guard.pop(&mut stack).unwrap();
    assert_eq!(*entry.data(), 5);
    let freed = guard.retire(&mut stack, 0xB000);
    assert!(freed.is_empty());
}

// ---- hp_fifo ----

#[test]
fn hp_fifo_test_new() {
    let fifo: HpFifo<i32> = HpFifo::new();
    assert!(fifo.is_empty());
}

#[test]
fn hp_fifo_test_enqueue_dequeue() {
    let mut fifo: HpFifo<i32> = HpFifo::new();
    let guard = fifo.register();

    guard.enqueue(&mut fifo, FifoEntry::new(42));
    assert!(!fifo.is_empty());

    let dequeued = guard.dequeue(&mut fifo).unwrap();
    assert_eq!(*dequeued.data(), 42);
    assert!(fifo.is_empty());
}

#[test]
fn test_hp_fifo_order() {
    let mut fifo: HpFifo<i32> = HpFifo::new();
    let guard = fifo.register();
    guard.enqueue(&mut fifo, FifoEntry::new(1));
    guard.enqueue(&mut fifo, FifoEntry::new(2));
    guard.enqueue(&mut fifo, FifoEntry::new(3));
    assert_eq!(*guard.dequeue(&mut fifo).unwrap().data(), 1);
    assert_eq!(*guard.dequeue(&mut fifo).unwrap().data(), 2);
    assert_eq!(*guard.dequeue(&mut fifo).unwrap().data(), 3);
    assert!(guard.dequeue(&mut fifo).is_none());
}
