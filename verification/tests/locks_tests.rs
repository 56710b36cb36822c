use concurrencykit::brlock::BrLock;
use concurrencykit::bytelock::ByteLock;
use concurrencykit::cohort::CohortLock;
use concurrencykit::elide::ElideLock;
use concurrencykit::pflock::PfLock;
use concurrencykit::rwcohort::RwCohortLock;
use concurrencykit::rwlock::RwLock;
use concurrencykit::spinlock::{FasLock, TicketLock};
use concurrencykit::swlock::SwLock;
use concurrencykit::tflock::TfLock;

// ---- spinlock: FasLock ----

#[test]
fn test_fas_lock_new() {
    let lock = FasLock::new(42);
    assert!(!lock.is_locked());
}

#[test]
fn test_fas_lock_lock_unlock() {
    let mut lock = FasLock::new(42);

    let guard = lock.lock();
    assert!(lock.is_locked());
    assert_eq!(*lock.data(), 42);
    lock.unlock(guard);

    assert!(!lock.is_locked());
}

#[test]
fn test_fas_lock_try_lock() {
    let mut lock = FasLock::new(42);

    let guard = lock.try_lock();
    assert!(guard.is_some());
    assert!(lock.is_locked());

    let guard2 = lock.try_lock();
    assert!(guard2.is_none());

    lock.unlock(guard.unwrap());
    let guard3 = lock.try_lock();
    assert!(guard3.is_some());
}

#[test]
fn test_fas_lock_modify() {
    let mut lock = FasLock::new(0);

    let guard = lock.lock();
    *lock.data_mut() = 42;
    lock.unlock(guard);

    let guard = lock.lock();
    assert_eq!(*lock.data(), 42);
    lock.unlock(guard);
}

// ---- spinlock: TicketLock ----

#[test]
fn test_ticket_lock_new() {
    let lock = TicketLock::new(42);
    assert!(!lock.is_locked());
}

#[test]
fn test_ticket_lock_lock_unlock() {
    let mut lock = TicketLock::new(42);

    let guard = lock.lock();
    assert!(lock.is_locked());
    assert_eq!(*lock.data(), 42);
    lock.unlock(guard);

    assert!(!lock.is_locked());
}

#[test]
fn test_ticket_lock_try_lock() {
    let mut lock = TicketLock::new(42);

    let guard = lock.try_lock();
    assert!(guard.is_some());

    let guard2 = lock.try_lock();
    assert!(guard2.is_none());

    lock.unlock(guard.unwrap());
    let guard3 = lock.try_lock();
    assert!(guard3.is_some());
}

#[test]
fn test_ticket_lock_modify() {
    let mut lock = TicketLock::new(0);

    let guard = lock.lock();
    *lock.data_mut() = 42;
    lock.unlock(guard);

    let guard = lock.lock();
    assert_eq!(*lock.data(), 42);
    lock.unlock(guard);
}

#[test]
fn test_ticket_lock_serves_in_draw_order() {
    let mut lock = TicketLock::new(());
    let g0 = lock.lock();
    assert!(lock.try_lock().is_none());
    lock.unlock(g0);
    let g1 = lock.lock();
    lock.unlock(g1);
    let g2 = lock.lock();
    lock.unlock(g2);
    assert!(!lock.is_locked());
}

// ---- rwlock ----

#[test]
fn rwlock_test_new() {
    let lock = RwLock::new(42);
    assert!(!lock.is_locked_exclusive());
    assert_eq!(lock.reader_count(), 0);
}

#[test]
fn rwlock_test_read() {
    let mut lock = RwLock::new(42);
    let guard = lock.read();
    assert_eq!(*lock.data(), 42);
    assert_eq!(lock.reader_count(), 1);
    lock.read_unlock(guard);
}

#[test]
fn test_multiple_reads() {
    let mut lock = RwLock::new(42);
    let g1 = lock.read();
    let g2 = lock.read();
    let g3 = lock.read();

    assert_eq!(lock.reader_count(), 3);
    assert_eq!(*lock.data(), 42);
    lock.read_unlock(g1);
    lock.read_unlock(g2);
    lock.read_unlock(g3);
    assert_eq!(lock.reader_count(), 0);
}

#[test]
fn rwlock_test_write() {
    let mut lock = RwLock::new(0);

    let guard = lock.write();
    *lock.data_mut() = 42;
    assert!(lock.is_locked_exclusive());
    lock.write_unlock(guard);

    let guard = lock.read();
    assert_eq!(*lock.data(), 42);
    lock.read_unlock(guard);
}

#[test]
fn test_try_read_while_writing() {
    let mut lock = RwLock::new(42);
    let _write = lock.write();

    assert!(lock.try_read().is_none());
}

#[test]
fn test_try_write_while_reading() {
    let mut lock = RwLock::new(42);
    let _read = lock.read();

    assert!(lock.try_write().is_none());
}

// ---- pflock ----

#[test]
fn pflock_test_new() {
    let mut lock = PfLock::new(42);
    let guard = lock.read();
    assert_eq!(*lock.data(), 42);
    lock.read_unlock(guard);
}

#[test]
fn pflock_test_write() {
    let mut lock = PfLock::new(0);

    let guard = lock.write();
    *lock.data_mut() = 42;
    lock.write_unlock(guard);

    let guard = lock.read();
    assert_eq!(*lock.data(), 42);
    lock.read_unlock(guard);
}

#[test]
fn test_pflock_writer_excludes_readers() {
    let mut lock = PfLock::new(5);
    let w = lock.write();
    assert_eq!(*lock.data(), 5);
    lock.write_unlock(w);
    let r = lock.read();
    assert_eq!(*lock.data(), 5);
    lock.read_unlock(r);
}

// ---- tflock ----

#[test]
fn tflock_test_read() {
    let mut lock = TfLock::new(42);
    let guard = lock.read();
    assert_eq!(*lock.data(), 42);
    lock.read_unlock(guard);
}

#[test]
fn tflock_test_write() {
    let mut lock = TfLock::new(0);
    let guard = lock.write();
    *lock.data_mut() = 42;
    lock.write_unlock(guard);
    let guard = lock.read();
    assert_eq!(*lock.data(), 42);
    lock.read_unlock(guard);
}

// ---- brlock ----

#[test]
fn brlock_test_read() {
    let mut lock = BrLock::new(42);
    let guard = lock.read();
    assert_eq!(*lock.data(), 42);
    lock.read_unlock(guard);
}

#[test]
fn brlock_test_write() {
    let mut lock = BrLock::new(0);
    let guard = lock.write();
    *lock.data_mut() = 42;
    lock.write_unlock(guard);
    let guard = lock.read();
    assert_eq!(*lock.data(), 42);
    lock.read_unlock(guard);
}

// ---- bytelock ----

#[test]
fn bytelock_test_read() {
    let mut lock = ByteLock::new(42);
    let guard = lock.read();
    assert_eq!(*lock.data(), 42);
    lock.read_unlock(guard);
}

#[test]
fn bytelock_test_write() {
    let mut lock = ByteLock::new(0);
    let guard = lock.write();
    *lock.data_mut() = 42;
    lock.write_unlock(guard);
    let guard = lock.read();
    assert_eq!(*lock.data(), 42);
    lock.read_unlock(guard);
}

// ---- swlock ----

#[test]
fn swlock_test_read() {
    let mut lock = SwLock::new(42);
    let guard = lock.read();
    assert_eq!(*lock.data(), 42);
    lock.read_unlock(guard);
}

#[test]
fn swlock_test_write() {
    let mut lock = SwLock::new(0);
    let guard = lock.write();
    *lock.data_mut() = 42;
    lock.write_unlock(guard);
    let guard = lock.read();
    assert_eq!(*lock.data(), 42);
    lock.read_unlock(guard);
}

// ---- cohort ----

#[test]
fn cohort_test_lock_unlock() {
    let mut lock = CohortLock::new(42);

    let guard = lock.lock();
    assert!(lock.is_locked());
    assert_eq!(*lock.data(), 42);
    lock.unlock(guard);

    assert!(!lock.is_locked());
}

#[test]
fn cohort_test_try_lock() {
    let mut lock = CohortLock::new(42);
    let guard = lock.try_lock();
    assert!(guard.is_some());

    let guard2 = lock.try_lock();
    assert!(guard2.is_none());
    lock.unlock(guard.unwrap());
}

// ---- rwcohort ----

#[test]
fn rwcohort_test_read() {
    let mut lock = RwCohortLock::new(42);
    let guard = lock.read();
    assert_eq!(*lock.data(), 42);
    lock.read_unlock(guard);
}

#[test]
fn rwcohort_test_write() {
    let mut lock = RwCohortLock::new(0);
    let guard = lock.write();
    *lock.data_mut() = 42;
    lock.write_unlock(guard);
    let guard = lock.read();
    assert_eq!(*lock.data(), 42);
    lock.read_unlock(guard);
}

// ---- elide ----

#[test]
fn elide_test_new() {
    let lock = ElideLock::new();
    assert!(!lock.is_locked());
}

#[test]
fn elide_test_lock_unlock() {
    let mut lock = ElideLock::new();
    let guard = lock.lock();
    assert!(lock.is_locked());
    lock.unlock(guard);
    assert!(!lock.is_locked());
}

#[test]
fn elide_test_try_lock() {
    let mut lock = ElideLock::new();
    let guard = lock.try_lock();
    assert!(guard.is_some());

    let guard2 = lock.try_lock();
    assert!(guard2.is_none());
    lock.unlock(guard.unwrap());
}

#[test]
fn test_elide_unavailable_here() {
    assert!(!concurrencykit::elide::is_available());
    let config: concurrencykit::elide::ElideConfig = Default::default();
    assert_eq!(config.max_retries, 3);
    assert!(!config.enabled);
}
