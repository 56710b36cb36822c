use concurrencykit::barrier::{Barrier, CombiningBarrier, SenseBarrier};
use concurrencykit::bitmap::{Bitmap, BITS_PER_WORD};
use concurrencykit::ec::{Condvar, EventCount};
use concurrencykit::sequence::SeqLock;

// ---- sequence ----

#[test]
fn test_init_sets_zero() {
    let seq = SeqLock::new();
    assert_eq!(seq.raw_sequence(), 0);
}

#[test]
fn test_init_method() {
    let mut seq = SeqLock::new();
    seq.write_begin();
    seq.write_end();
    assert_eq!(seq.raw_sequence(), 2);
    seq.init();
    assert_eq!(seq.raw_sequence(), 0);
}

#[test]
fn test_read_returns_even() {
    let seq = SeqLock::new();
    let version = seq.read_begin();
    assert_eq!(version & 1, 0);
}

#[test]
fn test_retry_false_no_write() {
    let seq = SeqLock::new();
    let version = seq.read_begin();
    assert!(!seq.read_retry(version));
}

#[test]
fn test_retry_true_after_write() {
    let mut seq = SeqLock::new();
    let version = seq.read_begin();

    seq.write_begin();
    seq.write_end();

    assert!(seq.read_retry(version));
    assert_eq!(seq.raw_sequence(), version + 2);
}

#[test]
fn test_write_makes_odd_then_even() {
    let mut seq = SeqLock::new();
    assert_eq!(seq.raw_sequence(), 0);

    seq.write_begin();
    let mid = seq.raw_sequence();
    assert_eq!(mid, 1);

    seq.write_end();
    assert_eq!(seq.raw_sequence(), 2);
}

#[test]
fn test_read_closure() {
    let seq = SeqLock::new();
    let data = 42u64;

    let value = seq.read(|| data);
    assert_eq!(value, 42);
}

#[test]
fn test_write_closure() {
    let mut seq = SeqLock::new();
    let mut data = 0;

    seq.write(|| {
        data = 100;
    });

    assert_eq!(data, 100);
    assert_eq!(seq.raw_sequence(), 2);
}

#[test]
fn test_multiple_writes() {
    let mut seq = SeqLock::new();

    for i in 0..10 {
        seq.write_begin();
        seq.write_end();
        assert_eq!(seq.raw_sequence(), (i + 1) * 2);
    }
}

#[test]
fn sequence_test_default() {
    let seq: SeqLock = Default::default();
    assert_eq!(seq.raw_sequence(), 0);
}

#[test]
fn test_read_stable() {
    let seq = SeqLock::new();

    for _ in 0..100 {
        let version = seq.read_begin();
        assert!(!seq.read_retry(version));
    }
}

#[test]
fn test_version_increases() {
    let mut seq = SeqLock::new();

    let v1 = seq.read_begin();
    seq.write_begin();
    seq.write_end();
    let v2 = seq.read_begin();

    assert_eq!(v2, v1 + 2);
}

#[test]
fn test_seqlock_write_detection_scenario() {
    let mut seq = SeqLock::new();
    let v1 = seq.read_begin();
    assert_eq!(v1, 0);
    seq.write_begin();
    seq.write_end();
    assert!(seq.read_retry(v1));
    let v2 = seq.read_begin();
    assert_eq!(v2, 2);
    assert!(!seq.read_retry(v2));
}

#[test]
fn test_seqlock_reader_observes_post_write_state() {
    let mut seq = SeqLock::new();
    let mut data = 1u64;
    seq.write(|| {
        data = 7;
    });
    let observed = seq.read(|| data);
    assert_eq!(observed, 7);
}

// ---- ec ----

#[test]
fn test_event_count_new() {
    let ec = EventCount::new();
    assert_eq!(ec.get(), 0);
    assert_eq!(ec.waiters(), 0);
}

#[test]
fn test_notify() {
    let mut ec = EventCount::new();
    let epoch1 = ec.get();
    ec.notify_one();
    let epoch2 = ec.get();
    assert!(epoch2 > epoch1);
    assert_eq!(epoch2, epoch1 + 1);
}

#[test]
fn test_prepare_cancel() {
    let mut ec = EventCount::new();

    let epoch = ec.prepare_wait();
    assert_eq!(ec.waiters(), 1);

    ec.cancel_wait();
    assert_eq!(ec.waiters(), 0);
    assert_eq!(ec.get(), epoch);
}

#[test]
fn test_condvar() {
    let mut cv = Condvar::new();
    let mut done = false;

    cv.wait(|| {
        done = true;
        done
    });

    assert!(done);
}

#[test]
fn test_event_count_wait_after_notify() {
    let mut ec = EventCount::new();
    let epoch = ec.prepare_wait();
    ec.notify_all();
    ec.wait(epoch);
    assert_eq!(ec.waiters(), 0);
    assert_eq!(ec.get(), epoch + 1);
}

// ---- barrier ----

#[test]
fn test_barrier_single_thread() {
    let mut barrier = Barrier::new(1);
    assert!(barrier.wait());
}

#[test]
fn test_sense_barrier_single() {
    let mut barrier = SenseBarrier::new(1);
    let mut sense = 0;
    assert!(barrier.wait(&mut sense));
}

#[test]
fn test_combining_barrier_single() {
    let mut barrier = CombiningBarrier::new(1);
    assert!(barrier.wait(0));
}

#[test]
fn test_barrier_reuse_after_reset() {
    let mut barrier = Barrier::new(1);
    assert!(barrier.wait());
    barrier.reset();
    assert!(barrier.wait());
}

// ---- bitmap ----

#[test]
fn bitmap_test_new() {
    let bm: Bitmap<2> = Bitmap::new();
    assert_eq!(bm.bits(), 2 * BITS_PER_WORD);
}

#[test]
fn test_get_set_clear() {
    let mut bm: Bitmap<2> = Bitmap::new();

    assert!(!bm.get(0));
    assert!(!bm.set(0));
    assert!(bm.get(0));
    assert!(bm.clear(0));
    assert!(!bm.get(0));
}

#[test]
fn test_toggle() {
    let mut bm: Bitmap<1> = Bitmap::new();

    assert!(!bm.toggle(5));
    assert!(bm.get(5));
    assert!(bm.toggle(5));
    assert!(!bm.get(5));
}

#[test]
fn test_popcount() {
    let mut bm: Bitmap<1> = Bitmap::new();

    assert_eq!(bm.popcount(), 0);
    bm.set(0);
    bm.set(5);
    bm.set(10);
    assert_eq!(bm.popcount(), 3);
}

#[test]
fn test_find_first_set() {
    let mut bm: Bitmap<2> = Bitmap::new();

    assert!(bm.find_first_set().is_none());
    bm.set(42);
    assert_eq!(bm.find_first_set(), Some(42));
    bm.set(10);
    assert_eq!(bm.find_first_set(), Some(10));
}

#[test]
fn test_find_first_clear() {
    let mut bm: Bitmap<1> = Bitmap::new();
    bm.set_all();

    assert!(bm.find_first_clear().is_none());
    bm.clear(42);
    assert_eq!(bm.find_first_clear(), Some(42));
}

#[test]
fn test_clear_set_all() {
    let mut bm: Bitmap<1> = Bitmap::new();

    bm.set_all();
    assert_eq!(bm.popcount(), BITS_PER_WORD);

    bm.clear_all();
    assert_eq!(bm.popcount(), 0);
}

#[test]
fn test_bitmap_test_and_ops() {
    let mut bm: Bitmap<1> = Bitmap::new();
    assert!(!bm.test_and_set(3));
    assert!(bm.test_and_set(3));
    assert!(bm.test_and_clear(3));
    assert!(!bm.test_and_clear(3));
}

#[test]
fn test_bitmap_out_of_range() {
    let mut bm: Bitmap<1> = Bitmap::new();
    assert!(!bm.get(64));
    assert!(!bm.set(64));
    assert!(!bm.get(64));
    assert!(!bm.clear(200));
    assert!(!bm.toggle(200));
}

#[test]
fn test_bitmap_second_word() {
    let mut bm: Bitmap<2> = Bitmap::new();
    assert!(!bm.set(100));
    assert!(bm.get(100));
    assert!(!bm.get(36));
    assert_eq!(bm.popcount(), 1);
}
