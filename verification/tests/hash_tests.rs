use concurrencykit::hs::{AHasher, HashSet};
use concurrencykit::ht::HashTable;
use concurrencykit::rhs::RobinHoodSet;

// ---- hs ----

#[test]
fn hs_test_new() {
    let set: HashSet = HashSet::new();
    assert!(set.is_empty());
}

#[test]
fn hs_test_insert_contains() {
    let mut set: HashSet = HashSet::new();
    assert!(set.insert(42));
    assert!(set.contains(&42));
    assert!(!set.contains(&99));
}

#[test]
fn hs_test_remove() {
    let mut set: HashSet = HashSet::new();
    set.insert(42);
    assert!(set.remove(&42));
    assert!(!set.contains(&42));
}

#[test]
fn test_hs_len_tracks_occupancy() {
    let mut set: HashSet = HashSet::new();
    assert_eq!(set.len(), 0);
    assert!(set.insert(7));
    assert_eq!(set.len(), 1);
    assert!(!set.insert(7));
    assert_eq!(set.len(), 1);
    assert!(set.remove(&7));
    assert_eq!(set.len(), 0);
    assert!(!set.remove(&7));
}

#[test]
fn test_hs_keeps_colliding_values() {
    // 1 and 17 share a home bucket among sixteen: the byte fold maps a
    // small key x to a bucket that only depends on x modulo 16. The probe
    // walk keeps both.
    let mut set: HashSet = HashSet::new();
    assert!(set.insert(1));
    assert!(set.insert(17));
    assert!(set.contains(&17));
    assert!(set.contains(&1));
    assert_eq!(set.len(), 2);
    assert!(set.remove(&17));
    assert!(set.contains(&1));
    assert_eq!(set.len(), 1);
}

#[test]
fn test_hs_with_capacity() {
    let set = HashSet::with_capacity(100);
    assert!(set.is_empty());
    assert!(!set.contains(&1));
}

#[test]
fn test_ahasher_folds_bytes() {
    let mut h = AHasher::new();
    h.write(&[1]);
    assert_eq!(h.finish(), 1);
    let mut h2 = AHasher::new();
    h2.write(&[1, 2]);
    assert_eq!(h2.finish(), 31 + 2);
    let mut h3 = AHasher::new();
    h3.write(&[1]);
    h3.write(&[2]);
    assert_eq!(h3.finish(), h2.finish());
}

// ---- ht ----

#[test]
fn ht_test_new() {
    let table: HashTable<i32> = HashTable::new();
    assert!(table.is_empty());
}

#[test]
fn test_insert_get() {
    let mut table: HashTable<&str> = HashTable::new();
    table.insert(1, "one");
    assert_eq!(table.get(&1), Some(&"one"));
    assert_eq!(table.get(&2), None);
}

#[test]
fn ht_test_remove() {
    let mut table: HashTable<i32> = HashTable::new();
    table.insert(42, 100);
    assert_eq!(table.remove(&42), Some(100));
    assert!(!table.contains_key(&42));
}

#[test]
fn test_ht_replace_same_key() {
    let mut table: HashTable<i32> = HashTable::new();
    assert_eq!(table.insert(5, 10), None);
    assert_eq!(table.len(), 1);
    assert_eq!(table.insert(5, 20), Some(10));
    assert_eq!(table.len(), 1);
    assert_eq!(table.get(&5), Some(&20));
}

#[test]
fn test_ht_keeps_colliding_keys() {
    // The colliding pair again: the probe walk keeps both entries.
    let mut table: HashTable<i32> = HashTable::new();
    assert_eq!(table.insert(1, 10), None);
    assert_eq!(table.insert(17, 20), None);
    assert_eq!(table.get(&17), Some(&20));
    assert_eq!(table.get(&1), Some(&10));
    assert_eq!(table.len(), 2);
    assert_eq!(table.remove(&17), Some(20));
    assert_eq!(table.get(&1), Some(&10));
    assert_eq!(table.len(), 1);
}

#[test]
fn test_ht_full_table_drops_fresh_pair() {
    let mut table: HashTable<u64> = HashTable::new();
    for k in 0..16u64 {
        assert_eq!(table.insert(k, k + 100), None);
    }
    assert_eq!(table.len(), 16);
    assert_eq!(table.insert(1000, 0), None);
    assert_eq!(table.get(&1000), None);
    assert_eq!(table.len(), 16);
    assert_eq!(table.insert(3, 999), Some(103));
    assert_eq!(table.len(), 16);
}

// ---- rhs ----

#[test]
fn rhs_test_new() {
    let set: RobinHoodSet = RobinHoodSet::new();
    assert!(set.is_empty());
}

#[test]
fn rhs_test_insert_contains() {
    let mut set: RobinHoodSet = RobinHoodSet::new();
    assert!(set.insert(42));
    assert!(set.contains(&42));
}

#[test]
fn rhs_test_remove() {
    let mut set: RobinHoodSet = RobinHoodSet::new();
    set.insert(42);
    assert!(set.remove(&42));
    assert!(!set.contains(&42));
}

#[test]
fn test_rhs_keeps_colliding_keys() {
    // The same colliding pair as in the other hash containers: the probe
    // walk keeps both.
    let mut set: RobinHoodSet = RobinHoodSet::new();
    assert!(set.insert(1));
    assert!(set.insert(17));
    assert!(set.contains(&1));
    assert!(set.contains(&17));
    assert_eq!(set.len(), 2);
}

#[test]
fn test_rhs_probes_past_collisions() {
    let mut set: RobinHoodSet = RobinHoodSet::new();
    let mut inserted = 0u64;
    // More values than buckets would hold without probing past their
    // home slots; the walk must still find each one.
    for v in 0..12u64 {
        assert!(set.insert(v));
        inserted += 1;
    }
    assert_eq!(set.len() as u64, inserted);
    for v in 0..12u64 {
        assert!(set.contains(&v));
    }
    assert!(!set.contains(&99));
}

#[test]
fn test_rhs_full_table_rejects() {
    let mut set: RobinHoodSet = RobinHoodSet::new();
    for v in 0..16u64 {
        assert!(set.insert(v));
    }
    assert_eq!(set.len(), 16);
    assert!(!set.insert(1000));
    assert_eq!(set.len(), 16);
}
