use concurrencykit::backoff::{eb, Backoff, BackoffT, BACKOFF_CEILING, BACKOFF_INITIAL};
use concurrencykit::cc::{ctz, ffs, ffsl, ffsll, likely, popcount, unlikely};
use concurrencykit::malloc::{AllocError, Allocator, AllocatorExt};
use concurrencykit::pr;
use concurrencykit::pr::u32_ops::{self, AtomicU32};
use concurrencykit::pr::u64_ops::{self, AtomicU64};

// ---- pr ----

#[test]
fn test_load_store_single_thread() {
    let mut var = AtomicU64::new(0);
    u64_ops::store(&mut var, 0x123456789ABCDEF0);
    let loaded = u64_ops::load(&var);
    assert_eq!(loaded, 0x123456789ABCDEF0);
}

#[test]
fn test_cas_success() {
    let mut var = AtomicU64::new(42);
    let result = u64_ops::cas(&mut var, 42, 100);
    assert!(result);
    assert_eq!(u64_ops::load(&var), 100);
}

#[test]
fn test_cas_failure() {
    let mut var = AtomicU64::new(42);
    let result = u64_ops::cas(&mut var, 99, 100);
    assert!(!result);
    assert_eq!(u64_ops::load(&var), 42);
}

#[test]
fn test_cas_value_returns_old() {
    let mut var = AtomicU64::new(42);
    let (success, old) = u64_ops::cas_value(&mut var, 99, 100);
    assert!(!success);
    assert_eq!(old, 42);
    assert_eq!(u64_ops::load(&var), 42);
}

#[test]
fn test_cas_value_success() {
    let mut var = AtomicU64::new(42);
    let (success, old) = u64_ops::cas_value(&mut var, 42, 100);
    assert!(success);
    assert_eq!(old, 42);
    assert_eq!(u64_ops::load(&var), 100);
}

#[test]
fn test_faa_basic() {
    let mut var = AtomicU64::new(100);
    let result = u64_ops::faa(&mut var, 50);
    assert_eq!(result, 100);
    assert_eq!(u64_ops::load(&var), 150);
}

#[test]
fn test_faa_negative() {
    let mut var = AtomicU64::new(100);
    let result = u64_ops::faa(&mut var, (-30i64) as u64);
    assert_eq!(result, 100);
    assert_eq!(u64_ops::load(&var), 70);
}

#[test]
fn test_fas_basic() {
    let mut var = AtomicU64::new(100);
    let result = u64_ops::fas(&mut var, 999);
    assert_eq!(result, 100);
    assert_eq!(u64_ops::load(&var), 999);
}

#[test]
fn test_inc_dec_basic() {
    let mut var = AtomicU32::new(100);
    u32_ops::inc(&mut var);
    u32_ops::inc(&mut var);
    u32_ops::dec(&mut var);
    assert_eq!(u32_ops::load(&var), 101);
}

#[test]
fn test_binary_ops() {
    let mut var = AtomicU32::new(0xFF00FF00);
    u32_ops::and(&mut var, 0xF0F0F0F0);
    assert_eq!(u32_ops::load(&var), 0xF000F000);
    u32_ops::or(&mut var, 0x0000000F);
    assert_eq!(u32_ops::load(&var), 0xF000F00F);
    u32_ops::xor(&mut var, 0x000000F0);
    assert_eq!(u32_ops::load(&var), 0xF000F0FF);
}

#[test]
fn test_bts_btr_btc() {
    let mut var = AtomicU32::new(0);

    let old1 = u32_ops::bts(&mut var, 5);
    assert!(!old1);
    assert_eq!(u32_ops::load(&var), 32);

    let old2 = u32_ops::bts(&mut var, 5);
    assert!(old2);

    let old3 = u32_ops::btr(&mut var, 5);
    assert!(old3);
    assert_eq!(u32_ops::load(&var), 0);

    let old4 = u32_ops::btc(&mut var, 3);
    assert!(!old4);
    assert_eq!(u32_ops::load(&var), 8);
}

#[test]
fn test_overflow_behavior() {
    let mut var = AtomicU32::new(u32::MAX);
    u32_ops::inc(&mut var);
    assert_eq!(u32_ops::load(&var), 0);
}

#[test]
fn test_dec_is_zero() {
    let mut var = AtomicU32::new(2);
    let result1 = u32_ops::dec_is_zero(&mut var);
    assert!(!result1);
    let result2 = u32_ops::dec_is_zero(&mut var);
    assert!(result2);
    assert_eq!(u32_ops::load(&var), 0);
}

#[test]
fn test_stall() {
    pr::stall();
}

#[test]
fn test_fences() {
    pr::barrier();
    pr::fence_acquire();
    pr::fence_release();
    pr::fence_acqrel();
    pr::fence_memory();
    pr::fence_load();
    pr::fence_store();
    pr::fence_store_load();
    pr::fence_load_store();
    pr::fence_atomic();
    pr::fence_lock();
    pr::fence_unlock();
}

#[test]
fn test_not() {
    let mut var = AtomicU32::new(0xFF00FF00);
    u32_ops::not(&mut var);
    assert_eq!(u32_ops::load(&var), 0x00FF00FF);
}

#[test]
fn test_inc_is_zero() {
    let mut var = AtomicU32::new(u32::MAX);
    let result = u32_ops::inc_is_zero(&mut var);
    assert!(result);
    assert_eq!(u32_ops::load(&var), 0);
}

#[test]
fn test_cas_weak() {
    let mut var = AtomicU64::new(42);
    let mut attempts = 0;
    while !u64_ops::cas_weak(&mut var, 42, 100) {
        attempts += 1;
        if attempts > 100 {
            panic!("Weak CAS failed too many times");
        }
    }
    assert_eq!(u64_ops::load(&var), 100);
}

#[test]
fn test_neg_two_complement() {
    let mut var = AtomicU32::new(5);
    u32_ops::neg(&mut var);
    assert_eq!(u32_ops::load(&var), 5u32.wrapping_neg());
    let mut var64 = AtomicU64::new(0);
    u64_ops::neg(&mut var64);
    assert_eq!(u64_ops::load(&var64), 0);
}

// ---- cc ----

#[test]
fn test_ffs_zero() {
    assert_eq!(ffs(0), 0);
}

#[test]
fn test_ffs_bit_zero() {
    assert_eq!(ffs(1), 1);
}

#[test]
fn test_ffs_bit_one() {
    assert_eq!(ffs(2), 2);
}

#[test]
fn test_ffs_high_bit() {
    assert_eq!(ffs(0x80000000), 32);
}

#[test]
fn test_ffs_multiple_bits() {
    assert_eq!(ffs(0b11110000), 5);
}

#[test]
fn test_ffsl_zero() {
    assert_eq!(ffsl(0), 0);
}

#[test]
fn test_ffsl_high_bit_64() {
    assert_eq!(ffsl(0x8000000000000000usize), 64);
}

#[test]
fn test_ffsll_zero() {
    assert_eq!(ffsll(0), 0);
}

#[test]
fn test_ffsll_high_bit() {
    assert_eq!(ffsll(0x8000000000000000u64), 64);
}

#[test]
fn test_ctz_zero() {
    assert_eq!(ctz(0), 0);
}

#[test]
fn test_ctz_bit_zero() {
    assert_eq!(ctz(1), 0);
}

#[test]
fn test_ctz_high_bit() {
    assert_eq!(ctz(0x80000000), 31);
}

#[test]
fn test_ctz_trailing_zeros() {
    assert_eq!(ctz(0b11110000), 4);
}

#[test]
fn test_popcount_zero() {
    assert_eq!(popcount(0), 0);
}

#[test]
fn test_popcount_one() {
    assert_eq!(popcount(1), 1);
}

#[test]
fn test_popcount_all_bits() {
    assert_eq!(popcount(0xFFFFFFFF), 32);
}

#[test]
fn test_popcount_pattern() {
    assert_eq!(popcount(0b10101010), 4);
}

#[test]
fn test_likely_identity() {
    assert!(likely(true));
    assert!(!likely(false));
}

#[test]
fn test_unlikely_identity() {
    assert!(unlikely(true));
    assert!(!unlikely(false));
}

#[test]
fn test_ffs_all_single_bits() {
    for i in 0..32 {
        assert_eq!(ffs(1u32 << i), (i + 1) as i32);
    }
}

#[test]
fn test_ctz_all_single_bits() {
    for i in 0..32 {
        assert_eq!(ctz(1u32 << i), i as i32);
    }
}

#[test]
fn test_popcount_powers_of_two() {
    for i in 0..32 {
        assert_eq!(popcount(1u32 << i), 1);
    }
}

// ---- backoff ----

#[test]
fn test_initialization() {
    let backoff = Backoff::new();
    assert_eq!(backoff.value(), 512);
}

#[test]
fn test_single_backoff() {
    let mut backoff = Backoff::new();
    backoff.spin();
    assert_eq!(backoff.value(), 1024);
}

#[test]
fn test_exponential_growth() {
    let mut backoff = Backoff::new();

    backoff.spin();
    assert_eq!(backoff.value(), 1024);

    backoff.spin();
    assert_eq!(backoff.value(), 2048);

    backoff.spin();
    assert_eq!(backoff.value(), 4096);

    backoff.spin();
    assert_eq!(backoff.value(), 8192);

    backoff.spin();
    assert_eq!(backoff.value(), 16384);
}

#[test]
fn test_ceiling_reached() {
    let mut backoff = Backoff::with_initial(BACKOFF_CEILING);
    backoff.spin();
    assert_eq!(backoff.value(), BACKOFF_CEILING);
}

#[test]
fn test_ceiling_approach() {
    let mut backoff = Backoff::new();
    let mut prev_value = backoff.value();

    for _ in 0..30 {
        backoff.spin();
        if backoff.value() == prev_value {
            break;
        }
        prev_value = backoff.value();
    }

    assert!(backoff.value() >= BACKOFF_CEILING);
}

#[test]
fn test_small_initial_value() {
    let mut backoff = Backoff::with_initial(1);
    backoff.spin();
    assert_eq!(backoff.value(), 2);
}

#[test]
fn test_zero_value_behavior() {
    let mut backoff = Backoff::with_initial(0);
    backoff.spin();
    assert_eq!(backoff.value(), 0);
}

#[test]
fn test_delay_occurs() {
    let mut backoff = Backoff::with_initial(10);
    backoff.spin();
}

#[test]
fn test_eb_function() {
    let mut ceiling: BackoffT = BACKOFF_INITIAL;
    eb(&mut ceiling);
    assert_eq!(ceiling, 1024);
}

#[test]
fn test_reset() {
    let mut backoff = Backoff::new();
    backoff.spin();
    backoff.spin();
    assert!(backoff.value() > BACKOFF_INITIAL);
    backoff.reset();
    assert_eq!(backoff.value(), BACKOFF_INITIAL);
}

#[test]
fn backoff_test_default() {
    let backoff: Backoff = Default::default();
    assert_eq!(backoff.value(), BACKOFF_INITIAL);
}

#[test]
fn test_spin_once() {
    let backoff = Backoff::with_initial(10);
    backoff.spin_once();
    assert_eq!(backoff.value(), 10);
}

#[test]
fn test_reset_spin_reset_initial_state() {
    let mut backoff = Backoff::with_initial(77);
    backoff.reset();
    backoff.spin();
    backoff.reset();
    assert_eq!(backoff.value(), BACKOFF_INITIAL);
}

// ---- malloc ----

struct MockAllocator {}

impl MockAllocator {
    fn new() -> Self {
        MockAllocator {}
    }
}

impl Allocator for MockAllocator {
    fn malloc(&mut self, _size: usize) -> Result<usize, AllocError> {
        Err(AllocError::OutOfMemory)
    }

    fn realloc(
        &mut self,
        _ptr: usize,
        _old_size: usize,
        _new_size: usize,
        may_move: bool,
    ) -> Result<usize, AllocError> {
        if !may_move {
            return Err(AllocError::CannotResizeInPlace);
        }
        Err(AllocError::OutOfMemory)
    }

    fn free(&mut self, _ptr: usize, _size: usize, _defer: bool) {}
}

#[test]
fn test_trait_definition() {
    let _alloc = MockAllocator::new();
}

#[test]
fn test_malloc_returns_result() {
    let mut alloc = MockAllocator::new();
    let result = alloc.malloc(1024);
    assert!(result.is_err());
}

#[test]
fn test_realloc_may_move_true() {
    let mut alloc = MockAllocator::new();
    let ptr = 8usize;
    let result = alloc.realloc(ptr, 16, 1024, true);
    assert!(result.is_err());
    assert_eq!(result.unwrap_err(), AllocError::OutOfMemory);
}

#[test]
fn test_realloc_may_move_false() {
    let mut alloc = MockAllocator::new();
    let ptr = 8usize;
    let result = alloc.realloc(ptr, 16, 1024, false);
    assert!(result.is_err());
    assert_eq!(result.unwrap_err(), AllocError::CannotResizeInPlace);
}

#[test]
fn test_free_accepts_size() {
    let mut alloc = MockAllocator::new();
    alloc.free(8, 1024, false);
}

#[test]
fn test_free_defer_true() {
    let mut alloc = MockAllocator::new();
    alloc.free(8, 1024, true);
}

#[test]
fn test_free_defer_false() {
    let mut alloc = MockAllocator::new();
    alloc.free(8, 1024, false);
}

#[test]
fn test_zero_size_allocation() {
    let mut alloc = MockAllocator::new();
    let result = alloc.malloc(0);
    assert!(result.is_err() || result.is_ok());
}

#[test]
fn test_alloc_error_eq() {
    assert_eq!(AllocError::OutOfMemory, AllocError::OutOfMemory);
    assert_eq!(AllocError::CannotResizeInPlace, AllocError::CannotResizeInPlace);
    assert_ne!(AllocError::OutOfMemory, AllocError::CannotResizeInPlace);
}

#[test]
fn test_allocator_ext_alloc() {
    let mut alloc = MockAllocator::new();
    let result = alloc.alloc_array(4, 1);
    assert!(result.is_err());
}

#[test]
fn test_allocator_ext_alloc_array() {
    let mut alloc = MockAllocator::new();
    let result = alloc.alloc_array(4, 10);
    assert!(result.is_err());
}

#[test]
fn test_allocator_ext_alloc_array_overflow() {
    let mut alloc = MockAllocator::new();
    let result = alloc.alloc_array(8, usize::MAX);
    assert!(result.is_err());
    assert_eq!(result.unwrap_err(), AllocError::OutOfMemory);
}

#[test]
fn test_global_allocator_bump() {
    let mut alloc = concurrencykit::malloc::GlobalAllocator::new();
    let a = alloc.malloc(16).unwrap();
    let b = alloc.malloc(0).unwrap();
    let c = alloc.malloc(8).unwrap();
    assert!(a > 0);
    assert_eq!(b, a + 16);
    assert_eq!(c, b);
    assert!(alloc.realloc(a, 16, 32, false).is_err());
    assert!(alloc.realloc(a, 16, 32, true).is_ok());
    alloc.free(a, 16, false);
}
