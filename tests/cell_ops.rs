use atomic_int::cell::{compare_step, AtomicCell, NoSignalMask, SignalMask};
use core::sync::atomic::Ordering;
use std::sync::atomic::AtomicUsize;

#[test]
fn fetch_add_u8_wraps() {
    let c: AtomicCell<u8> = AtomicCell::new(250);
    assert_eq!(c.fetch_add(10, Ordering::SeqCst), 250);
    assert_eq!(c.load(Ordering::SeqCst), 4);
}

#[test]
fn fetch_sub_i8_wraps() {
    let c: AtomicCell<i8> = AtomicCell::new(-128);
    assert_eq!(c.fetch_sub(1, Ordering::Relaxed), -128);
    assert_eq!(c.load(Ordering::Relaxed), 127);
}

#[test]
fn fetch_add_u128_wraps() {
    let c: AtomicCell<u128> = AtomicCell::new(u128::MAX);
    assert_eq!(c.fetch_add(2, Ordering::AcqRel), u128::MAX);
    assert_eq!(c.into_inner(), 1);
}

#[test]
fn bitwise_ops() {
    let c: AtomicCell<u16> = AtomicCell::new(0b1100);
    assert_eq!(c.fetch_and(0b1010, Ordering::SeqCst), 0b1100);
    assert_eq!(c.load(Ordering::SeqCst), 0b1000);
    assert_eq!(c.fetch_or(0b0011, Ordering::SeqCst), 0b1000);
    assert_eq!(c.load(Ordering::SeqCst), 0b1011);
    assert_eq!(c.fetch_xor(0b1110, Ordering::SeqCst), 0b1011);
    assert_eq!(c.load(Ordering::SeqCst), 0b0101);
    assert_eq!(c.fetch_nand(0b0100, Ordering::SeqCst), 0b0101);
    assert_eq!(c.load(Ordering::SeqCst), !0b0100u16);
}

#[test]
fn max_and_min() {
    let c: AtomicCell<i32> = AtomicCell::new(-5);
    assert_eq!(c.fetch_max(3, Ordering::SeqCst), -5);
    assert_eq!(c.load(Ordering::SeqCst), 3);
    assert_eq!(c.fetch_max(-7, Ordering::SeqCst), 3);
    assert_eq!(c.load(Ordering::SeqCst), 3);
    assert_eq!(c.fetch_min(-7, Ordering::SeqCst), 3);
    assert_eq!(c.load(Ordering::SeqCst), -7);
    assert_eq!(c.fetch_min(0, Ordering::SeqCst), -7);
    assert_eq!(c.load(Ordering::SeqCst), -7);
}

#[test]
fn store_and_swap() {
    let c: AtomicCell<u64> = AtomicCell::new(1);
    c.store(7, Ordering::Release);
    assert_eq!(c.load(Ordering::Acquire), 7);
    assert_eq!(c.swap(9, Ordering::AcqRel), 7);
    assert_eq!(c.into_inner(), 9);
}

#[test]
fn compare_exchange_matching() {
    let c: AtomicCell<isize> = AtomicCell::new(5);
    assert_eq!(c.compare_exchange(5, 8, Ordering::SeqCst, Ordering::Relaxed), Ok(5));
    assert_eq!(c.load(Ordering::SeqCst), 8);
}

#[test]
fn compare_exchange_mismatch() {
    let c: AtomicCell<isize> = AtomicCell::new(5);
    assert_eq!(c.compare_exchange(6, 8, Ordering::SeqCst, Ordering::Relaxed), Err(5));
    assert_eq!(c.load(Ordering::SeqCst), 5);
}

#[test]
fn compare_exchange_weak_never_fails_spuriously() {
    let c: AtomicCell<u32> = AtomicCell::new(3);
    assert_eq!(c.compare_exchange_weak(3, 4, Ordering::Relaxed, Ordering::Relaxed), Ok(3));
    assert_eq!(c.compare_exchange_weak(3, 5, Ordering::Relaxed, Ordering::Relaxed), Err(4));
    assert_eq!(c.load(Ordering::Relaxed), 4);
}

#[test]
fn compare_and_swap_returns_seen_value() {
    let c: AtomicCell<i16> = AtomicCell::new(-1);
    assert_eq!(c.compare_and_swap(-1, 2, Ordering::SeqCst), -1);
    assert_eq!(c.compare_and_swap(-1, 3, Ordering::SeqCst), 2);
    assert_eq!(c.load(Ordering::SeqCst), 2);
}

#[test]
fn compare_step_values() {
    assert_eq!(compare_step(7u8, 7u8, 9u8), (9, Ok(7)));
    assert_eq!(compare_step(7u8, 6u8, 9u8), (7, Err(7)));
}

#[test]
fn fetch_update_applies_and_declines() {
    let c: AtomicCell<usize> = AtomicCell::new(10);
    assert_eq!(c.fetch_update(Ordering::SeqCst, Ordering::SeqCst, |x| Some(x * 2)), Ok(10));
    assert_eq!(c.load(Ordering::SeqCst), 20);
    assert_eq!(c.fetch_update(Ordering::SeqCst, Ordering::SeqCst, |_| None), Err(20));
    assert_eq!(c.load(Ordering::SeqCst), 20);
}

#[test]
fn lock_released_after_declined_update() {
    let c: AtomicCell<u8> = AtomicCell::new(1);
    assert_eq!(c.fetch_update(Ordering::Relaxed, Ordering::Relaxed, |_| None), Err(1));
    assert!(!c.is_locked());
    assert_eq!(c.fetch_add(1, Ordering::Relaxed), 1);
    assert!(!c.is_locked());
    assert_eq!(c.compare_exchange(0, 5, Ordering::Relaxed, Ordering::Relaxed), Err(2));
    assert_eq!(c.load(Ordering::Relaxed), 2);
}

#[test]
fn interleaved_adds_and_subs_are_all_applied() {
    let c: AtomicCell<i64> = AtomicCell::new(100);
    let rounds: i64 = 1000;
    for k in 0..rounds {
        if k % 2 == 0 {
            c.fetch_add(3, Ordering::Relaxed);
        } else {
            c.fetch_sub(1, Ordering::SeqCst);
        }
    }
    assert_eq!(c.into_inner(), 100 + 500 * 3 - 500);
}

#[test]
fn interleaved_adds_and_subs_wrap() {
    let c: AtomicCell<u8> = AtomicCell::new(200);
    for _ in 0..10 {
        c.fetch_add(20, Ordering::Relaxed);
        c.fetch_sub(3, Ordering::Relaxed);
    }
    assert_eq!(c.load(Ordering::Relaxed), ((200 + 10 * 17) % 256) as u8);
}

static BLOCKED: AtomicUsize = AtomicUsize::new(0);
static RESTORED: AtomicUsize = AtomicUsize::new(0);

struct CountingMask;

impl SignalMask for CountingMask {
    fn block() -> Self {
        BLOCKED.fetch_add(1, Ordering::SeqCst);
        CountingMask
    }

    fn restore(self) {
        RESTORED.fetch_add(1, Ordering::SeqCst);
    }
}

#[test]
fn signal_mask_wraps_each_operation() {
    let c: AtomicCell<u8, CountingMask> = AtomicCell::new(0);
    c.store(1, Ordering::SeqCst);
    assert_eq!(c.fetch_add(1, Ordering::SeqCst), 1);
    assert_eq!(c.fetch_update(Ordering::SeqCst, Ordering::SeqCst, |_| None), Err(2));
    assert_eq!(BLOCKED.load(Ordering::SeqCst), 3);
    assert_eq!(RESTORED.load(Ordering::SeqCst), 3);
}

#[test]
fn no_signal_mask_is_default() {
    let c: AtomicCell<u8, NoSignalMask> = AtomicCell::new(3);
    assert_eq!(c.load(Ordering::SeqCst), 3);
}

fn shareable<T: Sync + Send>() {}

#[test]
fn cell_can_be_shared_between_threads() {
    shareable::<AtomicCell<u64>>();
    shareable::<AtomicCell<i128, NoSignalMask>>();
}

static WATCHED: std::sync::OnceLock<AtomicCell<u8, WatchingMask>> = std::sync::OnceLock::new();
static HELD_AT_MASK_CHANGE: AtomicUsize = AtomicUsize::new(0);
static MASK_CHANGES: AtomicUsize = AtomicUsize::new(0);

struct WatchingMask;

impl WatchingMask {
    fn note() {
        MASK_CHANGES.fetch_add(1, Ordering::SeqCst);
        if let Some(c) = WATCHED.get() {
            if c.is_locked() {
                HELD_AT_MASK_CHANGE.fetch_add(1, Ordering::SeqCst);
            }
        }
    }
}

impl SignalMask for WatchingMask {
    fn block() -> Self {
        WatchingMask::note();
        WatchingMask
    }

    fn restore(self) {
        WatchingMask::note();
    }
}

#[test]
fn signals_are_masked_before_locking_and_restored_after_unlocking() {
    let c = WATCHED.get_or_init(|| AtomicCell::new(7));
    assert_eq!(c.fetch_add(1, Ordering::Relaxed), 7);
    assert_eq!(c.swap(2, Ordering::SeqCst), 8);
    assert_eq!(c.load(Ordering::Acquire), 2);
    assert_eq!(MASK_CHANGES.load(Ordering::SeqCst), 6);
    assert_eq!(HELD_AT_MASK_CHANGE.load(Ordering::SeqCst), 0);
}
