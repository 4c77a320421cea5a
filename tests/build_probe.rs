use atomic_int::ordering::{acquire_ordering, release_ordering};
use atomic_int::probe::{all_c_ints, capable_widths, select_backing, widths_to_probe, Backing, CInt};
use atomic_int::cell::AtomicCell;
use atomic_int::HasAtomic;
use core::sync::atomic::Ordering;

#[test]
fn lock_orderings() {
    assert_eq!(acquire_ordering(Ordering::SeqCst), Ordering::SeqCst);
    assert_eq!(acquire_ordering(Ordering::Relaxed), Ordering::Acquire);
    assert_eq!(acquire_ordering(Ordering::Release), Ordering::Acquire);
    assert_eq!(acquire_ordering(Ordering::AcqRel), Ordering::Acquire);
    assert_eq!(release_ordering(Ordering::SeqCst), Ordering::SeqCst);
    assert_eq!(release_ordering(Ordering::Relaxed), Ordering::Release);
    assert_eq!(release_ordering(Ordering::Acquire), Ordering::Release);
}

#[test]
fn width_names() {
    assert_eq!(CInt::Int.name(), "c_int");
    assert_eq!(CInt::Ulonglong.name(), "c_ulonglong");
    assert_eq!(CInt::Long.probe_cfg(), "test_has_c_long_atomic");
    assert_eq!(CInt::Schar.capability_cfg(), "has_c_schar_atomic");
}

#[test]
fn every_width_is_probed_in_order() {
    let ws = all_c_ints();
    assert_eq!(ws.len(), 11);
    assert_eq!(ws[0], CInt::Char);
    assert_eq!(ws[5], CInt::Int);
    assert_eq!(ws[10], CInt::Ulonglong);
}

#[test]
fn only_capable_widths_get_flags() {
    let probed = vec![(CInt::Char, true), (CInt::Long, false), (CInt::Ulong, true)];
    assert_eq!(capable_widths(&probed), vec![CInt::Char, CInt::Ulong]);
    assert_eq!(capable_widths(&vec![]), Vec::<CInt>::new());
}

#[test]
fn missing_capability_selects_fallback() {
    assert_eq!(select_backing(false), Backing::Fallback);
    assert_eq!(select_backing(true), Backing::Native);
}

#[test]
fn native_atomic_for_width() {
    let a = <u8 as HasAtomic>::Atomic::new(250);
    assert_eq!(a.fetch_add(10, Ordering::SeqCst), 250);
    assert_eq!(a.load(Ordering::SeqCst), 4);
}

#[test]
fn fallback_matches_native_for_u8() {
    let native = <u8 as HasAtomic>::Atomic::new(250);
    let fallback: AtomicCell<u8> = AtomicCell::new(250);
    let operands: [u8; 6] = [10, 200, 0b1010_1010, 7, 255, 3];
    for &x in operands.iter() {
        assert_eq!(native.fetch_add(x, Ordering::SeqCst), fallback.fetch_add(x, Ordering::SeqCst));
        assert_eq!(native.fetch_sub(x, Ordering::SeqCst), fallback.fetch_sub(x, Ordering::SeqCst));
        assert_eq!(native.fetch_xor(x, Ordering::SeqCst), fallback.fetch_xor(x, Ordering::SeqCst));
        assert_eq!(native.fetch_nand(x, Ordering::SeqCst), fallback.fetch_nand(x, Ordering::SeqCst));
        assert_eq!(native.fetch_or(x, Ordering::SeqCst), fallback.fetch_or(x, Ordering::SeqCst));
        assert_eq!(native.fetch_and(x, Ordering::SeqCst), fallback.fetch_and(x, Ordering::SeqCst));
        assert_eq!(native.fetch_max(x, Ordering::SeqCst), fallback.fetch_max(x, Ordering::SeqCst));
        assert_eq!(native.fetch_min(x, Ordering::SeqCst), fallback.fetch_min(x, Ordering::SeqCst));
        assert_eq!(native.load(Ordering::SeqCst), fallback.load(Ordering::SeqCst));
    }
}

#[test]
fn disabled_widths_are_not_probed() {
    let on = vec![CInt::Ulong, CInt::Char, CInt::Ulong, CInt::Int];
    assert_eq!(widths_to_probe(&on), vec![CInt::Char, CInt::Int, CInt::Ulong]);
    assert_eq!(widths_to_probe(&vec![]), Vec::<CInt>::new());
    assert_eq!(widths_to_probe(&all_c_ints()), all_c_ints());
}
