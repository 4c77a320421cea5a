//! How a requested memory ordering maps onto the orderings used on the lock
//! flag, and the strength relation between orderings.
use core::sync::atomic::Ordering;
use vstd::prelude::*;

verus! {

/// `a` gives at least the guarantees of `b`.
///
/// `Relaxed` is the weakest ordering, `SeqCst` the strongest; `AcqRel` is
/// stronger than both `Acquire` and `Release`, which are not comparable.
pub open spec fn at_least(a: Ordering, b: Ordering) -> bool {
    a == b || b == Ordering::Relaxed || a == Ordering::SeqCst || (a == Ordering::AcqRel && (
    b == Ordering::Acquire || b == Ordering::Release))
}

/// The ordering with which the lock is taken for a requested ordering.
pub open spec fn acquire_spec(order: Ordering) -> Ordering {
    match order {
        Ordering::SeqCst => Ordering::SeqCst,
        _ => Ordering::Acquire,
    }
}

/// The ordering with which the lock is given back for a requested ordering.
pub open spec fn release_spec(order: Ordering) -> Ordering {
    match order {
        Ordering::SeqCst => Ordering::SeqCst,
        _ => Ordering::Release,
    }
}

/// Ordering used to take the lock: `SeqCst` stays `SeqCst`, every weaker
/// ordering becomes `Acquire`.
pub fn acquire_ordering(order: Ordering) -> (r: Ordering)
    ensures
        r == acquire_spec(order),
{
    match order {
        Ordering::SeqCst => Ordering::SeqCst,
        _ => Ordering::Acquire,
    }
}

/// Ordering used to give the lock back: `SeqCst` stays `SeqCst`, every weaker
/// ordering becomes `Release`.
pub fn release_ordering(order: Ordering) -> (r: Ordering)
    ensures
        r == release_spec(order),
{
    match order {
        Ordering::SeqCst => Ordering::SeqCst,
        _ => Ordering::Release,
    }
}

/// Whatever ordering is requested, the lock is taken with at least `Acquire`
/// and given back with at least `Release`, so that a critical section always
/// sees the writes of the one before it; `SeqCst` is kept as it is.
pub proof fn lemma_lock_never_relaxed(order: Ordering)
    ensures
        at_least(acquire_spec(order), Ordering::Acquire),
        at_least(release_spec(order), Ordering::Release),
        order == Ordering::SeqCst ==> acquire_spec(order) == Ordering::SeqCst,
        order == Ordering::SeqCst ==> release_spec(order) == Ordering::SeqCst,
{
}

/// Asking for a stronger ordering never makes the lock's orderings weaker.
pub proof fn lemma_ordering_monotone(a: Ordering, b: Ordering)
    requires
        at_least(a, b),
    ensures
        at_least(acquire_spec(a), acquire_spec(b)),
        at_least(release_spec(a), release_spec(b)),
        at_least(acquire_spec(Ordering::SeqCst), acquire_spec(b)),
        at_least(release_spec(Ordering::SeqCst), release_spec(b)),
{
}

} // verus!
