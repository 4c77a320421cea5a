//! The spinlock-based fallback cell.
//!
//! Every operation takes the lock once, applies one step to the stored value
//! and gives the lock back. The value is kept in vstd's verified lock cell,
//! which busy-waits by retrying its compare-and-swap and never blocks in the
//! operating system; the `locked` flag mirrors its state and carries
//! the orderings that the caller asked for, so that every operation is at
//! least Acquire on entry and Release on exit, and `SeqCst` where `SeqCst` was
//! asked for.
//!
//! What can be said of the stored value while other threads share the cell is
//! the cell's invariant, a predicate fixed at construction: every value that
//! is read satisfies it, and every operation is admitted only where the value
//! it would store satisfies it too.
use crate::integer::FallbackInt;
use crate::ordering::{acquire_ordering, release_ordering};
use core::marker::PhantomData;
use core::sync::atomic::{AtomicBool, Ordering};
use vstd::prelude::*;
use vstd::rwlock::{RwLock, WriteHandle};

verus! {

/// One compare-exchange step on a value `prev`: the value stored afterwards,
/// and what the operation returns.
pub open spec fn compare_spec<T>(prev: T, current: T, new: T) -> (T, Result<T, T>) {
    if prev == current {
        (new, Ok(prev))
    } else {
        (prev, Err(prev))
    }
}

/// Computes one compare-exchange step; the cell runs it under its lock.
pub fn compare_step<T: FallbackInt>(prev: T, current: T, new: T) -> (r: (T, Result<T, T>))
    ensures
        r == compare_spec(prev, current, new),
{
    if prev.same(current) {
        (new, Ok(prev))
    } else {
        (prev, Err(prev))
    }
}

/// Keeps signals away from a thread for the length of a critical section.
pub trait SignalMask: Sized {
    /// Blocks every blockable signal of the current thread and keeps the mask
    /// that was in force.
    fn block() -> Self;

    /// Puts back the mask that `block` kept.
    fn restore(self);
}

/// The mask that blocks nothing: critical sections run with signals as they
/// are.
pub struct NoSignalMask;

impl SignalMask for NoSignalMask {
    fn block() -> Self {
        NoSignalMask
    }

    fn restore(self) {
    }
}

/// A value of type `T` with atomic operations, serialised by a spinlock.
///
/// `S` decides what happens to signals while the lock is held.
#[verifier::reject_recursive_types(T)]
pub struct AtomicCell<T, S: SignalMask = NoSignalMask> {
    value: RwLock<T, spec_fn(T) -> bool>,
    locked: AtomicBool,
    signals: PhantomData<S>,
}

/// The right to the value for one critical section.
#[verifier::reject_recursive_types(T)]
struct Guard<'a, T, S> {
    value: T,
    handle: WriteHandle<'a, T, spec_fn(T) -> bool>,
    order: Ordering,
    signal: S,
}

impl<T, S: SignalMask> AtomicCell<T, S> {
    /// The cell's invariant: the predicate that every value stored in the
    /// cell satisfies.
    pub closed spec fn allowed(&self) -> spec_fn(T) -> bool {
        self.value.pred()
    }

    /// Creates a cell holding `v`; any value may be stored in it.
    pub fn new(v: T) -> (s: Self)
        ensures
            forall|x: T| #[trigger] (s.allowed())(x),
    {
        AtomicCell {
            value: RwLock::new(v, Ghost(|x: T| true)),
            locked: AtomicBool::new(false),
            signals: PhantomData,
        }
    }

    /// Creates a cell holding `v` whose values always satisfy `inv`.
    pub fn with_invariant(v: T, Ghost(inv): Ghost<spec_fn(T) -> bool>) -> (s: Self)
        requires
            inv(v),
        ensures
            s.allowed() == inv,
    {
        AtomicCell { value: RwLock::new(v, Ghost(inv)), locked: AtomicBool::new(false), signals: PhantomData }
    }

    /// Masks signals, then takes the lock.
    fn lock(&self, order: Ordering) -> (g: Guard<'_, T, S>)
        ensures
            g.handle.rwlock() == self.value,
            (self.allowed())(g.value),
            g.order == order,
    {
        let signal = S::block();
        let (value, handle) = self.value.acquire_write();
        let _ = self.locked.swap(true, acquire_ordering(order));
        Guard { value, handle, order, signal }
    }

    /// Stores `next`, gives the lock back, then restores the signal mask.
    fn unlock(&self, g: Guard<'_, T, S>, next: T)
        requires
            g.handle.rwlock() == self.value,
            (self.allowed())(next),
    {
        let Guard { value: _, handle, order, signal } = g;
        self.locked.store(false, release_ordering(order));
        handle.release_write(next);
        signal.restore();
    }

    /// Whether an operation holds the lock at this moment. Every operation
    /// gives the lock back before it returns, so between operations this
    /// reads `false`.
    pub fn is_locked(&self) -> bool {
        self.locked.load(Ordering::SeqCst)
    }

    /// Consumes the cell and returns the value in it.
    pub fn into_inner(self) -> (r: T)
        ensures
            (self.allowed())(r),
    {
        self.value.into_inner()
    }
}

impl<T: Copy, S: SignalMask> AtomicCell<T, S> {
    /// Reads the value.
    pub fn load(&self, order: Ordering) -> (r: T)
        ensures
            (self.allowed())(r),
    {
        let g = self.lock(order);
        let prev = g.value;
        self.unlock(g, prev);
        prev
    }

    /// Overwrites the value with `val`.
    pub fn store(&self, val: T, order: Ordering)
        requires
            (self.allowed())(val),
    {
        let g = self.lock(order);
        self.unlock(g, val);
    }

    /// Overwrites the value with `val` and returns the value it replaced.
    pub fn swap(&self, val: T, order: Ordering) -> (r: T)
        requires
            (self.allowed())(val),
        ensures
            (self.allowed())(r),
    {
        let g = self.lock(order);
        let prev = g.value;
        self.unlock(g, val);
        prev
    }

    /// Applies `f` to the value; where it gives `Some(v)`, stores `v` and
    /// returns `Ok` of the previous value, and where it gives `None`, leaves the
    /// value as it is and returns `Err` of it.
    ///
    /// The whole step runs under one lock, so `f` is called exactly once;
    /// `fetch_order` is accepted for compatibility and the lock is taken and
    /// given back by `set_order`. `f` must not panic: the lock is given back
    /// on every path that returns, not on unwinding.
    pub fn fetch_update<F>(&self, set_order: Ordering, fetch_order: Ordering, mut f: F) -> (r: Result<
        T,
        T,
    >) where F: FnMut(T) -> Option<T>
        requires
            forall|x: T| (self.allowed())(x) ==> #[trigger] f.requires((x,)),
            forall|x: T, y: T|
                (self.allowed())(x) && #[trigger] f.ensures((x,), Some(y)) ==> (self.allowed())(y),
        ensures
            match r {
                Ok(prev) => (self.allowed())(prev) && exists|y: T| #[trigger] f.ensures((prev,), Some(y)),
                Err(prev) => (self.allowed())(prev) && f.ensures((prev,), None),
            },
    {
        let _ = fetch_order;
        let g = self.lock(set_order);
        let prev = g.value;
        match f(prev) {
            Some(next) => {
                self.unlock(g, next);
                Ok(prev)
            },
            None => {
                self.unlock(g, prev);
                Err(prev)
            },
        }
    }
}

impl<T: FallbackInt, S: SignalMask> AtomicCell<T, S> {
    /// Stores `new` if the value equals `current`; returns the value seen
    /// either way.
    pub fn compare_and_swap(&self, current: T, new: T, order: Ordering) -> (r: T)
        requires
            (self.allowed())(new),
        ensures
            (self.allowed())(r),
    {
        match self.compare_exchange(current, new, order, order) {
            Ok(prev) => prev,
            Err(prev) => prev,
        }
    }

    /// Stores `new` if the value equals `current`: `Ok` of the previous value
    /// where it did, `Err` of the value seen where it did not.
    ///
    /// The lock serialises the whole step, so `failure` has no effect of its
    /// own: the lock is taken and given back by `success`.
    pub fn compare_exchange(&self, current: T, new: T, success: Ordering, failure: Ordering) -> (r:
        Result<T, T>)
        requires
            (self.allowed())(new),
        ensures
            match r {
                Ok(prev) => prev == current && (self.allowed())(prev),
                Err(prev) => prev != current && (self.allowed())(prev),
            },
    {
        let _ = failure;
        let g = self.lock(success);
        let (next, r) = compare_step(g.value, current, new);
        self.unlock(g, next);
        r
    }

    /// The same as `compare_exchange`: under a lock the comparison never fails
    /// spuriously.
    pub fn compare_exchange_weak(
        &self,
        current: T,
        new: T,
        success: Ordering,
        failure: Ordering,
    ) -> (r: Result<T, T>)
        requires
            (self.allowed())(new),
        ensures
            match r {
                Ok(prev) => prev == current && (self.allowed())(prev),
                Err(prev) => prev != current && (self.allowed())(prev),
            },
    {
        self.compare_exchange(current, new, success, failure)
    }

    /// Adds `val` to the value, wrapping around, and returns the previous value.
    pub fn fetch_add(&self, val: T, order: Ordering) -> (r: T)
        requires
            forall|x: T| (self.allowed())(x) ==> (self.allowed())(#[trigger] x.add_spec(val)),
        ensures
            (self.allowed())(r),
    {
        let g = self.lock(order);
        let prev = g.value;
        let next = prev.add_wrapping(val);
        self.unlock(g, next);
        prev
    }

    /// Subtracts `val` from the value, wrapping around, and returns the previous value.
    pub fn fetch_sub(&self, val: T, order: Ordering) -> (r: T)
        requires
            forall|x: T| (self.allowed())(x) ==> (self.allowed())(#[trigger] x.sub_spec(val)),
        ensures
            (self.allowed())(r),
    {
        let g = self.lock(order);
        let prev = g.value;
        let next = prev.sub_wrapping(val);
        self.unlock(g, next);
        prev
    }

    /// Bitwise "and" of the value with `val`; returns the previous value.
    pub fn fetch_and(&self, val: T, order: Ordering) -> (r: T)
        requires
            forall|x: T| (self.allowed())(x) ==> (self.allowed())(#[trigger] x.and_spec(val)),
        ensures
            (self.allowed())(r),
    {
        let g = self.lock(order);
        let prev = g.value;
        let next = prev.bit_and(val);
        self.unlock(g, next);
        prev
    }

    /// Bitwise "nand" of the value with `val`; returns the previous value.
    pub fn fetch_nand(&self, val: T, order: Ordering) -> (r: T)
        requires
            forall|x: T| (self.allowed())(x) ==> (self.allowed())(#[trigger] x.nand_spec(val)),
        ensures
            (self.allowed())(r),
    {
        let g = self.lock(order);
        let prev = g.value;
        let next = prev.bit_nand(val);
        self.unlock(g, next);
        prev
    }

    /// Bitwise "or" of the value with `val`; returns the previous value.
    pub fn fetch_or(&self, val: T, order: Ordering) -> (r: T)
        requires
            forall|x: T| (self.allowed())(x) ==> (self.allowed())(#[trigger] x.or_spec(val)),
        ensures
            (self.allowed())(r),
    {
        let g = self.lock(order);
        let prev = g.value;
        let next = prev.bit_or(val);
        self.unlock(g, next);
        prev
    }

    /// Bitwise "xor" of the value with `val`; returns the previous value.
    pub fn fetch_xor(&self, val: T, order: Ordering) -> (r: T)
        requires
            forall|x: T| (self.allowed())(x) ==> (self.allowed())(#[trigger] x.xor_spec(val)),
        ensures
            (self.allowed())(r),
    {
        let g = self.lock(order);
        let prev = g.value;
        let next = prev.bit_xor(val);
        self.unlock(g, next);
        prev
    }

    /// Stores the larger of the value and `val`; returns the previous value.
    pub fn fetch_max(&self, val: T, order: Ordering) -> (r: T)
        requires
            forall|x: T| (self.allowed())(x) ==> (self.allowed())(#[trigger] x.max_spec(val)),
        ensures
            (self.allowed())(r),
    {
        let g = self.lock(order);
        let prev = g.value;
        let next = prev.larger(val);
        self.unlock(g, next);
        prev
    }

    /// Stores the smaller of the value and `val`; returns the previous value.
    pub fn fetch_min(&self, val: T, order: Ordering) -> (r: T)
        requires
            forall|x: T| (self.allowed())(x) ==> (self.allowed())(#[trigger] x.min_spec(val)),
        ensures
            (self.allowed())(r),
    {
        let g = self.lock(order);
        let prev = g.value;
        let next = prev.smaller(val);
        self.unlock(g, next);
        prev
    }
}

} // verus!
