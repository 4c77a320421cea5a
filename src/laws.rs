//! What holds of runs of operations on one cell.
//!
//! The lock orders all operations on a cell one after another, so any run of
//! operations from any number of threads acts on the value as one sequence of
//! steps.
use crate::cell::compare_spec;
use crate::integer::{wrap, FallbackInt};
use vstd::prelude::*;

verus! {

/// One `fetch_add` or `fetch_sub` with its operand.
pub enum Delta<T> {
    Add(T),
    Sub(T),
}

/// The value after one step.
pub open spec fn apply_delta<T: FallbackInt>(v: T, d: Delta<T>) -> T {
    match d {
        Delta::Add(x) => v.add_spec(x),
        Delta::Sub(x) => v.sub_spec(x),
    }
}

/// The value after the steps `ds`, in order, starting from `v`.
pub open spec fn apply_deltas<T: FallbackInt>(v: T, ds: Seq<Delta<T>>) -> T
    decreases ds.len(),
{
    if ds.len() == 0 {
        v
    } else {
        apply_deltas(apply_delta(v, ds[0]), ds.drop_first())
    }
}

/// The signed sum of the operands, without wraparound.
pub open spec fn delta_sum<T: FallbackInt>(ds: Seq<Delta<T>>) -> int
    decreases ds.len(),
{
    if ds.len() == 0 {
        0
    } else {
        let d = match ds[0] {
            Delta::Add(x) => x.int_value(),
            Delta::Sub(x) => -x.int_value(),
        };
        d + delta_sum(ds.drop_first())
    }
}

/// Wrapping twice is wrapping once.
proof fn lemma_wrap_add(x: int, y: int, lo: int, m: int)
    requires
        m > 0,
    ensures
        wrap(wrap(x, lo, m) + y, lo, m) == wrap(x + y, lo, m),
{
    vstd::arithmetic::div_mod::lemma_add_mod_noop_right(y, x - lo, m);
}

/// No update is lost or applied twice: after any sequence of `fetch_add` and
/// `fetch_sub` steps, the value is the starting value plus the signed sum of
/// all operands, wrapped into the type's range.
pub proof fn lemma_no_lost_updates<T: FallbackInt>(v: T, ds: Seq<Delta<T>>)
    ensures
        apply_deltas(v, ds).int_value() == wrap(
            v.int_value() + delta_sum(ds),
            T::lowest(),
            T::modulus(),
        ),
    decreases ds.len(),
{
    v.lemma_int_value();
    if ds.len() == 0 {
        vstd::arithmetic::div_mod::lemma_small_mod(
            (v.int_value() - T::lowest()) as nat,
            T::modulus() as nat,
        );
    } else {
        let next = apply_delta(v, ds[0]);
        lemma_no_lost_updates(next, ds.drop_first());
        match ds[0] {
            Delta::Add(x) => {
                v.lemma_wrapping(x);
                lemma_wrap_add(
                    v.int_value() + x.int_value(),
                    delta_sum(ds.drop_first()),
                    T::lowest(),
                    T::modulus(),
                );
            },
            Delta::Sub(x) => {
                v.lemma_wrapping(x);
                lemma_wrap_add(
                    v.int_value() - x.int_value(),
                    delta_sum(ds.drop_first()),
                    T::lowest(),
                    T::modulus(),
                );
            },
        }
    }
}

/// A compare-exchange against the value held succeeds, returns that value
/// and stores `new`; one against any other value fails, returns the value
/// held and leaves it in place.
pub proof fn lemma_compare_exchange<T>(held: T, current: T, new: T)
    ensures
        current == held ==> compare_spec(held, current, new) == (new, Ok::<T, T>(held)),
        current != held ==> compare_spec(held, current, new) == (held, Err::<T, T>(held)),
{
}

} // verus!
