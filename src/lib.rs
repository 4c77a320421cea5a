//! Atomics for integer types that a target cannot handle natively.
//!
//! Where a target lacks a hardware atomic for some width, a
//! [`cell::AtomicCell`] gives the same method surface as the standard atomics,
//! serialised by a spinlock. The build-time probe of [`probe`] decides, width
//! by width, whether the native atomic or the fallback cell is used.
use vstd::prelude::*;

pub mod cell;
pub mod integer;
pub mod laws;
pub mod ordering;
pub mod probe;

verus! {

/// An integer type with a native atomic on the target: `Atomic` is that
/// atomic type.
///
/// The impls below are for the widths up to 64 bits, which have native
/// atomics on the 64-bit targets that this library is verified for; 128-bit
/// integers have none there and use the fallback cell.
pub trait HasAtomic {
    type Atomic;
}

impl HasAtomic for u8 {
    type Atomic = core::sync::atomic::AtomicU8;
}

impl HasAtomic for i8 {
    type Atomic = core::sync::atomic::AtomicI8;
}

impl HasAtomic for u16 {
    type Atomic = core::sync::atomic::AtomicU16;
}

impl HasAtomic for i16 {
    type Atomic = core::sync::atomic::AtomicI16;
}

impl HasAtomic for u32 {
    type Atomic = core::sync::atomic::AtomicU32;
}

impl HasAtomic for i32 {
    type Atomic = core::sync::atomic::AtomicI32;
}

impl HasAtomic for u64 {
    type Atomic = core::sync::atomic::AtomicU64;
}

impl HasAtomic for i64 {
    type Atomic = core::sync::atomic::AtomicI64;
}

impl HasAtomic for usize {
    type Atomic = core::sync::atomic::AtomicUsize;
}

impl HasAtomic for isize {
    type Atomic = core::sync::atomic::AtomicIsize;
}

} // verus!
