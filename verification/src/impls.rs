//! The primitive types that have an atomic type in `std`, and what this
//! crate needs of each.
//!
//! The traits here are sealed: they are implemented for `bool` and the
//! integers of 8 to 64 bits and of pointer size, and for nothing else.
//!
//! An atomic is changed through shared references, by any number of threads.
//! So nothing is said here of a value that is read from one, but what the
//! operation itself tells: that a compare-and-exchange found `current` or
//! something else, and what the function of a `fetch_update` gave.

use core::sync::atomic::Ordering;
use vstd::prelude::*;

mod atomic_bool;
mod atomic_i16;
mod atomic_i32;
mod atomic_i64;
mod atomic_i8;
mod atomic_isize;
mod atomic_u16;
mod atomic_u32;
mod atomic_u64;
mod atomic_u8;
mod atomic_usize;
mod of_char;
mod of_wrapping;
mod sealed;

verus! {

/// Primitive types that can directly be used in an atomic way.
///
/// This trait is implemented exactly for every type that has a corresponding
/// atomic type in `std::sync::atomic`, raw pointers excepted. You cannot
/// implement it for your own types; see [`Atom`](crate::Atom) instead.
pub trait PrimitiveAtom: Sized + Copy + sealed::Sealed {
    /// The standard library type that is the atomic version of `Self`.
    type Impl;

    /// An atomic that holds `self`.
    fn into_impl(self) -> Self::Impl;

    /// Takes the atomic apart and returns the value that it holds.
    fn from_impl(imp: Self::Impl) -> Self;

    /// Reads the value.
    fn load(imp: &Self::Impl, order: Ordering) -> Self
        requires
            crate::order::load_order(order),
    ;

    /// Writes `v`.
    fn store(imp: &Self::Impl, v: Self, order: Ordering)
        requires
            crate::order::store_order(order),
    ;

    /// Writes `v` and returns the value that it replaced.
    fn swap(imp: &Self::Impl, v: Self, order: Ordering) -> Self;

    /// Writes `new` if the value is `current`. `Ok` holds the replaced value,
    /// `Err` the value found in place of `current`.
    fn compare_exchange(
        imp: &Self::Impl,
        current: Self,
        new: Self,
        success: Ordering,
        failure: Ordering,
    ) -> (res: Result<Self, Self>)
        requires
            crate::order::load_order(failure),
        ensures
            match res {
                Ok(prev) => prev == current,
                Err(prev) => prev != current,
            },
    ;

    /// Like `compare_exchange`, but may fail although the value is `current`.
    fn compare_exchange_weak(
        imp: &Self::Impl,
        current: Self,
        new: Self,
        success: Ordering,
        failure: Ordering,
    ) -> (res: Result<Self, Self>)
        requires
            crate::order::load_order(failure),
        ensures
            res matches Ok(prev) ==> prev == current,
    ;

    /// Replaces the value by what `f` gives for it, trying again when another
    /// thread was faster. `Ok` holds the replaced value; `Err` holds the value
    /// for which `f` gave `None`, and nothing was written.
    fn fetch_update<F>(imp: &Self::Impl, set_order: Ordering, fetch_order: Ordering, f: F) -> (res:
        Result<Self, Self>) where F: Fn(Self) -> Option<Self>
        requires
            crate::order::load_order(fetch_order),
            forall|cur: Self| #[trigger] call_requires(f, (cur,)),
        ensures
            match res {
                Ok(prev) => exists|next: Self| call_ensures(f, (prev,), Some(next)),
                Err(prev) => call_ensures(f, (prev,), None),
            },
    ;
}

/// Atomic types from `std::sync::atomic` which support logical operations.
///
/// You cannot implement this trait for your own types; see
/// [`AtomLogic`](crate::AtomLogic) instead.
pub trait PrimitiveAtomLogic: PrimitiveAtom {
    /// Replaces the value by its "and" with `val` and returns it.
    fn fetch_and(imp: &Self::Impl, val: Self, order: Ordering) -> Self;

    /// Replaces the value by its "nand" with `val` and returns it.
    fn fetch_nand(imp: &Self::Impl, val: Self, order: Ordering) -> Self;

    /// Replaces the value by its "or" with `val` and returns it.
    fn fetch_or(imp: &Self::Impl, val: Self, order: Ordering) -> Self;

    /// Replaces the value by its "xor" with `val` and returns it.
    fn fetch_xor(imp: &Self::Impl, val: Self, order: Ordering) -> Self;
}

/// Atomic types from `std::sync::atomic` which support integer operations.
///
/// You cannot implement this trait for your own types; see
/// [`AtomInteger`](crate::AtomInteger) instead.
pub trait PrimitiveAtomInteger: PrimitiveAtom {
    /// Replaces the value by its wrapped sum with `val` and returns it.
    fn fetch_add(imp: &Self::Impl, val: Self, order: Ordering) -> Self;

    /// Replaces the value by its wrapped difference with `val` and returns it.
    fn fetch_sub(imp: &Self::Impl, val: Self, order: Ordering) -> Self;

    /// Replaces the value by the greater of it and `val` and returns it.
    fn fetch_max(imp: &Self::Impl, val: Self, order: Ordering) -> Self;

    /// Replaces the value by the lesser of it and `val` and returns it.
    fn fetch_min(imp: &Self::Impl, val: Self, order: Ordering) -> Self;
}

} // verus!
