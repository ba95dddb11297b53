//! `i32` and `AtomicI32`.

use crate::atom::{Atom, AtomInteger, AtomLogic};
use crate::impls::{sealed::Sealed, PrimitiveAtom, PrimitiveAtomInteger, PrimitiveAtomLogic};
use core::sync::atomic::{AtomicI32, Ordering};
use vstd::prelude::*;

verus! {

/// `AtomicI32::into_inner`: takes the value out of the atomic.
#[verifier::external_body]
fn into_inner(atomic: AtomicI32) -> i32 {
    atomic.into_inner()
}

/// `AtomicI32::compare_exchange`: `Ok` holds the replaced value, which equals
/// `current`; `Err` holds the value found in place of `current`, which differs
/// from it. A `failure` order of `Release` or `AcqRel` would panic.
#[verifier::external_body]
fn compare_exchange(
    atomic: &AtomicI32,
    current: i32,
    new: i32,
    success: Ordering,
    failure: Ordering,
) -> (res: Result<i32, i32>)
    requires
        crate::order::load_order(failure),
    ensures
        match res {
            Ok(prev) => prev == current,
            Err(prev) => prev != current,
        },
{
    atomic.compare_exchange(current, new, success, failure)
}

/// `AtomicI32::compare_exchange_weak`: `Ok` holds the replaced value, which
/// equals `current`; `Err` holds the value found, which may equal `current`. A
/// `failure` order of `Release` or `AcqRel` would panic.
#[verifier::external_body]
fn compare_exchange_weak(
    atomic: &AtomicI32,
    current: i32,
    new: i32,
    success: Ordering,
    failure: Ordering,
) -> (res: Result<i32, i32>)
    requires
        crate::order::load_order(failure),
    ensures
        res matches Ok(prev) ==> prev == current,
{
    atomic.compare_exchange_weak(current, new, success, failure)
}

/// `AtomicI32::fetch_update`: calls `f` on values that the atomic holds. `Ok`
/// holds a value for which `f` gave `Some`, and what `f` gave has replaced it;
/// `Err` holds a value for which `f` gave `None`. A `fetch_order` of `Release`
/// or `AcqRel` would panic.
#[verifier::external_body]
fn fetch_update<F>(atomic: &AtomicI32, set_order: Ordering, fetch_order: Ordering, f: F) -> (res:
    Result<i32, i32>) where F: Fn(i32) -> Option<i32>
    requires
        crate::order::load_order(fetch_order),
        forall|cur: i32| #[trigger] call_requires(f, (cur,)),
    ensures
        match res {
            Ok(prev) => exists|next: i32| call_ensures(f, (prev,), Some(next)),
            Err(prev) => call_ensures(f, (prev,), None),
        },
{
    atomic.fetch_update(set_order, fetch_order, f)
}

impl Sealed for i32 {

}

impl PrimitiveAtom for i32 {
    type Impl = AtomicI32;

    fn into_impl(self) -> Self::Impl {
        AtomicI32::new(self)
    }

    fn from_impl(imp: Self::Impl) -> Self {
        into_inner(imp)
    }

    fn load(imp: &Self::Impl, order: Ordering) -> Self {
        imp.load(order)
    }

    fn store(imp: &Self::Impl, v: Self, order: Ordering) {
        imp.store(v, order)
    }

    fn swap(imp: &Self::Impl, v: Self, order: Ordering) -> Self {
        imp.swap(v, order)
    }

    fn compare_exchange(
        imp: &Self::Impl,
        current: Self,
        new: Self,
        success: Ordering,
        failure: Ordering,
    ) -> (res: Result<Self, Self>) {
        compare_exchange(imp, current, new, success, failure)
    }

    fn compare_exchange_weak(
        imp: &Self::Impl,
        current: Self,
        new: Self,
        success: Ordering,
        failure: Ordering,
    ) -> (res: Result<Self, Self>) {
        compare_exchange_weak(imp, current, new, success, failure)
    }

    fn fetch_update<F>(imp: &Self::Impl, set_order: Ordering, fetch_order: Ordering, f: F) -> (res:
        Result<Self, Self>) where F: Fn(Self) -> Option<Self> {
        fetch_update(imp, set_order, fetch_order, f)
    }
}

impl PrimitiveAtomLogic for i32 {
    fn fetch_and(imp: &Self::Impl, val: Self, order: Ordering) -> Self {
        imp.fetch_and(val, order)
    }

    fn fetch_nand(imp: &Self::Impl, val: Self, order: Ordering) -> Self {
        imp.fetch_nand(val, order)
    }

    fn fetch_or(imp: &Self::Impl, val: Self, order: Ordering) -> Self {
        imp.fetch_or(val, order)
    }

    fn fetch_xor(imp: &Self::Impl, val: Self, order: Ordering) -> Self {
        imp.fetch_xor(val, order)
    }
}

impl PrimitiveAtomInteger for i32 {
    fn fetch_add(imp: &Self::Impl, val: Self, order: Ordering) -> Self {
        imp.fetch_add(val, order)
    }

    fn fetch_sub(imp: &Self::Impl, val: Self, order: Ordering) -> Self {
        imp.fetch_sub(val, order)
    }

    fn fetch_max(imp: &Self::Impl, val: Self, order: Ordering) -> Self {
        imp.fetch_max(val, order)
    }

    fn fetch_min(imp: &Self::Impl, val: Self, order: Ordering) -> Self {
        imp.fetch_min(val, order)
    }
}

impl Atom for i32 {
    type Repr = Self;

    open spec fn pack_spec(self) -> Self::Repr {
        self
    }

    open spec fn unpack_spec(src: Self::Repr) -> Self {
        src
    }

    fn pack(self) -> (repr: Self::Repr) {
        self
    }

    fn unpack(src: Self::Repr) -> (v: Self) {
        src
    }

    fn is_valid(src: Self::Repr) -> (valid: bool) {
        true
    }
}

impl AtomLogic for i32 {

}

impl AtomInteger for i32 {

}

} // verus!
