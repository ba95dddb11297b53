//! `bool` and `AtomicBool`.

use crate::atom::{Atom, AtomLogic};
use crate::impls::{sealed::Sealed, PrimitiveAtom, PrimitiveAtomLogic};
use core::sync::atomic::{AtomicBool, Ordering};
use vstd::prelude::*;

verus! {

/// `AtomicBool::into_inner`: takes the value out of the atomic.
#[verifier::external_body]
fn into_inner(atomic: AtomicBool) -> bool {
    atomic.into_inner()
}

/// `AtomicBool::compare_exchange`: `Ok` holds the replaced value, which equals
/// `current`; `Err` holds the value found in place of `current`, which differs
/// from it. A `failure` order of `Release` or `AcqRel` would panic.
#[verifier::external_body]
fn compare_exchange(
    atomic: &AtomicBool,
    current: bool,
    new: bool,
    success: Ordering,
    failure: Ordering,
) -> (res: Result<bool, bool>)
    requires
        crate::order::load_order(failure),
    ensures
        match res {
            Ok(prev) => prev == current,
            Err(prev) => prev != current,
        },
{
    atomic.compare_exchange(current, new, success, failure)
}

/// `AtomicBool::compare_exchange_weak`: `Ok` holds the replaced value, which
/// equals `current`; `Err` holds the value found, which may equal `current`. A
/// `failure` order of `Release` or `AcqRel` would panic.
#[verifier::external_body]
fn compare_exchange_weak(
    atomic: &AtomicBool,
    current: bool,
    new: bool,
    success: Ordering,
    failure: Ordering,
) -> (res: Result<bool, bool>)
    requires
        crate::order::load_order(failure),
    ensures
        res matches Ok(prev) ==> prev == current,
{
    atomic.compare_exchange_weak(current, new, success, failure)
}

/// `AtomicBool::fetch_update`: calls `f` on values that the atomic holds. `Ok`
/// holds a value for which `f` gave `Some`, and what `f` gave has replaced it;
/// `Err` holds a value for which `f` gave `None`. A `fetch_order` of `Release`
/// or `AcqRel` would panic.
#[verifier::external_body]
fn fetch_update<F>(atomic: &AtomicBool, set_order: Ordering, fetch_order: Ordering, f: F) -> (res:
    Result<bool, bool>) where F: Fn(bool) -> Option<bool>
    requires
        crate::order::load_order(fetch_order),
        forall|cur: bool| #[trigger] call_requires(f, (cur,)),
    ensures
        match res {
            Ok(prev) => exists|next: bool| call_ensures(f, (prev,), Some(next)),
            Err(prev) => call_ensures(f, (prev,), None),
        },
{
    atomic.fetch_update(set_order, fetch_order, f)
}

impl Sealed for bool {

}

impl PrimitiveAtom for bool {
    type Impl = AtomicBool;

    fn into_impl(self) -> Self::Impl {
        AtomicBool::new(self)
    }

    fn from_impl(imp: Self::Impl) -> Self {
        into_inner(imp)
    }

    fn load(imp: &Self::Impl, order: Ordering) -> Self {
        imp.load(order)
    }

    fn store(imp: &Self::Impl, v: Self, order: Ordering) {
        imp.store(v, order)
    }

    fn swap(imp: &Self::Impl, v: Self, order: Ordering) -> Self {
        imp.swap(v, order)
    }

    fn compare_exchange(
        imp: &Self::Impl,
        current: Self,
        new: Self,
        success: Ordering,
        failure: Ordering,
    ) -> (res: Result<Self, Self>) {
        compare_exchange(imp, current, new, success, failure)
    }

    fn compare_exchange_weak(
        imp: &Self::Impl,
        current: Self,
        new: Self,
        success: Ordering,
        failure: Ordering,
    ) -> (res: Result<Self, Self>) {
        compare_exchange_weak(imp, current, new, success, failure)
    }

    fn fetch_update<F>(imp: &Self::Impl, set_order: Ordering, fetch_order: Ordering, f: F) -> (res:
        Result<Self, Self>) where F: Fn(Self) -> Option<Self> {
        fetch_update(imp, set_order, fetch_order, f)
    }
}

impl PrimitiveAtomLogic for bool {
    fn fetch_and(imp: &Self::Impl, val: Self, order: Ordering) -> Self {
        imp.fetch_and(val, order)
    }

    fn fetch_nand(imp: &Self::Impl, val: Self, order: Ordering) -> Self {
        imp.fetch_nand(val, order)
    }

    fn fetch_or(imp: &Self::Impl, val: Self, order: Ordering) -> Self {
        imp.fetch_or(val, order)
    }

    fn fetch_xor(imp: &Self::Impl, val: Self, order: Ordering) -> Self {
        imp.fetch_xor(val, order)
    }
}

impl Atom for bool {
    type Repr = Self;

    open spec fn pack_spec(self) -> Self::Repr {
        self
    }

    open spec fn unpack_spec(src: Self::Repr) -> Self {
        src
    }

    fn pack(self) -> (repr: Self::Repr) {
        self
    }

    fn unpack(src: Self::Repr) -> (v: Self) {
        src
    }

    fn is_valid(src: Self::Repr) -> (valid: bool) {
        true
    }
}

impl AtomLogic for bool {

}

} // verus!
