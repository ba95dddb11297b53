//! The generic atomic type.

use crate::atom::{decode, Atom, AtomInteger, AtomLogic, Fault};
use crate::impls::{PrimitiveAtom, PrimitiveAtomInteger, PrimitiveAtomLogic};
use core::sync::atomic::Ordering;
use vstd::prelude::*;

verus! {

/// The main type of this library: a generic atomic type.
///
/// Via the methods of this type you can perform various atomic operations. You
/// can use any type `T` that implements [`Atom`]. Additional methods are usable
/// if `T` implements [`AtomLogic`] or [`AtomInteger`].
///
/// All methods use [`Atom::pack`] and [`Atom::unpack`] to convert between the
/// underlying atomic value and the real value `T`.
///
/// An `Atomic` is changed through shared references, by any number of
/// threads. So no contract here speaks of the value that it holds: a contract
/// says what is made of whatever representation the operation comes upon.
/// That is the value that it represents or, where it represents none, a
/// [`Fault`]: the result of a logical or integer operation need not represent
/// a value.
///
/// For all methods that do a comparison (e.g. `compare_exchange`), keep in
/// mind that the comparison is performed on the bits of the underlying type.
pub struct Atomic<T: Atom> {
    cell: <T::Repr as PrimitiveAtom>::Impl,
    initial: Ghost<T::Repr>,
}

/// What is made of the answer `raw` of an operation that may fail: on either
/// side, the value that the representation stands for, and a fault where it
/// stands for none.
pub open spec fn previous_of<T: Atom>(raw: Result<T::Repr, T::Repr>) -> Result<
    Result<T, T>,
    Fault<T::Repr>,
> {
    match raw {
        Ok(src) => match crate::atom::decoded::<T>(src) {
            Ok(prev) => Ok(Ok(prev)),
            Err(fault) => Err(fault),
        },
        Err(src) => match crate::atom::decoded::<T>(src) {
            Ok(prev) => Ok(Err(prev)),
            Err(fault) => Err(fault),
        },
    }
}

impl<T: Atom> Atomic<T> {
    /// The representation that the atomic held when it was created.
    pub closed spec fn initial(&self) -> T::Repr {
        self.initial@
    }

    /// Creates a new atomic value.
    pub fn new(v: T) -> (atomic: Self)
        ensures
            atomic.initial() == v.pack_spec(),
    {
        let repr = v.pack();
        Atomic { cell: T::Repr::into_impl(repr), initial: Ghost(repr) }
    }

    /// Consumes the atomic and returns the contained value.
    ///
    /// Passing `self` by value guarantees that no other threads are
    /// concurrently accessing the atomic data.
    pub fn into_inner(self) -> (res: Result<T, Fault<T::Repr>>)
        ensures
            exists|src: T::Repr| res == crate::atom::decoded::<T>(src),
    {
        decode(T::Repr::from_impl(self.cell))
    }

    /// Loads the value from the atomic.
    ///
    /// `order` can be `SeqCst`, `Acquire` or `Relaxed`.
    pub fn load(&self, order: Ordering) -> (res: Result<T, Fault<T::Repr>>)
        requires
            crate::order::load_order(order),
        ensures
            exists|src: T::Repr| res == crate::atom::decoded::<T>(src),
    {
        decode(T::Repr::load(&self.cell, order))
    }

    /// Stores a value into the atomic.
    ///
    /// `order` can be `SeqCst`, `Release` or `Relaxed`.
    pub fn store(&self, v: T, order: Ordering)
        requires
            crate::order::store_order(order),
    {
        T::Repr::store(&self.cell, v.pack(), order);
    }

    /// Stores a value into the atomic, returning the previous value.
    ///
    /// Every `order` is possible. `Acquire` makes the store part of this
    /// operation `Relaxed`, and `Release` makes the load part `Relaxed`.
    pub fn swap(&self, v: T, order: Ordering) -> (res: Result<T, Fault<T::Repr>>)
        ensures
            exists|src: T::Repr| res == crate::atom::decoded::<T>(src),
    {
        decode(T::Repr::swap(&self.cell, v.pack(), order))
    }

    /// Stores a value into the atomic if the current value is the same as the
    /// `current` value.
    ///
    /// The return value tells whether the new value was written and holds the
    /// previous value: `Ok(Ok(_))` where it was written, `Ok(Err(_))` where it
    /// was not. On success the previous value is equal to `current`. On
    /// failure its representation is another than that of `current`; if that
    /// one represents no value, the result is the fault.
    ///
    /// `success` describes the required ordering if the operation succeeds
    /// while `failure` describes the required ordering when the operation
    /// fails. Using `Acquire` as success ordering makes the store part of this
    /// operation `Relaxed`, and using `Release` makes the successful load
    /// `Relaxed`. The failure ordering can only be `SeqCst`, `Acquire` or
    /// `Relaxed`.
    pub fn compare_exchange(&self, current: T, new: T, success: Ordering, failure: Ordering) -> (res:
        Result<Result<T, T>, Fault<T::Repr>>)
        requires
            crate::order::load_order(failure),
        ensures
            exists|raw: Result<T::Repr, T::Repr>|
                {
                    &&& res == previous_of::<T>(raw)
                    &&& match raw {
                        Ok(src) => src == current.pack_spec(),
                        Err(src) => src != current.pack_spec(),
                    }
                },
            res matches Ok(Ok(prev)) ==> prev == current,
    {
        let expected = current.pack();
        let desired = new.pack();
        let raw = T::Repr::compare_exchange(&self.cell, expected, desired, success, failure);
        Self::previous(raw)
    }

    /// Stores a value into the atomic if the current value is the same as the
    /// `current` value.
    ///
    /// Unlike `compare_exchange`, this function is allowed to spuriously fail
    /// even when the comparison succeeds, which can result in more efficient
    /// code on some platforms. The return value is that of
    /// `compare_exchange`, but on failure the previous value may be
    /// `current`.
    ///
    /// The two orderings are those of `compare_exchange`.
    pub fn compare_exchange_weak(
        &self,
        current: T,
        new: T,
        success: Ordering,
        failure: Ordering,
    ) -> (res: Result<Result<T, T>, Fault<T::Repr>>)
        requires
            crate::order::load_order(failure),
        ensures
            exists|raw: Result<T::Repr, T::Repr>|
                {
                    &&& res == previous_of::<T>(raw)
                    &&& raw matches Ok(src) ==> src == current.pack_spec()
                },
            res matches Ok(Ok(prev)) ==> prev == current,
    {
        let expected = current.pack();
        let desired = new.pack();
        let raw = T::Repr::compare_exchange_weak(&self.cell, expected, desired, success, failure);
        Self::previous(raw)
    }

    /// Fetches the value, and applies a function to it that returns an
    /// optional new value. Returns `Ok(Ok(previous_value))` if the function
    /// returned `Some(_)`, else `Ok(Err(previous_value))`.
    ///
    /// Note: This may call the function multiple times if the value has been
    /// changed from other threads in the meantime, as long as the function
    /// returns `Some(_)`, but the function will have been applied but once to
    /// the stored value.
    ///
    /// What is handed to the atomic for the value `n` that the function
    /// returned is the representation of `n`. Where the atomic holds the
    /// representation of no value, the function is not called, nothing is
    /// written, and the result is the fault.
    ///
    /// `set_order` describes the required ordering when the operation finally
    /// succeeds while `fetch_order` describes the required ordering for loads
    /// and failed updates. The latter can only be `SeqCst`, `Acquire` or
    /// `Relaxed`.
    pub fn fetch_update<F>(&self, set_order: Ordering, fetch_order: Ordering, f: F) -> (res: Result<
        Result<T, T>,
        Fault<T::Repr>,
    >) where F: Fn(T) -> Option<T>
        requires
            crate::order::load_order(fetch_order),
            forall|src: T::Repr|
                T::valid_repr(src) ==> #[trigger] call_requires(f, (T::unpack_spec(src),)),
        ensures
            exists|raw: Result<T::Repr, T::Repr>|
                {
                    &&& res == previous_of::<T>(raw)
                    &&& match raw {
                        Ok(src) => T::valid_repr(src) && exists|next: T|
                            call_ensures(f, (T::unpack_spec(src),), Some(next)),
                        Err(src) => T::valid_repr(src) ==> call_ensures(
                            f,
                            (T::unpack_spec(src),),
                            None,
                        ),
                    }
                },
            match res {
                Ok(Ok(prev)) => exists|next: T| call_ensures(f, (prev,), Some(next)),
                Ok(Err(prev)) => call_ensures(f, (prev,), None),
                Err(fault) => !T::valid_repr(fault.repr),
            },
    {
        let ghost gave = |v: T, out: Option<T>| call_ensures(f, (v,), out);
        let callback = &f;
        let on_repr = |src: T::Repr| -> (out: Option<T::Repr>)
            ensures
                match out {
                    Some(next) => T::valid_repr(src) && exists|n: T|
                        gave(T::unpack_spec(src), Some(n)) && next == n.pack_spec(),
                    None => T::valid_repr(src) ==> gave(T::unpack_spec(src), None),
                },
            {
                if T::is_valid(src) {
                    match callback(T::unpack(src)) {
                        Some(n) => Some(n.pack()),
                        None => None,
                    }
                } else {
                    None
                }
            };
        Self::previous(T::Repr::fetch_update(&self.cell, set_order, fetch_order, on_repr))
    }

    /// The result of the operations that may fail, made from what the atomic
    /// answered: on either side, the value that the representation stands
    /// for, and a fault where it stands for none.
    pub fn previous(raw: Result<T::Repr, T::Repr>) -> (res: Result<Result<T, T>, Fault<T::Repr>>)
        ensures
            res == previous_of::<T>(raw),
    {
        match raw {
            Ok(src) => match decode(src) {
                Ok(prev) => Ok(Ok(prev)),
                Err(fault) => Err(fault),
            },
            Err(src) => match decode(src) {
                Ok(prev) => Ok(Err(prev)),
                Err(fault) => Err(fault),
            },
        }
    }
}

impl<T: AtomLogic> Atomic<T> where T::Repr: PrimitiveAtomLogic {
    /// Bitwise "and" with the current value: sets the new value to the
    /// result of a bitwise "and" of the current value and `val`.
    ///
    /// Returns the previous value.
    pub fn fetch_and(&self, val: T, order: Ordering) -> (res: Result<T, Fault<T::Repr>>)
        ensures
            exists|src: T::Repr| res == crate::atom::decoded::<T>(src),
    {
        decode(T::Repr::fetch_and(&self.cell, val.pack(), order))
    }

    /// Bitwise "nand" with the current value: sets the new value to the
    /// result of a bitwise "nand" of the current value and `val`.
    ///
    /// Returns the previous value.
    pub fn fetch_nand(&self, val: T, order: Ordering) -> (res: Result<T, Fault<T::Repr>>)
        ensures
            exists|src: T::Repr| res == crate::atom::decoded::<T>(src),
    {
        decode(T::Repr::fetch_nand(&self.cell, val.pack(), order))
    }

    /// Bitwise "or" with the current value: sets the new value to the
    /// result of a bitwise "or" of the current value and `val`.
    ///
    /// Returns the previous value.
    pub fn fetch_or(&self, val: T, order: Ordering) -> (res: Result<T, Fault<T::Repr>>)
        ensures
            exists|src: T::Repr| res == crate::atom::decoded::<T>(src),
    {
        decode(T::Repr::fetch_or(&self.cell, val.pack(), order))
    }

    /// Bitwise "xor" with the current value: sets the new value to the
    /// result of a bitwise "xor" of the current value and `val`.
    ///
    /// Returns the previous value.
    pub fn fetch_xor(&self, val: T, order: Ordering) -> (res: Result<T, Fault<T::Repr>>)
        ensures
            exists|src: T::Repr| res == crate::atom::decoded::<T>(src),
    {
        decode(T::Repr::fetch_xor(&self.cell, val.pack(), order))
    }
}

impl<T: AtomInteger> Atomic<T> where T::Repr: PrimitiveAtomInteger {
    /// Adds to the current value. This operation wraps around on overflow.
    ///
    /// Returns the previous value.
    pub fn fetch_add(&self, val: T, order: Ordering) -> (res: Result<T, Fault<T::Repr>>)
        ensures
            exists|src: T::Repr| res == crate::atom::decoded::<T>(src),
    {
        decode(T::Repr::fetch_add(&self.cell, val.pack(), order))
    }

    /// Subtracts from the current value. This operation wraps around on
    /// overflow.
    ///
    /// Returns the previous value.
    pub fn fetch_sub(&self, val: T, order: Ordering) -> (res: Result<T, Fault<T::Repr>>)
        ensures
            exists|src: T::Repr| res == crate::atom::decoded::<T>(src),
    {
        decode(T::Repr::fetch_sub(&self.cell, val.pack(), order))
    }

    /// Maximum with the current value: sets the new value to the greater of
    /// the current value and `val`.
    ///
    /// Returns the previous value.
    pub fn fetch_max(&self, val: T, order: Ordering) -> (res: Result<T, Fault<T::Repr>>)
        ensures
            exists|src: T::Repr| res == crate::atom::decoded::<T>(src),
    {
        decode(T::Repr::fetch_max(&self.cell, val.pack(), order))
    }

    /// Minimum with the current value: sets the new value to the lesser of
    /// the current value and `val`.
    ///
    /// Returns the previous value.
    pub fn fetch_min(&self, val: T, order: Ordering) -> (res: Result<T, Fault<T::Repr>>)
        ensures
            exists|src: T::Repr| res == crate::atom::decoded::<T>(src),
    {
        decode(T::Repr::fetch_min(&self.cell, val.pack(), order))
    }
}

impl<T: Atom + Default> Default for Atomic<T> {
    /// An atomic that holds the default value of `T`.
    fn default() -> (atomic: Self) {
        Self::new(T::default())
    }
}

impl<T: Atom> From<T> for Atomic<T> {
    /// An atomic that holds `v`.
    fn from(v: T) -> (atomic: Self)
        ensures
            atomic.initial() == v.pack_spec(),
    {
        Self::new(v)
    }
}

impl<T: Atom> vstd::std_specs::convert::FromSpecImpl<T> for Atomic<T> {
    /// `from` says with which value the atomic starts out; as a whole an
    /// atomic has no value that a contract could name.
    open spec fn obeys_from_spec() -> bool {
        false
    }

    open spec fn from_spec(v: T) -> Self {
        arbitrary()
    }
}

} // verus!
