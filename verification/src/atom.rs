//! The traits by which a type of your own gets into an `Atomic`.

use crate::impls::{PrimitiveAtom, PrimitiveAtomInteger, PrimitiveAtomLogic};
use vstd::prelude::*;

verus! {

/// Types that can be represented by a primitive type supporting atomic
/// operations.
///
/// This trait is implemented for all primitive types that support atomic
/// operations, and for `char`. In addition to this, you can implement it for
/// your own types as long as they can be represented as one such primitive
/// type.
///
/// `pack` and `unpack` define the conversion to and from the atomic
/// representation. They should be fast: [`Atomic`](crate::Atomic) calls them
/// at least once in every method.
pub trait Atom: Sized {
    /// The atomic representation of this type.
    ///
    /// In this trait's implementations for the primitive types themselves,
    /// `Repr` is `Self`.
    type Repr: PrimitiveAtom;

    /// The representation of `self`: what `pack` returns. An implementation
    /// that is to be verified defines it.
    open spec fn pack_spec(self) -> Self::Repr {
        arbitrary()
    }

    /// The value that `src` represents: what `unpack` returns. An
    /// implementation that is to be verified defines it.
    open spec fn unpack_spec(src: Self::Repr) -> Self {
        arbitrary()
    }

    /// Whether `src` represents a value: what `unpack` accepts. Where an
    /// implementation does not say, `unpack` accepts everything.
    open spec fn valid_repr(src: Self::Repr) -> bool {
        true
    }

    /// Converts the type to its atomic representation.
    ///
    /// What it returns is a representation, and the one of `self`: `unpack`
    /// gives `self` back for it.
    fn pack(self) -> (repr: Self::Repr)
        ensures
            repr == self.pack_spec(),
            Self::valid_repr(repr),
            Self::unpack_spec(repr) == self,
    ;

    /// Creates an instance of this type from the atomic representation.
    ///
    /// It is asked only of what represents a value. `Atomic` looks with
    /// `is_valid` at what it finds in its cell before it calls this.
    fn unpack(src: Self::Repr) -> (v: Self)
        requires
            Self::valid_repr(src),
        ensures
            v == Self::unpack_spec(src),
    ;

    /// Whether `src` represents a value.
    ///
    /// What `pack` returns does. If the type also implements `AtomLogic` or
    /// `AtomInteger`, the result of such an operation need not, nor need what
    /// another thread has written.
    fn is_valid(src: Self::Repr) -> (valid: bool)
        ensures
            valid == Self::valid_repr(src),
    ;
}

/// A representation of no value, found where one of a value was looked for.
#[derive(Clone, Copy, Debug, PartialEq, Eq)]
pub struct Fault<R> {
    /// What was found.
    pub repr: R,
}

/// What is made of the representation `src` that an atomic handed out: the
/// value that it represents, or the fault that it represents none.
pub open spec fn decoded<T: Atom>(src: T::Repr) -> Result<T, Fault<T::Repr>> {
    if T::valid_repr(src) {
        Ok(T::unpack_spec(src))
    } else {
        Err(Fault { repr: src })
    }
}

/// What is made of the representation `src` that an atomic handed out: the
/// value that it represents, or the fault that it represents none.
pub fn decode<T: Atom>(src: T::Repr) -> (res: Result<T, Fault<T::Repr>>)
    ensures
        res == decoded::<T>(src),
{
    if T::is_valid(src) {
        Ok(T::unpack(src))
    } else {
        Err(Fault { repr: src })
    }
}

/// Round trip: whatever `pack` returns for `v`, `unpack` accepts it and
/// returns `v` for it.
pub proof fn unpack_of_pack<T: Atom>(v: T, repr: T::Repr, back: T)
    requires
        call_ensures(T::pack, (v,), repr),
        call_ensures(T::unpack, (repr,), back),
    ensures
        call_requires(T::unpack, (repr,)),
        back == v,
{
}

/// Round trip through an atomic: whatever `pack` returns for `v`, what is made
/// of it when it comes back out of an atomic is `v`, and no fault.
pub proof fn decoded_of_pack<T: Atom>(v: T, repr: T::Repr)
    requires
        call_ensures(T::pack, (v,), repr),
    ensures
        decoded::<T>(repr) == Ok::<T, Fault<T::Repr>>(v),
{
}

/// `Atom`s for which logical operations on their atomic representation make
/// sense.
///
/// Implementing this marker trait for your type makes it possible to use
/// [`Atomic::fetch_and`](crate::Atomic::fetch_and) and similar methods. Note
/// that **the logical operation is performed on the atomic representation of
/// your type and _not_ on your type directly**!
///
/// Where the result of such an operation represents no value, the next
/// reader of the atomic gets a [`Fault`]. A set of up to 64 small numbers kept
/// in an `u64` is safe from that; an enum of three variants represented by
/// `0`, `1` and `2` is not, as `1 | 2` is `3`.
pub trait AtomLogic: Atom where Self::Repr: PrimitiveAtomLogic {

}

/// `Atom`s for which integer operations on their atomic representation make
/// sense.
///
/// Implementing this marker trait for your type makes it possible to use
/// [`Atomic::fetch_add`](crate::Atomic::fetch_add) and similar methods. Note
/// that **the integer operation is performed on the atomic representation of
/// your type and _not_ on your type directly**!
///
/// Where the result of such an operation represents no value, the next
/// reader of the atomic gets a [`Fault`]. A distance in meters kept in an
/// `u64` is safe from that.
pub trait AtomInteger: Atom where Self::Repr: PrimitiveAtomInteger {

}

} // verus!
