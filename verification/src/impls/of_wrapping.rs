//! `Wrapping<T>`, represented as `T` is.

use crate::atom::{Atom, AtomLogic};
use crate::impls::PrimitiveAtomLogic;
use core::num::Wrapping;
use vstd::prelude::*;

verus! {

/// `core::num::Wrapping`, a struct of `std` around one public field.
#[verifier::external_type_specification]
pub struct ExWrapping<T>(Wrapping<T>);

impl<T: Atom> Atom for Wrapping<T> {
    type Repr = T::Repr;

    open spec fn pack_spec(self) -> Self::Repr {
        self.0.pack_spec()
    }

    open spec fn unpack_spec(src: Self::Repr) -> Self {
        Wrapping(T::unpack_spec(src))
    }

    open spec fn valid_repr(src: Self::Repr) -> bool {
        T::valid_repr(src)
    }

    fn pack(self) -> (repr: Self::Repr) {
        self.0.pack()
    }

    fn unpack(src: Self::Repr) -> (v: Self) {
        Wrapping(T::unpack(src))
    }

    fn is_valid(src: Self::Repr) -> (valid: bool) {
        T::is_valid(src)
    }
}

impl<T: AtomLogic> AtomLogic for Wrapping<T> where T::Repr: PrimitiveAtomLogic {

}

} // verus!
