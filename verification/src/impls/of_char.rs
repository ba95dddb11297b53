//! `char`, represented by its code point.

use crate::atom::Atom;
use vstd::prelude::*;

verus! {

/// Whether `code` is a Unicode scalar value: a code point up to `0x10FFFF`
/// that is no surrogate.
pub open spec fn is_scalar_value(code: u32) -> bool {
    code <= 0xD7FF || 0xE000 <= code <= 0x10FFFF
}

/// `char::try_from(u32)`: the `char` with that code point, and none where
/// the number is no Unicode scalar value.
#[verifier::external_body]
fn char_of(code: u32) -> (c: Option<char>)
    ensures
        c == (if is_scalar_value(code) {
            Some(code as char)
        } else {
            None
        }),
{
    char::try_from(code).ok()
}

/// The code point of `c`.
fn code_of(c: char) -> (code: u32)
    ensures
        code == c as u32,
        is_scalar_value(code),
        code as char == c,
{
    c as u32
}

impl Atom for char {
    type Repr = u32;

    open spec fn pack_spec(self) -> Self::Repr {
        self as u32
    }

    open spec fn unpack_spec(src: Self::Repr) -> Self {
        src as char
    }

    open spec fn valid_repr(src: Self::Repr) -> bool {
        is_scalar_value(src)
    }

    fn pack(self) -> (repr: Self::Repr) {
        code_of(self)
    }

    fn unpack(src: Self::Repr) -> (v: Self) {
        char_of(src).unwrap()
    }

    fn is_valid(src: Self::Repr) -> (valid: bool) {
        src <= 0xD7FF || (0xE000 <= src && src <= 0x10FFFF)
    }
}

} // verus!
