//! What the `unpack` that is derived for an enum computes.

use vstd::prelude::*;

verus! {

/// The position of the first variant whose discriminant is `src`, given the
/// discriminants of the variants in their order.
pub open spec fn variant_of(discriminants: Seq<i128>, src: i128) -> Option<int> {
    crate::derive::generate::first_index(discriminants, equals(src))
}

/// The test that a discriminant is `src`.
pub open spec fn equals(src: i128) -> spec_fn(i128) -> bool {
    |d: i128| d == src
}

/// Tries the variants in their order and returns the position of the first
/// whose discriminant equals `src`: the variant that a derived `unpack`
/// returns. `None` is where a derived `is_valid` says no and a derived
/// `unpack` panics.
pub fn find_variant(discriminants: &Vec<i128>, src: i128) -> (found: Option<usize>)
    ensures
        match found {
            Some(at) => variant_of(discriminants@, src) == Some(at as int),
            None => variant_of(discriminants@, src) is None,
        },
{
    let ghost p = equals(src);
    let mut at: usize = 0;
    while at < discriminants.len()
        invariant
            at <= discriminants.len(),
            p == equals(src),
            forall|j: int| 0 <= j < at ==> !#[trigger] p(discriminants@[j]),
        decreases discriminants.len() - at,
    {
        if discriminants[at] == src {
            proof {
                assert(p(discriminants@[at as int]));
                crate::derive::generate::first_index_found(discriminants@, p, at as int);
            }
            return Some(at);
        }
        at += 1;
    }
    proof {
        crate::derive::generate::first_index_absent(discriminants@, p);
    }
    None
}

/// A derived `unpack` gives back the variant that `pack` came from: where no
/// two variants share a discriminant, the discriminant of the variant at
/// `at` is found at `at`.
pub proof fn variant_round_trip(discriminants: Seq<i128>, at: int)
    requires
        0 <= at < discriminants.len(),
        forall|i: int, j: int|
            0 <= i < j < discriminants.len() ==> discriminants[i] != discriminants[j],
    ensures
        variant_of(discriminants, discriminants[at]) == Some(at),
{
    let p = equals(discriminants[at]);
    assert(p(discriminants[at]));
    assert forall|j: int| 0 <= j < at implies !#[trigger] p(discriminants[j]) by {
        assert(discriminants[j] != discriminants[at]);
    }
    crate::derive::generate::first_index_found(discriminants, p, at);
}

/// A derived `unpack` has no variant for a number that is the discriminant of
/// none.
pub proof fn variant_missing(discriminants: Seq<i128>, src: i128)
    requires
        !discriminants.contains(src),
    ensures
        variant_of(discriminants, src) is None,
{
    let p = equals(src);
    assert forall|j: int| 0 <= j < discriminants.len() implies !#[trigger] p(
        discriminants[j],
    ) by {
        assert(discriminants.contains(discriminants[j]));
    }
    crate::derive::generate::first_index_absent(discriminants, p);
}

} // verus!
