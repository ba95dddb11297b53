//! Derivation of `Atom`, `AtomLogic` and `AtomInteger` for a type declaration.
//!
//! The declaration is given as plain data ([`input::DeriveInput`]). The
//! functions of [`generate`] decide whether an impl can be derived for it and
//! which one, [`render`] writes the impl as source text, and the three
//! functions here do both.

use crate::derive::error::{DeriveError, DeriveErrorView};
use crate::derive::generate::{gen_atom_impl, gen_marker_trait_impl};
use crate::derive::input::DeriveInput;
use vstd::prelude::*;

pub mod error;
pub mod generate;
pub mod input;
pub mod lookup;
pub mod plan;
pub mod render;

verus! {

/// The source text of what `derive(Atom)` yields for `input`.
pub open spec fn atom_expansion(input: &DeriveInput) -> Result<Seq<char>, DeriveErrorView> {
    match crate::derive::generate::atom_outcome(input) {
        Ok(derived) => Ok(derived.source()),
        Err(e) => Err(e),
    }
}

/// The source text of what the derive of the marker trait `trait_name` yields
/// for `input`.
pub open spec fn marker_expansion(trait_name: &str, input: &DeriveInput) -> Result<
    Seq<char>,
    DeriveErrorView,
> {
    match crate::derive::generate::marker_outcome(trait_name, input) {
        Ok(derived) => Ok(derived.source()),
        Err(e) => Err(e),
    }
}

/// A result with its text and its error seen through their views.
pub open spec fn expansion(res: Result<String, DeriveError>) -> Result<Seq<char>, DeriveErrorView> {
    match res {
        Ok(text) => Ok(text@),
        Err(e) => Err(e@),
    }
}

/// Derives `Atom` for the declared type: the impl as source text, or the
/// reason why the declaration admits none.
pub fn derive_atom(input: &DeriveInput) -> (res: Result<String, DeriveError>)
    ensures
        expansion(res) == atom_expansion(input),
{
    match gen_atom_impl(input) {
        Ok(derived) => Ok(derived.to_source()),
        Err(e) => Err(e),
    }
}

/// Derives `AtomLogic` for the declared type: the impl as source text, or the
/// reason why the declaration admits none.
pub fn derive_atom_logic(input: &DeriveInput) -> (res: Result<String, DeriveError>)
    ensures
        expansion(res) == marker_expansion("AtomLogic", input),
{
    match gen_marker_trait_impl("AtomLogic", input) {
        Ok(derived) => Ok(derived.to_source()),
        Err(e) => Err(e),
    }
}

/// Derives `AtomInteger` for the declared type: the impl as source text, or
/// the reason why the declaration admits none.
pub fn derive_atom_integer(input: &DeriveInput) -> (res: Result<String, DeriveError>)
    ensures
        expansion(res) == marker_expansion("AtomInteger", input),
{
    match gen_marker_trait_impl("AtomInteger", input) {
        Ok(derived) => Ok(derived.to_source()),
        Err(e) => Err(e),
    }
}

} // verus!
