//! Deciding whether an impl can be derived, and which one.

use crate::derive::error::{DeriveError, DeriveErrorView};
use crate::derive::input::{
    Attribute, Data, DataEnum, DataStruct, DeriveInput, Fields, Meta, NestedMeta, Variant,
};
use crate::derive::plan::{AtomBody, AtomImpl, IntRepr, MarkerImpl};
use vstd::prelude::*;

verus! {

/// Whether `i` is the position of the first element of `s` that satisfies `p`.
pub open spec fn is_first<T>(s: Seq<T>, p: spec_fn(T) -> bool, i: int) -> bool {
    &&& 0 <= i < s.len()
    &&& p(s[i])
    &&& forall|j: int| 0 <= j < i ==> !#[trigger] p(s[j])
}

/// The position of the first element of `s` that satisfies `p`.
pub open spec fn first_index<T>(s: Seq<T>, p: spec_fn(T) -> bool) -> Option<int> {
    if exists|i: int| is_first(s, p, i) {
        Some(choose|i: int| is_first(s, p, i))
    } else {
        None
    }
}

/// `first_index` is `Some(i)` exactly for the one `i` that `is_first` holds of.
pub proof fn first_index_found<T>(s: Seq<T>, p: spec_fn(T) -> bool, i: int)
    requires
        is_first(s, p, i),
    ensures
        first_index(s, p) == Some(i),
{
    let k = choose|k: int| is_first(s, p, k);
    assert(is_first(s, p, k));
    if k < i {
        assert(!p(s[k]));
    } else if i < k {
        assert(!p(s[i]));
    }
}

/// `first_index` is `None` where no element satisfies `p`.
pub proof fn first_index_absent<T>(s: Seq<T>, p: spec_fn(T) -> bool)
    requires
        forall|j: int| 0 <= j < s.len() ==> !#[trigger] p(s[j]),
    ensures
        first_index(s, p) is None,
{
}

/// Whether the attribute is a meta item named `repr`.
pub open spec fn is_repr(attr: Attribute) -> bool {
    attr.meta matches Some(meta) && meta.name() == "repr"@
}

/// Whether the attribute argument is a word that names a primitive integer.
pub open spec fn is_integer_word(arg: NestedMeta) -> bool {
    arg matches NestedMeta::Word(word) && IntRepr::parse_spec(word@) is Some
}

/// The primitive integer that the attribute argument names.
pub open spec fn integer_of(arg: NestedMeta) -> IntRepr {
    match arg {
        NestedMeta::Word(word) => IntRepr::parse_spec(word@)->0,
        NestedMeta::Other => arbitrary(),
    }
}

/// Whether the variant has a field list, be it an empty one.
pub open spec fn has_fields(variant: Variant) -> bool {
    !(variant.fields is Unit)
}

/// The position of the first attribute named `repr`.
pub open spec fn first_repr(attrs: Seq<Attribute>) -> Option<int> {
    first_index(attrs, |attr: Attribute| is_repr(attr))
}

/// The position of the first argument that names a primitive integer.
pub open spec fn first_integer_word(args: Seq<NestedMeta>) -> Option<int> {
    first_index(args, |arg: NestedMeta| is_integer_word(arg))
}

/// The position of the first variant that has fields.
pub open spec fn first_with_fields(variants: Seq<Variant>) -> Option<int> {
    first_index(variants, |variant: Variant| has_fields(variant))
}

/// A result with its error seen through its view.
pub open spec fn outcome<T>(res: Result<T, DeriveError>) -> Result<T, DeriveErrorView> {
    match res {
        Ok(value) => Ok(value),
        Err(e) => Err(e@),
    }
}

/// What `derive(Atom)` yields for the struct `s`: its one field, or why not.
pub open spec fn struct_outcome<'a>(s: &'a DataStruct) -> Result<AtomBody<'a>, DeriveErrorView> {
    if s.fields.list().len() == 0 {
        Err(DeriveErrorView::no_fields())
    } else if s.fields.list().len() > 1 {
        Err(DeriveErrorView::many_fields())
    } else {
        Ok(AtomBody::Struct(&s.fields.list()[0]))
    }
}

/// What `derive(Atom)` yields for the enum `e` declared by `input`.
///
/// The first attribute named `repr` decides: it has to be a list, and the
/// first of its arguments that names a primitive integer gives `Repr`. Then
/// no variant may have fields.
pub open spec fn enum_outcome<'a>(input: &'a DeriveInput, e: &'a DataEnum) -> Result<
    AtomBody<'a>,
    DeriveErrorView,
> {
    match first_repr(input.attrs@) {
        None => Err(DeriveErrorView::no_repr(input.ident@)),
        Some(at) => match input.attrs@[at].meta {
            Some(Meta::List(_, args)) => match first_integer_word(args@) {
                None => Err(DeriveErrorView::repr_without_integer(at as usize)),
                Some(word) => match first_with_fields(e.variants@) {
                    Some(variant) => Err(DeriveErrorView::variant_with_fields(variant as usize)),
                    None => Ok(AtomBody::Enum(integer_of(args@[word]), &e.variants)),
                },
            },
            _ => Err(DeriveErrorView::repr_not_list(input.ident@, at as usize)),
        },
    }
}

/// What `derive(Atom)` yields for the declaration `input`.
pub open spec fn atom_outcome<'a>(input: &'a DeriveInput) -> Result<AtomImpl<'a>, DeriveErrorView> {
    let body = match &input.data {
        Data::Struct(s) => struct_outcome(s),
        Data::Enum(e) => enum_outcome(input, e),
        Data::Union => Err(DeriveErrorView::union_atom()),
    };
    match body {
        Ok(body) => Ok(AtomImpl { input, body }),
        Err(e) => Err(e),
    }
}

/// What the derive of the marker trait `trait_name` yields for `input`.
pub open spec fn marker_outcome<'a>(trait_name: &'a str, input: &'a DeriveInput) -> Result<
    MarkerImpl<'a>,
    DeriveErrorView,
> {
    match input.data {
        Data::Struct(_) => Ok(MarkerImpl { trait_name, input }),
        Data::Enum(_) => Err(DeriveErrorView::enum_marker(trait_name@)),
        Data::Union => Err(DeriveErrorView::union_marker(trait_name@)),
    }
}

/// No impl is derived for a union, for a struct that has not exactly one
/// field, for an enum without an attribute named `repr`, or for an enum with
/// a variant that has fields; and the first three are refused each in its own
/// words, as is a variant with fields on an enum whose `repr(_)` names an
/// integer.
pub proof fn refused_shapes(input: &DeriveInput)
    ensures
        input.data is Union ==> atom_outcome(input) == Err::<AtomImpl, _>(
            DeriveErrorView::union_atom(),
        ),
        input.data matches Data::Struct(s) && s.fields.list().len() == 0 ==> atom_outcome(input)
            == Err::<AtomImpl, _>(DeriveErrorView::no_fields()),
        input.data matches Data::Struct(s) && s.fields.list().len() > 1 ==> atom_outcome(input)
            == Err::<AtomImpl, _>(DeriveErrorView::many_fields()),
        input.data is Enum && first_repr(input.attrs@) is None ==> atom_outcome(input) == Err::<
            AtomImpl,
            _,
        >(DeriveErrorView::no_repr(input.ident@)),
        input.data matches Data::Enum(e) && first_with_fields(e.variants@) is Some ==> atom_outcome(
            input,
        ) is Err,
        DeriveErrorView::union_atom() != DeriveErrorView::many_fields(),
        DeriveErrorView::union_atom() != DeriveErrorView::no_repr(input.ident@),
        DeriveErrorView::many_fields() != DeriveErrorView::no_repr(input.ident@),
        forall|at: usize|
            {
                let fields = #[trigger] DeriveErrorView::variant_with_fields(at);
                &&& fields != DeriveErrorView::union_atom()
                &&& fields != DeriveErrorView::many_fields()
                &&& fields != DeriveErrorView::no_repr(input.ident@)
            },
{
}

/// An enum whose `repr(_)` names only integers of 128 bits is refused like one
/// whose `repr(_)` names no integer: there is no atomic type of that width.
pub proof fn wide_repr_refused(input: &DeriveInput, e: &DataEnum, at: int, args: Vec<NestedMeta>)
    requires
        first_repr(input.attrs@) == Some(at),
        input.attrs@[at].meta matches Some(Meta::List(_, found)) && found == args,
        forall|j: int|
            0 <= j < args@.len() ==> {
                &&& #[trigger] args@[j] matches NestedMeta::Word(word)
                &&& (word@ == "u128"@ || word@ == "i128"@)
            },
    ensures
        enum_outcome(input, e) == Err::<AtomBody, _>(
            DeriveErrorView::repr_without_integer(at as usize),
        ),
{
    IntRepr::wide_integers_refused();
    let p = |arg: NestedMeta| is_integer_word(arg);
    assert forall|j: int| 0 <= j < args@.len() implies !#[trigger] p(args@[j]) by {
        assert(args@[j] is Word);
    }
    first_index_absent(args@, p);
}

/// An impl is derived for every struct of one field, and for every enum whose
/// first `repr` attribute is a list that names an integer and whose variants
/// have no fields.
pub proof fn derived_shapes(input: &DeriveInput)
    ensures
        input.data matches Data::Struct(s) ==> (s.fields.list().len() == 1 ==> atom_outcome(input)
            == Ok::<_, DeriveErrorView>(
            AtomImpl { input, body: AtomBody::Struct(&s.fields.list()[0]) },
        )),
        ({
            &&& input.data matches Data::Enum(e)
            &&& first_repr(input.attrs@) matches Some(at)
            &&& input.attrs@[at].meta matches Some(Meta::List(_, args))
            &&& first_integer_word(args@) matches Some(word)
            &&& first_with_fields(e.variants@) is None
        }) ==> atom_outcome(input) is Ok,
{
}

fn find_repr(attrs: &Vec<Attribute>) -> (found: Option<usize>)
    ensures
        match found {
            Some(at) => first_repr(attrs@) == Some(at as int),
            None => first_repr(attrs@) is None,
        },
{
    let ghost p = |attr: Attribute| is_repr(attr);
    let mut at: usize = 0;
    while at < attrs.len()
        invariant
            at <= attrs.len(),
            p == (|attr: Attribute| is_repr(attr)),
            forall|j: int| 0 <= j < at ==> !#[trigger] p(attrs@[j]),
        decreases attrs.len() - at,
    {
        let named = match &attrs[at].meta {
            Some(meta) => meta.has_name("repr"),
            None => false,
        };
        if named {
            proof {
                assert(p(attrs@[at as int]));
                first_index_found(attrs@, p, at as int);
            }
            return Some(at);
        }
        at += 1;
    }
    proof {
        first_index_absent(attrs@, p);
    }
    None
}

fn find_integer_word(args: &Vec<NestedMeta>) -> (found: Option<(usize, IntRepr)>)
    ensures
        match found {
            Some((at, repr)) => first_integer_word(args@) == Some(at as int) && repr == integer_of(
                args@[at as int],
            ),
            None => first_integer_word(args@) is None,
        },
{
    let ghost p = |arg: NestedMeta| is_integer_word(arg);
    let mut at: usize = 0;
    while at < args.len()
        invariant
            at <= args.len(),
            p == (|arg: NestedMeta| is_integer_word(arg)),
            forall|j: int| 0 <= j < at ==> !#[trigger] p(args@[j]),
        decreases args.len() - at,
    {
        let named = match &args[at] {
            NestedMeta::Word(word) => IntRepr::parse(word.as_str()),
            NestedMeta::Other => None,
        };
        if let Some(repr) = named {
            proof {
                assert(p(args@[at as int]));
                first_index_found(args@, p, at as int);
            }
            return Some((at, repr));
        }
        at += 1;
    }
    proof {
        first_index_absent(args@, p);
    }
    None
}

fn find_with_fields(variants: &Vec<Variant>) -> (found: Option<usize>)
    ensures
        match found {
            Some(at) => first_with_fields(variants@) == Some(at as int),
            None => first_with_fields(variants@) is None,
        },
{
    let ghost p = |variant: Variant| has_fields(variant);
    let mut at: usize = 0;
    while at < variants.len()
        invariant
            at <= variants.len(),
            p == (|variant: Variant| has_fields(variant)),
            forall|j: int| 0 <= j < at ==> !#[trigger] p(variants@[j]),
        decreases variants.len() - at,
    {
        let unit = match &variants[at].fields {
            Fields::Unit => true,
            _ => false,
        };
        if !unit {
            proof {
                assert(p(variants@[at as int]));
                first_index_found(variants@, p, at as int);
            }
            return Some(at);
        }
        at += 1;
    }
    proof {
        first_index_absent(variants@, p);
    }
    None
}

/// The body of the `Atom` impl for the struct `s`.
///
/// A struct has to have exactly one field, named or not.
pub fn atom_impl_for_struct<'a>(s: &'a DataStruct) -> (res: Result<AtomBody<'a>, DeriveError>)
    ensures
        outcome(res) == struct_outcome(s),
{
    let count = s.fields.len();
    if count == 0 {
        return Err(DeriveError::no_fields());
    }
    if count > 1 {
        return Err(DeriveError::many_fields());
    }
    Ok(AtomBody::Struct(s.fields.get(0)))
}

/// The body of the `Atom` impl for the enum `e` that `input` declares.
pub fn atom_impl_for_enum<'a>(input: &'a DeriveInput, e: &'a DataEnum) -> (res: Result<
    AtomBody<'a>,
    DeriveError,
>)
    ensures
        outcome(res) == enum_outcome(input, e),
{
    let at = match find_repr(&input.attrs) {
        Some(at) => at,
        None => {
            return Err(DeriveError::no_repr(input.ident.as_str()));
        },
    };
    let repr = match &input.attrs[at].meta {
        Some(Meta::List(_, args)) => match find_integer_word(args) {
            Some((_, repr)) => repr,
            None => {
                return Err(DeriveError::repr_without_integer(at));
            },
        },
        _ => {
            return Err(DeriveError::repr_not_list(input.ident.as_str(), at));
        },
    };
    if let Some(variant) = find_with_fields(&e.variants) {
        return Err(DeriveError::variant_with_fields(variant));
    }
    Ok(AtomBody::Enum(repr, &e.variants))
}

/// The `Atom` impl for the declaration `input`.
pub fn gen_atom_impl<'a>(input: &'a DeriveInput) -> (res: Result<AtomImpl<'a>, DeriveError>)
    ensures
        outcome(res) == atom_outcome(input),
{
    let body = match &input.data {
        Data::Struct(s) => atom_impl_for_struct(s),
        Data::Enum(e) => atom_impl_for_enum(input, e),
        Data::Union => Err(DeriveError::union_atom()),
    };
    match body {
        Ok(body) => Ok(AtomImpl { input, body }),
        Err(e) => Err(e),
    }
}

/// The impl of the marker trait `trait_name` for the declaration `input`.
///
/// Only a struct gets one: for an enum the operations that the trait unlocks
/// would leave the set of its discriminants.
pub fn gen_marker_trait_impl<'a>(trait_name: &'a str, input: &'a DeriveInput) -> (res: Result<
    MarkerImpl<'a>,
    DeriveError,
>)
    ensures
        outcome(res) == marker_outcome(trait_name, input),
{
    match &input.data {
        Data::Struct(_) => Ok(MarkerImpl { trait_name, input }),
        Data::Enum(_) => Err(DeriveError::enum_marker(trait_name)),
        Data::Union => Err(DeriveError::union_marker(trait_name)),
    }
}

} // verus!
