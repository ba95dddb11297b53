//! The source text of a derived impl.

use crate::derive::input::{DeriveInput, Field, Variant};
use crate::derive::plan::{AtomBody, AtomImpl, IntRepr, MarkerImpl};
use vstd::prelude::*;

verus! {

/// The impl's header up to its opening brace: `impl`, the generics, the
/// trait by its path in this crate, `for`, the type and, where there is one,
/// the `where` clause.
pub open spec fn header(trait_name: Seq<char>, input: &DeriveInput) -> Seq<char> {
    "impl"@ + input.generics.impl_generics@ + " atomig::"@ + trait_name + " for "@ + input.ident@
        + input.generics.ty_generics@ + where_part(input.generics.where_clause@)
}

/// The `where` clause behind a space, or nothing where the clause is empty.
pub open spec fn where_part(where_clause: Seq<char>) -> Seq<char> {
    if where_clause.len() == 0 {
        Seq::empty()
    } else {
        " "@ + where_clause
    }
}

/// The expression that takes the field out of `self`.
pub open spec fn field_access(field: &Field) -> Seq<char> {
    match field.ident {
        Some(name) => "self."@ + name@,
        None => "self.0"@,
    }
}

/// The expression that builds the struct around `src`.
pub open spec fn struct_init(field: &Field) -> Seq<char> {
    match field.ident {
        Some(name) => "Self { "@ + name@ + ": src }"@,
        None => "Self(src)"@,
    }
}

/// The test of `src` against one variant, which returns the variant on a match.
pub open spec fn variant_check(enum_name: Seq<char>, repr: IntRepr, variant: Variant) -> Seq<char> {
    "if src == "@ + enum_name + "::"@ + variant.ident@ + " as "@ + repr.name_spec() + " { return "@
        + enum_name + "::"@ + variant.ident@ + "; } "@
}

/// The tests of `src` against the variants, in their order.
pub open spec fn variant_checks(enum_name: Seq<char>, repr: IntRepr, variants: Seq<Variant>) -> Seq<
    char,
>
    decreases variants.len(),
{
    if variants.len() == 0 {
        Seq::empty()
    } else {
        variant_checks(enum_name, repr, variants.drop_last()) + variant_check(
            enum_name,
            repr,
            variants.last(),
        )
    }
}

/// The statement that ends a derived `unpack`, reached when no variant matched.
pub open spec fn fault(enum_name: Seq<char>, repr: IntRepr) -> Seq<char> {
    "panic!(\"invalid '"@ + repr.name_spec() + "' value '{}' for enum '"@ + enum_name
        + "' in `Atom::unpack`\", src);"@
}

/// `Repr`, `pack` and `unpack` of a derived `Atom` impl for a struct with the
/// one field `field`.
pub open spec fn struct_conversions(field: &Field) -> Seq<char> {
    "type Repr = "@ + field.ty@ + "; fn pack(self) -> Self::Repr { "@ + field_access(field)
        + " } fn unpack(src: Self::Repr) -> Self { "@ + struct_init(field) + " }"@
}

/// `Repr`, `pack` and `unpack` of a derived `Atom` impl for the enum named
/// `enum_name`.
pub open spec fn enum_conversions(enum_name: Seq<char>, repr: IntRepr, variants: Seq<Variant>) -> Seq<
    char,
> {
    "type Repr = "@ + repr.name_spec() + "; fn pack(self) -> Self::Repr { self as "@
        + repr.name_spec() + " } fn unpack(src: Self::Repr) -> Self { "@ + variant_checks(
        enum_name,
        repr,
        variants,
    ) + fault(enum_name, repr) + " }"@
}

/// The test of `src` against one variant, which returns `true` on a match.
pub open spec fn variant_test(enum_name: Seq<char>, repr: IntRepr, variant: Variant) -> Seq<char> {
    "if src == "@ + enum_name + "::"@ + variant.ident@ + " as "@ + repr.name_spec()
        + " { return true; } "@
}

/// The tests of `src` against the variants, in their order, each of which
/// returns `true` on a match.
pub open spec fn variant_tests(enum_name: Seq<char>, repr: IntRepr, variants: Seq<Variant>) -> Seq<
    char,
>
    decreases variants.len(),
{
    if variants.len() == 0 {
        Seq::empty()
    } else {
        variant_tests(enum_name, repr, variants.drop_last()) + variant_test(
            enum_name,
            repr,
            variants.last(),
        )
    }
}

/// The items of a derived `Atom` impl for a struct with the one field
/// `field`: every value of the field represents a struct.
pub open spec fn struct_items(field: &Field) -> Seq<char> {
    struct_conversions(field) + " fn is_valid(_: Self::Repr) -> bool { true }"@
}

/// The items of a derived `Atom` impl for the enum named `enum_name`: what a
/// variant is cast to represents a value, and nothing else does.
pub open spec fn enum_items(enum_name: Seq<char>, repr: IntRepr, variants: Seq<Variant>) -> Seq<
    char,
> {
    enum_conversions(enum_name, repr, variants) + " fn is_valid(src: Self::Repr) -> bool { "@
        + variant_tests(enum_name, repr, variants) + "false }"@
}

/// The items of a derived `Atom` impl for the type named `name`.
pub open spec fn items(name: Seq<char>, body: AtomBody) -> Seq<char> {
    match body {
        AtomBody::Struct(field) => struct_items(field),
        AtomBody::Enum(repr, variants) => enum_items(name, repr, variants@),
    }
}

impl<'a> MarkerImpl<'a> {
    /// The impl as source text.
    pub open spec fn source(self) -> Seq<char> {
        header(self.trait_name@, self.input) + " {}"@
    }

    /// The impl as source text.
    pub fn to_source(&self) -> (text: String)
        ensures
            text@ == self.source(),
    {
        let mut text = String::from_str("impl");
        push_header(&mut text, self.trait_name, self.input);
        text.append(" {}");
        text
    }
}

impl<'a> AtomImpl<'a> {
    /// The impl as source text.
    pub open spec fn source(self) -> Seq<char> {
        header("Atom"@, self.input) + " { "@ + items(self.input.ident@, self.body) + " }"@
    }

    /// The impl as source text.
    pub fn to_source(&self) -> (text: String)
        ensures
            text@ == self.source(),
    {
        let mut text = String::from_str("impl");
        push_header(&mut text, "Atom", self.input);
        text.append(" { ");
        match self.body {
            AtomBody::Struct(field) => push_struct_items(&mut text, field),
            AtomBody::Enum(repr, variants) => push_enum_items(
                &mut text,
                self.input.ident.as_str(),
                repr,
                variants,
            ),
        }
        text.append(" }");
        text
    }
}

/// Appends the items of the impl for a struct with the one field `field`.
fn push_struct_items(text: &mut String, field: &Field)
    ensures
        final(text)@ == old(text)@ + struct_items(field),
{
    let ghost start = text@;
    push_struct_conversions(text, field);
    text.append(" fn is_valid(_: Self::Repr) -> bool { true }");
    assert(text@ =~= start + struct_items(field));
}

/// Appends the items of the impl for the enum `enum_name`.
fn push_enum_items(text: &mut String, enum_name: &str, repr: IntRepr, variants: &Vec<Variant>)
    ensures
        final(text)@ == old(text)@ + enum_items(enum_name@, repr, variants@),
{
    let ghost start = text@;
    push_enum_conversions(text, enum_name, repr, variants);
    let ghost converted = text@;
    text.append(" fn is_valid(src: Self::Repr) -> bool { ");
    push_variant_tests(text, enum_name, repr, variants);
    text.append("false }");
    assert(text@ =~= converted + (" fn is_valid(src: Self::Repr) -> bool { "@ + variant_tests(
        enum_name@,
        repr,
        variants@,
    ) + "false }"@));
    assert(text@ =~= start + enum_items(enum_name@, repr, variants@));
}

/// Appends the tests of `src` against the variants that return `true`.
fn push_variant_tests(text: &mut String, enum_name: &str, repr: IntRepr, variants: &Vec<Variant>)
    ensures
        final(text)@ == old(text)@ + variant_tests(enum_name@, repr, variants@),
{
    let ghost start = text@;
    let mut at: usize = 0;
    while at < variants.len()
        invariant
            at <= variants.len(),
            text@ == start + variant_tests(enum_name@, repr, variants@.take(at as int)),
        decreases variants.len() - at,
    {
        let ghost before = text@;
        text.append("if src == ");
        text.append(enum_name);
        text.append("::");
        text.append(variants[at].ident.as_str());
        text.append(" as ");
        text.append(repr.name());
        text.append(" { return true; } ");
        proof {
            let next = variants@.take(at as int + 1);
            assert(next.drop_last() =~= variants@.take(at as int));
            assert(next.last() == variants@[at as int]);
            assert(text@ =~= before + variant_test(enum_name@, repr, variants@[at as int]));
        }
        at += 1;
    }
    assert(variants@.take(at as int) =~= variants@);
}

/// Appends `Repr`, `pack` and `unpack` for a struct with the one field `field`.
fn push_struct_conversions(text: &mut String, field: &Field)
    ensures
        final(text)@ == old(text)@ + struct_conversions(field),
{
    let ghost start = text@;
    text.append("type Repr = ");
    text.append(field.ty.as_str());
    text.append("; fn pack(self) -> Self::Repr { ");
    match &field.ident {
        Some(name) => {
            text.append("self.");
            text.append(name.as_str());
        },
        None => {
            text.append("self.0");
        },
    }
    let ghost middle = text@;
    assert(middle =~= start + ("type Repr = "@ + field.ty@ + "; fn pack(self) -> Self::Repr { "@
        + field_access(field)));
    text.append(" } fn unpack(src: Self::Repr) -> Self { ");
    match &field.ident {
        Some(name) => {
            text.append("Self { ");
            text.append(name.as_str());
            text.append(": src }");
        },
        None => {
            text.append("Self(src)");
        },
    }
    text.append(" }");
    assert(text@ =~= middle + (" } fn unpack(src: Self::Repr) -> Self { "@ + struct_init(field)
        + " }"@));
    assert(text@ =~= start + struct_conversions(field));
}

/// Appends `Repr`, `pack` and `unpack` for the enum `enum_name`.
fn push_enum_conversions(text: &mut String, enum_name: &str, repr: IntRepr, variants: &Vec<Variant>)
    ensures
        final(text)@ == old(text)@ + enum_conversions(enum_name@, repr, variants@),
{
    let ghost start = text@;
    text.append("type Repr = ");
    text.append(repr.name());
    text.append("; fn pack(self) -> Self::Repr { self as ");
    text.append(repr.name());
    text.append(" } fn unpack(src: Self::Repr) -> Self { ");
    let ghost opened = text@;
    assert(opened =~= start + ("type Repr = "@ + repr.name_spec()
        + "; fn pack(self) -> Self::Repr { self as "@ + repr.name_spec()
        + " } fn unpack(src: Self::Repr) -> Self { "@));
    push_variant_checks(text, enum_name, repr, variants);
    let ghost checked = text@;
    text.append("panic!(\"invalid '");
    text.append(repr.name());
    text.append("' value '{}' for enum '");
    text.append(enum_name);
    text.append("' in `Atom::unpack`\", src);");
    assert(text@ =~= checked + fault(enum_name@, repr));
    text.append(" }");
    assert(text@ =~= start + enum_conversions(enum_name@, repr, variants@));
}

/// Appends what `header` gives after its first word.
fn push_header(text: &mut String, trait_name: &str, input: &DeriveInput)
    requires
        old(text)@ == "impl"@,
    ensures
        final(text)@ == header(trait_name@, input),
{
    text.append(input.generics.impl_generics.as_str());
    text.append(" atomig::");
    text.append(trait_name);
    text.append(" for ");
    text.append(input.ident.as_str());
    text.append(input.generics.ty_generics.as_str());
    if !input.generics.where_clause.as_str().is_empty() {
        text.append(" ");
        text.append(input.generics.where_clause.as_str());
    }
    assert(text@ =~= header(trait_name@, input));
}

/// Appends the tests of `src` against the variants, in their order.
fn push_variant_checks(text: &mut String, enum_name: &str, repr: IntRepr, variants: &Vec<Variant>)
    ensures
        final(text)@ == old(text)@ + variant_checks(enum_name@, repr, variants@),
{
    let ghost start = text@;
    let mut at: usize = 0;
    while at < variants.len()
        invariant
            at <= variants.len(),
            text@ == start + variant_checks(enum_name@, repr, variants@.take(at as int)),
        decreases variants.len() - at,
    {
        let ghost before = text@;
        let name = variants[at].ident.as_str();
        text.append("if src == ");
        text.append(enum_name);
        text.append("::");
        text.append(name);
        text.append(" as ");
        text.append(repr.name());
        text.append(" { return ");
        text.append(enum_name);
        text.append("::");
        text.append(name);
        text.append("; } ");
        proof {
            let next = variants@.take(at as int + 1);
            assert(next.drop_last() =~= variants@.take(at as int));
            assert(next.last() == variants@[at as int]);
            assert(text@ =~= before + variant_check(enum_name@, repr, variants@[at as int]));
        }
        at += 1;
    }
    assert(variants@.take(at as int) =~= variants@);
}

} // verus!
