//! A type declaration, as far as derivation reads it.

use vstd::prelude::*;

verus! {

/// One argument of a list-shaped attribute, such as `u8` in `repr(u8, C)`.
#[derive(Clone, Debug, PartialEq, Eq)]
pub enum NestedMeta {
    /// A bare word.
    Word(String),
    /// Anything else: a literal, a nested list or a `name = value` pair.
    Other,
}

/// The content of an attribute that has the shape of a meta item.
#[derive(Clone, Debug, PartialEq, Eq)]
pub enum Meta {
    /// `name`
    Word(String),
    /// `name(arguments)`
    List(String, Vec<NestedMeta>),
    /// `name = value`
    NameValue(String),
}

/// An attribute of the declaration.
#[derive(Clone, Debug, PartialEq, Eq)]
pub struct Attribute {
    /// The attribute read as a meta item, `None` where it has another shape.
    pub meta: Option<Meta>,
}

/// A field of a struct or of an enum variant.
#[derive(Clone, Debug, PartialEq, Eq)]
pub struct Field {
    /// The field's name, `None` in a tuple struct.
    pub ident: Option<String>,
    /// The field's type, as source text.
    pub ty: String,
}

/// The fields of a struct or of an enum variant.
#[derive(Clone, Debug, PartialEq, Eq)]
pub enum Fields {
    /// `{ a: A, b: B }`
    Named(Vec<Field>),
    /// `(A, B)`
    Unnamed(Vec<Field>),
    /// No field list at all.
    Unit,
}

/// A variant of an enum.
#[derive(Clone, Debug, PartialEq, Eq)]
pub struct Variant {
    pub ident: String,
    pub fields: Fields,
}

#[derive(Clone, Debug, PartialEq, Eq)]
pub struct DataStruct {
    pub fields: Fields,
}

#[derive(Clone, Debug, PartialEq, Eq)]
pub struct DataEnum {
    pub variants: Vec<Variant>,
}

/// What kind of type is declared, with its body.
#[derive(Clone, Debug, PartialEq, Eq)]
pub enum Data {
    Struct(DataStruct),
    Enum(DataEnum),
    Union,
}

/// The generics of the declaration, split the way an impl header needs them.
/// Each part is source text and may be empty.
#[derive(Clone, Debug, PartialEq, Eq)]
pub struct Generics {
    /// What follows `impl`, such as `<T: Clone>`.
    pub impl_generics: String,
    /// What follows the type's name, such as `<T>`.
    pub ty_generics: String,
    /// The `where` clause, the keyword included.
    pub where_clause: String,
}

/// A struct, enum or union declaration.
#[derive(Clone, Debug, PartialEq, Eq)]
pub struct DeriveInput {
    pub attrs: Vec<Attribute>,
    pub ident: String,
    pub generics: Generics,
    pub data: Data,
}

impl Meta {
    /// The name the meta item starts with.
    pub open spec fn name(self) -> Seq<char> {
        match self {
            Meta::Word(name) => name@,
            Meta::List(name, _) => name@,
            Meta::NameValue(name) => name@,
        }
    }

    /// Whether the meta item is named `expected`.
    pub fn has_name(&self, expected: &str) -> (b: bool)
        ensures
            b == (self.name() == expected@),
    {
        let name = match self {
            Meta::Word(name) => name,
            Meta::List(name, _) => name,
            Meta::NameValue(name) => name,
        };
        same_text(name.as_str(), expected)
    }
}

/// Whether two strings hold the same characters.
pub fn same_text(a: &str, b: &str) -> (same: bool)
    ensures
        same == (a@ == b@),
{
    String::from_str(a) == String::from_str(b)
}

impl Fields {
    /// The fields in declaration order; none for `Unit`.
    pub open spec fn list(self) -> Seq<Field> {
        match self {
            Fields::Named(fields) => fields@,
            Fields::Unnamed(fields) => fields@,
            Fields::Unit => Seq::empty(),
        }
    }

    /// How many fields there are.
    pub fn len(&self) -> (n: usize)
        ensures
            n == self.list().len(),
    {
        match self {
            Fields::Named(fields) => fields.len(),
            Fields::Unnamed(fields) => fields.len(),
            Fields::Unit => 0,
        }
    }

    /// The field at position `i`.
    pub fn get(&self, i: usize) -> (field: &Field)
        requires
            i < self.list().len(),
        ensures
            *field == self.list()[i as int],
    {
        match self {
            Fields::Named(fields) => &fields[i],
            Fields::Unnamed(fields) => &fields[i],
            Fields::Unit => vstd::pervasive::unreached(),
        }
    }
}

} // verus!
