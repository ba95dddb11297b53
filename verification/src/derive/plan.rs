//! What a successful derivation yields.

use crate::derive::input::{same_text, DeriveInput, Field, Variant};
use vstd::prelude::*;

verus! {

/// The primitive integers that a `repr(_)` attribute can name for a derived
/// `Atom`: those of 8, 16, 32 and 64 bits and of pointer size, which are the
/// integers that have an atomic type. An integer of 128 bits has none.
#[derive(Clone, Copy, Debug, PartialEq, Eq, Structural)]
pub enum IntRepr {
    U8,
    U16,
    U32,
    U64,
    Usize,
    I8,
    I16,
    I32,
    I64,
    Isize,
}

impl IntRepr {
    /// The integer's name in source text.
    pub open spec fn name_spec(self) -> Seq<char> {
        match self {
            IntRepr::U8 => "u8"@,
            IntRepr::U16 => "u16"@,
            IntRepr::U32 => "u32"@,
            IntRepr::U64 => "u64"@,
            IntRepr::Usize => "usize"@,
            IntRepr::I8 => "i8"@,
            IntRepr::I16 => "i16"@,
            IntRepr::I32 => "i32"@,
            IntRepr::I64 => "i64"@,
            IntRepr::Isize => "isize"@,
        }
    }

    /// The integer that `word` names, if it names one.
    pub open spec fn parse_spec(word: Seq<char>) -> Option<IntRepr> {
        if word == "u8"@ {
            Some(IntRepr::U8)
        } else if word == "u16"@ {
            Some(IntRepr::U16)
        } else if word == "u32"@ {
            Some(IntRepr::U32)
        } else if word == "u64"@ {
            Some(IntRepr::U64)
        } else if word == "usize"@ {
            Some(IntRepr::Usize)
        } else if word == "i8"@ {
            Some(IntRepr::I8)
        } else if word == "i16"@ {
            Some(IntRepr::I16)
        } else if word == "i32"@ {
            Some(IntRepr::I32)
        } else if word == "i64"@ {
            Some(IntRepr::I64)
        } else if word == "isize"@ {
            Some(IntRepr::Isize)
        } else {
            None
        }
    }

    /// The integer's name in source text.
    pub fn name(self) -> (text: &'static str)
        ensures
            text@ == self.name_spec(),
    {
        match self {
            IntRepr::U8 => "u8",
            IntRepr::U16 => "u16",
            IntRepr::U32 => "u32",
            IntRepr::U64 => "u64",
            IntRepr::Usize => "usize",
            IntRepr::I8 => "i8",
            IntRepr::I16 => "i16",
            IntRepr::I32 => "i32",
            IntRepr::I64 => "i64",
            IntRepr::Isize => "isize",
        }
    }

    /// The integer that `word` names, if it names one.
    pub fn parse(word: &str) -> (repr: Option<IntRepr>)
        ensures
            repr == IntRepr::parse_spec(word@),
    {
        if same_text(word, "u8") {
            Some(IntRepr::U8)
        } else if same_text(word, "u16") {
            Some(IntRepr::U16)
        } else if same_text(word, "u32") {
            Some(IntRepr::U32)
        } else if same_text(word, "u64") {
            Some(IntRepr::U64)
        } else if same_text(word, "usize") {
            Some(IntRepr::Usize)
        } else if same_text(word, "i8") {
            Some(IntRepr::I8)
        } else if same_text(word, "i16") {
            Some(IntRepr::I16)
        } else if same_text(word, "i32") {
            Some(IntRepr::I32)
        } else if same_text(word, "i64") {
            Some(IntRepr::I64)
        } else if same_text(word, "isize") {
            Some(IntRepr::Isize)
        } else {
            None
        }
    }

    /// The integers of 128 bits are not among those that can be named.
    pub proof fn wide_integers_refused()
        ensures
            IntRepr::parse_spec("u128"@) is None,
            IntRepr::parse_spec("i128"@) is None,
    {
        reveal_strlit("u128");
        reveal_strlit("i128");
        reveal_strlit("u8");
        reveal_strlit("u16");
        reveal_strlit("u32");
        reveal_strlit("u64");
        reveal_strlit("usize");
        reveal_strlit("i8");
        reveal_strlit("i16");
        reveal_strlit("i32");
        reveal_strlit("i64");
        reveal_strlit("isize");
        assert("u128"@.len() == 4 && "i128"@.len() == 4);
        assert("u8"@.len() == 2 && "i8"@.len() == 2);
        assert("u16"@.len() == 3 && "u32"@.len() == 3 && "u64"@.len() == 3);
        assert("i16"@.len() == 3 && "i32"@.len() == 3 && "i64"@.len() == 3);
        assert("usize"@.len() == 5 && "isize"@.len() == 5);
    }

    /// A name is read back as the integer it belongs to.
    pub proof fn parse_of_name(self)
        ensures
            IntRepr::parse_spec(self.name_spec()) == Some(self),
    {
        reveal_strlit("u8");
        reveal_strlit("u16");
        reveal_strlit("u32");
        reveal_strlit("u64");
        reveal_strlit("usize");
        reveal_strlit("i8");
        reveal_strlit("i16");
        reveal_strlit("i32");
        reveal_strlit("i64");
        reveal_strlit("isize");
        assert("u8"@.len() == 2 && "i8"@.len() == 2);
        assert("u16"@.len() == 3 && "u32"@.len() == 3 && "u64"@.len() == 3);
        assert("i16"@.len() == 3 && "i32"@.len() == 3 && "i64"@.len() == 3);
        assert("usize"@.len() == 5 && "isize"@.len() == 5);
        assert("u8"@[0] == 'u' && "i8"@[0] == 'i');
        assert("u16"@[0] == 'u' && "u16"@[1] == '1');
        assert("u32"@[0] == 'u' && "u32"@[1] == '3');
        assert("u64"@[0] == 'u' && "u64"@[1] == '6');
        assert("i16"@[0] == 'i' && "i16"@[1] == '1');
        assert("i32"@[0] == 'i' && "i32"@[1] == '3');
        assert("i64"@[0] == 'i' && "i64"@[1] == '6');
        assert("usize"@[0] == 'u' && "isize"@[0] == 'i');
    }
}

/// The body of a derived `Atom` impl.
#[derive(Clone, Copy, Debug, PartialEq, Eq)]
pub enum AtomBody<'a> {
    /// For a struct: `Repr` is the type of its one field, `pack` takes the
    /// field out and `unpack` builds the struct around it.
    Struct(&'a Field),
    /// For an enum: `Repr` is the integer of its `repr(_)` attribute, `pack`
    /// casts the value to it, and `unpack` tries the variants in this order
    /// and returns the first whose cast equals its argument.
    Enum(IntRepr, &'a Vec<Variant>),
}

/// A derived `Atom` impl for the type that `input` declares.
#[derive(Clone, Copy, Debug, PartialEq, Eq)]
pub struct AtomImpl<'a> {
    pub input: &'a DeriveInput,
    pub body: AtomBody<'a>,
}

/// A derived impl, without items, of the marker trait `trait_name` for the
/// type that `input` declares.
#[derive(Clone, Copy, Debug, PartialEq, Eq)]
pub struct MarkerImpl<'a> {
    pub trait_name: &'a str,
    pub input: &'a DeriveInput,
}

} // verus!
