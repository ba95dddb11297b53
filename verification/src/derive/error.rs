//! Why a derivation was refused.

use vstd::prelude::*;

verus! {

/// The reasons for which no impl is derived.
#[derive(Clone, Copy, Debug, PartialEq, Eq, Structural)]
pub enum DeriveErrorKind {
    /// A struct without any field.
    NotSingleField,
    /// A union, or a struct with more than one field.
    UnsupportedShape,
    /// An enum that does not name a primitive integer in a `repr(_)` attribute.
    MissingWidthAnnotation,
    /// An enum with a variant that has fields.
    DataCarryingVariant,
    /// `AtomLogic` or `AtomInteger` asked for an enum.
    CapabilityNotDerivableForEnum,
}

/// The part of the declaration an error points at.
#[derive(Clone, Copy, Debug, PartialEq, Eq, Structural)]
pub enum ErrorSpan {
    /// The place where the derive was asked for.
    CallSite,
    /// The field list of the struct.
    Fields,
    /// The attribute at this position.
    Attribute(usize),
    /// The variant at this position.
    Variant(usize),
}

/// A refused derivation.
#[derive(Clone, Debug, PartialEq, Eq)]
pub struct DeriveError {
    pub kind: DeriveErrorKind,
    pub span: ErrorSpan,
    pub message: String,
}

/// A [`DeriveError`] with its message as a sequence of characters.
pub struct DeriveErrorView {
    pub kind: DeriveErrorKind,
    pub span: ErrorSpan,
    pub message: Seq<char>,
}

impl View for DeriveError {
    type V = DeriveErrorView;

    open spec fn view(&self) -> DeriveErrorView {
        DeriveErrorView { kind: self.kind, span: self.span, message: self.message@ }
    }
}

impl DeriveError {
    /// The diagnostic text.
    pub fn to_string(&self) -> (text: String)
        ensures
            text@ == self.message@,
    {
        self.message.clone()
    }

    /// A struct without fields was given to `derive(Atom)`.
    pub fn no_fields() -> (e: DeriveError)
        ensures
            e@ == DeriveErrorView::no_fields(),
    {
        DeriveError {
            kind: DeriveErrorKind::NotSingleField,
            span: ErrorSpan::Fields,
            message: String::from_str(
                "struct has no fields, but `derive(Atom)` works only for structs with exactly one field",
            ),
        }
    }

    /// A struct with several fields was given to `derive(Atom)`.
    pub fn many_fields() -> (e: DeriveError)
        ensures
            e@ == DeriveErrorView::many_fields(),
    {
        DeriveError {
            kind: DeriveErrorKind::UnsupportedShape,
            span: ErrorSpan::Fields,
            message: String::from_str(
                "struct has more than one field, but `derive(Atom)` works only for structs with exactly one field",
            ),
        }
    }

    /// A union was given to `derive(Atom)`.
    pub fn union_atom() -> (e: DeriveError)
        ensures
            e@ == DeriveErrorView::union_atom(),
    {
        DeriveError {
            kind: DeriveErrorKind::UnsupportedShape,
            span: ErrorSpan::CallSite,
            message: String::from_str("unions cannot derive `Atom`"),
        }
    }

    /// A union was given to the derive of the marker trait `trait_name`.
    pub fn union_marker(trait_name: &str) -> (e: DeriveError)
        ensures
            e@ == DeriveErrorView::union_marker(trait_name@),
    {
        let mut message = String::from_str("`");
        message.append(trait_name);
        message.append("` cannot be derived for unions");
        DeriveError { kind: DeriveErrorKind::UnsupportedShape, span: ErrorSpan::CallSite, message }
    }

    /// An enum was given to the derive of the marker trait `trait_name`.
    pub fn enum_marker(trait_name: &str) -> (e: DeriveError)
        ensures
            e@ == DeriveErrorView::enum_marker(trait_name@),
    {
        let mut message = String::from_str("`");
        message.append(trait_name);
        message.append(
            "` cannot be derived for enums as this is almost always incorrect to do. Please read the documentation of `",
        );
        message.append(trait_name);
        message.append(
            "` carefully. If you still think you want to implement this trait, you have to do it manually.",
        );
        DeriveError {
            kind: DeriveErrorKind::CapabilityNotDerivableForEnum,
            span: ErrorSpan::CallSite,
            message,
        }
    }

    /// The enum `ident` has no attribute named `repr`.
    pub fn no_repr(ident: &str) -> (e: DeriveError)
        ensures
            e@ == DeriveErrorView::no_repr(ident@),
    {
        let mut message = String::from_str("no `repr(_)` attribute on enum '");
        message.append(ident);
        message.append(
            "', but such an attribute is required to automatically derive `Atom`",
        );
        DeriveError {
            kind: DeriveErrorKind::MissingWidthAnnotation,
            span: ErrorSpan::CallSite,
            message,
        }
    }

    /// The `repr` attribute at position `at` of the enum `ident` is no list.
    pub fn repr_not_list(ident: &str, at: usize) -> (e: DeriveError)
        ensures
            e@ == DeriveErrorView::repr_not_list(ident@, at),
    {
        let mut message = String::from_str("`repr` attribute on enum '");
        message.append(ident);
        message.append(
            "' does not have the form `repr(_)`, but it should have for `derive(Atom)`",
        );
        DeriveError {
            kind: DeriveErrorKind::MissingWidthAnnotation,
            span: ErrorSpan::Attribute(at),
            message,
        }
    }

    /// The `repr(_)` attribute at position `at` names no primitive integer.
    pub fn repr_without_integer(at: usize) -> (e: DeriveError)
        ensures
            e@ == DeriveErrorView::repr_without_integer(at),
    {
        DeriveError {
            kind: DeriveErrorKind::MissingWidthAnnotation,
            span: ErrorSpan::Attribute(at),
            message: String::from_str(
                "`repr(_)` attribute does not specify the primitive representation (a primitive integer), but this is required for `derive(Atom)`",
            ),
        }
    }

    /// The variant at position `at` has fields.
    pub fn variant_with_fields(at: usize) -> (e: DeriveError)
        ensures
            e@ == DeriveErrorView::variant_with_fields(at),
    {
        DeriveError {
            kind: DeriveErrorKind::DataCarryingVariant,
            span: ErrorSpan::Variant(at),
            message: String::from_str(
                "this variant has fields, but `derive(Atom)` only works for C-like enums",
            ),
        }
    }
}

impl DeriveErrorView {
    pub open spec fn no_fields() -> DeriveErrorView {
        DeriveErrorView {
            kind: DeriveErrorKind::NotSingleField,
            span: ErrorSpan::Fields,
            message: "struct has no fields, but `derive(Atom)` works only for structs with exactly one field"@,
        }
    }

    pub open spec fn many_fields() -> DeriveErrorView {
        DeriveErrorView {
            kind: DeriveErrorKind::UnsupportedShape,
            span: ErrorSpan::Fields,
            message: "struct has more than one field, but `derive(Atom)` works only for structs with exactly one field"@,
        }
    }

    pub open spec fn union_atom() -> DeriveErrorView {
        DeriveErrorView {
            kind: DeriveErrorKind::UnsupportedShape,
            span: ErrorSpan::CallSite,
            message: "unions cannot derive `Atom`"@,
        }
    }

    pub open spec fn union_marker(trait_name: Seq<char>) -> DeriveErrorView {
        DeriveErrorView {
            kind: DeriveErrorKind::UnsupportedShape,
            span: ErrorSpan::CallSite,
            message: "`"@ + trait_name + "` cannot be derived for unions"@,
        }
    }

    pub open spec fn enum_marker(trait_name: Seq<char>) -> DeriveErrorView {
        DeriveErrorView {
            kind: DeriveErrorKind::CapabilityNotDerivableForEnum,
            span: ErrorSpan::CallSite,
            message: "`"@ + trait_name
                + "` cannot be derived for enums as this is almost always incorrect to do. Please read the documentation of `"@
                + trait_name
                + "` carefully. If you still think you want to implement this trait, you have to do it manually."@,
        }
    }

    pub open spec fn no_repr(ident: Seq<char>) -> DeriveErrorView {
        DeriveErrorView {
            kind: DeriveErrorKind::MissingWidthAnnotation,
            span: ErrorSpan::CallSite,
            message: "no `repr(_)` attribute on enum '"@ + ident
                + "', but such an attribute is required to automatically derive `Atom`"@,
        }
    }

    pub open spec fn repr_not_list(ident: Seq<char>, at: usize) -> DeriveErrorView {
        DeriveErrorView {
            kind: DeriveErrorKind::MissingWidthAnnotation,
            span: ErrorSpan::Attribute(at),
            message: "`repr` attribute on enum '"@ + ident
                + "' does not have the form `repr(_)`, but it should have for `derive(Atom)`"@,
        }
    }

    pub open spec fn repr_without_integer(at: usize) -> DeriveErrorView {
        DeriveErrorView {
            kind: DeriveErrorKind::MissingWidthAnnotation,
            span: ErrorSpan::Attribute(at),
            message: "`repr(_)` attribute does not specify the primitive representation (a primitive integer), but this is required for `derive(Atom)`"@,
        }
    }

    pub open spec fn variant_with_fields(at: usize) -> DeriveErrorView {
        DeriveErrorView {
            kind: DeriveErrorKind::DataCarryingVariant,
            span: ErrorSpan::Variant(at),
            message: "this variant has fields, but `derive(Atom)` only works for C-like enums"@,
        }
    }
}

} // verus!
