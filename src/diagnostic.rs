//! Build-time failures of the generator.
use vstd::prelude::*;

verus! {

/// What went wrong with a declaration.
#[derive(PartialEq, Eq, Structural, Clone, Copy, Debug)]
pub enum DiagnosticKind {
    /// The declaration is not an enum.
    NotAUnion,
    /// A context-mode variant has no field marked `#[from]`.
    MissingSourceField,
    /// A context-mode variant has more than one field marked `#[from]`.
    AmbiguousSourceField,
    /// A type-mode variant does not consist of exactly one `String` field.
    WrongFieldType,
    /// The annotation is not a list holding a string literal or a type, or
    /// the annotated variant is not a tuple variant.
    MalformedAnnotation,
}

/// The message reported for each kind of failure.
pub open spec fn message_of(kind: DiagnosticKind) -> Seq<char> {
    match kind {
        DiagnosticKind::NotAUnion => "StringFrom can only be derived for enums"@,
        DiagnosticKind::MissingSourceField => "A field with the `#[from]` attribute is required."@,
        DiagnosticKind::AmbiguousSourceField => "Only one field can have the `#[from]` attribute."@,
        DiagnosticKind::WrongFieldType => "stringfrom with a type requires a single String field"@,
        DiagnosticKind::MalformedAnnotation =>
            "stringfrom expects a string literal or a type in parentheses"@,
    }
}

/// The message for a context annotation on a variant that is not a tuple
/// variant.
pub open spec fn tuple_only_message() -> Seq<char> {
    "stringfrom with context can only be used with tuple variants"@
}

/// A failure, with its message and the name of the declaration or variant
/// it refers to.
#[derive(Debug)]
pub struct Diagnostic {
    pub kind: DiagnosticKind,
    pub message: String,
    pub location: String,
}

impl Diagnostic {
    /// The diagnostic of `kind` anchored at `location`.
    pub fn new(kind: DiagnosticKind, location: &str) -> (d: Diagnostic)
        ensures
            d.kind == kind,
            d.message@ == message_of(kind),
            d.location@ == location@,
    {
        let message = match kind {
            DiagnosticKind::NotAUnion => String::from_str("StringFrom can only be derived for enums"),
            DiagnosticKind::MissingSourceField => String::from_str(
                "A field with the `#[from]` attribute is required.",
            ),
            DiagnosticKind::AmbiguousSourceField => String::from_str(
                "Only one field can have the `#[from]` attribute.",
            ),
            DiagnosticKind::WrongFieldType => String::from_str(
                "stringfrom with a type requires a single String field",
            ),
            DiagnosticKind::MalformedAnnotation => String::from_str(
                "stringfrom expects a string literal or a type in parentheses",
            ),
        };
        Diagnostic { kind, message, location: String::from_str(location) }
    }

    /// `MalformedAnnotation` for a context annotation on a variant that is
    /// not a tuple variant, anchored at `location`.
    pub fn tuple_only(location: &str) -> (d: Diagnostic)
        ensures
            d.kind == DiagnosticKind::MalformedAnnotation,
            d.message@ == tuple_only_message(),
            d.location@ == location@,
    {
        Diagnostic {
            kind: DiagnosticKind::MalformedAnnotation,
            message: String::from_str("stringfrom with context can only be used with tuple variants"),
            location: String::from_str(location),
        }
    }

    /// The message of this diagnostic.
    pub fn to_string(&self) -> (r: String)
        ensures
            r@ == self.message@,
    {
        self.message.clone()
    }
}

} // verus!
