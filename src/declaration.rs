//! The declarations the generator reads: an enum, its variants, their
//! fields, and the raw attributes attached to each.
use vstd::prelude::*;
use crate::text::same_text;

verus! {

/// The arguments of an attribute, as written: `#[name]`,
/// `#[name(tokens)]` or `#[name = tokens]`.
#[derive(Debug)]
pub enum AttrArgs {
    Word,
    List(String),
    NameValue(String),
}

/// One attribute: its path and its raw argument tokens.
#[derive(Debug)]
pub struct Attribute {
    pub name: String,
    pub args: AttrArgs,
}

/// A field with its declared type, written as tokens (`SomeError`,
/// `Vec < u8 >`), and its attributes.
#[derive(Debug)]
pub struct Field {
    pub ty: String,
    pub attrs: Vec<Attribute>,
}

/// The shape of a variant's field list.
#[derive(Debug)]
pub enum VariantFields {
    Unit,
    Named(Vec<Field>),
    Unnamed(Vec<Field>),
}

/// One alternative of the enum.
#[derive(Debug)]
pub struct Variant {
    pub name: String,
    pub attrs: Vec<Attribute>,
    pub fields: VariantFields,
}

/// What kind of item was declared; only an enum carries variants.
#[derive(Debug)]
pub enum DeclBody {
    Enum(Vec<Variant>),
    Struct,
    Union,
}

/// A declaration handed to the generator.
#[derive(Debug)]
pub struct TypeDeclaration {
    pub name: String,
    pub body: DeclBody,
}

/// Whether one of `attrs` has the path `name`.
pub open spec fn has_attr(attrs: Seq<Attribute>, name: Seq<char>) -> bool {
    exists|j: int| 0 <= j < attrs.len() && #[trigger] attrs[j].name@ == name
}

/// A field marked `#[from]` is the one that receives the source value.
pub open spec fn source_marked(f: Field) -> bool {
    has_attr(f.attrs@, "from"@)
}

/// Whether one of `attrs` has the path `name`.
pub fn find_attr(attrs: &Vec<Attribute>, name: &str) -> (r: bool)
    ensures
        r == has_attr(attrs@, name@),
{
    let mut i: usize = 0;
    while i < attrs.len()
        invariant
            i <= attrs@.len(),
            forall|j: int| 0 <= j < i ==> attrs@[j].name@ != name@,
        decreases attrs@.len() - i,
    {
        if same_text(attrs[i].name.as_str(), name) {
            return true;
        }
        i += 1;
    }
    false
}

impl Field {
    /// Whether this field carries `#[from]`.
    pub fn is_source_marked(&self) -> (r: bool)
        ensures
            r == source_marked(*self),
    {
        find_attr(&self.attrs, "from")
    }
}

} // verus!
