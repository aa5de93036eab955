//! Resolving each annotated variant into a conversion, or a diagnostic.
use vstd::prelude::*;
use crate::declaration::{AttrArgs, Attribute, Field, Variant, VariantFields, source_marked};
use crate::diagnostic::{Diagnostic, DiagnosticKind, message_of, tuple_only_message};
use crate::text::{same_text, without_white_space, without_white_space_spec};
use crate::tokens::{is_type_tokens, parse_string_literal, parses_as_type, str_literal_value};

verus! {

/// A variant's `#[stringfrom(...)]` annotation, read.
#[derive(Debug)]
pub enum Annotation {
    /// `#[stringfrom("context")]`: the converted value goes to the `#[from]`
    /// field, the other fields get the context and the value's text.
    Context(String),
    /// `#[stringfrom(SourceType)]`: the single `String` field gets the text
    /// of a `SourceType` value. Holds the type's tokens as written.
    SourceType(String),
}

/// An annotation as the contracts see it.
pub enum AnnotationModel {
    Context(Seq<char>),
    SourceType(Seq<char>),
}

impl View for Annotation {
    type V = AnnotationModel;

    open spec fn view(&self) -> AnnotationModel {
        match self {
            Annotation::Context(c) => AnnotationModel::Context(c@),
            Annotation::SourceType(t) => AnnotationModel::SourceType(t@),
        }
    }
}

/// The annotation that the argument tokens of `#[stringfrom(...)]` denote:
/// a string literal gives a context, a type gives a source type.
pub open spec fn annotation_of(args: Seq<char>) -> Option<AnnotationModel> {
    match str_literal_value(args) {
        Some(c) => Some(AnnotationModel::Context(c)),
        None => if is_type_tokens(args) {
            Some(AnnotationModel::SourceType(args))
        } else {
            None
        },
    }
}

/// The first `stringfrom` attribute among `attrs` from index `i` on, read.
/// One that is not a list, or whose list denotes no annotation, is
/// malformed.
pub open spec fn annotation_from(attrs: Seq<Attribute>, i: int) -> Result<
    Option<AnnotationModel>,
    DiagnosticKind,
>
    decreases attrs.len() - i,
{
    if i < 0 || i >= attrs.len() {
        Ok(None)
    } else if attrs[i].name@ == "stringfrom"@ {
        match attrs[i].args {
            AttrArgs::List(tokens) => match annotation_of(tokens@) {
                Some(a) => Ok(Some(a)),
                None => Err(DiagnosticKind::MalformedAnnotation),
            },
            _ => Err(DiagnosticKind::MalformedAnnotation),
        }
    } else {
        annotation_from(attrs, i + 1)
    }
}

/// The annotation carried by a list of attributes.
pub open spec fn annotation_spec(attrs: Seq<Attribute>) -> Result<
    Option<AnnotationModel>,
    DiagnosticKind,
> {
    annotation_from(attrs, 0)
}

/// The result of reading attributes, as the contracts see it.
pub open spec fn annotation_result_view(r: Result<Option<Annotation>, DiagnosticKind>) -> Result<
    Option<AnnotationModel>,
    DiagnosticKind,
> {
    match r {
        Ok(Some(a)) => Ok(Some(a@)),
        Ok(None) => Ok(None),
        Err(k) => Err(k),
    }
}

/// The annotation for the arguments `args`, given what reading them as a
/// string literal gave and whether they read as a type.
pub fn classify_annotation(args: &str, literal: Option<String>, is_type: bool) -> (r: Option<
    Annotation,
>)
    ensures
        match literal {
            Some(c) => r == Some(Annotation::Context(c)),
            None => if is_type {
                r matches Some(Annotation::SourceType(t)) && t@ == args@
            } else {
                r is None
            },
        },
{
    match literal {
        Some(c) => Some(Annotation::Context(c)),
        None => if is_type {
            Some(Annotation::SourceType(String::from_str(args)))
        } else {
            None
        },
    }
}

/// Reads the argument tokens of `#[stringfrom(...)]`.
pub fn read_annotation(args: &str) -> (r: Option<Annotation>)
    ensures
        match r {
            Some(a) => annotation_of(args@) == Some(a@),
            None => annotation_of(args@) is None,
        },
{
    let literal = parse_string_literal(args);
    let is_type = if literal.is_none() {
        parses_as_type(args)
    } else {
        false
    };
    classify_annotation(args, literal, is_type)
}

/// Finds the first `stringfrom` attribute and reads it: `Ok(None)` where
/// there is none, `MalformedAnnotation` where it is not a list holding a
/// string literal or a type.
pub fn get_stringfrom_context(attrs: &Vec<Attribute>) -> (r: Result<
    Option<Annotation>,
    DiagnosticKind,
>)
    ensures
        annotation_result_view(r) == annotation_spec(attrs@),
{
    let mut i: usize = 0;
    while i < attrs.len()
        invariant
            i <= attrs@.len(),
            annotation_from(attrs@, 0) == annotation_from(attrs@, i as int),
        decreases attrs@.len() - i,
    {
        let a = &attrs[i];
        if same_text(a.name.as_str(), "stringfrom") {
            return match &a.args {
                AttrArgs::List(tokens) => match read_annotation(tokens.as_str()) {
                    Some(x) => Ok(Some(x)),
                    None => Err(DiagnosticKind::MalformedAnnotation),
                },
                _ => Err(DiagnosticKind::MalformedAnnotation),
            };
        }
        i += 1;
    }
    Ok(None)
}

/// How many of `fields` are marked `#[from]`.
pub open spec fn count_marked(fields: Seq<Field>) -> nat
    decreases fields.len(),
{
    if fields.len() == 0 {
        0
    } else {
        count_marked(fields.drop_last()) + if source_marked(fields.last()) {
            1nat
        } else {
            0nat
        }
    }
}

/// A marked field counts.
pub proof fn lemma_marked_counts(fields: Seq<Field>, i: int)
    requires
        0 <= i < fields.len(),
        source_marked(fields[i]),
    ensures
        count_marked(fields) >= 1,
    decreases fields.len(),
{
    if i < fields.len() - 1 {
        lemma_marked_counts(fields.drop_last(), i);
    }
}

/// Two marked fields count twice.
pub proof fn lemma_two_marked_count(fields: Seq<Field>, i: int, j: int)
    requires
        0 <= i < j < fields.len(),
        source_marked(fields[i]),
        source_marked(fields[j]),
    ensures
        count_marked(fields) >= 2,
    decreases fields.len(),
{
    if j == fields.len() - 1 {
        lemma_marked_counts(fields.drop_last(), i);
    } else {
        lemma_two_marked_count(fields.drop_last(), i, j);
    }
}

/// Where exactly one field is marked, a marked field is that one.
pub proof fn lemma_single_marked(fields: Seq<Field>, i: int, j: int)
    requires
        count_marked(fields) == 1,
        0 <= i < fields.len(),
        0 <= j < fields.len(),
        source_marked(fields[i]),
        source_marked(fields[j]),
    ensures
        i == j,
{
    if i < j {
        lemma_two_marked_count(fields, i, j);
    } else if j < i {
        lemma_two_marked_count(fields, j, i);
    }
}

/// Where no field is marked, none is counted.
pub proof fn lemma_count_zero(fields: Seq<Field>)
    requires
        forall|i: int| 0 <= i < fields.len() ==> !source_marked(fields[i]),
    ensures
        count_marked(fields) == 0,
    decreases fields.len(),
{
    if fields.len() > 0 {
        lemma_count_zero(fields.drop_last());
    }
}

/// Finds the field marked `#[from]`: its type and index where there is
/// exactly one, `MissingSourceField` where there is none and
/// `AmbiguousSourceField` where there are more.
pub fn find_from_field(fields: &Vec<Field>) -> (r: Result<(String, usize), DiagnosticKind>)
    ensures
        match r {
            Ok((ty, i)) => count_marked(fields@) == 1 && i < fields@.len() && source_marked(
                fields@[i as int],
            ) && ty@ == fields@[i as int].ty@,
            Err(k) => (count_marked(fields@) == 0 && k == DiagnosticKind::MissingSourceField) || (
            count_marked(fields@) > 1 && k == DiagnosticKind::AmbiguousSourceField),
        },
{
    let n = fields.len();
    let mut count: usize = 0;
    let mut found: usize = 0;
    let mut i: usize = 0;
    while i < n
        invariant
            n == fields@.len(),
            i <= n,
            count <= i,
            count == count_marked(fields@.take(i as int)),
            count > 0 ==> found < i && source_marked(fields@[found as int]),
        decreases n - i,
    {
        proof {
            assert(fields@.take(i + 1).drop_last() =~= fields@.take(i as int));
        }
        if fields[i].is_source_marked() {
            if count == 0 {
                found = i;
            }
            count += 1;
        }
        i += 1;
    }
    assert(fields@.take(n as int) =~= fields@);
    if count == 1 {
        Ok((fields[found].ty.clone(), found))
    } else if count == 0 {
        Err(DiagnosticKind::MissingSourceField)
    } else {
        Err(DiagnosticKind::AmbiguousSourceField)
    }
}

/// How the generated conversion fills one field of the variant.
#[derive(PartialEq, Eq, Structural, Clone, Copy, Debug)]
pub enum FieldInit {
    /// The converted value itself.
    Source,
    /// The context, a colon, and the converted value's text.
    Formatted,
    /// The converted value's text.
    Stringified,
}

/// A validated conversion from `source_type` into variant `variant`, with
/// one initializer per field and, in context mode, the context.
#[derive(Debug)]
pub struct ConversionSpec {
    pub variant: String,
    pub source_type: String,
    pub context: Option<String>,
    pub inits: Vec<FieldInit>,
}

/// A conversion as the contracts see it.
pub struct ConversionModel {
    pub variant: Seq<char>,
    pub source_type: Seq<char>,
    pub context: Option<Seq<char>>,
    pub inits: Seq<FieldInit>,
}

impl View for ConversionSpec {
    type V = ConversionModel;

    open spec fn view(&self) -> ConversionModel {
        ConversionModel {
            variant: self.variant@,
            source_type: self.source_type@,
            context: match self.context {
                Some(c) => Some(c@),
                None => None,
            },
            inits: self.inits@,
        }
    }
}

/// The plain text types that a type-mode variant's field may have, however
/// the type's tokens are spaced.
pub open spec fn is_text_type(t: Seq<char>) -> bool {
    let n = without_white_space_spec(t);
    n == "String"@ || n == "std::string::String"@ || n == "::std::string::String"@ || n
        == "alloc::string::String"@ || n == "::alloc::string::String"@
}

/// Whether `ty` is a plain text type.
pub fn is_text_field_type(ty: &str) -> (r: bool)
    ensures
        r == is_text_type(ty@),
{
    let n = without_white_space(ty);
    let n = n.as_str();
    same_text(n, "String") || same_text(n, "std::string::String") || same_text(
        n,
        "::std::string::String",
    ) || same_text(n, "alloc::string::String") || same_text(n, "::alloc::string::String")
}

/// The field initializers of a context-mode conversion: the marked field
/// takes the value, every other field the formatted context.
pub open spec fn context_inits(fields: Seq<Field>) -> Seq<FieldInit> {
    Seq::new(
        fields.len(),
        |i: int|
            if source_marked(fields[i]) {
                FieldInit::Source
            } else {
                FieldInit::Formatted
            },
    )
}

/// The type of the field marked `#[from]`, where there is one.
pub open spec fn marked_type(fields: Seq<Field>) -> Seq<char> {
    fields[choose|i: int| 0 <= i < fields.len() && source_marked(fields[i])].ty@
}

/// What the generator makes of one variant: no conversion where it carries
/// no annotation, else the conversion, or the kind of failure and its
/// message.
pub open spec fn resolve(v: Variant) -> Result<Option<ConversionModel>, (DiagnosticKind, Seq<char>)> {
    match annotation_spec(v.attrs@) {
        Err(k) => Err((k, message_of(k))),
        Ok(None) => Ok(None),
        Ok(Some(a)) => match v.fields {
            VariantFields::Unnamed(fs) => match a {
                AnnotationModel::Context(c) => if count_marked(fs@) == 0 {
                    Err(
                        (
                            DiagnosticKind::MissingSourceField,
                            message_of(DiagnosticKind::MissingSourceField),
                        ),
                    )
                } else if count_marked(fs@) > 1 {
                    Err(
                        (
                            DiagnosticKind::AmbiguousSourceField,
                            message_of(DiagnosticKind::AmbiguousSourceField),
                        ),
                    )
                } else {
                    Ok(
                        Some(
                            ConversionModel {
                                variant: v.name@,
                                source_type: marked_type(fs@),
                                context: Some(c),
                                inits: context_inits(fs@),
                            },
                        ),
                    )
                },
                AnnotationModel::SourceType(t) => if fs@.len() == 1 && is_text_type(fs@[0].ty@) {
                    Ok(
                        Some(
                            ConversionModel {
                                variant: v.name@,
                                source_type: t,
                                context: None,
                                inits: seq![FieldInit::Stringified],
                            },
                        ),
                    )
                } else {
                    Err(
                        (
                            DiagnosticKind::WrongFieldType,
                            message_of(DiagnosticKind::WrongFieldType),
                        ),
                    )
                },
            },
            _ => match a {
                AnnotationModel::Context(_) => Err(
                    (DiagnosticKind::MalformedAnnotation, tuple_only_message()),
                ),
                AnnotationModel::SourceType(_) => Err(
                    (
                        DiagnosticKind::MalformedAnnotation,
                        message_of(DiagnosticKind::MalformedAnnotation),
                    ),
                ),
            },
        },
    }
}

/// The initializers of a context-mode conversion for `fields`.
fn context_field_inits(fields: &Vec<Field>) -> (r: Vec<FieldInit>)
    ensures
        r@ == context_inits(fields@),
{
    let mut inits: Vec<FieldInit> = Vec::new();
    let mut i: usize = 0;
    while i < fields.len()
        invariant
            i <= fields@.len(),
            inits@.len() == i,
            forall|j: int| 0 <= j < i ==> #[trigger] inits@[j] == context_inits(fields@)[j],
        decreases fields@.len() - i,
    {
        if fields[i].is_source_marked() {
            inits.push(FieldInit::Source);
        } else {
            inits.push(FieldInit::Formatted);
        }
        i += 1;
    }
    assert(inits@ =~= context_inits(fields@));
    inits
}

/// Validates one variant: `Ok(None)` where it carries no annotation, the
/// conversion where its annotation and fields agree, else a diagnostic
/// anchored at the variant.
pub fn resolve_variant(v: &Variant) -> (r: Result<Option<ConversionSpec>, Diagnostic>)
    ensures
        match r {
            Ok(None) => resolve(*v) == Ok::<Option<ConversionModel>, (DiagnosticKind, Seq<char>)>(
                None,
            ),
            Ok(Some(s)) => resolve(*v) == Ok::<
                Option<ConversionModel>,
                (DiagnosticKind, Seq<char>),
            >(Some(s@)),
            Err(d) => resolve(*v) == Err::<Option<ConversionModel>, (DiagnosticKind, Seq<char>)>(
                (d.kind, d.message@),
            ) && d.location@ == v.name@,
        },
{
    let annotation = match get_stringfrom_context(&v.attrs) {
        Ok(Some(a)) => a,
        Ok(None) => {
            return Ok(None);
        },
        Err(k) => {
            return Err(Diagnostic::new(k, v.name.as_str()));
        },
    };
    let fields = match &v.fields {
        VariantFields::Unnamed(fs) => fs,
        _ => {
            return match annotation {
                Annotation::Context(_) => Err(Diagnostic::tuple_only(v.name.as_str())),
                Annotation::SourceType(_) => Err(
                    Diagnostic::new(DiagnosticKind::MalformedAnnotation, v.name.as_str()),
                ),
            };
        },
    };
    match annotation {
        Annotation::Context(context) => match find_from_field(fields) {
            Ok((source_type, i)) => {
                proof {
                    let k = choose|k: int| 0 <= k < fields@.len() && source_marked(fields@[k]);
                    lemma_single_marked(fields@, i as int, k);
                }
                let inits = context_field_inits(fields);
                Ok(
                    Some(
                        ConversionSpec {
                            variant: v.name.clone(),
                            source_type,
                            context: Some(context),
                            inits,
                        },
                    ),
                )
            },
            Err(k) => Err(Diagnostic::new(k, v.name.as_str())),
        },
        Annotation::SourceType(t) => {
            if fields.len() == 1 && is_text_field_type(fields[0].ty.as_str()) {
                let mut inits: Vec<FieldInit> = Vec::new();
                inits.push(FieldInit::Stringified);
                proof {
                    assert(inits@ =~= seq![FieldInit::Stringified]);
                }
                Ok(
                    Some(
                        ConversionSpec {
                            variant: v.name.clone(),
                            source_type: t,
                            context: None,
                            inits,
                        },
                    ),
                )
            } else {
                Err(Diagnostic::new(DiagnosticKind::WrongFieldType, v.name.as_str()))
            }
        },
    }
}

/// The fields of a tuple variant, `None` for any other shape.
pub open spec fn tuple_fields(v: Variant) -> Option<Seq<Field>> {
    match v.fields {
        VariantFields::Unnamed(fs) => Some(fs@),
        _ => None,
    }
}

/// A context-mode tuple variant without a `#[from]` field fails with
/// `MissingSourceField`.
pub proof fn lemma_context_mode_missing_source(v: Variant, fields: Seq<Field>, context: Seq<char>)
    requires
        tuple_fields(v) == Some(fields),
        annotation_spec(v.attrs@) == Ok::<Option<AnnotationModel>, DiagnosticKind>(
            Some(AnnotationModel::Context(context)),
        ),
        count_marked(fields) == 0,
    ensures
        resolve(v) matches Err((k, _)) && k == DiagnosticKind::MissingSourceField,
{
}

/// A context-mode tuple variant with two or more `#[from]` fields fails
/// with `AmbiguousSourceField`.
pub proof fn lemma_context_mode_ambiguous_source(
    v: Variant,
    fields: Seq<Field>,
    context: Seq<char>,
)
    requires
        tuple_fields(v) == Some(fields),
        annotation_spec(v.attrs@) == Ok::<Option<AnnotationModel>, DiagnosticKind>(
            Some(AnnotationModel::Context(context)),
        ),
        count_marked(fields) >= 2,
    ensures
        resolve(v) matches Err((k, _)) && k == DiagnosticKind::AmbiguousSourceField,
{
}

/// A type-mode tuple variant whose single field is not a text type fails
/// with `WrongFieldType`.
pub proof fn lemma_type_mode_wrong_field(v: Variant, fields: Seq<Field>, source_type: Seq<char>)
    requires
        tuple_fields(v) == Some(fields),
        annotation_spec(v.attrs@) == Ok::<Option<AnnotationModel>, DiagnosticKind>(
            Some(AnnotationModel::SourceType(source_type)),
        ),
        fields.len() == 1,
        !is_text_type(fields[0].ty@),
    ensures
        resolve(v) matches Err((k, _)) && k == DiagnosticKind::WrongFieldType,
{
}

} // verus!
