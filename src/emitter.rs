//! Writing the conversions out as Rust tokens, and the whole generation
//! pass over one declaration.
use vstd::prelude::*;
use crate::declaration::{DeclBody, TypeDeclaration, Variant};
use crate::diagnostic::{Diagnostic, DiagnosticKind, message_of};
use crate::text::join2;
use crate::tokens::{str_literal_value, string_literal};
use crate::validator::{
    AnnotationModel,
    ConversionModel,
    ConversionSpec,
    FieldInit,
    annotation_spec,
    count_marked,
    lemma_count_zero,
    lemma_single_marked,
    marked_type,
    resolve,
    resolve_variant,
    tuple_fields,
};
use crate::declaration::{Field, source_marked};

verus! {

/// A character as it stands in a format string: braces doubled.
pub open spec fn escaped_char(c: char) -> Seq<char> {
    if c == '{' {
        seq!['{', '{']
    } else if c == '}' {
        seq!['}', '}']
    } else {
        seq![c]
    }
}

/// `c` written so that a format string shows it as it is.
pub open spec fn brace_escaped(c: Seq<char>) -> Seq<char>
    decreases c.len(),
{
    if c.len() == 0 {
        c
    } else {
        brace_escaped(c.drop_last()) + escaped_char(c.last())
    }
}

/// The format string for a context: the context taken literally, a colon,
/// and a slot for the converted value.
pub open spec fn format_template(context: Seq<char>) -> Seq<char> {
    brace_escaped(context) + ": {}"@
}

/// What `format!` makes of the format string `t` with one argument whose
/// text is `arg`: `{{` and `}}` stand for braces, `{}` for the argument.
pub open spec fn format_one(t: Seq<char>, arg: Seq<char>) -> Seq<char>
    decreases t.len(),
{
    if t.len() == 0 {
        t
    } else if t.len() >= 2 && t[0] == '{' && t[1] == '{' {
        seq!['{'] + format_one(t.skip(2), arg)
    } else if t.len() >= 2 && t[0] == '}' && t[1] == '}' {
        seq!['}'] + format_one(t.skip(2), arg)
    } else if t.len() >= 2 && t[0] == '{' && t[1] == '}' {
        arg + format_one(t.skip(2), arg)
    } else {
        seq![t[0]] + format_one(t.skip(1), arg)
    }
}

proof fn lemma_format_escaped_char(c: char, rest: Seq<char>, arg: Seq<char>)
    ensures
        format_one(escaped_char(c) + rest, arg) == seq![c] + format_one(rest, arg),
{
    let t = escaped_char(c) + rest;
    if c == '{' || c == '}' {
        assert(t.skip(2) =~= rest);
    } else {
        assert(t.skip(1) =~= rest);
    }
}

proof fn lemma_format_escaped(c: Seq<char>, rest: Seq<char>, arg: Seq<char>)
    ensures
        format_one(brace_escaped(c) + rest, arg) == c + format_one(rest, arg),
    decreases c.len(),
{
    if c.len() == 0 {
        assert(brace_escaped(c) + rest =~= rest);
        assert(c + format_one(rest, arg) =~= format_one(rest, arg));
    } else {
        let x = c.last();
        assert(brace_escaped(c) + rest =~= brace_escaped(c.drop_last()) + (escaped_char(x) + rest));
        lemma_format_escaped(c.drop_last(), escaped_char(x) + rest, arg);
        lemma_format_escaped_char(x, rest, arg);
        assert(c.drop_last() + (seq![x] + format_one(rest, arg)) =~= c + format_one(rest, arg));
    }
}

/// A context's format string shows the context literally, then a colon,
/// a space and the argument.
pub proof fn lemma_format_template(context: Seq<char>, arg: Seq<char>)
    ensures
        format_one(format_template(context), arg) == context + ": "@ + arg,
{
    reveal_strlit(": {}");
    reveal_strlit(": ");
    let tail: Seq<char> = ": {}"@;
    lemma_format_escaped(context, tail, arg);
    let e: Seq<char> = Seq::empty();
    let t1 = tail.skip(1);
    let t2 = t1.skip(1);
    assert(tail =~= seq![':', ' ', '{', '}']);
    assert(t1 =~= seq![' ', '{', '}']);
    assert(t2 =~= seq!['{', '}']);
    assert(t2.skip(2) =~= e);
    assert(format_one(e, arg) == e);
    assert(format_one(t2, arg) == arg + format_one(t2.skip(2), arg));
    assert(format_one(t1, arg) == seq![' '] + format_one(t2, arg));
    assert(format_one(tail, arg) == seq![':'] + format_one(t1, arg));
    assert(": "@ =~= seq![':', ' ']);
    assert(format_one(tail, arg) =~= ": "@ + arg);
    assert(context + format_one(tail, arg) =~= context + ": "@ + arg);
}

/// Whether one of `inits` takes the converted value itself.
pub open spec fn has_source(inits: Seq<FieldInit>) -> bool
    decreases inits.len(),
{
    inits.len() > 0 && (has_source(inits.drop_last()) || inits.last() == FieldInit::Source)
}

/// Whether a formatted field comes after the field that takes the value, so
/// that the text must be made before the value is moved.
pub open spec fn needs_binding(inits: Seq<FieldInit>) -> bool
    decreases inits.len(),
{
    inits.len() > 0 && (needs_binding(inits.drop_last()) || (inits.last() == FieldInit::Formatted
        && has_source(inits.drop_last())))
}

/// The expression that fills a field; `lit` is the format string's
/// literal, and `bound` says whether the text was made beforehand.
pub open spec fn init_text(init: FieldInit, bound: bool, lit: Seq<char>) -> Seq<char> {
    match init {
        FieldInit::Source => "err"@,
        FieldInit::Formatted => if bound {
            "text . clone ()"@
        } else {
            "format ! ("@ + lit + " , err)"@
        },
        FieldInit::Stringified => "err . to_string ()"@,
    }
}

/// The field expressions, separated by commas.
pub open spec fn inits_text(inits: Seq<FieldInit>, bound: bool, lit: Seq<char>) -> Seq<char>
    decreases inits.len(),
{
    if inits.len() == 0 {
        Seq::empty()
    } else if inits.len() == 1 {
        init_text(inits[0], bound, lit)
    } else {
        inits_text(inits.drop_last(), bound, lit) + " , "@ + init_text(inits.last(), bound, lit)
    }
}

/// The statement that makes the text before the value is moved, where one
/// is needed.
pub open spec fn prelude_text(inits: Seq<FieldInit>, lit: Seq<char>) -> Seq<char> {
    if needs_binding(inits) {
        "let text = format ! ("@ + lit + " , err) ; "@
    } else {
        Seq::empty()
    }
}

/// The `From` impl for one conversion into the enum `enum_name`, with `lit`
/// as the literal of its format string.
pub open spec fn impl_text(enum_name: Seq<char>, s: ConversionModel, lit: Seq<char>) -> Seq<char> {
    "impl From < "@ + s.source_type + " > for "@ + enum_name + " { fn from (err : "@
        + s.source_type + ") -> Self { "@ + prelude_text(s.inits, lit) + enum_name + " :: "@
        + s.variant + " ("@ + inits_text(s.inits, needs_binding(s.inits), lit) + ") } }"@
}

/// Whether `lit` may stand for the format string of `s`: a string literal
/// that reads back as the context's format string.
pub open spec fn lit_fits(s: ConversionModel, lit: Seq<char>) -> bool {
    match s.context {
        Some(c) => str_literal_value(lit) == Some(format_template(c)),
        None => true,
    }
}

/// What a generated conversion stores in a field.
pub enum FieldValue {
    /// The converted value itself, unchanged.
    Original,
    /// A text.
    Text(Seq<char>),
}

/// The fields that the conversion `s` builds from a value whose text is
/// `err_text`.
pub open spec fn converted_fields(s: ConversionModel, err_text: Seq<char>) -> Seq<FieldValue> {
    s.inits.map_values(
        |init: FieldInit|
            match init {
                FieldInit::Source => FieldValue::Original,
                FieldInit::Formatted => FieldValue::Text(
                    format_one(
                        format_template(
                            match s.context {
                                Some(c) => c,
                                None => Seq::empty(),
                            },
                        ),
                        err_text,
                    ),
                ),
                FieldInit::Stringified => FieldValue::Text(err_text),
            },
    )
}

/// `code` followed by `item`, a space between them where `code` is not empty.
pub open spec fn append_item(code: Seq<char>, item: Seq<char>) -> Seq<char> {
    if code.len() == 0 {
        item
    } else {
        code + " "@ + item
    }
}

/// The first variant among `vs` that fails: its kind, message and name.
pub open spec fn first_failure(vs: Seq<Variant>) -> Option<(DiagnosticKind, Seq<char>, Seq<char>)>
    decreases vs.len(),
{
    if vs.len() == 0 {
        None
    } else {
        match first_failure(vs.drop_last()) {
            Some(e) => Some(e),
            None => match resolve(vs.last()) {
                Err((k, m)) => Some((k, m, vs.last().name@)),
                _ => None,
            },
        }
    }
}

/// The code for the variants `vs` of the enum `enum_name`, in their order,
/// with `lits[j]` as the format literal of variant `j`.
pub open spec fn emitted_code(enum_name: Seq<char>, vs: Seq<Variant>, lits: Seq<Seq<char>>) -> Seq<
    char,
>
    decreases vs.len(),
{
    if vs.len() == 0 {
        Seq::empty()
    } else {
        let code = emitted_code(enum_name, vs.drop_last(), lits.drop_last());
        match resolve(vs.last()) {
            Ok(Some(s)) => append_item(code, impl_text(enum_name, s, lits.last())),
            _ => code,
        }
    }
}

/// Whether `lit` may stand for the format literal of variant `v`.
pub open spec fn variant_lit_fits(v: Variant, lit: Seq<char>) -> bool {
    match resolve(v) {
        Ok(Some(s)) => lit_fits(s, lit),
        _ => true,
    }
}

/// Whether `lits` holds a fitting format literal for each of `vs`.
pub open spec fn lits_fit(vs: Seq<Variant>, lits: Seq<Seq<char>>) -> bool {
    lits.len() == vs.len() && forall|j: int|
        0 <= j < vs.len() ==> #[trigger] variant_lit_fits(vs[j], lits[j])
}

/// Whether `out` is a result that generation may give for `d`: for a non-enum,
/// `NotAUnion`; else the first failing variant; else the impls of the
/// annotated variants in declaration order, each format string written as
/// a literal that reads back as it.
pub open spec fn generation_admits(
    d: TypeDeclaration,
    out: Result<Seq<char>, (DiagnosticKind, Seq<char>, Seq<char>)>,
) -> bool {
    match d.body {
        DeclBody::Enum(vs) => match first_failure(vs@) {
            Some(e) => out == Err::<Seq<char>, (DiagnosticKind, Seq<char>, Seq<char>)>(e),
            None => out matches Ok(code) && exists|lits: Seq<Seq<char>>|
                lits_fit(vs@, lits) && code == emitted_code(d.name@, vs@, lits),
        },
        _ => out == Err::<Seq<char>, (DiagnosticKind, Seq<char>, Seq<char>)>(
            (DiagnosticKind::NotAUnion, message_of(DiagnosticKind::NotAUnion), d.name@),
        ),
    }
}

/// The result of generation, as the contracts see it.
pub open spec fn generation_view(r: Result<String, Diagnostic>) -> Result<
    Seq<char>,
    (DiagnosticKind, Seq<char>, Seq<char>),
> {
    match r {
        Ok(code) => Ok(code@),
        Err(d) => Err((d.kind, d.message@, d.location@)),
    }
}

/// `c` with its braces doubled, for use in a format string.
pub fn escape_braces(c: &str) -> (r: String)
    ensures
        r@ == brace_escaped(c@),
{
    let n = c.unicode_len();
    let mut r = String::new();
    let mut i: usize = 0;
    while i < n
        invariant
            n == c@.len(),
            i <= n,
            r@ == brace_escaped(c@.take(i as int)),
        decreases n - i,
    {
        proof {
            assert(c@.take(i + 1).drop_last() =~= c@.take(i as int));
            assert(c@.take(i + 1).last() == c@[i as int]);
        }
        let ch = c.get_char(i);
        if ch == '{' {
            r.append("{{");
            proof {
                reveal_strlit("{{");
            }
        } else if ch == '}' {
            r.append("}}");
            proof {
                reveal_strlit("}}");
            }
        } else {
            let one = c.substring_char(i, i + 1);
            r.append(one);
            proof {
                assert(one@ =~= seq![ch]);
            }
        }
        proof {
            assert(r@ =~= brace_escaped(c@.take(i as int)) + escaped_char(ch));
        }
        i += 1;
    }
    assert(c@.take(n as int) =~= c@);
    r
}

/// Whether a formatted field follows the field that takes the value.
fn binding_needed(inits: &Vec<FieldInit>) -> (r: bool)
    ensures
        r == needs_binding(inits@),
{
    let mut seen = false;
    let mut bound = false;
    let mut i: usize = 0;
    while i < inits.len()
        invariant
            i <= inits@.len(),
            seen == has_source(inits@.take(i as int)),
            bound == needs_binding(inits@.take(i as int)),
        decreases inits@.len() - i,
    {
        proof {
            assert(inits@.take(i + 1).drop_last() =~= inits@.take(i as int));
            assert(inits@.take(i + 1).last() == inits@[i as int]);
        }
        let x = inits[i];
        bound = bound || (x == FieldInit::Formatted && seen);
        seen = seen || x == FieldInit::Source;
        i += 1;
    }
    assert(inits@.take(inits@.len() as int) =~= inits@);
    bound
}

/// The expression that fills a field.
fn emit_init(init: FieldInit, bound: bool, lit: &str) -> (r: String)
    ensures
        r@ == init_text(init, bound, lit@),
{
    match init {
        FieldInit::Source => String::from_str("err"),
        FieldInit::Formatted => if bound {
            String::from_str("text . clone ()")
        } else {
            let mut r = String::from_str("format ! (");
            r.append(lit);
            r.append(" , err)");
            r
        },
        FieldInit::Stringified => String::from_str("err . to_string ()"),
    }
}

/// The `From` impl for the conversion `spec` into the enum `enum_name`. In
/// context mode the text is made once, before the value is moved, where a
/// formatted field follows the one that takes the value.
pub fn emit_conversion(enum_name: &str, spec: &ConversionSpec) -> (r: String)
    ensures
        exists|lit: Seq<char>| lit_fits(spec@, lit) && r@ == impl_text(enum_name@, spec@, lit),
{
    let lit = match &spec.context {
        Some(c) => {
            let template = join2(escape_braces(c.as_str()).as_str(), ": {}");
            string_literal(template.as_str())
        },
        None => String::new(),
    };
    let bound = binding_needed(&spec.inits);
    let ghost inits = spec@.inits;
    let mut fields = String::new();
    let mut i: usize = 0;
    while i < spec.inits.len()
        invariant
            i <= spec.inits@.len(),
            inits == spec@.inits,
            inits == spec.inits@,
            fields@ == inits_text(inits.take(i as int), bound, lit@),
        decreases spec.inits@.len() - i,
    {
        proof {
            assert(inits.take(i + 1).drop_last() =~= inits.take(i as int));
            assert(inits.take(i + 1).last() == inits[i as int]);
            if i == 0 {
                assert(inits.take(1) =~= seq![inits[0]]);
            }
        }
        if i > 0 {
            fields.append(" , ");
        }
        let item = emit_init(spec.inits[i], bound, lit.as_str());
        fields.append(item.as_str());
        i += 1;
    }
    proof {
        assert(inits.take(i as int) =~= inits);
    }
    let source = spec.source_type.as_str();
    let mut r = String::from_str("impl From < ");
    r.append(source);
    r.append(" > for ");
    r.append(enum_name);
    r.append(" { fn from (err : ");
    r.append(source);
    r.append(") -> Self { ");
    if bound {
        r.append("let text = format ! (");
        r.append(lit.as_str());
        r.append(" , err) ; ");
    }
    r.append(enum_name);
    r.append(" :: ");
    r.append(spec.variant.as_str());
    r.append(" (");
    r.append(fields.as_str());
    r.append(") } }");
    proof {
        assert(lit_fits(spec@, lit@));
        assert(r@ =~= impl_text(enum_name@, spec@, lit@));
    }
    r
}

/// A failure among the first variants is the failure of the whole list.
pub proof fn lemma_failure_persists(vs: Seq<Variant>, j: int)
    requires
        0 <= j <= vs.len(),
        first_failure(vs.take(j)) is Some,
    ensures
        first_failure(vs) == first_failure(vs.take(j)),
    decreases vs.len(),
{
    if j < vs.len() {
        assert(vs.drop_last().take(j) =~= vs.take(j));
        lemma_failure_persists(vs.drop_last(), j);
    } else {
        assert(vs.take(j) =~= vs);
    }
}

/// Generates the `From` impls for every annotated variant of `input`, in
/// declaration order, or reports the first failure: `NotAUnion` for a
/// declaration that is not an enum, else the failure of the first variant
/// that cannot be resolved.
pub fn generate_string_from_impls(input: &TypeDeclaration) -> (r: Result<String, Diagnostic>)
    ensures
        generation_admits(*input, generation_view(r)),
{
    let variants = match &input.body {
        DeclBody::Enum(vs) => vs,
        _ => {
            return Err(Diagnostic::new(DiagnosticKind::NotAUnion, input.name.as_str()));
        },
    };
    let name = input.name.as_str();
    let mut code = String::new();
    let ghost mut lits: Seq<Seq<char>> = Seq::empty();
    let mut i: usize = 0;
    while i < variants.len()
        invariant
            i <= variants@.len(),
            name@ == input.name@,
            input.body == DeclBody::Enum(*variants),
            first_failure(variants@.take(i as int)) is None,
            lits_fit(variants@.take(i as int), lits),
            code@ == emitted_code(name@, variants@.take(i as int), lits),
        decreases variants@.len() - i,
    {
        let ghost vs = variants@;
        let ghost before = lits;
        proof {
            assert(vs.take(i + 1).drop_last() =~= vs.take(i as int));
            assert(vs.take(i + 1).last() == vs[i as int]);
        }
        match resolve_variant(&variants[i]) {
            Ok(None) => {
                proof {
                    lits = lits.push(Seq::empty());
                }
            },
            Ok(Some(spec)) => {
                let item = emit_conversion(name, &spec);
                let ghost lit = choose|lit: Seq<char>|
                    lit_fits(spec@, lit) && item@ == impl_text(name@, spec@, lit);
                if code.unicode_len() > 0 {
                    code.append(" ");
                }
                code.append(item.as_str());
                proof {
                    lits = lits.push(lit);
                }
            },
            Err(d) => {
                proof {
                    lemma_failure_persists(vs, i + 1);
                }
                return Err(d);
            },
        }
        proof {
            assert(lits.drop_last() =~= before);
            assert forall|j: int| 0 <= j < i + 1 implies #[trigger] variant_lit_fits(
                vs.take(i + 1)[j],
                lits[j],
            ) by {
                if j < i {
                    assert(vs.take(i + 1)[j] == vs.take(i as int)[j]);
                    assert(lits[j] == before[j]);
                }
            }
        }
        i += 1;
    }
    proof {
        assert(variants@.take(i as int) =~= variants@);
    }
    Ok(code)
}

/// Where every variant resolves, none fails.
pub proof fn lemma_all_resolved(vs: Seq<Variant>)
    requires
        forall|j: int| 0 <= j < vs.len() ==> #[trigger] resolve(vs[j]) is Ok,
    ensures
        first_failure(vs) is None,
    decreases vs.len(),
{
    if vs.len() > 0 {
        lemma_all_resolved(vs.drop_last());
        assert(resolve(vs[vs.len() - 1]) is Ok);
    }
}

/// Where the variants before `k` resolve and variant `k` does not, variant
/// `k` is the first failure.
pub proof fn lemma_first_failure_at(vs: Seq<Variant>, k: int)
    requires
        0 <= k < vs.len(),
        forall|j: int| 0 <= j < k ==> #[trigger] resolve(vs[j]) is Ok,
        resolve(vs[k]) is Err,
    ensures
        first_failure(vs) == Some(
            (resolve(vs[k])->Err_0.0, resolve(vs[k])->Err_0.1, vs[k].name@),
        ),
{
    let prefix = vs.take(k);
    assert forall|j: int| 0 <= j < prefix.len() implies #[trigger] resolve(prefix[j]) is Ok by {
        assert(prefix[j] == vs[j]);
    }
    lemma_all_resolved(prefix);
    assert(vs.take(k + 1).drop_last() =~= prefix);
    assert(vs.take(k + 1).last() == vs[k]);
    lemma_failure_persists(vs, k + 1);
}

/// An enum whose variants all resolve generates code; one in which a
/// variant fails reports the first failing variant, its kind and message.
pub proof fn lemma_generation_outcome(
    d: TypeDeclaration,
    vs: Seq<Variant>,
    k: int,
    out: Result<Seq<char>, (DiagnosticKind, Seq<char>, Seq<char>)>,
)
    requires
        d.body matches DeclBody::Enum(v) && v@ == vs,
        generation_admits(d, out),
    ensures
        (forall|j: int| 0 <= j < vs.len() ==> #[trigger] resolve(vs[j]) is Ok) ==> out is Ok,
        0 <= k < vs.len() && (forall|j: int| 0 <= j < k ==> #[trigger] resolve(vs[j]) is Ok)
            && resolve(vs[k]) is Err ==> out == Err::<
            Seq<char>,
            (DiagnosticKind, Seq<char>, Seq<char>),
        >((resolve(vs[k])->Err_0.0, resolve(vs[k])->Err_0.1, vs[k].name@)),
{
    if forall|j: int| 0 <= j < vs.len() ==> #[trigger] resolve(vs[j]) is Ok {
        lemma_all_resolved(vs);
    }
    if 0 <= k < vs.len() && (forall|j: int| 0 <= j < k ==> #[trigger] resolve(vs[j]) is Ok)
        && resolve(vs[k]) is Err {
        lemma_first_failure_at(vs, k);
    }
}

/// Two runs of generation on an unchanged declaration agree on whether
/// they fail, and on the failure. The code of two successful runs differs
/// at most in how proc_macro2 spells each format literal; what each literal
/// reads back as is fixed by `generation_admits`.
pub proof fn lemma_generation_idempotent(
    d: TypeDeclaration,
    first: Result<Seq<char>, (DiagnosticKind, Seq<char>, Seq<char>)>,
    second: Result<Seq<char>, (DiagnosticKind, Seq<char>, Seq<char>)>,
)
    requires
        generation_admits(d, first),
        generation_admits(d, second),
    ensures
        first is Err || second is Err ==> first == second,
        first is Ok <==> second is Ok,
{
}

/// A context-mode tuple variant with exactly one `#[from]` field resolves;
/// its conversion keeps the converted value unchanged in that field and
/// gives every other field the context, taken literally, then a colon, a
/// space and the value's text.
pub proof fn lemma_context_mode_keeps_source(
    v: Variant,
    fields: Seq<Field>,
    context: Seq<char>,
    err_text: Seq<char>,
)
    requires
        tuple_fields(v) == Some(fields),
        annotation_spec(v.attrs@) == Ok::<Option<AnnotationModel>, DiagnosticKind>(
            Some(AnnotationModel::Context(context)),
        ),
        count_marked(fields) == 1,
    ensures
        resolve(v) matches Ok(Some(s)) && s.variant == v.name@ && s.source_type == marked_type(
            fields,
        ) && s.context == Some(context) && converted_fields(s, err_text).len() == fields.len()
            && (forall|i: int|
            0 <= i < fields.len() ==> #[trigger] converted_fields(s, err_text)[i] == if source_marked(
                fields[i],
            ) {
                FieldValue::Original
            } else {
                FieldValue::Text(context + ": "@ + err_text)
            }) && (exists|i: int|
            0 <= i < fields.len() && converted_fields(s, err_text)[i] == FieldValue::Original && (
            forall|j: int|
                0 <= j < fields.len() && j != i ==> converted_fields(s, err_text)[j]
                    != FieldValue::Original)),
{
    let s = resolve(v)->Ok_0->Some_0;
    lemma_format_template(context, err_text);
    let cf = converted_fields(s, err_text);
    assert forall|i: int| 0 <= i < fields.len() implies #[trigger] cf[i] == if source_marked(
        fields[i],
    ) {
        FieldValue::Original
    } else {
        FieldValue::Text(context + ": "@ + err_text)
    } by {}
    if forall|i: int| 0 <= i < fields.len() ==> !source_marked(fields[i]) {
        lemma_count_zero(fields);
    }
    let i = choose|i: int| 0 <= i < fields.len() && source_marked(fields[i]);
    assert forall|j: int| 0 <= j < fields.len() && j != i implies cf[j] != FieldValue::Original by {
        if source_marked(fields[j]) {
            lemma_single_marked(fields, i, j);
        }
    }
    assert(cf[i] == FieldValue::Original);
}

/// A type-mode tuple variant with one text field resolves to a conversion
/// from the named type that stores only the value's text, and its impl is
/// `impl From<T> for E { fn from(err: T) -> Self { E::V(err.to_string()) } }`.
pub proof fn lemma_type_mode_stores_text(
    v: Variant,
    fields: Seq<Field>,
    source_type: Seq<char>,
    err_text: Seq<char>,
    enum_name: Seq<char>,
    lit: Seq<char>,
)
    requires
        tuple_fields(v) == Some(fields),
        annotation_spec(v.attrs@) == Ok::<Option<AnnotationModel>, DiagnosticKind>(
            Some(AnnotationModel::SourceType(source_type)),
        ),
        fields.len() == 1,
        crate::validator::is_text_type(fields[0].ty@),
    ensures
        resolve(v) matches Ok(Some(s)) && s.variant == v.name@ && s.source_type == source_type
            && converted_fields(s, err_text) == seq![FieldValue::Text(err_text)] && impl_text(
            enum_name,
            s,
            lit,
        ) == "impl From < "@ + source_type + " > for "@ + enum_name + " { fn from (err : "@
            + source_type + ") -> Self { "@ + enum_name + " :: "@ + v.name@ + " ("@
            + "err . to_string ()"@ + ") } }"@,
{
    let s = resolve(v)->Ok_0->Some_0;
    let one = seq![FieldInit::Stringified];
    assert(one.drop_last() =~= Seq::<FieldInit>::empty());
    assert(!has_source(one.drop_last()));
    assert(!needs_binding(one.drop_last()));
    assert(one.last() == FieldInit::Stringified);
    assert(!needs_binding(one));
    assert(converted_fields(s, err_text) =~= seq![FieldValue::Text(err_text)]);
    let e: Seq<char> = Seq::empty();
    assert(prelude_text(one, lit) == e);
    assert(impl_text(enum_name, s, lit) =~= "impl From < "@ + source_type + " > for "@ + enum_name
        + " { fn from (err : "@ + source_type + ") -> Self { "@ + enum_name + " :: "@ + v.name@
        + " ("@ + "err . to_string ()"@ + ") } }"@);
}

} // verus!
