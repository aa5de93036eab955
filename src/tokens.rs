//! Reading and writing Rust tokens, through `syn` and `proc_macro2`.
use vstd::prelude::*;

verus! {

/// The value of the string literal that `tokens` consist of, unescaped, or
/// `None` where they are not exactly one string literal.
pub uninterp spec fn str_literal_value(tokens: Seq<char>) -> Option<Seq<char>>;

/// Whether `tokens` consist of exactly one type, as syn's parser decides.
pub uninterp spec fn is_type_tokens(tokens: Seq<char>) -> bool;

/// Relies on `syn::parse_str::<syn::LitStr>`, which succeeds only where the
/// whole input is one string literal, and on `LitStr::value`, which gives
/// its unescaped text.
#[verifier::external_body]
pub(crate) fn parse_string_literal(tokens: &str) -> (r: Option<String>)
    ensures
        match r {
            Some(v) => str_literal_value(tokens@) == Some(v@),
            None => str_literal_value(tokens@) is None,
        },
{
    match syn::parse_str::<syn::LitStr>(tokens) {
        Ok(lit) => Some(lit.value()),
        Err(_) => None,
    }
}

/// Relies on `syn::parse_str::<syn::Type>`, which succeeds only where the
/// whole input is one type.
#[verifier::external_body]
pub(crate) fn parses_as_type(tokens: &str) -> (r: bool)
    ensures
        r == is_type_tokens(tokens@),
{
    syn::parse_str::<syn::Type>(tokens).is_ok()
}

/// Relies on `proc_macro2::Literal::string`, printed: a string literal
/// token that reads back as `s`. Its exact spelling (which characters are
/// escaped) is left to proc_macro2 and the compiler.
#[verifier::external_body]
pub(crate) fn string_literal(s: &str) -> (r: String)
    ensures
        str_literal_value(r@) == Some(s@),
{
    proc_macro2::Literal::string(s).to_string()
}

} // verus!
