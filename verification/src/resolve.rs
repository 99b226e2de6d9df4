//! The boundary to the URL parser that `reqwest` re-exports as
//! `reqwest::Url`.
//!
//! Resolving a reference against a base follows the URL standard, which takes
//! pages to state. It is a function of the two texts alone, so its result has
//! a name. One thing more is taken on trust: what the parser hands out is an
//! absolute URL, which begins with a scheme.

use vstd::prelude::*;

verus! {

/// `url::ParseError`, the URL parser's refusal of a text.
#[verifier::external_type_specification]
#[verifier::external_body]
pub struct ExUrlParseError(url::ParseError);

/// Whether `c` is an ASCII letter.
pub open spec fn ascii_letter(c: char) -> bool {
    ('a' <= c && c <= 'z') || ('A' <= c && c <= 'Z')
}

/// Whether `c` may stand in the scheme of a URL behind its first letter.
pub open spec fn scheme_char(c: char) -> bool {
    ascii_letter(c) || ('0' <= c && c <= '9') || c == '+' || c == '-' || c == '.'
}

/// Whether `text` begins as an absolute URL does: with a scheme, which is a
/// letter and then letters, digits, `+`, `-` or `.`, and a colon behind it.
pub open spec fn has_scheme(text: Seq<char>) -> bool {
    exists|end: int|
        1 <= end < text.len() && ascii_letter(text[0]) && #[trigger] text[end] == ':' && forall|
            i: int,
        |
            1 <= i < end ==> scheme_char(#[trigger] text[i])
}

/// A text that begins with a scheme still does so with more text behind it.
pub proof fn lemma_scheme_stays(text: Seq<char>, tail: Seq<char>)
    requires
        has_scheme(text),
    ensures
        has_scheme(text + tail),
{
    let end = choose|end: int|
        1 <= end < text.len() && ascii_letter(text[0]) && #[trigger] text[end] == ':' && forall|
            i: int,
        |
            1 <= i < end ==> scheme_char(#[trigger] text[i]);
    let whole = text + tail;
    assert(whole[0] == text[0]);
    assert(whole[end] == ':');
    assert forall|i: int| 1 <= i < end implies scheme_char(#[trigger] whole[i]) by {
        assert(whole[i] == text[i]);
    }
}

/// The serialization of the URL that `reference` denotes on a page served
/// from `base`; `None` where `base` is no absolute URL or `reference` cannot
/// be resolved against it.
pub uninterp spec fn resolved_url(base: Seq<char>, reference: Seq<char>) -> Option<Seq<char>>;

/// `reqwest::Url::parse` on `base`, then `url::ParseOptions::parse` on
/// `reference` with that URL as the base, and the result's serialization.
/// The first refusal, if any, is handed out. The serialization of a parsed
/// URL always begins with its scheme and a colon.
#[verifier::external_body]
pub(crate) fn resolve_reference(base: &str, reference: &str) -> (resolved: Result<
    String,
    url::ParseError,
>)
    ensures
        resolved is Ok <==> resolved_url(base@, reference@) is Some,
        resolved matches Ok(text) ==> resolved_url(base@, reference@) == Some(text@),
        resolved matches Ok(text) ==> has_scheme(text@),
{
    let server = reqwest::Url::parse(base)?;
    let target = reqwest::Url::options().base_url(Some(&server)).parse(reference)?;
    Ok(target.to_string())
}

} // verus!
