//! The boundary to the `regex` crate. Nothing in this file is proved: each
//! contract restates what the crate documents, and the rest of the library is
//! verified against these contracts.

use regex::Regex;
use vstd::prelude::*;
use vstd::string::*;
use vstd::utf8::is_char_boundary;

verus! {

/// `regex::Regex`, a compiled regular expression. Its contents are opaque.
#[verifier::external_type_specification]
#[verifier::external_body]
pub struct ExRegex(regex::Regex);

/// `regex::Error`, the failure of a compilation. Its contents are opaque.
#[verifier::external_type_specification]
#[verifier::external_body]
pub struct ExRegexError(regex::Error);

/// Whether `Regex::new` compiles this text.
pub uninterp spec fn regex_compiles(text: Seq<char>) -> bool;

/// The number of capture groups of the expression that `Regex::new` compiles
/// from this text, the implicit group of the whole match included.
pub uninterp spec fn regex_groups(text: Seq<char>) -> nat;

/// The `Debug` text of the error with which `Regex::new` refuses this text.
pub uninterp spec fn regex_complaint(text: Seq<char>) -> Seq<char>;

/// The `Debug` text of a `regex::Error`.
pub uninterp spec fn regex_error_text(err: regex::Error) -> Seq<char>;

/// The pattern text that a compiled expression was built from: what
/// `Regex::as_str` returns.
pub uninterp spec fn regex_source(re: Regex) -> Seq<char>;

/// Whether the expression matches anywhere in `haystack`: what
/// `Regex::is_match` returns.
pub uninterp spec fn regex_accepts(re: Regex, haystack: Seq<char>) -> bool;

/// The number of capture groups of the expression, the implicit group of the
/// whole match included: the length of `Regex::capture_names`.
pub uninterp spec fn regex_group_count(re: Regex) -> nat;

/// For each of the successive matches that `Regex::captures_iter` finds in
/// `haystack`, the span of the first capture group as a pair of byte
/// offsets, or `None` where the group took no part in the match.
pub uninterp spec fn regex_group_spans(re: Regex, haystack: Seq<char>) -> Seq<
    Option<(usize, usize)>,
>;

/// A span lies at or behind `from`, within the text, with its start not
/// behind its end, and both ends between characters.
pub open spec fn well_placed(bytes: Seq<u8>, from: int, span: (usize, usize)) -> bool {
    &&& from <= span.0 <= span.1 <= bytes.len()
    &&& is_char_boundary(bytes, span.0 as int)
    &&& is_char_boundary(bytes, span.1 as int)
}

/// Every span is well placed behind the one before it, the first behind
/// `from`.
pub open spec fn spans_in_order(
    bytes: Seq<u8>,
    spans: Seq<Option<(usize, usize)>>,
    from: int,
) -> bool
    decreases spans.len(),
{
    if spans.len() == 0 {
        true
    } else {
        match spans[0] {
            Some(span) => well_placed(bytes, from, span) && spans_in_order(
                bytes,
                spans.drop_first(),
                span.1 as int,
            ),
            None => spans_in_order(bytes, spans.drop_first(), from),
        }
    }
}

/// Calls `Regex::new`. Claims that success, the number of groups and the
/// error's text depend on the text alone, that a compiled expression
/// remembers the text it was given, and that the group of the whole match is
/// always counted.
#[verifier::external_body]
pub(crate) fn compile(text: &str) -> (r: Result<Regex, regex::Error>)
    ensures
        r is Ok <==> regex_compiles(text@),
        r matches Ok(re) ==> regex_source(re) == text@ && regex_group_count(re) == regex_groups(
            text@,
        ) && regex_group_count(re) >= 1,
        r matches Err(err) ==> regex_error_text(err) == regex_complaint(text@),
{
    Regex::new(text)
}

/// Calls `Regex::is_match`. Claims that the answer depends on the expression
/// and the haystack alone.
#[verifier::external_body]
pub(crate) fn is_match(re: &Regex, haystack: &str) -> (b: bool)
    ensures
        b == regex_accepts(*re, haystack@),
{
    re.is_match(haystack)
}

/// Calls `Regex::captures_iter` and takes from each match the offsets of the
/// first capture group (`Captures::get`, `Match::start`, `Match::end`).
/// Claims that the spans depend on the expression and the haystack alone;
/// that, as the crate documents, each lies between characters with its start
/// not behind its end, and the matches follow each other without overlap;
/// and that a haystack without a match has none.
#[verifier::external_body]
pub(crate) fn group_spans(re: &Regex, haystack: &str) -> (spans: Vec<Option<(usize, usize)>>)
    ensures
        spans@ == regex_group_spans(*re, haystack@),
        spans_in_order(haystack.spec_bytes(), spans@, 0),
        !regex_accepts(*re, haystack@) ==> spans@.len() == 0,
{
    re.captures_iter(haystack).map(|caps| caps.get(1).map(|m| (m.start(), m.end()))).collect()
}

/// Calls `Regex::capture_names` and takes the iterator's length. Claims that
/// it depends on the expression alone and is at least one, since the group of
/// the whole match is always counted.
#[verifier::external_body]
pub(crate) fn group_count(re: &Regex) -> (n: usize)
    ensures
        n == regex_group_count(*re),
        n >= 1,
{
    re.capture_names().len()
}

/// Renders a `regex::Error` with its `Debug` form. Claims that the text
/// depends on the error alone.
#[verifier::external_body]
pub(crate) fn error_text(err: &regex::Error) -> (text: String)
    ensures
        text@ == regex_error_text(*err),
{
    format!("{err:?}")
}

} // verus!
