//! The selection pattern: anchoring, compilation, and the filter over the
//! candidate entries.

use crate::engine::{
    compile, error_text, is_match, regex_accepts, regex_compiles, regex_complaint,
    regex_error_text, regex_source,
};
use crate::error::PatternError;
use crate::text::{ends_with_char, joined};
use regex::Regex;
use vstd::prelude::*;
use vstd::string::*;

verus! {

/// The character that anchors a pattern at the end of the text.
pub open spec fn anchor() -> char {
    '$'
}

/// The character that takes the special meaning from the one behind it.
pub open spec fn escape() -> char {
    '\\'
}

/// The number of escape characters in a row at the end of a text.
pub open spec fn trailing_escapes(text: Seq<char>) -> nat
    decreases text.len(),
{
    if text.len() > 0 && text.last() == escape() {
        1 + trailing_escapes(text.drop_last())
    } else {
        0
    }
}

/// Whether a text ends in an anchor: in a `$` that is not escaped. A `$`
/// behind an odd number of escape characters is a literal dollar, since the
/// escape characters before the last pair up among themselves.
pub open spec fn ends_in_anchor(text: Seq<char>) -> bool {
    ends_with_char(text, anchor()) && trailing_escapes(text.drop_last()) % 2 == 0
}

/// Whether a text ends in an escape character with nothing behind it to
/// escape. Such a text is not a complete pattern.
pub open spec fn ends_in_open_escape(text: Seq<char>) -> bool {
    trailing_escapes(text) % 2 == 1
}

/// The pattern that is compiled for a selection text. A text that ends in an
/// anchor is taken as it is; any other gets the anchor appended. The one
/// exception is a text that ends in an open escape: a `$` behind it would
/// complete the escape to a literal dollar instead of anchoring anything, so
/// the text is handed on as it is, for the engine to judge.
pub open spec fn anchored(text: Seq<char>) -> Seq<char> {
    if ends_in_anchor(text) || ends_in_open_escape(text) {
        text
    } else {
        text.push(anchor())
    }
}

/// The texts of a sequence of strings.
pub open spec fn texts(entries: Seq<String>) -> Seq<Seq<char>> {
    entries.map_values(|s: String| s@)
}

/// The entries that the expression accepts, in their order.
pub open spec fn selected(re: Regex, entries: Seq<Seq<char>>) -> Seq<Seq<char>> {
    entries.filter(|path: Seq<char>| regex_accepts(re, path))
}

/// A text that does not end in an anchor, and to which one can be appended,
/// is compiled as the same text with the anchor written out.
pub proof fn lemma_anchor_implicit(text: Seq<char>)
    requires
        !ends_in_anchor(text),
        !ends_in_open_escape(text),
    ensures
        anchored(text) == text.push(anchor()),
        ends_in_anchor(text.push(anchor())),
        anchored(text.push(anchor())) == anchored(text),
{
    let longer = text.push(anchor());
    assert(longer.last() == anchor());
    assert(longer.drop_last() =~= text);
}

/// An anchored pattern ends in an anchor, unless the text ended in an open
/// escape; and anchoring twice changes nothing.
pub proof fn lemma_anchored_ends_in_anchor(text: Seq<char>)
    ensures
        ends_in_anchor(anchored(text)) || ends_in_open_escape(text),
        anchored(anchored(text)) == anchored(text),
{
    if !ends_in_anchor(text) && !ends_in_open_escape(text) {
        lemma_anchor_implicit(text);
    }
}

/// An escaped dollar at the end of a text is no anchor: the anchor is
/// appended behind it.
pub proof fn lemma_escaped_dollar_is_no_anchor(text: Seq<char>)
    requires
        ends_in_open_escape(text),
    ensures
        !ends_in_anchor(text.push(anchor())),
        anchored(text.push(anchor())) == text.push(anchor()).push(anchor()),
{
    let literal = text.push(anchor());
    assert(literal.last() == anchor());
    assert(literal.drop_last() =~= text);
    assert(trailing_escapes(literal) == 0);
}

/// Counts the escape characters in a row at the end of the first `len`
/// characters of a text.
fn count_trailing_escapes(text: &str, len: usize) -> (count: usize)
    requires
        len <= text@.len(),
    ensures
        count == trailing_escapes(text@.take(len as int)),
        count <= len,
{
    let mut i: usize = len;
    while i > 0 && text.get_char(i - 1) == '\\'
        invariant
            i <= len,
            len <= text@.len(),
            trailing_escapes(text@.take(len as int)) == (len - i) + trailing_escapes(
                text@.take(i as int),
            ),
        decreases i,
    {
        proof {
            let head = text@.take(i as int);
            assert(head.last() == text@[i - 1]);
            assert(head.drop_last() =~= text@.take(i - 1));
        }
        i = i - 1;
    }
    proof {
        let head = text@.take(i as int);
        if i > 0 {
            assert(head.last() == text@[i - 1]);
        }
        assert(trailing_escapes(head) == 0);
    }
    len - i
}

/// Tests whether a text ends in an anchor.
pub fn has_anchor(text: &str) -> (b: bool)
    ensures
        b == ends_in_anchor(text@),
{
    let n: usize = text.unicode_len();
    if n == 0 || text.get_char(n - 1) != '$' {
        return false;
    }
    assert(text@.drop_last() =~= text@.take(n - 1));
    count_trailing_escapes(text, n - 1) % 2 == 0
}

/// Appends the anchor to a selection text, as `anchored` says.
pub fn anchored_pattern(text: &str) -> (pattern: String)
    ensures
        pattern@ == anchored(text@),
{
    let n: usize = text.unicode_len();
    assert(text@.take(n as int) =~= text@);
    if has_anchor(text) || count_trailing_escapes(text, n) % 2 == 1 {
        String::from_str(text)
    } else {
        proof {
            reveal_strlit("$");
            assert("$"@ =~= seq!['$']);
            assert(text@ + seq!['$'] =~= text@.push('$'));
        }
        joined(text, "$")
    }
}

/// Turns the outcome of a compilation into the library's result: the
/// expression as it is, or `InvalidPattern` with the engine's description.
pub fn matcher_from_compiled(compiled: Result<Regex, regex::Error>) -> (r: Result<
    Regex,
    PatternError,
>)
    ensures
        compiled matches Ok(re) ==> r == Ok::<Regex, PatternError>(re),
        compiled matches Err(err) ==> (r matches Err(PatternError::InvalidPattern(reason))
            && reason@ == regex_error_text(err)),
{
    match compiled {
        Ok(re) => Ok(re),
        Err(err) => Err(PatternError::InvalidPattern(error_text(&err))),
    }
}

/// Compiles a selection text, anchored at the end. It succeeds exactly when
/// the engine compiles the anchored text, and the expression is then built
/// from that text; else the error is `InvalidPattern` with what the engine
/// says of the anchored text.
pub fn get_matcher_regex(matcher_string: &str) -> (r: Result<Regex, PatternError>)
    ensures
        r is Ok <==> regex_compiles(anchored(matcher_string@)),
        r matches Ok(re) ==> regex_source(re) == anchored(matcher_string@),
        r matches Err(e) ==> (e matches PatternError::InvalidPattern(reason) && reason@
            == regex_complaint(anchored(matcher_string@))),
{
    let pattern = anchored_pattern(matcher_string);
    matcher_from_compiled(compile(pattern.as_str()))
}

/// Keeps the candidate entries whose full path the expression accepts, in
/// the order in which they came.
pub fn get_matched_paths(candidates: &Vec<String>, matcher_regex: &Regex) -> (matched: Vec<String>)
    ensures
        texts(matched@) == selected(*matcher_regex, texts(candidates@)),
{
    let mut matched: Vec<String> = Vec::new();
    let ghost keep = |path: Seq<char>| regex_accepts(*matcher_regex, path);
    let mut i: usize = 0;
    proof {
        assert(texts(candidates@).take(0) =~= Seq::<Seq<char>>::empty());
        reveal(Seq::filter);
        assert(texts(matched@) =~= texts(candidates@).take(0).filter(keep));
    }
    while i < candidates.len()
        invariant
            i <= candidates.len(),
            keep == |path: Seq<char>| regex_accepts(*matcher_regex, path),
            texts(matched@) == texts(candidates@).take(i as int).filter(keep),
        decreases candidates.len() - i,
    {
        let entry = &candidates[i];
        let hit = is_match(matcher_regex, entry.as_str());
        let ghost before = texts(matched@);
        if hit {
            matched.push(entry.clone());
            assert(texts(matched@) =~= before.push(entry@));
        }
        proof {
            let all = texts(candidates@);
            assert(all.take(i + 1).drop_last() =~= all.take(i as int));
            assert(all.take(i + 1).last() == entry@);
            reveal(Seq::filter);
        }
        i = i + 1;
    }
    assert(texts(candidates@).take(i as int) =~= texts(candidates@));
    matched
}

} // verus!
