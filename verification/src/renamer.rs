//! The transformation pattern: compilation, the rule that it has exactly one
//! capture group, and the destination that it gives to a path.

use crate::engine::{
    compile, error_text, group_count, regex_accepts, regex_compiles, regex_complaint,
    regex_error_text, regex_group_count, regex_group_spans, regex_groups, regex_source,
    spans_in_order,
};
use crate::rewrite::{rewrite, rewritten};
use crate::error::PatternError;
use crate::text::{joined, strip_leading, without_prefix};
use regex::Regex;
use vstd::prelude::*;
use vstd::string::*;
use vstd::utf8::encode_utf8;

verus! {

/// The number of capture groups that the author of a pattern wrote: the
/// engine's count without the implicit group of the whole match.
pub open spec fn written_groups(total: nat) -> int {
    total - 1
}

/// A pattern is fit for renaming when exactly one capture group was written.
pub open spec fn fit_for_renaming(total: nat) -> bool {
    written_groups(total) == 1
}

/// The path relative to the root: the path without the root in front.
pub open spec fn relative(path: Seq<char>, root: Seq<char>) -> Seq<char> {
    without_prefix(path, root)
}

/// The destination of a path: the root, followed by the relative path with
/// the replacement in the place of the written capture group.
pub open spec fn destination(
    re: Regex,
    root: Seq<char>,
    replacement: Seq<char>,
    path: Seq<char>,
) -> Seq<char> {
    root + rewritten(re, relative(path, root), replacement)
}

/// Judges a pattern by the engine's count of its capture groups, the implicit
/// group included: one means that none was written, more than two that
/// several were.
pub fn arity_verdict(total: usize) -> (r: Result<(), PatternError>)
    requires
        total >= 1,
    ensures
        r is Ok <==> fit_for_renaming(total as nat),
        written_groups(total as nat) == 0 <==> r == Err::<(), PatternError>(
            PatternError::NoCaptureGroup,
        ),
        written_groups(total as nat) >= 2 <==> r == Err::<(), PatternError>(
            PatternError::TooManyCaptureGroups,
        ),
{
    if total == 1 {
        Err(PatternError::NoCaptureGroup)
    } else if total > 2 {
        Err(PatternError::TooManyCaptureGroups)
    } else {
        Ok(())
    }
}

/// What becomes of a compiled expression as a transformation pattern: it is
/// kept if exactly one capture group was written, and refused with the error
/// that says whether none or several were.
pub open spec fn renamer_verdict(re: Regex) -> Result<Regex, PatternError> {
    if fit_for_renaming(regex_group_count(re)) {
        Ok(re)
    } else if written_groups(regex_group_count(re)) >= 2 {
        Err(PatternError::TooManyCaptureGroups)
    } else {
        Err(PatternError::NoCaptureGroup)
    }
}

/// Turns the outcome of a compilation into a transformation pattern: a
/// refusal of the engine is `InvalidPattern` with the engine's description,
/// a compiled expression is kept if and only if exactly one capture group was
/// written.
pub fn renamer_from_compiled(compiled: Result<Regex, regex::Error>) -> (r: Result<
    Regex,
    PatternError,
>)
    ensures
        compiled matches Err(err) ==> (r matches Err(PatternError::InvalidPattern(reason))
            && reason@ == regex_error_text(err)),
        compiled matches Ok(re) ==> r == renamer_verdict(re),
{
    match compiled {
        Err(err) => Err(PatternError::InvalidPattern(error_text(&err))),
        Ok(re) => {
            let total: usize = group_count(&re);
            match arity_verdict(total) {
                Ok(()) => Ok(re),
                Err(e) => Err(e),
            }
        },
    }
}

/// Compiles a transformation text as it stands. It succeeds exactly when the
/// engine compiles the text and exactly one capture group was written; else
/// the error is the one that `refused_for` owes to the text.
pub fn get_renamer_regex(renamer_string: &str) -> (r: Result<Regex, PatternError>)
    ensures
        r is Ok <==> accepted_for_renaming(renamer_string@),
        r matches Ok(re) ==> regex_source(re) == renamer_string@ && fit_for_renaming(
            regex_group_count(re),
        ),
        r matches Err(reason) ==> refused_for(renamer_string@, reason),
        !regex_compiles(renamer_string@) ==> r matches Err(PatternError::InvalidPattern(_)),
        regex_compiles(renamer_string@) ==> {
            &&& r is Ok <==> regex_groups(renamer_string@) == 2
            &&& r == Err::<Regex, PatternError>(PatternError::NoCaptureGroup) <==> regex_groups(
                renamer_string@,
            ) == 1
            &&& r == Err::<Regex, PatternError>(PatternError::TooManyCaptureGroups)
                <==> regex_groups(renamer_string@) >= 3
        },
{
    renamer_from_compiled(compile(renamer_string))
}

/// A transformation text is accepted when the engine compiles it and exactly
/// one capture group was written in it.
pub open spec fn accepted_for_renaming(text: Seq<char>) -> bool {
    regex_compiles(text) && fit_for_renaming(regex_groups(text))
}

/// The error that a transformation text is refused with. A text that the
/// engine does not compile gets `InvalidPattern` with what the engine says
/// of it; one that compiles gets `TooManyCaptureGroups` where two or more
/// groups were written, and `NoCaptureGroup` where none was.
pub open spec fn refused_for(text: Seq<char>, reason: PatternError) -> bool {
    if !regex_compiles(text) {
        reason matches PatternError::InvalidPattern(words) && words@ == regex_complaint(text)
    } else if written_groups(regex_groups(text)) >= 2 {
        reason == PatternError::TooManyCaptureGroups
    } else {
        !fit_for_renaming(regex_groups(text)) && reason == PatternError::NoCaptureGroup
    }
}

/// The root-relative form of a path.
pub fn relative_path(path: &str, base_path: &str) -> (rel: String)
    ensures
        rel@ == relative(path@, base_path@),
{
    strip_leading(path, base_path)
}

/// The destination of one path under a transformation pattern and a
/// replacement: the root, then the relative path with the replacement in
/// the span of the capture group in each match. The spans follow each other
/// in order, so each is replaced. A relative path that the pattern does not
/// match is left as it is, so a path under the root is then its own
/// destination.
pub fn destination_path(
    path: &str,
    base_path: &str,
    renamer_regex: &Regex,
    replacement_string: &str,
) -> (dest: String)
    ensures
        dest@ == destination(*renamer_regex, base_path@, replacement_string@, path@),
        spans_in_order(
            encode_utf8(relative(path@, base_path@)),
            regex_group_spans(*renamer_regex, relative(path@, base_path@)),
            0,
        ),
        !regex_accepts(*renamer_regex, relative(path@, base_path@)) ==> dest@ == base_path@
            + relative(path@, base_path@),
        !regex_accepts(*renamer_regex, relative(path@, base_path@)) && base_path@.is_prefix_of(
            path@,
        ) ==> dest@ == path@,
{
    let rel = relative_path(path, base_path);
    let rewritten = rewrite(renamer_regex, rel.as_str(), replacement_string);
    proof {
        if base_path@.is_prefix_of(path@) {
            assert(base_path@ + path@.skip(base_path@.len() as int) =~= path@);
        }
    }
    joined(base_path, rewritten.as_str())
}

} // verus!
