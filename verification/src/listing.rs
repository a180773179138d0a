//! The pattern under which the entries below a directory are listed.

use crate::text::{ends_with_char, has_last_char, joined};
use vstd::prelude::*;
use vstd::string::*;

verus! {

/// The pattern that lists everything below `dir`, at any depth: the
/// directory, a separator unless the directory ends in one, and `**/*`.
pub open spec fn listing(dir: Seq<char>) -> Seq<char> {
    if ends_with_char(dir, '/') {
        dir + "**/*"@
    } else {
        dir + "/**/*"@
    }
}

/// Builds the recursive listing pattern for a directory, with or without a
/// trailing separator.
pub fn listing_pattern(filepath: &str) -> (pattern: String)
    ensures
        pattern@ == listing(filepath@),
{
    if has_last_char(filepath, '/') {
        joined(filepath, "**/*")
    } else {
        joined(filepath, "/**/*")
    }
}

/// With or without a trailing separator, a directory is listed under the
/// same pattern.
pub proof fn lemma_trailing_separator_is_optional(dir: Seq<char>)
    requires
        !ends_with_char(dir, '/'),
    ensures
        listing(dir.push('/')) == listing(dir),
{
    reveal_strlit("**/*");
    reveal_strlit("/**/*");
    assert(dir.push('/').last() == '/');
    assert(dir.push('/') + "**/*"@ =~= dir + "/**/*"@);
}

} // verus!
