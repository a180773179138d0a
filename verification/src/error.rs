//! Why a pattern was rejected.

use vstd::prelude::*;
use vstd::string::*;

verus! {

/// The reasons for which a pattern is refused. All of them are recoverable:
/// the session asks for the patterns again.
#[derive(Clone, Debug, PartialEq, Eq)]
pub enum PatternError {
    /// The text is not a regular expression that the engine compiles. The
    /// field carries the engine's description.
    InvalidPattern(String),
    /// A transformation pattern without a capture group.
    NoCaptureGroup,
    /// A transformation pattern with more than one capture group.
    TooManyCaptureGroups,
}

/// The text shown for a pattern without a capture group.
pub open spec fn no_capture_group_text() -> Seq<char> {
    "You don't have any capture groups for renaming?"@
}

/// The text shown for a pattern with more than one capture group.
pub open spec fn too_many_groups_text() -> Seq<char> {
    "Sorry, this can only deal with a single capture group at the moment!"@
}

impl PatternError {
    /// The text that `message` returns.
    pub open spec fn message_text(&self) -> Seq<char> {
        match self {
            PatternError::InvalidPattern(reason) => reason@,
            PatternError::NoCaptureGroup => no_capture_group_text(),
            PatternError::TooManyCaptureGroups => too_many_groups_text(),
        }
    }

    /// A description of the error for the user.
    pub fn message(&self) -> (text: String)
        ensures
            text@ == self.message_text(),
    {
        match self {
            PatternError::InvalidPattern(reason) => reason.clone(),
            PatternError::NoCaptureGroup => String::from_str(
                "You don't have any capture groups for renaming?",
            ),
            PatternError::TooManyCaptureGroups => String::from_str(
                "Sorry, this can only deal with a single capture group at the moment!",
            ),
        }
    }
}

} // verus!
