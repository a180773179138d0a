//! The working state of a session: the three texts that the user edits and
//! the switch for unchanged pairs in the preview.

use vstd::prelude::*;
use vstd::string::*;

verus! {

/// The session configuration. It is seeded with defaults and edited by each
/// round of prompts.
#[derive(Debug)]
pub struct Config {
    pub matcher_string: String,
    pub renamer_string: String,
    pub replacement_string: String,
    pub show_unchanged: bool,
}

/// The selection text that a session starts with.
pub open spec fn default_matcher_text() -> Seq<char> {
    ".*\\.jpeg$"@
}

/// The transformation text that a session starts with.
pub open spec fn default_renamer_text() -> Seq<char> {
    "(jpeg)"@
}

/// The replacement that a session starts with.
pub open spec fn default_replacement_text() -> Seq<char> {
    "jpg"@
}

impl Default for Config {
    fn default() -> (config: Self)
        ensures
            config.matcher_string@ == default_matcher_text(),
            config.renamer_string@ == default_renamer_text(),
            config.replacement_string@ == default_replacement_text(),
            config.show_unchanged,
    {
        Config {
            matcher_string: String::from_str(".*\\.jpeg$"),
            renamer_string: String::from_str("(jpeg)"),
            replacement_string: String::from_str("jpg"),
            show_unchanged: true,
        }
    }
}

} // verus!
