//! The menu that follows a preview.

use crate::matcher::texts;
use crate::numeral::{decimal, decimal_text};
use crate::text::joined;
use vstd::prelude::*;
use vstd::string::*;

verus! {

/// What the user can choose after a preview.
#[derive(Clone, Copy, Debug, PartialEq, Eq, Structural)]
pub enum MenuChoice {
    /// Edit the patterns again.
    ChangeRegexes,
    /// Apply the plan.
    Apply,
    /// Show or hide the unchanged pairs.
    ToggleUnchanged,
    /// Leave without changing anything.
    Quit,
}

/// The label of the entry that applies a plan of `count` pairs.
pub open spec fn apply_label(count: nat) -> Seq<char> {
    "Apply changes to "@ + decimal(count) + " files"@
}

/// The label of the entry that switches the unchanged pairs on or off: it
/// names what choosing it will do.
pub open spec fn toggle_label(show_unchanged: bool) -> Seq<char> {
    if show_unchanged {
        "Hide unchanged files"@
    } else {
        "Show unchanged files"@
    }
}

/// The four labels of the menu, in the order in which they are offered.
pub open spec fn menu(show_unchanged: bool, count: nat) -> Seq<Seq<char>> {
    seq![
        "Change regexes"@,
        apply_label(count),
        toggle_label(show_unchanged),
        "Quit without making changes"@,
    ]
}

/// The choice that an answer of the menu stands for. A cancelled menu and an
/// index beyond the entries stand for none.
pub open spec fn chosen(selection: Option<usize>) -> Option<MenuChoice> {
    match selection {
        Some(index) => {
            if index == 0 {
                Some(MenuChoice::ChangeRegexes)
            } else if index == 1 {
                Some(MenuChoice::Apply)
            } else if index == 2 {
                Some(MenuChoice::ToggleUnchanged)
            } else if index == 3 {
                Some(MenuChoice::Quit)
            } else {
                None
            }
        },
        None => None,
    }
}

/// Every entry of the menu stands for a choice, and nothing else does.
pub proof fn lemma_menu_entries_are_choices(show_unchanged: bool, count: nat, index: usize)
    ensures
        menu(show_unchanged, count).len() == 4,
        chosen(Some(index)) is Some <==> index < menu(show_unchanged, count).len(),
        chosen(None) is None,
{
}

/// Builds the labels of the menu for a plan of `count` pairs.
pub fn menu_labels(show_unchanged: bool, count: usize) -> (labels: Vec<String>)
    ensures
        texts(labels@) == menu(show_unchanged, count as nat),
{
    let number = decimal_text(count);
    let head = joined("Apply changes to ", number.as_str());
    let apply = joined(head.as_str(), " files");
    let toggle = if show_unchanged {
        String::from_str("Hide unchanged files")
    } else {
        String::from_str("Show unchanged files")
    };
    let mut labels: Vec<String> = Vec::new();
    labels.push(String::from_str("Change regexes"));
    labels.push(apply);
    labels.push(toggle);
    labels.push(String::from_str("Quit without making changes"));
    assert(texts(labels@) =~= menu(show_unchanged, count as nat));
    labels
}

/// Reads an answer of the menu.
pub fn decode_selection(selection: Option<usize>) -> (choice: Option<MenuChoice>)
    ensures
        choice == chosen(selection),
{
    match selection {
        Some(0) => Some(MenuChoice::ChangeRegexes),
        Some(1) => Some(MenuChoice::Apply),
        Some(2) => Some(MenuChoice::ToggleUnchanged),
        Some(3) => Some(MenuChoice::Quit),
        _ => None,
    }
}

} // verus!
