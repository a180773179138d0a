//! The plan: one change pair for each matched entry, in the entries' order.

use crate::engine::regex_accepts;
use crate::matcher::texts;
use crate::renamer::{destination, destination_path, relative};
use regex::Regex;
use vstd::prelude::*;
use vstd::string::*;

verus! {

/// A planned rename: where a file is, and where it is to go.
#[derive(Debug, PartialEq, Eq)]
pub struct ChangePair {
    pub source: String,
    pub destination: String,
}

impl View for ChangePair {
    type V = (Seq<char>, Seq<char>);

    open spec fn view(&self) -> (Seq<char>, Seq<char>) {
        (self.source@, self.destination@)
    }
}

impl Clone for ChangePair {
    fn clone(&self) -> (copy: Self)
        ensures
            copy@ == self@,
    {
        ChangePair { source: self.source.clone(), destination: self.destination.clone() }
    }
}

/// A pair is unchanged when its destination is its source.
pub open spec fn unchanged(pair: (Seq<char>, Seq<char>)) -> bool {
    pair.0 == pair.1
}

impl ChangePair {
    /// Whether applying the pair would leave the file where it is.
    pub fn is_unchanged(&self) -> (b: bool)
        ensures
            b == unchanged(self@),
    {
        self.source == self.destination
    }
}

/// The source and destination texts of a list of pairs.
pub open spec fn pair_texts(pairs: Seq<ChangePair>) -> Seq<(Seq<char>, Seq<char>)> {
    pairs.map_values(|pair: ChangePair| pair@)
}

/// The plan for a list of paths: each path with its destination, in order.
pub open spec fn planned(
    re: Regex,
    root: Seq<char>,
    replacement: Seq<char>,
    paths: Seq<Seq<char>>,
) -> Seq<(Seq<char>, Seq<char>)> {
    paths.map_values(|path: Seq<char>| (path, destination(re, root, replacement, path)))
}

/// The pairs that a preview shows: all of them, or only those that change
/// something.
pub open spec fn shown(pairs: Seq<(Seq<char>, Seq<char>)>, show_unchanged: bool) -> Seq<
    (Seq<char>, Seq<char>),
> {
    if show_unchanged {
        pairs
    } else {
        pairs.filter(|pair: (Seq<char>, Seq<char>)| !unchanged(pair))
    }
}

/// Two plans made from the same pattern, root, replacement and entries are
/// the same, text for text.
pub proof fn lemma_plan_is_deterministic(
    first: Seq<ChangePair>,
    second: Seq<ChangePair>,
    re: Regex,
    root: Seq<char>,
    replacement: Seq<char>,
    paths: Seq<Seq<char>>,
)
    requires
        pair_texts(first) == planned(re, root, replacement, paths),
        pair_texts(second) == planned(re, root, replacement, paths),
    ensures
        first.len() == second.len(),
        forall|i: int|
            0 <= i < first.len() ==> first[i].source@ == second[i].source@
                && first[i].destination@ == second[i].destination@,
{
    assert(pair_texts(first).len() == first.len());
    assert(pair_texts(second).len() == second.len());
    assert forall|i: int| 0 <= i < first.len() implies first[i].source@ == second[i].source@
        && first[i].destination@ == second[i].destination@ by {
        assert(pair_texts(first)[i] == first[i]@);
        assert(pair_texts(second)[i] == second[i]@);
    }
}

/// Plans the rename of every matched entry: the pairs come in the entries'
/// order, each with the entry as its source and the entry's destination
/// under the pattern. An entry under the root whose relative path the pattern
/// does not match is paired with itself.
pub fn plan_pairs(
    paths: &Vec<String>,
    base_path: &str,
    renamer_regex: &Regex,
    replacement_string: &str,
) -> (changes: Vec<ChangePair>)
    ensures
        pair_texts(changes@) == planned(
            *renamer_regex,
            base_path@,
            replacement_string@,
            texts(paths@),
        ),
        changes.len() == paths.len(),
        forall|i: int|
            0 <= i < paths.len() && base_path@.is_prefix_of(#[trigger] paths[i]@) && !regex_accepts(
                *renamer_regex,
                relative(paths[i]@, base_path@),
            ) ==> unchanged(changes[i]@),
{
    let mut changes: Vec<ChangePair> = Vec::new();
    let mut i: usize = 0;
    while i < paths.len()
        invariant
            i <= paths.len(),
            changes.len() == i,
            forall|j: int|
                0 <= j < i ==> (#[trigger] changes[j])@ == (
                    paths[j]@,
                    destination(*renamer_regex, base_path@, replacement_string@, paths[j]@),
                ),
            forall|j: int|
                0 <= j < i && base_path@.is_prefix_of(#[trigger] paths[j]@) && !regex_accepts(
                    *renamer_regex,
                    relative(paths[j]@, base_path@),
                ) ==> unchanged(changes[j]@),
        decreases paths.len() - i,
    {
        let source = paths[i].clone();
        let dest = destination_path(source.as_str(), base_path, renamer_regex, replacement_string);
        changes.push(ChangePair { source, destination: dest });
        i = i + 1;
    }
    assert(pair_texts(changes@) =~= planned(
        *renamer_regex,
        base_path@,
        replacement_string@,
        texts(paths@),
    ));
    changes
}

/// The planner on owned arguments: the plan of `plan_pairs` for the same
/// entries, root, pattern and replacement.
pub fn get_change_pairs(
    paths: Vec<String>,
    base_path: String,
    renamer_regex: Regex,
    replacement_string: &String,
) -> (changes: Vec<ChangePair>)
    ensures
        pair_texts(changes@) == planned(
            renamer_regex,
            base_path@,
            replacement_string@,
            texts(paths@),
        ),
        changes.len() == paths.len(),
        forall|i: int|
            0 <= i < paths.len() && base_path@.is_prefix_of(#[trigger] paths[i]@) && !regex_accepts(
                renamer_regex,
                relative(paths[i]@, base_path@),
            ) ==> unchanged(changes[i]@),
{
    plan_pairs(&paths, base_path.as_str(), &renamer_regex, replacement_string.as_str())
}

/// The pairs to show in a preview, in the plan's order: the whole plan, or
/// the plan without its unchanged pairs.
pub fn visible_pairs(changes: &Vec<ChangePair>, show_unchanged: bool) -> (visible: Vec<ChangePair>)
    ensures
        pair_texts(visible@) == shown(pair_texts(changes@), show_unchanged),
{
    let mut visible: Vec<ChangePair> = Vec::new();
    let ghost keep = |pair: (Seq<char>, Seq<char>)| !unchanged(pair);
    let mut i: usize = 0;
    proof {
        reveal(Seq::filter);
        assert(pair_texts(changes@).take(0) =~= Seq::<(Seq<char>, Seq<char>)>::empty());
        assert(pair_texts(visible@) =~= pair_texts(changes@).take(0));
    }
    while i < changes.len()
        invariant
            i <= changes.len(),
            keep == |pair: (Seq<char>, Seq<char>)| !unchanged(pair),
            show_unchanged ==> pair_texts(visible@) == pair_texts(changes@).take(i as int),
            !show_unchanged ==> pair_texts(visible@) == pair_texts(changes@).take(i as int).filter(
                keep,
            ),
        decreases changes.len() - i,
    {
        let pair = &changes[i];
        let ghost before = pair_texts(visible@);
        if show_unchanged || !pair.is_unchanged() {
            visible.push(pair.clone());
            assert(pair_texts(visible@) =~= before.push(pair@));
        }
        proof {
            let all = pair_texts(changes@);
            assert(all.take(i + 1).drop_last() =~= all.take(i as int));
            assert(all.take(i + 1).last() == pair@);
            assert(all.take(i + 1) =~= all.take(i as int).push(pair@));
            reveal(Seq::filter);
        }
        i = i + 1;
    }
    assert(pair_texts(changes@).take(i as int) =~= pair_texts(changes@));
    visible
}

} // verus!
