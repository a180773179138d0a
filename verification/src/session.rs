//! The interactive session as a state machine. The session never talks to a
//! terminal or a filesystem: it says what it needs next (`pending`), the
//! caller does that and reports what came of it (`step`).
//!
//! A round runs through the prompts for the three texts, with the listing of
//! the candidate entries after the first, then shows the plan and offers the
//! menu. A text that does not compile, or a selection that matches nothing,
//! starts the round again with the texts entered so far as the seeds.

use crate::config::Config;
use crate::engine::{regex_compiles, regex_complaint, regex_group_count, regex_source};
use crate::error::PatternError;
use crate::matcher::{anchored, get_matched_paths, get_matcher_regex, selected, texts};
use crate::menu::{chosen, decode_selection, menu, menu_labels, MenuChoice};
use crate::planner::{pair_texts, plan_pairs, planned, shown, visible_pairs, ChangePair};
use crate::renamer::{accepted_for_renaming, fit_for_renaming, get_renamer_regex, refused_for};
use regex::Regex;
use vstd::pervasive::unreached;
use vstd::prelude::*;
use vstd::string::*;

verus! {

/// Where a session stands: what it is waiting for.
#[derive(Clone, Copy, Debug, PartialEq, Eq, Structural)]
pub enum Stage {
    /// The selection text.
    SelectionPrompt,
    /// The candidate entries under the root.
    Listing,
    /// The transformation text.
    TransformationPrompt,
    /// The replacement.
    ReplacementPrompt,
    /// The preview of the plan being shown.
    Preview,
    /// The user's choice from the menu.
    AwaitAction,
    /// The plan being applied.
    Applying,
    /// Nothing: the user quit.
    Finished,
    /// Nothing: the entries under the root could not be listed.
    Failed,
}

/// What the session needs from its caller.
#[derive(Debug, PartialEq, Eq)]
pub enum Request {
    /// Ask the user for a text under `label`, offering `seed` for editing.
    Prompt { label: String, seed: String },
    /// List every entry under the root.
    ListEntries,
    /// Show these pairs, in this order.
    ShowPairs(Vec<ChangePair>),
    /// Let the user pick one of these labels.
    Select(Vec<String>),
    /// Apply these pairs.
    Apply(Vec<ChangePair>),
    /// End the process with this status.
    Exit(u8),
}

/// What the caller reports to the session.
#[derive(Debug)]
pub enum Event {
    /// The text that the user entered, or `None` where no input could be had.
    Text(Option<String>),
    /// The full paths of the entries under the root that could be read.
    Entries(Vec<String>),
    /// The entries under the root could not be listed at all.
    ListingFailed,
    /// The pairs have been shown.
    Displayed,
    /// The index of the label that the user picked, or `None` where the menu
    /// was cancelled.
    Selection(Option<usize>),
    /// The plan has been applied.
    Applied,
}

/// What the session has to tell the user after a step.
#[derive(Debug, PartialEq, Eq)]
pub enum Notice {
    /// The selection text was refused.
    InvalidSelection(PatternError),
    /// The selection matched no entry.
    NoMatches,
    /// The selection matched this many entries.
    Matched(usize),
    /// The transformation text was refused.
    InvalidTransformation(PatternError),
    /// Unchanged pairs are shown from now on.
    ShowingUnchanged,
    /// Unchanged pairs are hidden from now on.
    HidingUnchanged,
    /// The menu was cancelled, or answered with something that it does not
    /// offer.
    UnrecognizedSelection,
    /// The entries could not be listed: the session is over.
    ListingFailed,
    /// The report does not answer what the session asked for.
    Ignored,
}

/// The configuration as the contracts see it.
pub struct Settings {
    pub matcher: Seq<char>,
    pub renamer: Seq<char>,
    pub replacement: Seq<char>,
    pub show_unchanged: bool,
}

/// The label of the prompt for the selection text.
pub open spec fn selection_label() -> Seq<char> {
    "Enter your file-matching regex"@
}

/// The label of the prompt for the transformation text.
pub open spec fn transformation_label() -> Seq<char> {
    "Enter a regex to grab the bit you want to rename"@
}

/// The label of the prompt for the replacement.
pub open spec fn replacement_label() -> Seq<char> {
    "Enter your replacement string"@
}

/// The text that a prompt leaves behind: what was entered, or the previous
/// text where no input could be had.
pub open spec fn entered(input: Option<String>, previous: Seq<char>) -> Seq<char> {
    match input {
        Some(text) => text@,
        None => previous,
    }
}

/// The notice that goes with a new setting of the switch for unchanged pairs.
pub open spec fn toggle_notice(show_unchanged: bool) -> Notice {
    if show_unchanged {
        Notice::ShowingUnchanged
    } else {
        Notice::HidingUnchanged
    }
}

/// A session: the root, the configuration, and what the current round has
/// produced so far.
pub struct Session {
    root: String,
    config: Config,
    stage: Stage,
    matcher: Option<Regex>,
    renamer: Option<Regex>,
    matched: Vec<String>,
    changes: Vec<ChangePair>,
}

impl Session {
    /// The root directory.
    pub closed spec fn root(&self) -> Seq<char> {
        self.root@
    }

    /// The stage.
    pub closed spec fn stage(&self) -> Stage {
        self.stage
    }

    /// The configuration.
    pub closed spec fn settings(&self) -> Settings {
        Settings {
            matcher: self.config.matcher_string@,
            renamer: self.config.renamer_string@,
            replacement: self.config.replacement_string@,
            show_unchanged: self.config.show_unchanged,
        }
    }

    /// The compiled selection pattern of this round, if there is one.
    pub closed spec fn matcher(&self) -> Option<Regex> {
        self.matcher
    }

    /// The compiled transformation pattern of this round, if there is one.
    pub closed spec fn renamer(&self) -> Option<Regex> {
        self.renamer
    }

    /// The matched entries of this round.
    pub closed spec fn matched(&self) -> Seq<Seq<char>> {
        texts(self.matched@)
    }

    /// The plan of this round.
    pub closed spec fn plan(&self) -> Seq<(Seq<char>, Seq<char>)> {
        pair_texts(self.changes@)
    }

    /// Whether the stage comes after a selection that matched something.
    pub open spec fn has_matches(&self) -> bool {
        self.stage() is TransformationPrompt || self.has_renamer()
    }

    /// Whether the stage comes after an accepted transformation pattern.
    pub open spec fn has_renamer(&self) -> bool {
        self.stage() is ReplacementPrompt || self.has_plan()
    }

    /// Whether the stage comes after the planning.
    pub open spec fn has_plan(&self) -> bool {
        self.stage() is Preview || self.stage() is AwaitAction || self.stage() is Applying
    }

    /// What holds of a session at every stage. While the entries are listed,
    /// the selection pattern is the current selection text, anchored. From
    /// the transformation prompt on there are matched entries; from the
    /// replacement prompt on the transformation pattern is the current
    /// transformation text and has one capture group; and a plan that is
    /// shown, offered or applied is the plan for the current root, pattern,
    /// replacement and matched entries.
    pub open spec fn wf(&self) -> bool {
        &&& self.plan().len() <= usize::MAX
        &&& self.stage() is Listing ==> (self.matcher() matches Some(re) && regex_source(re)
            == anchored(self.settings().matcher))
        &&& self.has_matches() ==> self.matched().len() > 0
        &&& self.has_renamer() ==> (self.renamer() matches Some(re) && regex_source(re)
            == self.settings().renamer && fit_for_renaming(regex_group_count(re)))
        &&& self.has_plan() ==> (self.renamer() matches Some(re) && self.plan() == planned(
            re,
            self.root(),
            self.settings().replacement,
            self.matched(),
        ))
    }

    /// After the selection prompt: the text is taken over. Where the engine
    /// compiles it, anchored, the session goes on to the listing with the
    /// compiled pattern; else it stays at the prompt, with what the engine
    /// says of the anchored text.
    pub open spec fn selection_entered(
        pre: Session,
        input: Option<String>,
        post: Session,
        notice: Option<Notice>,
    ) -> bool {
        &&& post.settings() == (Settings {
            matcher: entered(input, pre.settings().matcher),
            ..pre.settings()
        })
        &&& if regex_compiles(anchored(post.settings().matcher)) {
            post.stage() is Listing && notice is None
        } else {
            post.stage() is SelectionPrompt && (notice matches Some(
                Notice::InvalidSelection(PatternError::InvalidPattern(words)),
            ) && words@ == regex_complaint(anchored(post.settings().matcher)))
        }
    }

    /// After the listing: the matched entries are the listed entries that
    /// the selection pattern accepts, in their order. With none the round
    /// starts again; else the session goes on to the transformation prompt.
    pub open spec fn entries_listed(
        pre: Session,
        list: Vec<String>,
        post: Session,
        notice: Option<Notice>,
    ) -> bool {
        &&& post.settings() == pre.settings()
        &&& pre.matcher() matches Some(re)
        &&& post.matched() == selected(re, texts(list@))
        &&& if post.matched().len() == 0 {
            post.stage() is SelectionPrompt && notice == Some(Notice::NoMatches)
        } else {
            post.stage() is TransformationPrompt && (notice matches Some(Notice::Matched(count))
                && count == post.matched().len())
        }
    }

    /// After the transformation prompt: the text is taken over. Where it is
    /// accepted for renaming, the session goes on to the replacement prompt
    /// with the compiled pattern; else the round starts again, with the
    /// error that is owed to the text.
    pub open spec fn transformation_entered(
        pre: Session,
        input: Option<String>,
        post: Session,
        notice: Option<Notice>,
    ) -> bool {
        &&& post.settings() == (Settings {
            renamer: entered(input, pre.settings().renamer),
            ..pre.settings()
        })
        &&& post.matched() == pre.matched()
        &&& if accepted_for_renaming(post.settings().renamer) {
            post.stage() is ReplacementPrompt && notice is None
        } else {
            post.stage() is SelectionPrompt && (notice matches Some(
                Notice::InvalidTransformation(reason),
            ) && refused_for(post.settings().renamer, reason))
        }
    }

    /// After the replacement prompt: the text is taken over and the plan is
    /// made from it.
    pub open spec fn replacement_entered(
        pre: Session,
        input: Option<String>,
        post: Session,
        notice: Option<Notice>,
    ) -> bool {
        &&& post.settings() == (Settings {
            replacement: entered(input, pre.settings().replacement),
            ..pre.settings()
        })
        &&& post.matched() == pre.matched()
        &&& post.renamer() == pre.renamer()
        &&& post.stage() is Preview
        &&& notice is None
    }

    /// After the menu: the patterns are edited again with the current texts
    /// as seeds, the plan is applied, the switch for unchanged pairs is
    /// flipped and the same plan shown again, or the session ends. An answer
    /// that stands for no choice changes nothing, and the menu is offered
    /// again.
    pub open spec fn selection_made(
        pre: Session,
        selection: Option<usize>,
        post: Session,
        notice: Option<Notice>,
    ) -> bool {
        match chosen(selection) {
            Some(MenuChoice::ChangeRegexes) => {
                &&& post.stage() is SelectionPrompt
                &&& post.settings() == pre.settings()
                &&& notice is None
            },
            Some(MenuChoice::Apply) => {
                &&& post.stage() is Applying
                &&& post.settings() == pre.settings()
                &&& post.plan() == pre.plan()
                &&& notice is None
            },
            Some(MenuChoice::ToggleUnchanged) => {
                &&& post.stage() is Preview
                &&& post.settings() == (Settings {
                    show_unchanged: !pre.settings().show_unchanged,
                    ..pre.settings()
                })
                &&& post.plan() == pre.plan()
                &&& notice == Some(toggle_notice(post.settings().show_unchanged))
            },
            Some(MenuChoice::Quit) => {
                &&& post.stage() is Finished
                &&& post.settings() == pre.settings()
                &&& notice is None
            },
            None => {
                &&& post == pre
                &&& notice == Some(Notice::UnrecognizedSelection)
            },
        }
    }

    /// What one step does: the relation between the session before, the
    /// report, the session after and the notice. A report that does not
    /// answer the pending request changes nothing.
    pub open spec fn transition(
        pre: Session,
        event: Event,
        post: Session,
        notice: Option<Notice>,
    ) -> bool {
        match (pre.stage(), event) {
            (Stage::SelectionPrompt, Event::Text(input)) => Self::selection_entered(
                pre,
                input,
                post,
                notice,
            ),
            (Stage::Listing, Event::Entries(list)) => Self::entries_listed(
                pre,
                list,
                post,
                notice,
            ),
            (Stage::Listing, Event::ListingFailed) => {
                &&& post.stage() is Failed
                &&& post.settings() == pre.settings()
                &&& notice == Some(Notice::ListingFailed)
            },
            (Stage::TransformationPrompt, Event::Text(input)) => Self::transformation_entered(
                pre,
                input,
                post,
                notice,
            ),
            (Stage::ReplacementPrompt, Event::Text(input)) => Self::replacement_entered(
                pre,
                input,
                post,
                notice,
            ),
            (Stage::Preview, Event::Displayed) => {
                &&& post.stage() is AwaitAction
                &&& post.settings() == pre.settings()
                &&& post.plan() == pre.plan()
                &&& notice is None
            },
            (Stage::AwaitAction, Event::Selection(selection)) => Self::selection_made(
                pre,
                selection,
                post,
                notice,
            ),
            (Stage::Applying, Event::Applied) => {
                &&& post.stage() is SelectionPrompt
                &&& post.settings() == pre.settings()
                &&& notice is None
            },
            _ => {
                &&& post == pre
                &&& notice == Some(Notice::Ignored)
            },
        }
    }

    /// Starts a session for a root, with the default configuration, at the
    /// selection prompt.
    pub fn new(root: String) -> (session: Session)
        ensures
            session.wf(),
            session.root() == root@,
            session.stage() is SelectionPrompt,
            session.settings() == (Settings {
                matcher: crate::config::default_matcher_text(),
                renamer: crate::config::default_renamer_text(),
                replacement: crate::config::default_replacement_text(),
                show_unchanged: true,
            }),
    {
        let session = Session {
            root,
            config: Config::default(),
            stage: Stage::SelectionPrompt,
            matcher: None,
            renamer: None,
            matched: Vec::new(),
            changes: Vec::new(),
        };
        assert(pair_texts(session.changes@).len() == 0);
        session
    }

    /// The stage of the session.
    pub fn current_stage(&self) -> (stage: Stage)
        ensures
            stage == self.stage(),
    {
        self.stage
    }

    /// The configuration of the session.
    pub fn current_config(&self) -> (config: &Config)
        ensures
            config.matcher_string@ == self.settings().matcher,
            config.renamer_string@ == self.settings().renamer,
            config.replacement_string@ == self.settings().replacement,
            config.show_unchanged == self.settings().show_unchanged,
    {
        &self.config
    }

    /// The root of the session.
    pub fn base_path(&self) -> (root: &String)
        ensures
            root@ == self.root(),
    {
        &self.root
    }

    /// The matched entries of the current round.
    pub fn matched_paths(&self) -> (matched: &Vec<String>)
        ensures
            texts(matched@) == self.matched(),
    {
        &self.matched
    }

    /// The plan of the current round.
    pub fn planned_changes(&self) -> (changes: &Vec<ChangePair>)
        ensures
            pair_texts(changes@) == self.plan(),
    {
        &self.changes
    }

    /// Whether the session is over.
    pub fn is_over(&self) -> (over: bool)
        ensures
            over == (self.stage() is Finished || self.stage() is Failed),
    {
        match self.stage {
            Stage::Finished => true,
            Stage::Failed => true,
            _ => false,
        }
    }

    /// What the session needs now. At a prompt, the label and the current
    /// text as the seed; at the preview, the plan or the plan without its
    /// unchanged pairs; at the menu, its labels; while applying, the plan.
    /// A session that is over asks for the exit: with status 0 after a quit,
    /// with status 1 after a failed listing.
    pub fn pending(&self) -> (request: Request)
        requires
            self.wf(),
        ensures
            match self.stage() {
                Stage::SelectionPrompt => request matches Request::Prompt { label, seed }
                    && label@ == selection_label() && seed@ == self.settings().matcher,
                Stage::Listing => request is ListEntries,
                Stage::TransformationPrompt => request matches Request::Prompt { label, seed }
                    && label@ == transformation_label() && seed@ == self.settings().renamer,
                Stage::ReplacementPrompt => request matches Request::Prompt { label, seed }
                    && label@ == replacement_label() && seed@ == self.settings().replacement,
                Stage::Preview => request matches Request::ShowPairs(pairs) && pair_texts(pairs@)
                    == shown(self.plan(), self.settings().show_unchanged),
                Stage::AwaitAction => request matches Request::Select(labels) && texts(labels@)
                    == menu(self.settings().show_unchanged, self.plan().len()),
                Stage::Applying => request matches Request::Apply(pairs) && pair_texts(pairs@)
                    == self.plan(),
                Stage::Finished => request == Request::Exit(0),
                Stage::Failed => request == Request::Exit(1),
            },
    {
        match self.stage {
            Stage::SelectionPrompt => Request::Prompt {
                label: String::from_str("Enter your file-matching regex"),
                seed: self.config.matcher_string.clone(),
            },
            Stage::Listing => Request::ListEntries,
            Stage::TransformationPrompt => Request::Prompt {
                label: String::from_str("Enter a regex to grab the bit you want to rename"),
                seed: self.config.renamer_string.clone(),
            },
            Stage::ReplacementPrompt => Request::Prompt {
                label: String::from_str("Enter your replacement string"),
                seed: self.config.replacement_string.clone(),
            },
            Stage::Preview => Request::ShowPairs(
                visible_pairs(&self.changes, self.config.show_unchanged),
            ),
            Stage::AwaitAction => {
                assert(pair_texts(self.changes@).len() == self.changes.len());
                Request::Select(menu_labels(self.config.show_unchanged, self.changes.len()))
            },
            Stage::Applying => Request::Apply(visible_pairs(&self.changes, true)),
            Stage::Finished => Request::Exit(0),
            Stage::Failed => Request::Exit(1),
        }
    }

    fn on_selection_text(&mut self, input: Option<String>) -> (notice: Option<Notice>)
        requires
            old(self).wf(),
            old(self).stage() is SelectionPrompt,
        ensures
            final(self).wf(),
            final(self).root() == old(self).root(),
            Self::selection_entered(*old(self), input, *final(self), notice),
    {
        if let Some(text) = input {
            self.config.matcher_string = text;
        }
        match get_matcher_regex(self.config.matcher_string.as_str()) {
            Ok(re) => {
                self.matcher = Some(re);
                self.stage = Stage::Listing;
                None
            },
            Err(reason) => Some(Notice::InvalidSelection(reason)),
        }
    }

    fn on_entries(&mut self, list: Vec<String>) -> (notice: Option<Notice>)
        requires
            old(self).wf(),
            old(self).stage() is Listing,
        ensures
            final(self).wf(),
            final(self).root() == old(self).root(),
            Self::entries_listed(*old(self), list, *final(self), notice),
    {
        let found = match &self.matcher {
            Some(re) => get_matched_paths(&list, re),
            None => unreached(),
        };
        self.matched = found;
        assert(texts(self.matched@).len() == self.matched.len());
        if self.matched.len() == 0 {
            self.stage = Stage::SelectionPrompt;
            Some(Notice::NoMatches)
        } else {
            self.stage = Stage::TransformationPrompt;
            Some(Notice::Matched(self.matched.len()))
        }
    }

    fn on_transformation_text(&mut self, input: Option<String>) -> (notice: Option<Notice>)
        requires
            old(self).wf(),
            old(self).stage() is TransformationPrompt,
        ensures
            final(self).wf(),
            final(self).root() == old(self).root(),
            Self::transformation_entered(*old(self), input, *final(self), notice),
    {
        if let Some(text) = input {
            self.config.renamer_string = text;
        }
        match get_renamer_regex(self.config.renamer_string.as_str()) {
            Ok(re) => {
                self.renamer = Some(re);
                self.stage = Stage::ReplacementPrompt;
                None
            },
            Err(reason) => {
                self.stage = Stage::SelectionPrompt;
                Some(Notice::InvalidTransformation(reason))
            },
        }
    }

    fn on_replacement_text(&mut self, input: Option<String>) -> (notice: Option<Notice>)
        requires
            old(self).wf(),
            old(self).stage() is ReplacementPrompt,
        ensures
            final(self).wf(),
            final(self).root() == old(self).root(),
            Self::replacement_entered(*old(self), input, *final(self), notice),
    {
        if let Some(text) = input {
            self.config.replacement_string = text;
        }
        let changes = match &self.renamer {
            Some(re) => plan_pairs(
                &self.matched,
                self.root.as_str(),
                re,
                self.config.replacement_string.as_str(),
            ),
            None => unreached(),
        };
        self.changes = changes;
        assert(pair_texts(self.changes@).len() == self.changes.len());
        self.stage = Stage::Preview;
        None
    }

    fn on_selection(&mut self, selection: Option<usize>) -> (notice: Option<Notice>)
        requires
            old(self).wf(),
            old(self).stage() is AwaitAction,
        ensures
            final(self).wf(),
            final(self).root() == old(self).root(),
            Self::selection_made(*old(self), selection, *final(self), notice),
    {
        match decode_selection(selection) {
            Some(MenuChoice::ChangeRegexes) => {
                self.stage = Stage::SelectionPrompt;
                None
            },
            Some(MenuChoice::Apply) => {
                self.stage = Stage::Applying;
                None
            },
            Some(MenuChoice::ToggleUnchanged) => {
                self.config.show_unchanged = !self.config.show_unchanged;
                self.stage = Stage::Preview;
                if self.config.show_unchanged {
                    Some(Notice::ShowingUnchanged)
                } else {
                    Some(Notice::HidingUnchanged)
                }
            },
            Some(MenuChoice::Quit) => {
                self.stage = Stage::Finished;
                None
            },
            None => Some(Notice::UnrecognizedSelection),
        }
    }

    /// Takes the caller's report and moves the session on, as `transition`
    /// says. The root is never touched.
    pub fn step(&mut self, event: Event) -> (notice: Option<Notice>)
        requires
            old(self).wf(),
        ensures
            final(self).wf(),
            final(self).root() == old(self).root(),
            Self::transition(*old(self), event, *final(self), notice),
    {
        match (self.stage, event) {
            (Stage::SelectionPrompt, Event::Text(input)) => self.on_selection_text(input),
            (Stage::Listing, Event::Entries(list)) => self.on_entries(list),
            (Stage::Listing, Event::ListingFailed) => {
                self.stage = Stage::Failed;
                Some(Notice::ListingFailed)
            },
            (Stage::TransformationPrompt, Event::Text(input)) => self.on_transformation_text(
                input,
            ),
            (Stage::ReplacementPrompt, Event::Text(input)) => self.on_replacement_text(input),
            (Stage::Preview, Event::Displayed) => {
                self.stage = Stage::AwaitAction;
                None
            },
            (Stage::AwaitAction, Event::Selection(selection)) => self.on_selection(selection),
            (Stage::Applying, Event::Applied) => {
                self.stage = Stage::SelectionPrompt;
                None
            },
            _ => Some(Notice::Ignored),
        }
    }
}

/// A session ends cleanly in one way only: the user picks the entry of the
/// menu that quits.
pub proof fn lemma_quit_is_the_only_clean_exit(
    pre: Session,
    event: Event,
    post: Session,
    notice: Option<Notice>,
)
    requires
        Session::transition(pre, event, post, notice),
        post.stage() is Finished,
        !(pre.stage() is Finished),
    ensures
        pre.stage() is AwaitAction,
        event matches Event::Selection(selection) && chosen(selection) == Some(MenuChoice::Quit),
{
}

/// A session fails in one way only: the entries under the root cannot be
/// listed.
pub proof fn lemma_failure_comes_from_the_listing(
    pre: Session,
    event: Event,
    post: Session,
    notice: Option<Notice>,
)
    requires
        Session::transition(pre, event, post, notice),
        post.stage() is Failed,
        !(pre.stage() is Failed),
    ensures
        pre.stage() is Listing,
        event is ListingFailed,
{
}

/// A session that is over stays as it is, whatever is reported to it.
pub proof fn lemma_over_is_final(
    pre: Session,
    event: Event,
    post: Session,
    notice: Option<Notice>,
)
    requires
        Session::transition(pre, event, post, notice),
        pre.stage() is Finished || pre.stage() is Failed,
    ensures
        post == pre,
        notice == Some(Notice::Ignored),
{
}

/// The plan is applied only on the user's word: the session asks for it only
/// after the menu was answered with the entry that applies.
pub proof fn lemma_apply_needs_confirmation(
    pre: Session,
    event: Event,
    post: Session,
    notice: Option<Notice>,
)
    requires
        Session::transition(pre, event, post, notice),
        post.stage() is Applying,
        !(pre.stage() is Applying),
    ensures
        pre.stage() is AwaitAction,
        event matches Event::Selection(selection) && chosen(selection) == Some(MenuChoice::Apply),
        post.plan() == pre.plan(),
{
}

/// Flipping the switch for unchanged pairs shows the same plan again: nothing
/// is planned anew, and the texts stay as they are.
pub proof fn lemma_toggle_keeps_the_plan(
    pre: Session,
    selection: Option<usize>,
    post: Session,
    notice: Option<Notice>,
)
    requires
        pre.stage() is AwaitAction,
        chosen(selection) == Some(MenuChoice::ToggleUnchanged),
        Session::transition(pre, Event::Selection(selection), post, notice),
    ensures
        post.stage() is Preview,
        post.plan() == pre.plan(),
        post.settings().show_unchanged == !pre.settings().show_unchanged,
        post.settings().matcher == pre.settings().matcher,
        post.settings().renamer == pre.settings().renamer,
        post.settings().replacement == pre.settings().replacement,
{
}

} // verus!
