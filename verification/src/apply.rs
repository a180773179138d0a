//! The apply step as a state machine. For each pair of the plan the caller is
//! first asked whether the destination exists, and only where it does not is
//! the caller asked to rename. The caller does the work on the filesystem and
//! reports back; the machine decides and keeps the report.

use crate::planner::{pair_texts, ChangePair};
use crate::text::joined;
use vstd::prelude::*;
use vstd::string::*;

verus! {

/// What became of one pair.
#[derive(Clone, Debug, PartialEq, Eq)]
pub enum Outcome {
    /// The destination existed: nothing was done.
    SkippedExists,
    /// The file was renamed.
    Renamed,
    /// The rename was tried and failed, with the reason given.
    Failed(String),
}

/// The report on a pair with this outcome and this destination: a skipped
/// pair is reported with the destination that was in the way, a failed one
/// with the reason.
pub open spec fn outcome_text(outcome: Outcome, destination: Seq<char>) -> Seq<char> {
    match outcome {
        Outcome::SkippedExists => "File already exists! Not taking action! "@ + destination,
        Outcome::Renamed => "Ok"@,
        Outcome::Failed(reason) => "Failed to rename: "@ + reason@,
    }
}

impl Outcome {
    /// The line that reports this outcome for a pair with the given
    /// destination.
    pub fn describe(&self, destination: &str) -> (line: String)
        ensures
            line@ == outcome_text(*self, destination@),
    {
        match self {
            Outcome::SkippedExists => joined(
                "File already exists! Not taking action! ",
                destination,
            ),
            Outcome::Renamed => String::from_str("Ok"),
            Outcome::Failed(reason) => joined("Failed to rename: ", reason.as_str()),
        }
    }
}

/// What the caller is to do next.
#[derive(Debug, PartialEq, Eq)]
pub enum ApplyRequest {
    /// Find out whether this destination exists.
    Probe(String),
    /// Rename the first path to the second.
    Rename(String, String),
    /// Nothing: every pair has its outcome.
    Finished,
}

/// What the caller reports.
#[derive(Debug)]
pub enum ApplyEvent {
    /// Whether the destination that was asked about exists.
    Probed(bool),
    /// The rename that was asked for is over: `None` for success, else the
    /// reason of the failure.
    RenameDone(Option<String>),
}

/// The state of a run, as the contracts see it.
pub struct ApplyState {
    /// The number of pairs that have their outcome.
    pub position: nat,
    /// Whether a rename of the pair at `position` has been asked for.
    pub renaming: bool,
    /// The outcomes so far, one for each pair before `position`.
    pub outcomes: Seq<Outcome>,
}

/// The outcome that a finished rename is reported with.
pub open spec fn rename_outcome(failure: Option<String>) -> Outcome {
    match failure {
        None => Outcome::Renamed,
        Some(reason) => Outcome::Failed(reason),
    }
}

/// Whether the machine waits for the answer to a probe.
pub open spec fn probing(len: nat, state: ApplyState) -> bool {
    state.position < len && !state.renaming
}

/// The state after an event, for a plan of `len` pairs. An event that does
/// not answer the pending request changes nothing.
pub open spec fn apply_next(len: nat, state: ApplyState, event: ApplyEvent) -> ApplyState {
    match event {
        ApplyEvent::Probed(exists) => {
            if !probing(len, state) {
                state
            } else if exists {
                ApplyState {
                    position: state.position + 1,
                    renaming: false,
                    outcomes: state.outcomes.push(Outcome::SkippedExists),
                }
            } else {
                ApplyState { position: state.position, renaming: true, outcomes: state.outcomes }
            }
        },
        ApplyEvent::RenameDone(failure) => {
            if state.position < len && state.renaming {
                ApplyState {
                    position: state.position + 1,
                    renaming: false,
                    outcomes: state.outcomes.push(rename_outcome(failure)),
                }
            } else {
                state
            }
        },
    }
}

/// A destination that exists is never renamed onto: the pair is closed with
/// `SkippedExists` and no rename is asked for.
pub proof fn lemma_existing_destination_is_skipped(len: nat, state: ApplyState)
    requires
        probing(len, state),
    ensures
        ({
            let next = apply_next(len, state, ApplyEvent::Probed(true));
            &&& !next.renaming
            &&& next.position == state.position + 1
            &&& next.outcomes == state.outcomes.push(Outcome::SkippedExists)
        }),
{
}

/// A rename is asked for only in answer to a probe that found no
/// destination, and for the pair that was probed.
pub proof fn lemma_rename_follows_absent_destination(
    len: nat,
    state: ApplyState,
    event: ApplyEvent,
)
    requires
        !state.renaming,
        apply_next(len, state, event).renaming,
    ensures
        event == ApplyEvent::Probed(false),
        probing(len, state),
        apply_next(len, state, event).position == state.position,
{
}

/// A pair gets one outcome and is then left behind: no event moves the
/// position back, takes an outcome away, or asks again for a rename that was
/// reported, whether it succeeded or failed.
pub proof fn lemma_no_retry_no_abort(len: nat, state: ApplyState, event: ApplyEvent)
    requires
        state.position <= len,
        state.outcomes.len() == state.position,
        state.renaming ==> state.position < len,
    ensures
        ({
            let next = apply_next(len, state, event);
            &&& state.position <= next.position <= len
            &&& next.outcomes.len() == next.position
            &&& next.renaming ==> next.position < len
            &&& state.outcomes.is_prefix_of(next.outcomes)
            &&& (state.renaming && event is RenameDone) ==> next.position == state.position + 1
                && !next.renaming
        }),
{
    let next = apply_next(len, state, event);
    assert(state.outcomes.is_prefix_of(next.outcomes)) by {
        if next.outcomes != state.outcomes {
            assert(next.outcomes.len() == state.outcomes.len() + 1);
            assert(next.outcomes.take(state.outcomes.len() as int) =~= state.outcomes);
        }
    }
}

/// A run of the apply step over one plan.
pub struct ApplyRun {
    changes: Vec<ChangePair>,
    done: usize,
    renaming: bool,
    report: Vec<Outcome>,
}

impl ApplyRun {
    /// The plan that is being applied.
    pub closed spec fn plan(&self) -> Seq<(Seq<char>, Seq<char>)> {
        pair_texts(self.changes@)
    }

    /// Where the run stands.
    pub closed spec fn state(&self) -> ApplyState {
        ApplyState { position: self.done as nat, renaming: self.renaming, outcomes: self.report@ }
    }

    /// The position is within the plan, each pair before it has its outcome,
    /// and a rename is pending only for a pair of the plan.
    pub closed spec fn wf(&self) -> bool {
        &&& self.done <= self.changes.len()
        &&& self.report.len() == self.done
        &&& self.renaming ==> self.done < self.changes.len()
    }

    /// Starts a run at the first pair of the plan.
    pub fn new(changes: Vec<ChangePair>) -> (run: ApplyRun)
        ensures
            run.wf(),
            run.plan() == pair_texts(changes@),
            run.state() == (ApplyState {
                position: 0,
                renaming: false,
                outcomes: Seq::<Outcome>::empty(),
            }),
    {
        ApplyRun { changes, done: 0, renaming: false, report: Vec::new() }
    }

    /// What the caller is to do now: probe the destination of the current
    /// pair, rename the current pair once its destination was found absent,
    /// or nothing when the plan is through.
    pub fn pending(&self) -> (request: ApplyRequest)
        requires
            self.wf(),
        ensures
            self.state().position >= self.plan().len() ==> request is Finished,
            probing(self.plan().len(), self.state()) ==> (request matches ApplyRequest::Probe(
                destination,
            ) && destination@ == self.plan()[self.state().position as int].1),
            self.state().position < self.plan().len() && self.state().renaming ==> (
            request matches ApplyRequest::Rename(source, destination) && (source@, destination@)
                == self.plan()[self.state().position as int]),
    {
        if self.done >= self.changes.len() {
            ApplyRequest::Finished
        } else {
            let pair = &self.changes[self.done];
            assert(self.plan()[self.done as int] == pair@);
            if self.renaming {
                ApplyRequest::Rename(pair.source.clone(), pair.destination.clone())
            } else {
                ApplyRequest::Probe(pair.destination.clone())
            }
        }
    }

    /// Takes the caller's report and moves on as `apply_next` says.
    pub fn advance(&mut self, event: ApplyEvent)
        requires
            old(self).wf(),
        ensures
            final(self).wf(),
            final(self).plan() == old(self).plan(),
            final(self).state() == apply_next(old(self).plan().len(), old(self).state(), event),
    {
        let in_plan = self.done < self.changes.len();
        proof {
            assert(self.plan().len() == self.changes.len());
        }
        match event {
            ApplyEvent::Probed(exists) => {
                if in_plan && !self.renaming {
                    if exists {
                        self.report.push(Outcome::SkippedExists);
                        self.done = self.done + 1;
                    } else {
                        self.renaming = true;
                    }
                }
            },
            ApplyEvent::RenameDone(failure) => {
                if in_plan && self.renaming {
                    let outcome = match failure {
                        None => Outcome::Renamed,
                        Some(reason) => Outcome::Failed(reason),
                    };
                    self.report.push(outcome);
                    self.done = self.done + 1;
                    self.renaming = false;
                }
            },
        }
    }

    /// In a well-formed run the position is within the plan, each pair
    /// before it has its outcome, and a rename is pending only for a pair of
    /// the plan.
    pub proof fn lemma_wf_counts(&self)
        requires
            self.wf(),
        ensures
            self.state().position <= self.plan().len(),
            self.state().outcomes.len() == self.state().position,
            self.state().renaming ==> self.state().position < self.plan().len(),
    {
    }

    /// Whether every pair has its outcome: the report is then as long as
    /// the plan.
    pub fn is_finished(&self) -> (b: bool)
        requires
            self.wf(),
        ensures
            b == (self.state().position == self.plan().len()),
            b == (self.state().outcomes.len() == self.plan().len()),
            self.state().outcomes.len() == self.state().position,
    {
        proof {
            assert(self.plan().len() == self.changes.len());
        }
        self.done == self.changes.len()
    }

    /// The outcomes so far, one for each pair that was dealt with, in the
    /// plan's order.
    pub fn outcomes(&self) -> (report: &Vec<Outcome>)
        ensures
            report@ == self.state().outcomes,
    {
        &self.report
    }
}

} // verus!
