//! One run as a state machine.
//!
//! A run goes through three passes: it makes sure that each operand exists,
//! it settles the one point in time that the run writes, and it writes that
//! time to each operand that exists. The machine never touches a file. It
//! names the next `Action`, the caller performs it and answers with the
//! matching `Event`.

use crate::args::{Args, ArgsView};
use crate::error::{Outcome, TouchError};
use crate::timestamp::{TimeUpdate, Timestamp};
use vstd::prelude::*;

verus! {

/// Where a run stands.
#[derive(Clone, Copy, Debug, PartialEq, Eq, Structural)]
pub enum Phase {
    /// Waiting to learn whether operand `index` exists.
    Checking { index: usize },
    /// Waiting to learn whether the missing operand `index` could be created.
    Creating { index: usize },
    /// Waiting for the point in time to write.
    Resolving,
    /// Waiting to learn whether `time` could be written to operand `index`.
    Applying { index: usize, time: Timestamp },
    /// Over.
    Done { outcome: Outcome },
}

/// What the caller is asked to do next.
#[derive(Clone, Copy, Debug, PartialEq, Eq, Structural)]
pub enum Action {
    /// Find out whether operand `index` exists; answer with `Event::Existence`.
    CheckExists { index: usize },
    /// Create operand `index` as an empty file; answer with `Event::Created`.
    CreateFile { index: usize },
    /// Settle the point in time to write; answer with `Event::TimeResolved`.
    ResolveTime,
    /// Write `time` to the times of operand `index` that `update` selects;
    /// answer with `Event::Applied`.
    Apply { index: usize, time: Timestamp, update: TimeUpdate },
    /// Stop: the run is over.
    Finish { outcome: Outcome },
}

/// What came of the action that was asked for.
#[derive(Clone, Copy, Debug)]
pub enum Event {
    /// The operand exists, or does not.
    Existence { exists: bool },
    /// The operand was created, or could not be.
    Created { created: bool },
    /// The point in time to write, or none where the date could not be parsed.
    TimeResolved { time: Option<Timestamp> },
    /// The times were written, or could not be.
    Applied { applied: bool },
}

/// The first position at or after `from` that `targets` marks, or the length
/// of `targets` where there is none.
pub open spec fn next_target(targets: Seq<bool>, from: int) -> int
    decreases targets.len() - from,
{
    if from < 0 || from >= targets.len() {
        targets.len() as int
    } else if targets[from] {
        from
    } else {
        next_target(targets, from + 1)
    }
}

/// `next_target` finds a marked position, passes over unmarked ones only, and
/// stops at the length where no marked position is left.
pub proof fn lemma_next_target(targets: Seq<bool>, from: int)
    requires
        0 <= from <= targets.len(),
    ensures
        from <= next_target(targets, from) <= targets.len(),
        next_target(targets, from) < targets.len() ==> targets[next_target(targets, from)],
        forall|k: int| from <= k < next_target(targets, from) ==> !#[trigger] targets[k],
    decreases targets.len() - from,
{
    if from < targets.len() && !targets[from] {
        lemma_next_target(targets, from + 1);
    }
}

/// The state of a run as contracts see it.
pub struct RunState {
    /// The configuration, which a run never changes.
    pub args: ArgsView,
    pub phase: Phase,
    /// For each operand that the first pass is through with, whether the
    /// last pass writes to it.
    pub targets: Seq<bool>,
}

impl RunState {
    /// The number of file operands.
    pub open spec fn count(self) -> nat {
        self.args.file_paths.len()
    }

    /// Which times the run writes.
    pub open spec fn update(self) -> TimeUpdate {
        TimeUpdate::spec_from_flags(self.args.access, self.args.modification)
    }

    /// The phase points at an operand, and `targets` covers the operands
    /// that the first pass is through with.
    pub open spec fn wf(self) -> bool {
        &&& self.count() <= usize::MAX
        &&& match self.phase {
            Phase::Checking { index } => index < self.count() && self.targets.len() == index,
            Phase::Creating { index } => index < self.count() && self.targets.len() == index,
            Phase::Resolving => self.targets.len() == self.count(),
            Phase::Applying { index, .. } => {
                &&& index < self.count()
                &&& self.targets.len() == self.count()
                &&& self.targets[index as int]
            },
            Phase::Done { .. } => self.targets.len() <= self.count(),
        }
    }

    /// The state in which a run begins.
    pub open spec fn start(args: ArgsView) -> RunState {
        RunState {
            args,
            phase: if args.file_paths.len() == 0 {
                Phase::Done { outcome: Outcome::MissingOperand }
            } else {
                Phase::Checking { index: 0 }
            },
            targets: Seq::empty(),
        }
    }

    /// The action that the state waits for.
    pub open spec fn action(self) -> Action {
        match self.phase {
            Phase::Checking { index } => Action::CheckExists { index },
            Phase::Creating { index } => Action::CreateFile { index },
            Phase::Resolving => Action::ResolveTime,
            Phase::Applying { index, time } => Action::Apply { index, time, update: self.update() },
            Phase::Done { outcome } => Action::Finish { outcome },
        }
    }

    /// Whether `event` answers the action that the state waits for.
    pub open spec fn expects(self, event: Event) -> bool {
        match (self.phase, event) {
            (Phase::Checking { .. }, Event::Existence { .. }) => true,
            (Phase::Creating { .. }, Event::Created { .. }) => true,
            (Phase::Resolving, Event::TimeResolved { .. }) => true,
            (Phase::Applying { .. }, Event::Applied { .. }) => true,
            _ => false,
        }
    }

    /// The state once the first pass is through with operand `index`, which
    /// the last pass writes to where `target` holds.
    pub open spec fn checked(self, index: usize, target: bool) -> RunState {
        RunState {
            args: self.args,
            phase: if index + 1 < self.count() {
                Phase::Checking { index: (index + 1) as usize }
            } else {
                Phase::Resolving
            },
            targets: self.targets.push(target),
        }
    }

    /// The state that writes `time` to the first target at or after `from`,
    /// or that has completed where none is left.
    pub open spec fn applying_from(self, time: Timestamp, from: int) -> RunState {
        let index = next_target(self.targets, from);
        RunState {
            args: self.args,
            phase: if index < self.targets.len() {
                Phase::Applying { index: index as usize, time }
            } else {
                Phase::Done { outcome: Outcome::Completed }
            },
            targets: self.targets,
        }
    }

    /// The state that has ended with `outcome`.
    pub open spec fn finished(self, outcome: Outcome) -> RunState {
        RunState { args: self.args, phase: Phase::Done { outcome }, targets: self.targets }
    }

    /// The state that follows on `event`, and the failure that the event
    /// brought, if any: one that ends the run, or a failed write, after
    /// which the run goes on. An event that does not answer the pending
    /// action changes nothing.
    pub open spec fn advance(self, event: Event) -> (RunState, Option<TouchError>) {
        match (self.phase, event) {
            (Phase::Checking { index }, Event::Existence { exists }) => {
                if exists {
                    (self.checked(index, true), None)
                } else if self.args.do_not_create {
                    (self.checked(index, false), None)
                } else {
                    (
                        RunState {
                            args: self.args,
                            phase: Phase::Creating { index },
                            targets: self.targets,
                        },
                        None,
                    )
                }
            },
            (Phase::Creating { index }, Event::Created { created }) => {
                if created {
                    (self.checked(index, true), None)
                } else {
                    let failure = TouchError::CreateFailed { index };
                    (self.finished(Outcome::Failed(failure)), Some(failure))
                }
            },
            (Phase::Resolving, Event::TimeResolved { time }) => {
                match time {
                    Some(time) => (self.applying_from(time, 0), None),
                    None => (
                        self.finished(Outcome::Failed(TouchError::DateParseFailed)),
                        Some(TouchError::DateParseFailed),
                    ),
                }
            },
            (Phase::Applying { index, time }, Event::Applied { applied }) => {
                (
                    self.applying_from(time, index + 1),
                    if applied {
                        None
                    } else {
                        Some(TouchError::ApplyFailed { index, update: self.update() })
                    },
                )
            },
            _ => (self, None),
        }
    }
}

/// A run in progress.
#[derive(Debug)]
pub struct Run {
    args: Args,
    phase: Phase,
    targets: Vec<bool>,
}

impl View for Run {
    type V = RunState;

    closed spec fn view(&self) -> RunState {
        RunState { args: self.args@, phase: self.phase, targets: self.targets@ }
    }
}

/// The first position at or after `from` that `targets` marks, or its length.
fn find_target(targets: &Vec<bool>, from: usize) -> (index: usize)
    requires
        from <= targets.len(),
    ensures
        index == next_target(targets@, from as int),
        from <= index <= targets.len(),
{
    let mut index: usize = from;
    proof {
        lemma_next_target(targets@, from as int);
    }
    while index < targets.len() && !targets[index]
        invariant
            from <= index <= targets.len(),
            next_target(targets@, index as int) == next_target(targets@, from as int),
        decreases targets.len() - index,
    {
        index = index + 1;
    }
    index
}

impl Run {
    /// The run's state is well formed.
    pub open spec fn wf(&self) -> bool {
        self@.wf()
    }

    /// The configuration that the run was started with.
    pub fn args(&self) -> (args: &Args)
        ensures
            args@ == self@.args,
    {
        &self.args
    }

    /// The action that the run waits for.
    pub fn action(&self) -> (action: Action)
        ensures
            action == self@.action(),
    {
        match self.phase {
            Phase::Checking { index } => Action::CheckExists { index },
            Phase::Creating { index } => Action::CreateFile { index },
            Phase::Resolving => Action::ResolveTime,
            Phase::Applying { index, time } => Action::Apply {
                index,
                time,
                update: TimeUpdate::from_flags(self.args.access(), self.args.modification()),
            },
            Phase::Done { outcome } => Action::Finish { outcome },
        }
    }

    /// How the run ended, once it has.
    pub fn outcome(&self) -> (outcome: Option<Outcome>)
        ensures
            outcome == (match self@.phase {
                Phase::Done { outcome } => Some(outcome),
                _ => None,
            }),
    {
        match self.phase {
            Phase::Done { outcome } => Some(outcome),
            _ => None,
        }
    }

    fn set_checked(&mut self, index: usize, target: bool)
        requires
            old(self).wf(),
            old(self)@.phase == (Phase::Checking { index }) || old(self)@.phase == (
            Phase::Creating { index }),
        ensures
            final(self)@ == old(self)@.checked(index, target),
            final(self).wf(),
    {
        self.targets.push(target);
        if index + 1 < self.args.count() {
            self.phase = Phase::Checking { index: index + 1 };
        } else {
            self.phase = Phase::Resolving;
        }
    }

    fn set_applying_from(&mut self, time: Timestamp, from: usize)
        requires
            old(self)@.count() <= usize::MAX,
            old(self)@.targets.len() == old(self)@.count(),
            from <= old(self)@.count(),
        ensures
            final(self)@ == old(self)@.applying_from(time, from as int),
            final(self).wf(),
    {
        proof {
            lemma_next_target(self.targets@, from as int);
        }
        let index: usize = find_target(&self.targets, from);
        if index < self.targets.len() {
            self.phase = Phase::Applying { index, time };
        } else {
            self.phase = Phase::Done { outcome: Outcome::Completed };
        }
    }

    /// Takes in what came of the pending action and moves on to the next.
    /// Returns the failure that the event brought, if any: one that ends the
    /// run, or a failed write, after which the run goes on. An event that
    /// does not answer the pending action changes nothing.
    pub fn advance(&mut self, event: Event) -> (report: Option<TouchError>)
        requires
            old(self).wf(),
        ensures
            final(self).wf(),
            (final(self)@, report) == old(self)@.advance(event),
            final(self)@.args == old(self)@.args,
            !old(self)@.expects(event) ==> final(self)@ == old(self)@ && report is None,
            report matches Some(failure) ==> (failure.fatal() <==> final(self)@.phase == (
            Phase::Done { outcome: Outcome::Failed(failure) })),
    {
        match (self.phase, event) {
            (Phase::Checking { index }, Event::Existence { exists }) => {
                if exists {
                    self.set_checked(index, true);
                } else if self.args.do_not_create() {
                    self.set_checked(index, false);
                } else {
                    self.phase = Phase::Creating { index };
                }
                None
            },
            (Phase::Creating { index }, Event::Created { created }) => {
                if created {
                    self.set_checked(index, true);
                    None
                } else {
                    let failure = TouchError::CreateFailed { index };
                    self.phase = Phase::Done { outcome: Outcome::Failed(failure) };
                    Some(failure)
                }
            },
            (Phase::Resolving, Event::TimeResolved { time }) => {
                match time {
                    Some(time) => {
                        self.set_applying_from(time, 0);
                        None
                    },
                    None => {
                        self.phase = Phase::Done {
                            outcome: Outcome::Failed(TouchError::DateParseFailed),
                        };
                        Some(TouchError::DateParseFailed)
                    },
                }
            },
            (Phase::Applying { index, time }, Event::Applied { applied }) => {
                let update = TimeUpdate::from_flags(self.args.access(), self.args.modification());
                self.set_applying_from(time, index + 1);
                if applied {
                    None
                } else {
                    Some(TouchError::ApplyFailed { index, update })
                }
            },
            _ => None,
        }
    }
}

/// Starts a run with the arguments received from the command line. Without
/// a file operand the run is over at once, and nothing is to be done;
/// otherwise it begins with the first operand.
pub fn run(args: Args) -> (run: Run)
    ensures
        run@ == RunState::start(args@),
        run.wf(),
{
    let phase = if args.count() == 0 {
        Phase::Done { outcome: Outcome::MissingOperand }
    } else {
        Phase::Checking { index: 0 }
    };
    Run { args, phase, targets: Vec::new() }
}

} // verus!
