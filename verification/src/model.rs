//! A model of the file system that a run works on, and of a whole run on it.
//!
//! The machine in `run` only names actions. What they do to files is the
//! caller's work. This module says what that work is taken to be, so that
//! the effect of a whole run can be stated: the files that exist are a map
//! from paths to their times and sizes, a host decides which actions fail,
//! and a run is the machine and the host taking turns until the machine is
//! done.

use crate::args::ArgsView;
use crate::error::TouchError;
use crate::run::{Action, Event, RunState};
use crate::timestamp::{TimeUpdate, Timestamp};
use vstd::prelude::*;

verus! {

/// What the model keeps of one file.
pub struct FileState {
    pub accessed: Timestamp,
    pub modified: Timestamp,
    pub size: nat,
}

impl FileState {
    /// The file after `time` was written to the times that `update` selects.
    pub open spec fn touched(self, update: TimeUpdate, time: Timestamp) -> FileState {
        FileState {
            accessed: if update.writes_access() {
                time
            } else {
                self.accessed
            },
            modified: if update.writes_modification() {
                time
            } else {
                self.modified
            },
            size: self.size,
        }
    }
}

/// The files that exist, by path. Two operands name the same file exactly
/// where they are the same path.
pub type World = Map<Seq<char>, FileState>;

/// What lies outside the machine's control during one run.
pub struct Host {
    /// The operands, by position, whose creation fails.
    pub create_fails: Set<int>,
    /// The operands, by position, whose times cannot be written.
    pub apply_fails: Set<int>,
    /// The times that a file has when it was just created.
    pub created_at: Timestamp,
    /// The point in time that the run is to write, where one was settled.
    pub resolved: Option<Timestamp>,
}

impl Host {
    /// A file as it is when it was just created: empty.
    pub open spec fn newborn(self) -> FileState {
        FileState { accessed: self.created_at, modified: self.created_at, size: 0 }
    }

    /// What performing `action` on `world` leaves behind and answers.
    /// A failed action leaves the world as it was.
    pub open spec fn respond(self, paths: Seq<Seq<char>>, world: World, action: Action) -> (
        World,
        Event,
    ) {
        match action {
            Action::CheckExists { index } => (
                world,
                Event::Existence { exists: world.contains_key(paths[index as int]) },
            ),
            Action::CreateFile { index } => {
                if self.create_fails.contains(index as int) {
                    (world, Event::Created { created: false })
                } else {
                    (
                        world.insert(paths[index as int], self.newborn()),
                        Event::Created { created: true },
                    )
                }
            },
            Action::ResolveTime => (world, Event::TimeResolved { time: self.resolved }),
            Action::Apply { index, time, update } => {
                let path = paths[index as int];
                if self.apply_fails.contains(index as int) || !world.contains_key(path) {
                    (world, Event::Applied { applied: false })
                } else {
                    (
                        world.insert(path, world[path].touched(update, time)),
                        Event::Applied { applied: true },
                    )
                }
            },
            Action::Finish { .. } => (world, Event::Applied { applied: true }),
        }
    }
}

/// A run at one moment: the machine's state, the files, and the failures
/// reported so far.
pub struct Execution {
    pub state: RunState,
    pub world: World,
    pub reports: Seq<TouchError>,
}

impl Execution {
    /// The moment at which a run with `args` begins on `world`.
    pub open spec fn begin(args: ArgsView, world: World) -> Execution {
        Execution { state: RunState::start(args), world, reports: Seq::empty() }
    }

    /// Whether the run is over.
    pub open spec fn done(self) -> bool {
        self.state.phase is Done
    }

    /// The next moment: the host performs the pending action and the
    /// machine takes in the answer.
    pub open spec fn step(self, host: Host) -> Execution {
        let (world, event) = host.respond(
            self.state.args.file_paths,
            self.world,
            self.state.action(),
        );
        let (state, report) = self.state.advance(event);
        Execution {
            state,
            world,
            reports: match report {
                Some(failure) => self.reports.push(failure),
                None => self.reports,
            },
        }
    }

    /// The moment reached after at most `steps` steps, or earlier where the
    /// run is over.
    pub open spec fn run_for(self, host: Host, steps: nat) -> Execution
        decreases steps,
    {
        if steps == 0 || self.done() {
            self
        } else {
            self.step(host).run_for(host, (steps - 1) as nat)
        }
    }
}

/// The most steps that a run with `count` operands takes: a check, a
/// creation and a write for each, and one to settle the time.
pub open spec fn step_bound(count: nat) -> nat {
    3 * count + 1
}

/// The end of a whole run with `args` on `world`.
pub open spec fn run_on(host: Host, args: ArgsView, world: World) -> Execution {
    Execution::begin(args, world).run_for(host, step_bound(args.file_paths.len()))
}

} // verus!
