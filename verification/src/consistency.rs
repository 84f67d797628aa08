//! What holds at every moment of a run on the modelled file system, and
//! the proof that each step keeps it.

use crate::args::ArgsView;
use crate::error::{Outcome, TouchError};
use crate::model::{run_on, step_bound, Execution, FileState, Host, World};
use crate::run::{lemma_next_target, Phase, RunState};
use crate::timestamp::Timestamp;
use vstd::prelude::*;

verus! {

/// What a file is before any time is written to it: as it was when the run
/// began, or as it is when just created.
pub open spec fn base(host: Host, initial: World, path: Seq<char>) -> FileState {
    if initial.contains_key(path) {
        initial[path]
    } else {
        host.newborn()
    }
}

/// No file is lost, and a file is gained only where creation is allowed.
pub open spec fn kept(args: ArgsView, initial: World, world: World) -> bool {
    &&& forall|path: Seq<char>| initial.contains_key(path) ==> world.contains_key(path)
    &&& forall|path: Seq<char>|
        world.contains_key(path) && !initial.contains_key(path) ==> !args.do_not_create
}

/// No time has been written to any file.
pub open spec fn untouched(host: Host, initial: World, world: World) -> bool {
    forall|path: Seq<char>| world.contains_key(path) ==> world[path] == base(host, initial, path)
}

/// The first `upto` operands are targets exactly where they exist.
pub open spec fn targets_match(
    paths: Seq<Seq<char>>,
    targets: Seq<bool>,
    world: World,
    upto: int,
) -> bool {
    forall|j: int| 0 <= j < upto ==> targets[j] == world.contains_key(#[trigger] paths[j])
}

/// What holds while the run makes sure that the operands exist, with the
/// first `upto` of them gone through.
pub open spec fn first_pass(
    host: Host,
    args: ArgsView,
    initial: World,
    e: Execution,
    upto: int,
) -> bool {
    &&& untouched(host, initial, e.world)
    &&& e.reports.len() == 0
    &&& targets_match(args.file_paths, e.state.targets, e.world, upto)
    &&& forall|j: int| 0 <= j < upto ==> #[trigger] e.state.targets[j] || args.do_not_create
}

/// What holds while the run writes `time`, with the first `upto` operands
/// gone through.
pub open spec fn last_pass(
    host: Host,
    args: ArgsView,
    initial: World,
    e: Execution,
    upto: int,
    time: Timestamp,
) -> bool {
    let paths = args.file_paths;
    let update = e.state.update();
    &&& forall|path: Seq<char>|
        e.world.contains_key(path) ==> e.world[path] == base(host, initial, path)
            || e.world[path] == base(host, initial, path).touched(update, time)
    &&& targets_match(paths, e.state.targets, e.world, paths.len() as int)
    &&& forall|j: int| 0 <= j < paths.len() ==> #[trigger] e.state.targets[j] || args.do_not_create
    &&& forall|j: int|
        0 <= j < upto && e.state.targets[j] && !host.apply_fails.contains(j) ==> e.world[
            #[trigger] paths[j]
        ] == base(host, initial, paths[j]).touched(update, time)
    &&& forall|k: int|
        0 <= k < e.reports.len() ==> (#[trigger] e.reports[k] matches TouchError::ApplyFailed {
            index,
            update: reported,
        } && index < upto && e.state.targets[index as int] && host.apply_fails.contains(
            index as int,
        ) && reported == update)
}

/// What holds at every moment of a run with `args` that began on `initial`.
pub open spec fn consistent(host: Host, args: ArgsView, initial: World, e: Execution) -> bool {
    let paths = args.file_paths;
    &&& e.state.args == args
    &&& e.state.wf()
    &&& kept(args, initial, e.world)
    &&& match e.state.phase {
        Phase::Checking { index } => first_pass(host, args, initial, e, index as int),
        Phase::Creating { index } => {
            &&& first_pass(host, args, initial, e, index as int)
            &&& !args.do_not_create
            &&& !e.world.contains_key(paths[index as int])
        },
        Phase::Resolving => first_pass(host, args, initial, e, paths.len() as int),
        Phase::Applying { index, time } => {
            &&& host.resolved == Some(time)
            &&& last_pass(host, args, initial, e, index as int, time)
        },
        Phase::Done { outcome } => match outcome {
            Outcome::MissingOperand => {
                &&& paths.len() == 0
                &&& e.world == initial
                &&& e.reports.len() == 0
            },
            Outcome::Completed => {
                &&& host.resolved is Some
                &&& last_pass(host, args, initial, e, paths.len() as int, host.resolved.unwrap())
            },
            Outcome::Failed(TouchError::CreateFailed { index }) => {
                &&& !args.do_not_create
                &&& index < paths.len()
                &&& host.create_fails.contains(index as int)
                &&& untouched(host, initial, e.world)
                &&& e.reports.len() == 1
                &&& e.reports[0] == (TouchError::CreateFailed { index })
            },
            Outcome::Failed(TouchError::DateParseFailed) => {
                &&& host.resolved is None
                &&& untouched(host, initial, e.world)
                &&& e.reports.len() == 1
                &&& e.reports[0] == TouchError::DateParseFailed
            },
            Outcome::Failed(TouchError::ApplyFailed { .. }) => false,
        },
    }
}

/// A bound on the steps that a run still takes from `state`.
pub open spec fn steps_left(state: RunState) -> nat {
    let count = state.count();
    match state.phase {
        Phase::Checking { index } => (2 * (count - index) + count + 1) as nat,
        Phase::Creating { index } => (2 * (count - index) + count) as nat,
        Phase::Resolving => count + 1,
        Phase::Applying { index, .. } => (count - index) as nat,
        Phase::Done { .. } => 0,
    }
}

/// A run begins in a moment at which consistency holds.
pub proof fn lemma_begin(host: Host, args: ArgsView, initial: World)
    requires
        args.file_paths.len() <= usize::MAX,
    ensures
        consistent(host, args, initial, Execution::begin(args, initial)),
        steps_left(Execution::begin(args, initial).state) <= step_bound(args.file_paths.len()),
{
}

/// A step keeps consistency and brings the end of the run nearer.
pub proof fn lemma_step(host: Host, args: ArgsView, initial: World, e: Execution)
    requires
        consistent(host, args, initial, e),
        !e.done(),
    ensures
        consistent(host, args, initial, e.step(host)),
        steps_left(e.step(host).state) < steps_left(e.state),
{
    match e.state.phase {
        Phase::Resolving => {
            lemma_next_target(e.state.targets, 0);
        },
        Phase::Applying { index, .. } => {
            lemma_next_target(e.state.targets, index + 1);
        },
        _ => {},
    }
}

/// Any number of steps keeps consistency, and enough of them end the run.
pub proof fn lemma_run_for(host: Host, args: ArgsView, initial: World, e: Execution, steps: nat)
    requires
        consistent(host, args, initial, e),
    ensures
        consistent(host, args, initial, e.run_for(host, steps)),
        steps >= steps_left(e.state) ==> e.run_for(host, steps).done(),
    decreases steps,
{
    if steps != 0 && !e.done() {
        lemma_step(host, args, initial, e);
        lemma_run_for(host, args, initial, e.step(host), (steps - 1) as nat);
    }
}

/// A whole run ends in a moment at which consistency holds.
pub proof fn lemma_run_on(host: Host, args: ArgsView, initial: World)
    requires
        args.file_paths.len() <= usize::MAX,
    ensures
        consistent(host, args, initial, run_on(host, args, initial)),
        run_on(host, args, initial).done(),
{
    lemma_begin(host, args, initial);
    lemma_run_for(
        host,
        args,
        initial,
        Execution::begin(args, initial),
        step_bound(args.file_paths.len()),
    );
}

} // verus!
