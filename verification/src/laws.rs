//! What a whole run does to the files, proved of the machine in `run`
//! taking turns with the host of `model`.

use crate::args::ArgsView;
use crate::consistency::{lemma_begin, lemma_run_for, lemma_run_on};
use crate::error::{Outcome, TouchError};
use crate::model::{run_on, Execution, Host, World};
use crate::run::{Action, Phase};
use crate::timestamp::TimeUpdate;
use vstd::prelude::*;

verus! {

/// Every run comes to an end.
pub proof fn law_run_ends(host: Host, args: ArgsView, world: World)
    requires
        args.file_paths.len() <= usize::MAX,
    ensures
        run_on(host, args, world).done(),
{
    lemma_run_on(host, args, world);
}

/// A run without a restricting flag, or with both, that goes through to
/// the end leaves an operand that existed before, and that could be
/// written to, with both its times at the resolved point in time.
pub proof fn law_unrestricted_run_writes_both_times(
    host: Host,
    args: ArgsView,
    world: World,
    operand: int,
)
    requires
        args.file_paths.len() <= usize::MAX,
        0 <= operand < args.file_paths.len(),
        args.access == args.modification,
        world.contains_key(args.file_paths[operand]),
        !host.apply_fails.contains(operand),
        run_on(host, args, world).state.phase == (Phase::Done { outcome: Outcome::Completed }),
    ensures
        host.resolved is Some,
        run_on(host, args, world).world.contains_key(args.file_paths[operand]),
        run_on(host, args, world).world[args.file_paths[operand]].accessed
            == host.resolved.unwrap(),
        run_on(host, args, world).world[args.file_paths[operand]].modified
            == host.resolved.unwrap(),
        run_on(host, args, world).world[args.file_paths[operand]].size
            == world[args.file_paths[operand]].size,
{
    lemma_run_on(host, args, world);
}

/// A run restricted to the access time that goes through to the end
/// leaves an operand that existed before, and that could be written to,
/// with its access time at the resolved point in time and its modification
/// time as it was.
pub proof fn law_access_only_run_keeps_modification_time(
    host: Host,
    args: ArgsView,
    world: World,
    operand: int,
)
    requires
        args.file_paths.len() <= usize::MAX,
        0 <= operand < args.file_paths.len(),
        args.access && !args.modification,
        world.contains_key(args.file_paths[operand]),
        !host.apply_fails.contains(operand),
        run_on(host, args, world).state.phase == (Phase::Done { outcome: Outcome::Completed }),
    ensures
        host.resolved is Some,
        run_on(host, args, world).world.contains_key(args.file_paths[operand]),
        run_on(host, args, world).world[args.file_paths[operand]].accessed
            == host.resolved.unwrap(),
        run_on(host, args, world).world[args.file_paths[operand]].modified
            == world[args.file_paths[operand]].modified,
        run_on(host, args, world).world[args.file_paths[operand]].size
            == world[args.file_paths[operand]].size,
{
    lemma_run_on(host, args, world);
}

/// A run restricted to the modification time that goes through to the end
/// leaves an operand that existed before, and that could be written to,
/// with its modification time at the resolved point in time and its access
/// time as it was.
pub proof fn law_modification_only_run_keeps_access_time(
    host: Host,
    args: ArgsView,
    world: World,
    operand: int,
)
    requires
        args.file_paths.len() <= usize::MAX,
        0 <= operand < args.file_paths.len(),
        !args.access && args.modification,
        world.contains_key(args.file_paths[operand]),
        !host.apply_fails.contains(operand),
        run_on(host, args, world).state.phase == (Phase::Done { outcome: Outcome::Completed }),
    ensures
        host.resolved is Some,
        run_on(host, args, world).world.contains_key(args.file_paths[operand]),
        run_on(host, args, world).world[args.file_paths[operand]].modified
            == host.resolved.unwrap(),
        run_on(host, args, world).world[args.file_paths[operand]].accessed
            == world[args.file_paths[operand]].accessed,
        run_on(host, args, world).world[args.file_paths[operand]].size
            == world[args.file_paths[operand]].size,
{
    lemma_run_on(host, args, world);
}

/// Where creation is switched off, no file comes into being, an operand
/// that does not exist still does not exist after the run, and no failure
/// is raised for it: the run does not end on a failed creation, and no
/// reported failure names the operand.
pub proof fn law_missing_operand_is_skipped(
    host: Host,
    args: ArgsView,
    world: World,
    operand: int,
)
    requires
        args.file_paths.len() <= usize::MAX,
        0 <= operand < args.file_paths.len(),
        args.do_not_create,
        !world.contains_key(args.file_paths[operand]),
    ensures
        run_on(host, args, world).world.dom() == world.dom(),
        !run_on(host, args, world).world.contains_key(args.file_paths[operand]),
        !(run_on(host, args, world).state.phase matches Phase::Done {
            outcome: Outcome::Failed(TouchError::CreateFailed { .. }),
        }),
        forall|k: int|
            0 <= k < run_on(host, args, world).reports.len() ==> (#[trigger] run_on(
                host,
                args,
                world,
            ).reports[k]).operand() != Some(operand),
{
    lemma_run_on(host, args, world);
    let end = run_on(host, args, world);
    assert(end.world.dom() =~= world.dom());
}

/// Where creation is allowed, a run without a restricting flag, or with
/// both, that goes through to the end leaves an operand that did not exist
/// before, and that could be written to, in existence, empty, with both
/// its times at the resolved point in time.
pub proof fn law_missing_operand_is_created(
    host: Host,
    args: ArgsView,
    world: World,
    operand: int,
)
    requires
        args.file_paths.len() <= usize::MAX,
        0 <= operand < args.file_paths.len(),
        !args.do_not_create,
        args.access == args.modification,
        !world.contains_key(args.file_paths[operand]),
        !host.apply_fails.contains(operand),
        run_on(host, args, world).state.phase == (Phase::Done { outcome: Outcome::Completed }),
    ensures
        host.resolved is Some,
        run_on(host, args, world).world.contains_key(args.file_paths[operand]),
        run_on(host, args, world).world[args.file_paths[operand]].size == 0,
        run_on(host, args, world).world[args.file_paths[operand]].accessed
            == host.resolved.unwrap(),
        run_on(host, args, world).world[args.file_paths[operand]].modified
            == host.resolved.unwrap(),
{
    lemma_run_on(host, args, world);
}

/// Whatever the flags, a run that goes through to the end with creation
/// allowed leaves every operand in existence, and one that it created and
/// could write to is empty and has the resolved point in time in the
/// times that the flags select and its time of creation in the other.
pub proof fn law_created_operand_times(host: Host, args: ArgsView, world: World, operand: int)
    requires
        args.file_paths.len() <= usize::MAX,
        0 <= operand < args.file_paths.len(),
        !args.do_not_create,
        !world.contains_key(args.file_paths[operand]),
        !host.apply_fails.contains(operand),
        run_on(host, args, world).state.phase == (Phase::Done { outcome: Outcome::Completed }),
    ensures
        host.resolved is Some,
        run_on(host, args, world).world.contains_key(args.file_paths[operand]),
        run_on(host, args, world).world[args.file_paths[operand]] == host.newborn().touched(
            TimeUpdate::spec_from_flags(args.access, args.modification),
            host.resolved.unwrap(),
        ),
{
    lemma_run_on(host, args, world);
}

/// Every write that a run asks for carries the one resolved point in time
/// and the one choice of times that the flags make.
pub proof fn law_one_time_for_all_writes(host: Host, args: ArgsView, world: World, steps: nat)
    requires
        args.file_paths.len() <= usize::MAX,
    ensures
        Execution::begin(args, world).run_for(host, steps).state.action() matches Action::Apply {
            time,
            update,
            ..
        } ==> host.resolved == Some(time) && update == TimeUpdate::spec_from_flags(
            args.access,
            args.modification,
        ),
{
    lemma_begin(host, args, world);
    lemma_run_for(host, args, world, Execution::begin(args, world), steps);
}

/// Where no point in time could be resolved, a run with an operand ends in
/// failure, with a non-zero exit status, and has written no time: every
/// file that existed before is as it was, and any other is as it was
/// created.
pub proof fn law_unresolved_time_writes_nothing(host: Host, args: ArgsView, world: World)
    requires
        args.file_paths.len() <= usize::MAX,
        args.file_paths.len() > 0,
        host.resolved is None,
    ensures
        run_on(host, args, world).state.phase matches Phase::Done { outcome } && outcome is Failed
            && outcome.spec_exit_status() != 0,
        forall|path: Seq<char>|
            world.contains_key(path) ==> run_on(host, args, world).world.contains_key(path)
                && run_on(host, args, world).world[path] == world[path],
        forall|path: Seq<char>|
            run_on(host, args, world).world.contains_key(path) && !world.contains_key(path)
                ==> run_on(host, args, world).world[path] == host.newborn(),
        run_on(host, args, world).reports.len() == 1,
        run_on(host, args, world).state.phase == (Phase::Done {
            outcome: Outcome::Failed(run_on(host, args, world).reports[0]),
        }),
{
    lemma_run_on(host, args, world);
}

/// Without a file operand a run changes no file and ends at once, with
/// exit status zero.
pub proof fn law_no_operand_no_change(host: Host, args: ArgsView, world: World)
    requires
        args.file_paths.len() == 0,
    ensures
        run_on(host, args, world).world == world,
        run_on(host, args, world).reports.len() == 0,
        run_on(host, args, world).state.phase == (Phase::Done {
            outcome: Outcome::MissingOperand,
        }),
        Outcome::MissingOperand.spec_exit_status() == 0,
{
    lemma_run_on(host, args, world);
}

} // verus!
