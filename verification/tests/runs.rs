use std::collections::HashMap;
use touch_for_windows::{
    run, Action, Args, DateOperand, Event, Outcome, TimeUpdate, Timestamp, TouchError,
};

const OLD: Timestamp = Timestamp { seconds: 1_000_000_000, nanos: 1 };
const OLDER: Timestamp = Timestamp { seconds: 900_000_000, nanos: 2 };
const BORN: Timestamp = Timestamp { seconds: 1_700_000_000, nanos: 3 };
const WANTED: Timestamp = Timestamp { seconds: 1_577_836_800, nanos: 4 };

#[derive(Clone, Copy, Debug, PartialEq)]
struct Stamp {
    accessed: Timestamp,
    modified: Timestamp,
    size: usize,
}

struct Files {
    present: HashMap<String, Stamp>,
    uncreatable: Vec<String>,
    unwritable: Vec<String>,
}

struct Report {
    outcome: Outcome,
    failures: Vec<TouchError>,
    actions: Vec<Action>,
}

fn files(existing: &[&str]) -> Files {
    let mut present = HashMap::new();
    for path in existing {
        present.insert(path.to_string(), Stamp { accessed: OLD, modified: OLDER, size: 12 });
    }
    Files { present, uncreatable: Vec::new(), unwritable: Vec::new() }
}

fn args(access: bool, no_create: bool, modification: bool, paths: &[&str]) -> Args {
    Args::new(
        access,
        no_create,
        DateOperand::Absent,
        modification,
        paths.iter().map(|path| path.to_string()).collect(),
    )
}

fn perform(args: Args, files: &mut Files, resolved: Option<Timestamp>) -> Report {
    let paths = args.file_paths.clone();
    let mut machine = run(args);
    let mut failures = Vec::new();
    let mut actions = Vec::new();
    loop {
        let action = machine.action();
        actions.push(action);
        let event = match action {
            Action::CheckExists { index } => {
                Event::Existence { exists: files.present.contains_key(&paths[index]) }
            }
            Action::CreateFile { index } => {
                if files.uncreatable.contains(&paths[index]) {
                    Event::Created { created: false }
                } else {
                    let stamp = Stamp { accessed: BORN, modified: BORN, size: 0 };
                    files.present.insert(paths[index].clone(), stamp);
                    Event::Created { created: true }
                }
            }
            Action::ResolveTime => Event::TimeResolved { time: resolved },
            Action::Apply { index, time, update } => {
                let writable = !files.unwritable.contains(&paths[index]);
                match files.present.get_mut(&paths[index]) {
                    Some(stamp) if writable => {
                        if update != TimeUpdate::ModificationOnly {
                            stamp.accessed = time;
                        }
                        if update != TimeUpdate::AccessOnly {
                            stamp.modified = time;
                        }
                        Event::Applied { applied: true }
                    }
                    _ => Event::Applied { applied: false },
                }
            }
            Action::Finish { outcome } => {
                assert_eq!(machine.outcome(), Some(outcome));
                return Report { outcome, failures, actions };
            }
        };
        assert_eq!(machine.outcome(), None);
        if let Some(failure) = machine.advance(event) {
            failures.push(failure);
        }
    }
}

#[test]
fn existing_files_get_both_times() {
    let mut files = files(&["a", "b"]);
    let report = perform(args(false, false, false, &["a", "b"]), &mut files, Some(WANTED));
    assert_eq!(report.outcome, Outcome::Completed);
    assert!(report.failures.is_empty());
    for path in ["a", "b"] {
        assert_eq!(files.present[path], Stamp { accessed: WANTED, modified: WANTED, size: 12 });
    }
}

#[test]
fn access_flag_leaves_modification_time() {
    let mut files = files(&["a"]);
    let report = perform(args(true, false, false, &["a"]), &mut files, Some(WANTED));
    assert_eq!(report.outcome, Outcome::Completed);
    assert_eq!(files.present["a"], Stamp { accessed: WANTED, modified: OLDER, size: 12 });
}

#[test]
fn modification_flag_leaves_access_time() {
    let mut files = files(&["a"]);
    let report = perform(args(false, false, true, &["a"]), &mut files, Some(WANTED));
    assert_eq!(report.outcome, Outcome::Completed);
    assert_eq!(files.present["a"], Stamp { accessed: OLD, modified: WANTED, size: 12 });
}

#[test]
fn both_flags_together_write_both_times() {
    let mut files = files(&["a"]);
    let report = perform(args(true, false, true, &["a"]), &mut files, Some(WANTED));
    assert_eq!(report.outcome, Outcome::Completed);
    assert_eq!(files.present["a"], Stamp { accessed: WANTED, modified: WANTED, size: 12 });
    assert_eq!(
        report.actions[2],
        Action::Apply { index: 0, time: WANTED, update: TimeUpdate::Both }
    );
}

#[test]
fn missing_file_is_skipped_without_creation() {
    let mut files = files(&["b"]);
    let report = perform(args(false, true, false, &["a", "b"]), &mut files, Some(WANTED));
    assert_eq!(report.outcome, Outcome::Completed);
    assert!(report.failures.is_empty());
    assert!(!files.present.contains_key("a"));
    assert_eq!(files.present["b"], Stamp { accessed: WANTED, modified: WANTED, size: 12 });
    assert_eq!(
        report.actions,
        vec![
            Action::CheckExists { index: 0 },
            Action::CheckExists { index: 1 },
            Action::ResolveTime,
            Action::Apply { index: 1, time: WANTED, update: TimeUpdate::Both },
            Action::Finish { outcome: Outcome::Completed },
        ]
    );
}

#[test]
fn only_missing_files_without_creation_complete_with_nothing_written() {
    let mut files = files(&[]);
    let report = perform(args(false, true, false, &["a", "b"]), &mut files, Some(WANTED));
    assert_eq!(report.outcome, Outcome::Completed);
    assert!(files.present.is_empty());
    assert_eq!(
        report.actions,
        vec![
            Action::CheckExists { index: 0 },
            Action::CheckExists { index: 1 },
            Action::ResolveTime,
            Action::Finish { outcome: Outcome::Completed },
        ]
    );
}

#[test]
fn missing_file_is_created_empty_with_both_times() {
    let mut files = files(&[]);
    let report = perform(args(false, false, false, &["new"]), &mut files, Some(WANTED));
    assert_eq!(report.outcome, Outcome::Completed);
    assert_eq!(files.present["new"], Stamp { accessed: WANTED, modified: WANTED, size: 0 });
    assert_eq!(
        report.actions,
        vec![
            Action::CheckExists { index: 0 },
            Action::CreateFile { index: 0 },
            Action::ResolveTime,
            Action::Apply { index: 0, time: WANTED, update: TimeUpdate::Both },
            Action::Finish { outcome: Outcome::Completed },
        ]
    );
}

#[test]
fn created_file_keeps_its_time_of_creation_where_a_flag_restricts() {
    let mut files = files(&[]);
    let report = perform(args(true, false, false, &["new"]), &mut files, Some(WANTED));
    assert_eq!(report.outcome, Outcome::Completed);
    assert_eq!(files.present["new"], Stamp { accessed: WANTED, modified: BORN, size: 0 });
}

#[test]
fn unresolved_date_fails_the_run_and_writes_no_time() {
    let mut files = files(&["a"]);
    let report = perform(args(false, false, false, &["a", "new"]), &mut files, None);
    assert_eq!(report.outcome, Outcome::Failed(TouchError::DateParseFailed));
    assert_ne!(report.outcome.exit_status(), 0);
    assert_eq!(report.failures, vec![TouchError::DateParseFailed]);
    assert_eq!(files.present["a"], Stamp { accessed: OLD, modified: OLDER, size: 12 });
    assert_eq!(files.present["new"], Stamp { accessed: BORN, modified: BORN, size: 0 });
    assert_eq!(
        report.actions,
        vec![
            Action::CheckExists { index: 0 },
            Action::CheckExists { index: 1 },
            Action::CreateFile { index: 1 },
            Action::ResolveTime,
            Action::Finish { outcome: Outcome::Failed(TouchError::DateParseFailed) },
        ]
    );
}

#[test]
fn no_operand_does_nothing_and_succeeds() {
    let mut files = files(&["a"]);
    let report = perform(args(false, false, false, &[]), &mut files, Some(WANTED));
    assert_eq!(report.outcome, Outcome::MissingOperand);
    assert_eq!(report.outcome.exit_status(), 0);
    assert_eq!(report.actions, vec![Action::Finish { outcome: Outcome::MissingOperand }]);
    assert_eq!(files.present["a"], Stamp { accessed: OLD, modified: OLDER, size: 12 });
}

#[test]
fn failed_creation_ends_the_run_at_once() {
    let mut files = files(&["a"]);
    files.uncreatable.push("locked".to_string());
    let report =
        perform(args(false, false, false, &["a", "locked", "later"]), &mut files, Some(WANTED));
    assert_eq!(report.outcome, Outcome::Failed(TouchError::CreateFailed { index: 1 }));
    assert_eq!(report.outcome.exit_status(), 1);
    assert_eq!(report.failures, vec![TouchError::CreateFailed { index: 1 }]);
    assert_eq!(files.present["a"], Stamp { accessed: OLD, modified: OLDER, size: 12 });
    assert!(!files.present.contains_key("later"));
    assert_eq!(
        report.actions,
        vec![
            Action::CheckExists { index: 0 },
            Action::CheckExists { index: 1 },
            Action::CreateFile { index: 1 },
            Action::Finish { outcome: Outcome::Failed(TouchError::CreateFailed { index: 1 }) },
        ]
    );
}

#[test]
fn failed_write_is_reported_and_the_run_goes_on() {
    let mut files = files(&["a", "b", "c"]);
    files.unwritable.push("b".to_string());
    let report = perform(args(false, false, true, &["a", "b", "c"]), &mut files, Some(WANTED));
    assert_eq!(report.outcome, Outcome::Completed);
    assert_eq!(report.outcome.exit_status(), 0);
    assert_eq!(
        report.failures,
        vec![TouchError::ApplyFailed { index: 1, update: TimeUpdate::ModificationOnly }]
    );
    assert_eq!(files.present["a"], Stamp { accessed: OLD, modified: WANTED, size: 12 });
    assert_eq!(files.present["b"], Stamp { accessed: OLD, modified: OLDER, size: 12 });
    assert_eq!(files.present["c"], Stamp { accessed: OLD, modified: WANTED, size: 12 });
}

#[test]
fn failed_write_on_the_last_operand_still_completes() {
    let mut files = files(&["a"]);
    files.unwritable.push("a".to_string());
    let report = perform(args(true, false, false, &["a"]), &mut files, Some(WANTED));
    assert_eq!(report.outcome, Outcome::Completed);
    assert_eq!(
        report.failures,
        vec![TouchError::ApplyFailed { index: 0, update: TimeUpdate::AccessOnly }]
    );
}

#[test]
fn repeated_operand_is_gone_through_once_per_occurrence() {
    let mut files = files(&[]);
    let report = perform(args(false, false, false, &["x", "x"]), &mut files, Some(WANTED));
    assert_eq!(report.outcome, Outcome::Completed);
    assert_eq!(files.present["x"], Stamp { accessed: WANTED, modified: WANTED, size: 0 });
    assert_eq!(
        report.actions,
        vec![
            Action::CheckExists { index: 0 },
            Action::CreateFile { index: 0 },
            Action::CheckExists { index: 1 },
            Action::ResolveTime,
            Action::Apply { index: 0, time: WANTED, update: TimeUpdate::Both },
            Action::Apply { index: 1, time: WANTED, update: TimeUpdate::Both },
            Action::Finish { outcome: Outcome::Completed },
        ]
    );
}

#[test]
fn every_write_of_a_run_carries_the_same_time() {
    let mut files = files(&["a", "c"]);
    let report =
        perform(args(false, false, false, &["a", "b", "c", "d"]), &mut files, Some(WANTED));
    let mut writes = 0;
    for action in report.actions {
        if let Action::Apply { time, update, .. } = action {
            assert_eq!(time, WANTED);
            assert_eq!(update, TimeUpdate::Both);
            writes += 1;
        }
    }
    assert_eq!(writes, 4);
}

#[test]
fn skipped_operands_between_targets_are_passed_over() {
    let mut files = files(&["b", "e"]);
    let report =
        perform(args(true, true, false, &["a", "b", "c", "d", "e", "f"]), &mut files, Some(WANTED));
    assert_eq!(report.outcome, Outcome::Completed);
    let writes: Vec<Action> = report
        .actions
        .into_iter()
        .filter(|action| matches!(action, Action::Apply { .. }))
        .collect();
    assert_eq!(
        writes,
        vec![
            Action::Apply { index: 1, time: WANTED, update: TimeUpdate::AccessOnly },
            Action::Apply { index: 4, time: WANTED, update: TimeUpdate::AccessOnly },
        ]
    );
    assert_eq!(files.present.len(), 2);
}

#[test]
fn an_event_that_answers_nothing_changes_nothing() {
    let mut machine = run(args(false, false, false, &["a"]));
    assert_eq!(machine.action(), Action::CheckExists { index: 0 });
    assert_eq!(machine.advance(Event::Applied { applied: false }), None);
    assert_eq!(machine.advance(Event::Created { created: true }), None);
    assert_eq!(machine.advance(Event::TimeResolved { time: Some(WANTED) }), None);
    assert_eq!(machine.action(), Action::CheckExists { index: 0 });
    assert_eq!(machine.advance(Event::Existence { exists: false }), None);
    assert_eq!(machine.action(), Action::CreateFile { index: 0 });
    assert_eq!(machine.advance(Event::Existence { exists: true }), None);
    assert_eq!(machine.action(), Action::CreateFile { index: 0 });
    assert_eq!(machine.advance(Event::Created { created: true }), None);
    assert_eq!(machine.action(), Action::ResolveTime);
    assert_eq!(machine.advance(Event::Applied { applied: true }), None);
    assert_eq!(machine.action(), Action::ResolveTime);
    assert_eq!(machine.advance(Event::TimeResolved { time: Some(WANTED) }), None);
    assert_eq!(
        machine.action(),
        Action::Apply { index: 0, time: WANTED, update: TimeUpdate::Both }
    );
    assert_eq!(machine.advance(Event::TimeResolved { time: None }), None);
    assert_eq!(
        machine.action(),
        Action::Apply { index: 0, time: WANTED, update: TimeUpdate::Both }
    );
    assert_eq!(machine.advance(Event::Applied { applied: true }), None);
    assert_eq!(machine.action(), Action::Finish { outcome: Outcome::Completed });
    assert_eq!(machine.advance(Event::Applied { applied: false }), None);
    assert_eq!(machine.advance(Event::Existence { exists: true }), None);
    assert_eq!(machine.action(), Action::Finish { outcome: Outcome::Completed });
}

#[test]
fn a_run_keeps_the_arguments_it_was_started_with() {
    let given = Args::new(
        true,
        true,
        DateOperand::Text("2020-01-01".to_string()),
        false,
        vec!["a".to_string(), "b".to_string()],
    );
    assert!(given.access());
    assert!(given.do_not_create());
    assert!(!given.modification());
    assert_eq!(given.count(), 2);
    let machine = run(given);
    assert!(machine.args().access());
    assert!(machine.args().do_not_create());
    assert!(!machine.args().modification());
    assert_eq!(machine.args().file_paths, vec!["a".to_string(), "b".to_string()]);
    assert!(matches!(machine.args().date(), DateOperand::Text(text) if text == "2020-01-01"));
}

#[test]
fn a_date_that_is_no_date_fails_a_run() {
    let given = Args::new(
        false,
        false,
        DateOperand::Text("not-a-date".to_string()),
        false,
        vec!["a".to_string()],
    );
    let mut machine = run(given);
    assert_eq!(machine.advance(Event::Existence { exists: true }), None);
    assert_eq!(machine.action(), Action::ResolveTime);
    let time = touch_for_windows::resolve_timestamp(machine.args().date());
    assert_eq!(time, None);
    assert_eq!(
        machine.advance(Event::TimeResolved { time }),
        Some(TouchError::DateParseFailed)
    );
    assert_eq!(
        machine.action(),
        Action::Finish { outcome: Outcome::Failed(TouchError::DateParseFailed) }
    );
}

#[test]
fn a_date_is_resolved_once_and_written_to_every_operand() {
    let given = Args::new(
        false,
        false,
        DateOperand::Text("2017-11-25T22:34:50Z".to_string()),
        false,
        vec!["a".to_string(), "b".to_string()],
    );
    let mut machine = run(given);
    assert_eq!(machine.advance(Event::Existence { exists: true }), None);
    assert_eq!(machine.advance(Event::Existence { exists: true }), None);
    let time = touch_for_windows::resolve_timestamp(machine.args().date());
    assert_eq!(machine.advance(Event::TimeResolved { time }), None);
    let wanted = Timestamp { seconds: 1_511_649_290, nanos: 0 };
    assert_eq!(
        machine.action(),
        Action::Apply { index: 0, time: wanted, update: TimeUpdate::Both }
    );
    assert_eq!(machine.advance(Event::Applied { applied: true }), None);
    assert_eq!(
        machine.action(),
        Action::Apply { index: 1, time: wanted, update: TimeUpdate::Both }
    );
}
