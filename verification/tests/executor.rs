use xtask::catalog::{build_catalog, Step};
use xtask::cli::{exit_code_for, EXIT_CHECKS_FAILED, EXIT_SUCCESS};
use xtask::executor::{run_with_results, Diag, Executor, FailReason, RunOutcome, StepResult};

fn step(name: &str) -> Step {
    Step { name: name.to_string(), args: vec![name.to_string()] }
}

#[test]
fn empty_run_trivially_succeeds() {
    let ex = Executor::new(Vec::new());
    assert!(matches!(ex.outcome, Some(RunOutcome::AllPassed)));
    assert_eq!(ex.pos, 0);
    assert_eq!(ex.log, vec![Diag::PassBanner]);
}

#[test]
fn all_steps_passing_yields_success_and_full_transcript() {
    let steps = vec![step("a"), step("b"), step("c")];
    let results = vec![StepResult::Passed, StepResult::Passed, StepResult::Passed];
    let r = run_with_results(steps, &results);
    assert!(matches!(r.outcome, Some(RunOutcome::AllPassed)));
    assert_eq!(r.pos, 3);
    assert_eq!(
        r.log,
        vec![
            Diag::Announce(0),
            Diag::Announce(1),
            Diag::Announce(2),
            Diag::PassBanner,
        ]
    );
    assert_eq!(exit_code_for(r.outcome.as_ref().unwrap()), EXIT_SUCCESS);
}

#[test]
fn second_step_status_failure_is_named_and_maps_to_failure_code() {
    let steps = vec![step("lint"), step("unit tests"), step("release tests")];
    let results = vec![
        StepResult::Passed,
        StepResult::FailedStatus("exit status: 101".to_string()),
        StepResult::Passed,
    ];
    let r = run_with_results(steps, &results);
    match &r.outcome {
        Some(RunOutcome::StepFailed { index, name, reason }) => {
            assert_eq!(*index, 1);
            assert_eq!(name, "unit tests");
            match reason {
                FailReason::Status(s) => assert_eq!(s, "exit status: 101"),
                FailReason::Launch(_) => panic!("wrong failure kind"),
            }
        }
        other => panic!("expected a step failure, got {other:?}"),
    }
    assert_eq!(exit_code_for(r.outcome.as_ref().unwrap()), EXIT_CHECKS_FAILED);
    assert_eq!(
        r.log,
        vec![
            Diag::Announce(0),
            Diag::Announce(1),
            Diag::StepFailed(1),
            Diag::FailBanner,
        ]
    );
}

#[test]
fn first_failure_stops_the_run_before_later_steps() {
    let steps = vec![step("a"), step("b"), step("c"), step("d"), step("e")];
    let results = vec![
        StepResult::Passed,
        StepResult::Passed,
        StepResult::FailedStatus("exit status: 1".to_string()),
        StepResult::Passed,
        StepResult::Passed,
    ];
    let r = run_with_results(steps, &results);
    assert_eq!(r.pos, 3);
    assert_eq!(
        r.log,
        vec![
            Diag::Announce(0),
            Diag::Announce(1),
            Diag::Announce(2),
            Diag::StepFailed(2),
            Diag::FailBanner,
        ]
    );
    assert!(!r.log.contains(&Diag::Announce(3)));
    assert!(!r.log.contains(&Diag::Announce(4)));
}

#[test]
fn launch_failure_is_reported_with_the_error_text() {
    let steps = vec![step("a"), step("b")];
    let results = vec![
        StepResult::FailedLaunch("No such file or directory (os error 2)".to_string()),
        StepResult::Passed,
    ];
    let r = run_with_results(steps, &results);
    match &r.outcome {
        Some(RunOutcome::StepFailed { index, name, reason }) => {
            assert_eq!(*index, 0);
            assert_eq!(name, "a");
            match reason {
                FailReason::Launch(s) => {
                    assert_eq!(s, "No such file or directory (os error 2)")
                }
                FailReason::Status(_) => panic!("wrong failure kind"),
            }
        }
        other => panic!("expected a step failure, got {other:?}"),
    }
    assert_eq!(r.pos, 1);
}

#[test]
fn incremental_executor_walks_the_states() {
    let steps = vec![step("a"), step("b")];
    let mut ex = Executor::new(steps);
    assert_eq!(ex.next_index(), Some(0));
    ex.record(StepResult::Passed);
    assert_eq!(ex.next_index(), Some(1));
    ex.record(StepResult::Passed);
    assert_eq!(ex.next_index(), None);
    assert!(matches!(ex.outcome, Some(RunOutcome::AllPassed)));
}

#[test]
fn full_catalog_run_passes_when_every_step_passes() {
    let (steps, _notes) = build_catalog(false);
    let results = vec![StepResult::Passed; 6];
    let r = run_with_results(steps, &results);
    assert!(matches!(r.outcome, Some(RunOutcome::AllPassed)));
    assert_eq!(r.pos, 6);
    assert_eq!(exit_code_for(r.outcome.as_ref().unwrap()), EXIT_SUCCESS);
}
