use suppression_policy_engine::command::Command;
use suppression_policy_engine::dal::{DeviceDriver, MockDriver};
use suppression_policy_engine::enactor::SimpleEnactor;
use suppression_policy_engine::idempotency::{start_run, IdempotencyStore, StartRunOutcome};
use suppression_policy_engine::kvlist::KvList;
use suppression_policy_engine::models::{RunStatus, StartRunRequest};
use suppression_policy_engine::policy::Policy;
use suppression_policy_engine::runs::{
    cancel_run, create_run, drive_run_actions, drive_run_policy, finish_run, get_run, plan_step,
    Boundary, CancelOutcome, RunTable, StepDirective, observe_boundary,
};

fn request(policy: Policy, dry_run: bool) -> StartRunRequest {
    StartRunRequest { policy, dry_run, metadata: None, requested_by: None }
}

fn fresh_run(table: &mut RunTable, policy: Policy, dry_run: bool) -> String {
    let mut store = IdempotencyStore::new();
    let mut counter: u64 = 1;
    match start_run(table, &mut store, &mut counter, "house-1", &request(policy, dry_run), None, 10) {
        StartRunOutcome::Created { response } => response.run_id,
        other => panic!("expected created, got {other:?}"),
    }
}

/// Scenario: a dry run of `Defend` goes straight to `Succeeded`, each
/// step reporting `dry_run`, and no device call is ever made.
#[test]
fn dry_run_succeeds_without_device_calls() {
    struct PanickyDriver;
    impl DeviceDriver for PanickyDriver {
        fn apply(
            &self,
            _i: &str,
            _c: Command,
        ) -> Result<suppression_policy_engine::command::CommandResult, String> {
            panic!("no outbound device call may occur");
        }
    }
    let mut table: RunTable = KvList::new();
    let run_id = fresh_run(&mut table, Policy::Defend, true);
    assert_eq!(run_id, "r_0000000000000001");
    assert_eq!(get_run(&table, &run_id).unwrap().status, RunStatus::Starting);

    let enactor = SimpleEnactor::new(PanickyDriver);
    let report = drive_run_policy(&mut table, &run_id, &enactor, 20).expect("run exists");
    assert!(report.ok);
    assert_eq!(report.steps.len(), 2);
    for step in &report.steps {
        assert!(step.ok);
        assert_eq!(step.message, "dry_run");
    }
    let rec = get_run(&table, &run_id).unwrap();
    assert_eq!(rec.status, RunStatus::Succeeded);
    assert_eq!(rec.updated_at_ms, 20);
}

#[test]
fn cancel_on_finished_run_is_a_conflict() {
    let mut table: RunTable = KvList::new();
    let run_id = fresh_run(&mut table, Policy::Observe, true);
    let enactor = SimpleEnactor::new(MockDriver);
    drive_run_policy(&mut table, &run_id, &enactor, 20);
    assert_eq!(get_run(&table, &run_id).unwrap().status, RunStatus::Succeeded);
    assert_eq!(cancel_run(&mut table, &run_id, 30), CancelOutcome::Conflict);
    // the record is untouched by the rejection
    let rec = get_run(&table, &run_id).unwrap();
    assert_eq!(rec.status, RunStatus::Succeeded);
    assert_eq!(rec.updated_at_ms, 20);
}

#[test]
fn cancel_on_missing_run_is_not_found() {
    let mut table: RunTable = KvList::new();
    assert_eq!(cancel_run(&mut table, "r_nope", 5), CancelOutcome::NotFound);
}

/// A cancel requested before the run starts drives it to `Canceled` and
/// never to `Succeeded`.
#[test]
fn canceled_run_never_succeeds() {
    let mut table: RunTable = KvList::new();
    let run_id = fresh_run(&mut table, Policy::Defend, false);
    assert_eq!(cancel_run(&mut table, &run_id, 15), CancelOutcome::Accepted);
    assert_eq!(get_run(&table, &run_id).unwrap().status, RunStatus::Canceling);

    drive_run_actions(&mut table, &run_id, &MockDriver, 20);
    let rec = get_run(&table, &run_id).unwrap();
    assert_eq!(rec.status, RunStatus::Canceled);
}

#[test]
fn run_over_actions_succeeds_with_a_willing_driver() {
    let mut table: RunTable = KvList::new();
    let run_id = fresh_run(&mut table, Policy::Contain, false);
    drive_run_actions(&mut table, &run_id, &MockDriver, 20);
    assert_eq!(get_run(&table, &run_id).unwrap().status, RunStatus::Succeeded);
}

#[test]
fn failing_step_marks_the_run_failed() {
    struct RefusingDriver;
    impl DeviceDriver for RefusingDriver {
        fn apply(
            &self,
            _i: &str,
            _c: Command,
        ) -> Result<suppression_policy_engine::command::CommandResult, String> {
            Err("hardware unreachable".to_string())
        }
    }
    let mut table: RunTable = KvList::new();
    let run_id = fresh_run(&mut table, Policy::Suppress, false);
    drive_run_actions(&mut table, &run_id, &RefusingDriver, 20);
    assert_eq!(get_run(&table, &run_id).unwrap().status, RunStatus::Failed);
}

#[test]
fn boundary_observes_the_cancel_flag() {
    let mut table: RunTable = KvList::new();
    create_run(
        &mut table,
        "r_x".to_string(),
        "house-1".to_string(),
        Policy::Observe,
        1,
        vec!["monitor".to_string()],
        false,
        5,
    );
    assert_eq!(observe_boundary(&mut table, "r_x", 6), Boundary::Proceed);
    assert_eq!(cancel_run(&mut table, "r_x", 7), CancelOutcome::Accepted);
    assert_eq!(observe_boundary(&mut table, "r_x", 8), Boundary::CancelObserved);
    assert_eq!(get_run(&table, "r_x").unwrap().status, RunStatus::Canceled);
    assert_eq!(observe_boundary(&mut table, "r_missing", 9), Boundary::Missing);
}

/// The dry-run bypass is the library's decision: the step planner skips
/// the device exactly when the run is dry.
#[test]
fn step_planner_takes_the_dry_run_bypass() {
    assert!(matches!(plan_step(true, "lockdown"), StepDirective::RecordDryRun));
    match plan_step(false, "lockdown") {
        StepDirective::Apply(cmd) => assert_eq!(cmd, Command::Lockdown),
        other => panic!("expected a device command, got {other:?}"),
    }
    match plan_step(false, "no such action") {
        StepDirective::Apply(cmd) => assert_eq!(cmd, Command::Noop),
        other => panic!("expected a device command, got {other:?}"),
    }
}

/// A dry run driven over its action list never touches the driver and
/// always succeeds.
#[test]
fn dry_run_over_actions_never_touches_the_driver() {
    struct PanickyDriver;
    impl DeviceDriver for PanickyDriver {
        fn apply(
            &self,
            _i: &str,
            _c: Command,
        ) -> Result<suppression_policy_engine::command::CommandResult, String> {
            panic!("a dry run must not call the device");
        }
    }
    let mut table: RunTable = KvList::new();
    let run_id = fresh_run(&mut table, Policy::Suppress, true);
    drive_run_actions(&mut table, &run_id, &PanickyDriver, 20);
    assert_eq!(get_run(&table, &run_id).unwrap().status, RunStatus::Succeeded);
}

/// A run with no actions succeeds at once.
#[test]
fn empty_action_list_succeeds() {
    let mut table: RunTable = KvList::new();
    create_run(
        &mut table,
        "r_e".to_string(),
        "house-1".to_string(),
        Policy::Observe,
        1,
        Vec::new(),
        false,
        5,
    );
    drive_run_actions(&mut table, "r_e", &MockDriver, 6);
    let rec = get_run(&table, "r_e").unwrap();
    assert_eq!(rec.status, RunStatus::Succeeded);
    assert_eq!(rec.updated_at_ms, 6);
}

/// A verdict never overwrites an already-terminal run.
#[test]
fn finish_run_leaves_terminal_runs_alone() {
    let mut table: RunTable = KvList::new();
    let run_id = fresh_run(&mut table, Policy::Defend, false);
    assert_eq!(cancel_run(&mut table, &run_id, 15), CancelOutcome::Accepted);
    drive_run_actions(&mut table, &run_id, &MockDriver, 20);
    assert_eq!(get_run(&table, &run_id).unwrap().status, RunStatus::Canceled);
    finish_run(&mut table, &run_id, true, 30);
    let rec = get_run(&table, &run_id).unwrap();
    assert_eq!(rec.status, RunStatus::Canceled);
    assert_eq!(rec.updated_at_ms, 20);
}

#[test]
fn run_record_carries_its_inputs() {
    let mut table: RunTable = KvList::new();
    let run_id = fresh_run(&mut table, Policy::Contain, false);
    let rec = get_run(&table, &run_id).unwrap();
    assert_eq!(rec.installation_id, "house-1");
    assert_eq!(rec.policy, Policy::Contain);
    assert_eq!(rec.level, 4);
    assert_eq!(
        rec.actions,
        vec![
            "arm_sensors".to_string(),
            "enable_pumps_high".to_string(),
            "open_valves_priority".to_string()
        ]
    );
    assert!(!rec.dry_run);
    assert_eq!(rec.started_at_ms, 10);
    assert!(!rec.cancel_requested);
}
