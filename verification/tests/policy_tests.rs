use suppression_policy_engine::account::{InMemoryResolver, InstallationAccountResolver};
use suppression_policy_engine::command::{action_to_command, Command};
use suppression_policy_engine::engine::Engine;
use suppression_policy_engine::error::ApiError;
use suppression_policy_engine::kvlist::KvList;
use suppression_policy_engine::policy::{Policy, PolicyRegistry};
use suppression_policy_engine::telemetry::{NoopSink, TelemetryEvent, TelemetrySink};
use suppression_policy_engine::time::now_ms;

#[test]
fn policy_levels_and_summaries() {
    assert_eq!(Policy::Observe.level(), 1);
    assert_eq!(Policy::Prepare.level(), 2);
    assert_eq!(Policy::Defend.level(), 3);
    assert_eq!(Policy::Contain.level(), 4);
    assert_eq!(Policy::Suppress.level(), 5);
    assert_eq!(Policy::Unknown.level(), 0);
    assert_eq!(Policy::Defend.summary(), "Activate low-intensity defenses.");
    assert_eq!(Policy::Unknown.summary(), "Unrecognized policy.");
}

#[test]
fn policy_actions_are_ordered() {
    assert_eq!(Policy::Observe.actions(), vec!["monitor"]);
    assert_eq!(Policy::Prepare.actions(), vec!["arm_sensors", "stage_pumps"]);
    assert_eq!(Policy::Defend.actions(), vec!["arm_sensors", "enable_pumps_low"]);
    assert_eq!(
        Policy::Contain.actions(),
        vec!["arm_sensors", "enable_pumps_high", "open_valves_priority"]
    );
    assert_eq!(
        Policy::Suppress.actions(),
        vec!["arm_sensors", "enable_pumps_high", "open_valves_all", "lockdown"]
    );
    assert_eq!(Policy::Unknown.actions(), vec!["noop"]);
}

#[test]
fn unrecognized_policy_names_become_unknown() {
    assert_eq!(Policy::from_name("defend"), Policy::Defend);
    assert_eq!(Policy::from_name("suppress"), Policy::Suppress);
    assert_eq!(Policy::from_name("DEFCON"), Policy::Unknown);
    assert_eq!(Policy::from_name(""), Policy::Unknown);
}

#[test]
fn registry_resolves_the_five_named_policies() {
    let registry = PolicyRegistry::new();
    assert_eq!(registry.resolve("observe"), Some(Policy::Observe));
    assert_eq!(registry.resolve("contain"), Some(Policy::Contain));
    assert_eq!(registry.resolve("unknown"), None);
    assert_eq!(registry.resolve(""), None);
}

#[test]
fn action_names_map_to_commands() {
    assert_eq!(action_to_command("monitor"), Command::Monitor);
    assert_eq!(action_to_command("arm_sensors"), Command::ArmSensors);
    assert_eq!(action_to_command("enable_pumps_low"), Command::EnablePumpsLow);
    assert_eq!(action_to_command("lockdown"), Command::Lockdown);
    assert_eq!(action_to_command("anything else"), Command::Noop);
}

#[test]
fn engine_evaluates_policy_intent() {
    let engine = Engine::new();
    let eval = engine.evaluate("house-1", Policy::Contain, true);
    assert!(eval.ok);
    assert_eq!(eval.installation_id, "house-1");
    assert_eq!(eval.policy, Policy::Contain);
    assert_eq!(eval.level, 4);
    assert_eq!(eval.summary, "High-intensity defenses; prioritize containment.");
    assert_eq!(
        eval.actions,
        vec!["arm_sensors", "enable_pumps_high", "open_valves_priority"]
    );
    assert!(eval.dry_run);
}

#[test]
fn resolver_prefers_the_table_and_falls_back_to_defaults() {
    let mut map: KvList<(u64, String)> = KvList::new();
    map.insert("house-1".to_string(), (42, "dev-1".to_string()));

    let with_default = InMemoryResolver::new(map, Some(7), Some("dev-default".to_string()));
    let bound = with_default.resolve("house-1").unwrap();
    assert_eq!(bound.account_id, 42);
    assert_eq!(bound.device_id, "dev-1");
    let fallback = with_default.resolve("house-9").unwrap();
    assert_eq!(fallback.account_id, 7);
    assert_eq!(fallback.device_id, "dev-default");

    let without_default = InMemoryResolver::new(KvList::new(), Some(7), None);
    assert!(without_default.resolve("house-9").is_none());
}

#[test]
fn api_errors_map_to_http_statuses() {
    assert_eq!(ApiError::BadRequest("empty Idempotency-Key").status_code(), 400);
    assert_eq!(ApiError::Conflict("run already finished").status_code(), 409);
    assert_eq!(ApiError::NotFound("run not found").status_code(), 404);
    assert_eq!(ApiError::Internal("boom".to_string()).status_code(), 500);
    assert_eq!(ApiError::NotFound("run not found").message(), "run not found");
}

#[test]
fn clock_reads_a_positive_timestamp() {
    assert!(now_ms() > 0);
}

#[test]
fn noop_sink_accepts_events() {
    let ev = TelemetryEvent {
        installation_id: "house-1".to_string(),
        run_id: None,
        kind: "test".to_string(),
        data: "{}".to_string(),
    };
    NoopSink.send(&ev);
}
