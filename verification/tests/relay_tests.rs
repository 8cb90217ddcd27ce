use suppression_policy_engine::command::Command;
use suppression_policy_engine::kvlist::KvList;
use suppression_policy_engine::relay::{
    expected_from_plan, mismatches, plan_relays, relay_universe, RelayPlan,
};
use suppression_policy_engine::relay_parse::parse_relay_state_map;

fn plan_of(cmd: Command) -> RelayPlan {
    plan_relays("house-1", cmd)
}

#[test]
fn plan_partition_covers_universe_disjointly() {
    let universe = relay_universe();
    for cmd in [
        Command::Monitor,
        Command::ArmSensors,
        Command::StagePumps,
        Command::EnablePumpsLow,
        Command::EnablePumpsHigh,
        Command::OpenValvesPriority,
        Command::OpenValvesAll,
        Command::Lockdown,
        Command::Noop,
    ] {
        let plan = plan_of(cmd);
        for r in &plan.on {
            assert!(!plan.off.contains(r), "{r} is both on and off for {cmd:?}");
            assert!(universe.contains(r));
        }
        for r in &universe {
            assert!(
                plan.on.contains(r) ^ plan.off.contains(r),
                "{r} not covered exactly once for {cmd:?}"
            );
        }
        assert_eq!(plan.on.len() + plan.off.len(), universe.len());
    }
}

#[test]
fn lockdown_turns_everything_on_and_monitor_nothing() {
    let lockdown = plan_of(Command::Lockdown);
    assert!(lockdown.off.is_empty());
    assert_eq!(lockdown.on, relay_universe());
    assert!(plan_of(Command::Monitor).on.is_empty());
    assert!(plan_of(Command::Noop).on.is_empty());
}

#[test]
fn enable_pumps_low_plan_names() {
    let plan = plan_of(Command::EnablePumpsLow);
    assert_eq!(plan.on, vec!["x21Relay3".to_string(), "x19Relay4".to_string()]);
    assert_eq!(plan.off.len(), 17);
    assert!(!plan.off.contains(&"x21Relay3".to_string()));
}

#[test]
fn expected_map_binds_on_true_off_false() {
    let plan = plan_of(Command::ArmSensors);
    let expected = expected_from_plan(&plan);
    assert_eq!(expected.get("x21Relay1"), Some(&true));
    assert_eq!(expected.get("x21Relay2"), Some(&false));
    assert_eq!(expected.get("nonexistent"), None);
}

#[test]
fn mismatches_empty_iff_every_key_matches() {
    let mut expected: KvList<bool> = KvList::new();
    expected.insert("x19Relay1".to_string(), true);
    expected.insert("x19Relay2".to_string(), false);

    let mut actual: KvList<bool> = KvList::new();
    actual.insert("x19Relay1".to_string(), true);
    actual.insert("x19Relay2".to_string(), false);
    assert!(mismatches(&expected, &actual).is_empty());

    // a differing value is flagged
    let mut actual2: KvList<bool> = KvList::new();
    actual2.insert("x19Relay1".to_string(), false);
    actual2.insert("x19Relay2".to_string(), false);
    let diffs = mismatches(&expected, &actual2);
    assert_eq!(diffs.len(), 1);
    assert_eq!(diffs[0], ("x19Relay1".to_string(), true, Some(false)));

    // an absent key is flagged with no observation
    let mut actual3: KvList<bool> = KvList::new();
    actual3.insert("x19Relay1".to_string(), true);
    let diffs3 = mismatches(&expected, &actual3);
    assert_eq!(diffs3.len(), 1);
    assert_eq!(diffs3[0], ("x19Relay2".to_string(), false, None));
}

#[test]
fn parse_relay_state_accepts_all_value_shapes() {
    let body = r#"{
        "x21Relay1": "1 @1.3",
        "x21Relay2": "0",
        "x21Relay3": 1,
        "x21Relay4": 0,
        "x19Relay1": true,
        "x19Relay2": false,
        "x19Relay3": "true@x",
        "x19Relay4": null,
        "temperature": 71.5,
        "x19Relay5": [1]
    }"#;
    let m = parse_relay_state_map(body).expect("object body parses");
    assert_eq!(m.get("x21Relay1"), Some(&true));
    assert_eq!(m.get("x21Relay2"), Some(&false));
    assert_eq!(m.get("x21Relay3"), Some(&true));
    assert_eq!(m.get("x21Relay4"), Some(&false));
    assert_eq!(m.get("x19Relay1"), Some(&true));
    assert_eq!(m.get("x19Relay2"), Some(&false));
    assert_eq!(m.get("x19Relay3"), Some(&true));
    // unknown shapes for relay keys are silently skipped
    assert_eq!(m.get("x19Relay4"), None);
    assert_eq!(m.get("x19Relay5"), None);
    // non-relay keys are ignored
    assert_eq!(m.get("temperature"), None);
}

#[test]
fn parse_relay_state_rejects_non_objects() {
    assert!(parse_relay_state_map("[1,2]").is_err());
    assert!(parse_relay_state_map("not json").is_err());
    assert!(parse_relay_state_map("42").is_err());
}
