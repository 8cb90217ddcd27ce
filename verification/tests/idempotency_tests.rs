use suppression_policy_engine::idempotency::{
    fingerprint_request, start_run, IdempotencyStore, StartRunOutcome,
};
use suppression_policy_engine::kvlist::KvList;
use suppression_policy_engine::models::{RunStatus, StartRunRequest};
use suppression_policy_engine::policy::Policy;
use suppression_policy_engine::runs::RunTable;

fn request(policy: Policy, dry_run: bool) -> StartRunRequest {
    StartRunRequest { policy, dry_run, metadata: None, requested_by: None }
}

/// Two start-run calls with the same installation, key and body return
/// the same run identifier and the identical cached response.
#[test]
fn same_key_same_body_replays_the_first_response() {
    let mut table: RunTable = KvList::new();
    let mut store = IdempotencyStore::new();
    let mut counter: u64 = 1;
    let body = request(Policy::Defend, false);

    let first = match start_run(&mut table, &mut store, &mut counter, "house-1", &body, Some("key-1"), 10) {
        StartRunOutcome::Created { response } => response,
        other => panic!("expected created, got {other:?}"),
    };
    assert_eq!(first.run_id, "r_0000000000000001");
    assert_eq!(first.status, RunStatus::Starting);
    assert_eq!(first.level, 3);

    let body2 = request(Policy::Defend, false);
    match start_run(&mut table, &mut store, &mut counter, "house-1", &body2, Some("key-1"), 99) {
        StartRunOutcome::Replayed { response } => {
            assert_eq!(response.run_id, first.run_id);
            assert_eq!(response.installation_id, first.installation_id);
            assert_eq!(response.policy, first.policy);
            assert_eq!(response.level, first.level);
            assert_eq!(response.summary, first.summary);
            assert_eq!(response.actions, first.actions);
        },
        other => panic!("expected replay, got {other:?}"),
    }
    // no second run was created
    assert_eq!(counter, 2);
}

/// Scenario: the same key with a different policy is rejected as a
/// conflict, and the first call's cached response is unaffected.
#[test]
fn same_key_different_body_conflicts() {
    let mut table: RunTable = KvList::new();
    let mut store = IdempotencyStore::new();
    let mut counter: u64 = 1;

    let first = match start_run(
        &mut table,
        &mut store,
        &mut counter,
        "house-1",
        &request(Policy::Defend, false),
        Some("key-1"),
        10,
    ) {
        StartRunOutcome::Created { response } => response,
        other => panic!("expected created, got {other:?}"),
    };

    match start_run(
        &mut table,
        &mut store,
        &mut counter,
        "house-1",
        &request(Policy::Suppress, false),
        Some("key-1"),
        20,
    ) {
        StartRunOutcome::Conflict => {},
        other => panic!("expected conflict, got {other:?}"),
    }

    // the cached record still replays the original response
    let scoped = store.scope_key("house-1", "key-1");
    let cached = store.get(&scoped).expect("record survives the rejection");
    assert_eq!(cached.response.run_id, first.run_id);
    assert_eq!(cached.response.policy, Policy::Defend);
    assert_eq!(counter, 2);
}

/// A missing key never deduplicates: two identical bodies make two runs.
#[test]
fn missing_key_never_deduplicates() {
    let mut table: RunTable = KvList::new();
    let mut store = IdempotencyStore::new();
    let mut counter: u64 = 1;
    let a = match start_run(&mut table, &mut store, &mut counter, "house-1", &request(Policy::Observe, true), None, 1) {
        StartRunOutcome::Created { response } => response.run_id,
        other => panic!("expected created, got {other:?}"),
    };
    let b = match start_run(&mut table, &mut store, &mut counter, "house-1", &request(Policy::Observe, true), None, 2) {
        StartRunOutcome::Created { response } => response.run_id,
        other => panic!("expected created, got {other:?}"),
    };
    assert_ne!(a, b);
    assert_eq!(b, "r_0000000000000002");
}

/// A blank key is rejected before any lookup or side effect.
#[test]
fn blank_key_is_rejected() {
    let mut table: RunTable = KvList::new();
    let mut store = IdempotencyStore::new();
    let mut counter: u64 = 1;
    for key in ["", "   ", "\t\n", "\u{00a0}\u{2003}"] {
        match start_run(&mut table, &mut store, &mut counter, "house-1", &request(Policy::Observe, true), Some(key), 1) {
            StartRunOutcome::EmptyKey => {},
            other => panic!("expected empty-key rejection, got {other:?}"),
        }
    }
    assert_eq!(counter, 1);
}

/// Keys are scoped per installation: the same key on another installation
/// deduplicates independently.
#[test]
fn keys_are_scoped_per_installation() {
    let mut table: RunTable = KvList::new();
    let mut store = IdempotencyStore::new();
    let mut counter: u64 = 1;
    let body = request(Policy::Prepare, false);
    let a = match start_run(&mut table, &mut store, &mut counter, "house-1", &body, Some("k"), 1) {
        StartRunOutcome::Created { response } => response.run_id,
        other => panic!("expected created, got {other:?}"),
    };
    let body2 = request(Policy::Prepare, false);
    let b = match start_run(&mut table, &mut store, &mut counter, "house-2", &body2, Some("k"), 2) {
        StartRunOutcome::Created { response } => response.run_id,
        other => panic!("expected created, got {other:?}"),
    };
    assert_ne!(a, b);
}

#[test]
fn fingerprint_is_deterministic_and_sensitive() {
    let a = fingerprint_request(&request(Policy::Defend, false));
    let b = fingerprint_request(&request(Policy::Defend, false));
    assert_eq!(a, b);
    assert_ne!(a, fingerprint_request(&request(Policy::Suppress, false)));
    assert_ne!(a, fingerprint_request(&request(Policy::Defend, true)));
    let with_requester = StartRunRequest {
        policy: Policy::Defend,
        dry_run: false,
        metadata: None,
        requested_by: Some("ops".to_string()),
    };
    assert_ne!(a, fingerprint_request(&with_requester));
    let mut meta: KvList<String> = KvList::new();
    meta.insert("reason".to_string(), "drill".to_string());
    let with_meta = StartRunRequest {
        policy: Policy::Defend,
        dry_run: false,
        metadata: Some(meta),
        requested_by: None,
    };
    assert_ne!(a, fingerprint_request(&with_meta));
}

#[test]
fn scope_key_joins_installation_and_key() {
    let store = IdempotencyStore::new();
    assert_eq!(store.scope_key("house-1", "abc"), "house-1::abc");
}
