use std::cell::Cell;
use suppression_policy_engine::command::Command;
use suppression_policy_engine::credentials::{
    apply_grant, ensure_token_step, login_outcome, refresh_outcome, CredStep, CredentialState,
    TokenResp,
};
use suppression_policy_engine::dal::{DeviceDriver, MockDriver};
use suppression_policy_engine::device_access::{
    dat_init, dat_step, DatAction, DatEvent, DatPhase, DeviceAccessTokenItem,
};
use suppression_policy_engine::driver::{
    apply_init, apply_step, batch_custom_state_url, single_relay_url, ApplyAction, ApplyEvent,
    ApplyPhase,
};
use suppression_policy_engine::enactor::{InstallationEnactor, SimpleEnactor};
use suppression_policy_engine::policy::Policy;
use suppression_policy_engine::relay::{plan_relays, RelayPlan};

fn item(token: &str) -> DeviceAccessTokenItem {
    DeviceAccessTokenItem { token: token.to_string() }
}

/// An existing token is reused: the trace holds one list call and no
/// create or delete.
#[test]
fn existing_token_never_creates() {
    let (phase, first) = dat_init::<u32>();
    assert!(matches!(first, DatAction::ListTokens));
    let (phase, act) = dat_step(
        phase,
        DatEvent::Listed { items: vec![item("old"), item("new")] },
        5,
    );
    match &act {
        DatAction::Invoke { token } => assert_eq!(token, "new"),
        other => panic!("expected invoke, got {other:?}"),
    }
    let (phase, act) = dat_step(phase, DatEvent::OperationDone { result: 7u32 }, 5);
    assert!(matches!(act, DatAction::Stop));
    match phase {
        DatPhase::Done { result } => assert_eq!(result, 7),
        other => panic!("expected done, got {other:?}"),
    }
}

/// When no token exists, the protocol creates one and deletes it at the
/// end, even though the wrapped operation failed.
#[test]
fn created_token_is_deleted_even_on_operation_error() {
    type R = Result<u32, String>;
    let (phase, _) = dat_init::<R>();
    let (phase, act) = dat_step(phase, DatEvent::Listed { items: vec![] }, 5);
    match act {
        DatAction::CreateToken { minutes_valid } => assert_eq!(minutes_valid, 5),
        other => panic!("expected create, got {other:?}"),
    }
    let (phase, act) = dat_step(phase, DatEvent::Created, 5);
    assert!(matches!(act, DatAction::ListTokens));
    let (phase, act) = dat_step(phase, DatEvent::Listed { items: vec![item("fresh")] }, 5);
    match &act {
        DatAction::Invoke { token } => assert_eq!(token, "fresh"),
        other => panic!("expected invoke, got {other:?}"),
    }
    let failed: R = Err("boom".to_string());
    let (phase, act) = dat_step(phase, DatEvent::OperationDone { result: failed }, 5);
    match &act {
        DatAction::DeleteToken { token } => assert_eq!(token, "fresh"),
        other => panic!("expected delete, got {other:?}"),
    }
    // a failed deletion is logged, never fatal: the result still comes out
    let (phase, act) = dat_step(phase, DatEvent::Deleted { ok: false }, 5);
    assert!(matches!(act, DatAction::Stop));
    match phase {
        DatPhase::Done { result } => assert_eq!(result, Err("boom".to_string())),
        other => panic!("expected done, got {other:?}"),
    }
}

/// The create call succeeded but the fresh listing is still empty: a
/// distinct fatal inconsistency.
#[test]
fn missing_after_create_is_fatal() {
    let (phase, _) = dat_init::<u32>();
    let (phase, _) = dat_step(phase, DatEvent::Listed { items: vec![] }, 5);
    let (phase, _) = dat_step(phase, DatEvent::Created, 5);
    let (phase, act) = dat_step(phase, DatEvent::Listed { items: vec![] }, 5);
    assert!(matches!(act, DatAction::Stop));
    assert!(matches!(
        phase,
        DatPhase::Failed {
            error: suppression_policy_engine::device_access::DatError::MissingAfterCreate
        }
    ));
}

#[test]
fn fresh_token_is_reused_without_any_call() {
    let mut st = CredentialState::new();
    let grant = TokenResp {
        expires_in: 3600,
        access_token: "tok-a".to_string(),
        refresh_token: Some("ref-a".to_string()),
    };
    apply_grant(&mut st, &grant, 1_000_000);
    // expiry = now + (3600 - 60) * 1000
    assert_eq!(st.expires_at_ms, Some(1_000_000 + 3_540_000));
    match ensure_token_step(&st, 1_500_000) {
        CredStep::UseCached { token } => assert_eq!(token, "tok-a"),
        other => panic!("expected cached, got {other:?}"),
    }
}

#[test]
fn expiring_token_refreshes_then_falls_through_to_login() {
    let mut st = CredentialState::new();
    let grant = TokenResp {
        expires_in: 3600,
        access_token: "tok-a".to_string(),
        refresh_token: Some("ref-a".to_string()),
    };
    apply_grant(&mut st, &grant, 0);
    // within the 60 s margin of the cached expiry: a refresh is attempted
    match ensure_token_step(&st, 3_500_000) {
        CredStep::Refresh { refresh_token } => assert_eq!(refresh_token, "ref-a"),
        other => panic!("expected refresh, got {other:?}"),
    }
    // the refresh failed: the cache is untouched and a login follows
    assert!(refresh_outcome(&mut st, None, 3_500_000).is_none());
    assert_eq!(st.access_token, Some("tok-a".to_string()));
    let login = TokenResp {
        expires_in: 7200,
        access_token: "tok-b".to_string(),
        refresh_token: None,
    };
    let got = login_outcome(&mut st, Some(&login), 3_500_000).expect("login grant is fatal only on failure");
    assert_eq!(got, "tok-b");
    assert_eq!(st.refresh_token, None);
    // login failure is fatal
    let mut st2 = CredentialState::new();
    assert!(login_outcome(&mut st2, None, 0).is_err());
}

#[test]
fn no_cache_and_no_refresh_token_logs_in() {
    let st = CredentialState::new();
    assert!(matches!(ensure_token_step(&st, 0), CredStep::Login));
}

fn batch_body_for(plan: &RelayPlan, flip_off: Option<&str>) -> String {
    let mut body = String::from("{");
    let mut first = true;
    for r in &plan.on {
        if !first {
            body.push(',');
        }
        first = false;
        let v = if flip_off == Some(r.as_str()) { "0" } else { "1" };
        body.push_str(&format!("\"{r}\":\"{v}\""));
    }
    for r in &plan.off {
        if !first {
            body.push(',');
        }
        first = false;
        body.push_str(&format!("\"{r}\":\"0\""));
    }
    body.push('}');
    body
}

/// A batch body that matches the plan exactly finishes the apply at once.
#[test]
fn batch_match_succeeds_without_fallback() {
    let plan = plan_relays("house-1", Command::EnablePumpsLow);
    let body = batch_body_for(&plan, None);
    let (phase, act) = apply_init(plan);
    assert!(matches!(act, ApplyAction::CallBatch));
    let (phase, act) = apply_step(phase, ApplyEvent { ok: true, status: 200, body });
    assert!(matches!(act, ApplyAction::Stop), "no fallback call may be issued");
    match phase {
        ApplyPhase::Finished { result: Ok(cr) } => {
            assert!(cr.ok);
            assert_eq!(cr.message, "relays updated (batch)");
        },
        other => panic!("expected finished ok, got {other:?}"),
    }
}

/// One relay reported OFF where the plan wants it ON: a single fallback
/// call corrects it and the apply still succeeds.
#[test]
fn single_mismatch_fixed_by_fallback() {
    let plan = plan_relays("house-1", Command::EnablePumpsLow);
    let body = batch_body_for(&plan, Some("x19Relay4"));
    let (phase, _) = apply_init(plan);
    let (phase, act) = apply_step(phase, ApplyEvent { ok: true, status: 200, body });
    match &act {
        ApplyAction::CallRelay { relay, on } => {
            assert_eq!(relay, "x19Relay4");
            assert!(*on);
        },
        other => panic!("expected one relay call, got {other:?}"),
    }
    let (phase, act) = apply_step(
        phase,
        ApplyEvent { ok: true, status: 200, body: "{}".to_string() },
    );
    assert!(matches!(act, ApplyAction::Stop));
    match phase {
        ApplyPhase::Finished { result: Ok(cr) } => {
            assert!(cr.ok);
            assert_eq!(cr.message, "relays updated (fallback ok, 1 fixed)");
        },
        other => panic!("expected finished ok, got {other:?}"),
    }
}

/// A non-success batch status is fatal to the whole apply; no fallback.
#[test]
fn batch_http_failure_is_fatal() {
    let plan = plan_relays("house-1", Command::ArmSensors);
    let (phase, _) = apply_init(plan);
    let (phase, act) = apply_step(
        phase,
        ApplyEvent { ok: false, status: 503, body: "unavailable".to_string() },
    );
    assert!(matches!(act, ApplyAction::Stop));
    match phase {
        ApplyPhase::Finished {
            result: Err(suppression_policy_engine::driver::ApplyError::DeviceError { status, body }),
        } => {
            assert_eq!(status, 503);
            assert_eq!(body, "unavailable");
        },
        other => panic!("expected device error, got {other:?}"),
    }
}

/// An uncorrected fallback relay fails the apply with the full breakdown.
#[test]
fn uncorrected_relay_fails_the_apply() {
    let plan = plan_relays("house-1", Command::EnablePumpsLow);
    let body = batch_body_for(&plan, Some("x19Relay4"));
    let (phase, _) = apply_init(plan);
    let (phase, _) = apply_step(phase, ApplyEvent { ok: true, status: 200, body });
    let (phase, _) = apply_step(
        phase,
        ApplyEvent { ok: false, status: 500, body: "relay stuck".to_string() },
    );
    match phase {
        ApplyPhase::Finished {
            result: Err(suppression_policy_engine::driver::ApplyError::FallbackFailed { failures }),
        } => {
            assert_eq!(failures.len(), 1);
            assert_eq!(failures[0].relay, "x19Relay4");
            assert!(failures[0].wanted_on);
            assert_eq!(failures[0].status, 500);
            assert_eq!(failures[0].body, "relay stuck");
        },
        other => panic!("expected fallback failure, got {other:?}"),
    }
}

#[test]
fn custom_state_urls_encode_the_plan() {
    let plan = RelayPlan { on: vec!["a".to_string()], off: vec!["b".to_string()] };
    let url = batch_custom_state_url("tok", &plan).expect("valid url");
    assert_eq!(
        url,
        "https://productionblue.api.controlbyweb.cloud/DAT/tok/customState.json?a=1&b=0"
    );
    let single = single_relay_url("tok", "x19Relay4", true).expect("valid url");
    assert_eq!(
        single,
        "https://productionblue.api.controlbyweb.cloud/DAT/tok/customState.json?x19Relay4=1"
    );
    let single_off = single_relay_url("tok", "x19Relay4", false).expect("valid url");
    assert!(single_off.ends_with("?x19Relay4=0"));
}

#[test]
fn mock_driver_acknowledges_every_command() {
    let res = MockDriver.apply("house-1", Command::EnablePumpsHigh).unwrap();
    assert!(res.ok);
    assert_eq!(res.message, "applied EnablePumpsHigh");
}

#[test]
fn status_acknowledges_the_installation() {
    let ack = MockDriver.status("house-1");
    assert!(ack.ok);
    assert_eq!(ack.installation_id, "house-1");
}

#[test]
fn dry_run_enactment_never_touches_the_driver() {
    struct PanickyDriver;
    impl DeviceDriver for PanickyDriver {
        fn apply(
            &self,
            _installation_id: &str,
            _cmd: Command,
        ) -> Result<suppression_policy_engine::command::CommandResult, String> {
            panic!("a dry run must not call the device");
        }
    }
    let enactor = SimpleEnactor::new(PanickyDriver);
    let report = enactor.enact("house-1", Policy::Defend, true);
    assert!(report.ok);
    assert_eq!(report.steps.len(), 2);
    assert_eq!(report.steps[0].name, "ArmSensors");
    assert_eq!(report.steps[1].name, "EnablePumpsLow");
    for step in &report.steps {
        assert!(step.ok);
        assert_eq!(step.message, "dry_run");
    }
}

#[test]
fn first_failing_step_aborts_the_remainder() {
    struct FailSecond {
        calls: Cell<u32>,
    }
    impl DeviceDriver for FailSecond {
        fn apply(
            &self,
            _installation_id: &str,
            cmd: Command,
        ) -> Result<suppression_policy_engine::command::CommandResult, String> {
            self.calls.set(self.calls.get() + 1);
            if self.calls.get() >= 2 {
                Err(format!("device rejected {cmd:?}"))
            } else {
                Ok(suppression_policy_engine::command::CommandResult {
                    ok: true,
                    message: "ok".to_string(),
                })
            }
        }
    }
    let driver = FailSecond { calls: Cell::new(0) };
    let enactor = SimpleEnactor::new(driver);
    // Contain expands to three commands; the second fails, the third never runs
    let report = enactor.enact("house-1", Policy::Contain, false);
    assert!(!report.ok);
    assert_eq!(report.steps.len(), 2);
    assert!(report.steps[0].ok);
    assert!(!report.steps[1].ok);
    assert_eq!(enactor.driver.calls.get(), 2);
}
