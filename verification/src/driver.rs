//! The apply protocol of the relay-controller driver: resolve the
//! installation's binding, plan the relay partition, then reconcile —
//! one batch call encoding the whole plan, a comparison of the reported
//! state against the plan, and a per-relay fallback for every mismatch,
//! where a single relay's failure never aborts its siblings. The HTTP
//! calls are suspension points and live with the caller; every decision
//! between them is made here, verified.

use vstd::prelude::*;
use vstd::string::*;
use crate::account::{AccountBinding, InstallationAccountResolver};
use crate::command::{Command, CommandResult};
use crate::kvlist::KvList;
use crate::relay::{mismatch_seq, mismatches, plan_relays, RelayPlan};
use crate::relay_parse::{flat_object_of, parse_relay_state_map, relay_states_spec};
use crate::strutil::{dec_rep, u64_to_dec};

verus! {

/// What `url::Url::parse_with_params` yields for a base and its query
/// pairs: a function of its arguments alone.
pub uninterp spec fn url_of(base: Seq<char>, params: Seq<(Seq<char>, Seq<char>)>) -> Option<
    Seq<char>,
>;

/// Relies on `url::Url::parse_with_params` of the `url` crate: appends
/// the pairs, percent-encoded, as the query of the base URL.
#[verifier::external_body]
fn url_with_params(base: &str, params: &Vec<(String, String)>) -> (r: Option<String>)
    ensures
        match r {
            Some(u) => url_of(base@, params@.map_values(|p: (String, String)| (p.0@, p.1@)))
                == Some(u@),
            None => url_of(base@, params@.map_values(|p: (String, String)| (p.0@, p.1@))) is None,
        },
{
    url::Url::parse_with_params(base, params.iter().map(|p| (p.0.as_str(), p.1.as_str())))
        .ok()
        .map(String::from)
}

/// Base host for direct-to-device calls through a device access token.
pub open spec fn dat_base_spec() -> Seq<char> {
    "https://productionblue.api.controlbyweb.cloud/"@
}

/// The custom-state path of a device access token.
pub open spec fn custom_state_path(dat: Seq<char>) -> Seq<char> {
    dat_base_spec() + "DAT/"@ + dat + "/customState.json"@
}

/// The query pairs of a plan: every ON relay set to 1, every OFF relay
/// set to 0, in plan order.
pub open spec fn plan_params_spec(plan: RelayPlan) -> Seq<(Seq<char>, Seq<char>)> {
    plan.on@.map_values(|s: String| (s@, "1"@)) + plan.off@.map_values(|s: String| (s@, "0"@))
}

/// The URL of the batch custom-state call that encodes a whole plan.
pub fn batch_custom_state_url(dat: &str, plan: &RelayPlan) -> (r: Option<String>)
    ensures
        match r {
            Some(u) => url_of(custom_state_path(dat@), plan_params_spec(*plan)) == Some(u@),
            None => url_of(custom_state_path(dat@), plan_params_spec(*plan)) is None,
        },
{
    let mut base = String::new();
    base.append("https://productionblue.api.controlbyweb.cloud/");
    base.append("DAT/");
    base.append(dat);
    base.append("/customState.json");
    let mut params: Vec<(String, String)> = Vec::new();
    let n = plan.on.len();
    let mut i: usize = 0;
    while i < n
        invariant
            0 <= i <= n,
            n == plan.on@.len(),
            params@.len() == i,
            forall|t: int|
                0 <= t < i ==> (#[trigger] params@[t]).0@ == plan.on@[t]@ && params@[t].1@
                    == "1"@,
        decreases n - i,
    {
        params.push((plan.on[i].clone(), String::from_str("1")));
        i += 1;
    }
    let k = plan.off.len();
    let mut j: usize = 0;
    while j < k
        invariant
            0 <= j <= k,
            k == plan.off@.len(),
            n == plan.on@.len(),
            params@.len() == n + j,
            forall|t: int|
                0 <= t < n ==> (#[trigger] params@[t]).0@ == plan.on@[t]@ && params@[t].1@
                    == "1"@,
            forall|t: int|
                0 <= t < j ==> (#[trigger] params@[n + t]).0@ == plan.off@[t]@ && params@[n
                    + t].1@ == "0"@,
        decreases k - j,
    {
        params.push((plan.off[j].clone(), String::from_str("0")));
        j += 1;
    }
    proof {
        let mapped = params@.map_values(|p: (String, String)| (p.0@, p.1@));
        assert forall|t: int| 0 <= t < n + k implies mapped[t] == plan_params_spec(*plan)[t] by {
            if t < n {
                assert(plan_params_spec(*plan)[t] == (plan.on@[t]@, "1"@));
            } else {
                assert(params@[n + (t - n)].0@ == plan.off@[t - n]@);
                assert(plan_params_spec(*plan)[t] == (plan.off@[t - n]@, "0"@));
            }
        }
        assert(mapped =~= plan_params_spec(*plan));
    }
    url_with_params(base.as_str(), &params)
}

/// The URL of a single-relay custom-state call, through the batch
/// builder with a one-relay plan.
pub fn single_relay_url(dat: &str, relay: &str, on: bool) -> (r: Option<String>)
    ensures
        match r {
            Some(u) => url_of(
                custom_state_path(dat@),
                seq![(relay@, if on { "1"@ } else { "0"@ })],
            ) == Some(u@),
            None => url_of(custom_state_path(dat@), seq![(relay@, if on { "1"@ } else { "0"@ })])
                is None,
        },
{
    let one = if on {
        RelayPlan { on: vec![relay.to_owned()], off: Vec::new() }
    } else {
        RelayPlan { on: Vec::new(), off: vec![relay.to_owned()] }
    };
    proof {
        assert(plan_params_spec(one) =~= seq![(relay@, if on { "1"@ } else { "0"@ })]);
    }
    batch_custom_state_url(dat, &one)
}

/// One relay the fallback could not correct.
#[derive(Debug)]
pub struct RelayFailure {
    pub relay: String,
    pub wanted_on: bool,
    pub status: u16,
    pub body: String,
}

/// Why an apply failed.
#[derive(Debug)]
pub enum ApplyError {
    /// No (account, device) binding for the installation.
    NoBinding,
    /// The batch call answered with a non-success status: fatal to the
    /// whole apply, no fallback is attempted.
    DeviceError { status: u16, body: String },
    /// At least one mismatched relay could not be corrected.
    FallbackFailed { failures: Vec<RelayFailure> },
}

/// Resolves the installation's binding and plans the relay partition;
/// the only error here is a missing binding.
pub fn apply_begin<Res: InstallationAccountResolver>(
    resolver: &Res,
    installation_id: &str,
    cmd: Command,
) -> (r: Result<(AccountBinding, RelayPlan), ApplyError>)
    requires
        resolver.wf(),
    ensures
        match r {
            Ok(out) => resolver.resolve_spec(installation_id@) == Some(
                (out.0.account_id, out.0.device_id@),
            ) && out.1.is_plan_for(cmd),
            Err(e) => e is NoBinding && resolver.resolve_spec(installation_id@) is None,
        },
{
    match resolver.resolve(installation_id) {
        Some(binding) => {
            let plan = plan_relays(installation_id, cmd);
            Ok((binding, plan))
        },
        None => Err(ApplyError::NoBinding),
    }
}

/// What the reconciliation asks its driver to do next.
#[derive(Debug)]
pub enum ApplyAction {
    /// Send the batch custom-state call for the phase's plan.
    CallBatch,
    /// Send one single-relay call.
    CallRelay { relay: String, on: bool },
    /// Nothing more to do.
    Stop,
}

/// One HTTP answer: whether the status was a success, the status code,
/// and the body.
#[derive(Debug)]
pub struct ApplyEvent {
    pub ok: bool,
    pub status: u16,
    pub body: String,
}

/// Where the reconciliation stands.
#[derive(Debug)]
pub enum ApplyPhase {
    /// Waiting for the batch call's answer.
    Batch { plan: RelayPlan },
    /// Correcting mismatches one relay at a time: the pending mismatch
    /// list, the next index, how many were fixed, and the failures so far.
    Fallback {
        pending: Vec<(String, bool, Option<bool>)>,
        idx: usize,
        fixed: u64,
        failures: Vec<RelayFailure>,
    },
    /// The apply is complete.
    Finished { result: Result<CommandResult, ApplyError> },
}

/// The bookkeeping invariant of a phase.
pub open spec fn apply_phase_wf(ph: ApplyPhase) -> bool {
    match ph {
        ApplyPhase::Fallback { pending, idx, fixed, failures } => idx < pending@.len() && fixed
            + failures@.len() == idx,
        _ => true,
    }
}

/// The relay states a batch body reports: its flat object's relay
/// entries, or nothing at all when the body is not a JSON object.
pub open spec fn body_states_spec(body: Seq<char>) -> Map<Seq<char>, bool> {
    match flat_object_of(body) {
        Some(entries) => relay_states_spec(entries),
        None => Map::empty(),
    }
}

/// The expected relay states of a plan, as an ordered pair list: the ON
/// relays first, then the OFF relays.
pub open spec fn expected_pairs_spec(plan: RelayPlan) -> Seq<(String, bool)> {
    plan.on@.map_values(|s: String| (s, true)) + plan.off@.map_values(|s: String| (s, false))
}

fn expected_pairs(plan: &RelayPlan) -> (r: Vec<(String, bool)>)
    ensures
        r@ == expected_pairs_spec(*plan),
{
    let mut out: Vec<(String, bool)> = Vec::new();
    let n = plan.on.len();
    let mut i: usize = 0;
    while i < n
        invariant
            0 <= i <= n,
            n == plan.on@.len(),
            out@.len() == i,
            forall|t: int| 0 <= t < i ==> (#[trigger] out@[t]) == (plan.on@[t], true),
        decreases n - i,
    {
        out.push((plan.on[i].clone(), true));
        i += 1;
    }
    let k = plan.off.len();
    let mut j: usize = 0;
    while j < k
        invariant
            0 <= j <= k,
            k == plan.off@.len(),
            n == plan.on@.len(),
            out@.len() == n + j,
            forall|t: int| 0 <= t < n ==> (#[trigger] out@[t]) == (plan.on@[t], true),
            forall|t: int| 0 <= t < j ==> (#[trigger] out@[n + t]) == (plan.off@[t], false),
        decreases k - j,
    {
        out.push((plan.off[j].clone(), false));
        j += 1;
    }
    proof {
        assert forall|t: int| 0 <= t < n + k implies out@[t] == expected_pairs_spec(*plan)[t] by {
            if t < n {
                assert(expected_pairs_spec(*plan)[t] == (plan.on@[t], true));
            } else {
                assert(out@[n + (t - n)] == (plan.off@[t - n], false));
                assert(expected_pairs_spec(*plan)[t] == (plan.off@[t - n], false));
            }
        }
        assert(out@ =~= expected_pairs_spec(*plan));
    }
    out
}

/// The message of a batch that matched the plan.
pub open spec fn batch_ok_message() -> Seq<char> {
    "relays updated (batch)"@
}

/// The message of a fallback that corrected every mismatch.
pub open spec fn fallback_ok_message(n: nat) -> Seq<char> {
    "relays updated (fallback ok, "@ + dec_rep(n) + " fixed)"@
}

fn make_fallback_message(n: u64) -> (r: String)
    ensures
        r@ == fallback_ok_message(n as nat),
{
    let mut s = String::new();
    s.append("relays updated (fallback ok, ");
    let d = u64_to_dec(n);
    s.append(d.as_str());
    s.append(" fixed)");
    s
}

/// Starts the reconciliation of a plan: the first action is the batch
/// call.
pub fn apply_init(plan: RelayPlan) -> (r: (ApplyPhase, ApplyAction))
    ensures
        r.0 matches ApplyPhase::Batch { plan: p } && p == plan,
        r.1 is CallBatch,
        apply_phase_wf(r.0),
{
    (ApplyPhase::Batch { plan }, ApplyAction::CallBatch)
}

/// What one reconciliation transition guarantees.
pub open spec fn apply_step_ensures(
    phase: ApplyPhase,
    event: ApplyEvent,
    ph2: ApplyPhase,
    act: ApplyAction,
) -> bool {
    match phase {
        ApplyPhase::Batch { plan } => {
            if !event.ok {
                &&& ph2 matches ApplyPhase::Finished {
                    result: Err(ApplyError::DeviceError { status, body }),
                } && status == event.status && body == event.body
                &&& act is Stop
            } else {
                let diffs = mismatch_seq(expected_pairs_spec(plan), body_states_spec(event.body@));
                if diffs.len() == 0 {
                    &&& ph2 matches ApplyPhase::Finished { result: Ok(cr) } && cr.ok && cr.message@
                        == batch_ok_message()
                    &&& act is Stop
                } else {
                    &&& ph2 matches ApplyPhase::Fallback { pending, idx, fixed, failures }
                        && pending@ == diffs && idx == 0 && fixed == 0 && failures@.len() == 0
                    &&& act matches ApplyAction::CallRelay { relay, on } && relay == diffs[0].0
                        && on == diffs[0].1
                }
            }
        },
        ApplyPhase::Fallback { pending, idx, fixed, failures } => {
            let fixed2: int = if event.ok {
                fixed + 1
            } else {
                fixed as int
            };
            let failures2 = if event.ok {
                failures@
            } else {
                failures@.push(
                    RelayFailure {
                        relay: pending@[idx as int].0,
                        wanted_on: pending@[idx as int].1,
                        status: event.status,
                        body: event.body,
                    },
                )
            };
            if idx + 1 < pending@.len() {
                &&& ph2 matches ApplyPhase::Fallback {
                    pending: p2,
                    idx: i2,
                    fixed: f2,
                    failures: fl2,
                } && p2@ == pending@ && i2 == idx + 1 && f2 == fixed2 && fl2@ == failures2
                &&& act matches ApplyAction::CallRelay { relay, on } && relay == pending@[idx
                    + 1].0 && on == pending@[idx + 1].1
            } else {
                if failures2.len() == 0 {
                    &&& ph2 matches ApplyPhase::Finished { result: Ok(cr) } && cr.ok && cr.message@
                        == fallback_ok_message(fixed2 as nat)
                    &&& act is Stop
                } else {
                    &&& ph2 matches ApplyPhase::Finished {
                        result: Err(ApplyError::FallbackFailed { failures: f }),
                    } && f@ == failures2
                    &&& act is Stop
                }
            }
        },
        ApplyPhase::Finished { .. } => ph2 == phase && act is Stop,
    }
}

/// Performs one reconciliation transition: a failed batch is fatal; a
/// matching batch finishes at once; mismatches are corrected one relay
/// at a time, failures accumulating without aborting the others; the
/// apply succeeds only when every mismatched relay was corrected.
pub fn apply_step(phase: ApplyPhase, event: ApplyEvent) -> (r: (ApplyPhase, ApplyAction))
    requires
        phase matches ApplyPhase::Fallback { pending, idx, fixed, failures } ==> idx
            < pending@.len() && fixed + failures@.len() == idx,
    ensures
        apply_phase_wf(r.0),
        apply_step_ensures(phase, event, r.0, r.1),
{
    match phase {
        ApplyPhase::Batch { plan } => {
            if !event.ok {
                (
                    ApplyPhase::Finished {
                        result: Err(
                            ApplyError::DeviceError { status: event.status, body: event.body },
                        ),
                    },
                    ApplyAction::Stop,
                )
            } else {
                let actual = match parse_relay_state_map(event.body.as_str()) {
                    Ok(m) => m,
                    Err(_) => KvList::new(),
                };
                let expected = KvList { pairs: expected_pairs(&plan) };
                let diffs = mismatches(&expected, &actual);
                if diffs.len() == 0 {
                    (
                        ApplyPhase::Finished {
                            result: Ok(
                                CommandResult {
                                    ok: true,
                                    message: String::from_str("relays updated (batch)"),
                                },
                            ),
                        },
                        ApplyAction::Stop,
                    )
                } else {
                    let relay = diffs[0].0.clone();
                    let on = diffs[0].1;
                    (
                        ApplyPhase::Fallback { pending: diffs, idx: 0, fixed: 0, failures: Vec::new() },
                        ApplyAction::CallRelay { relay, on },
                    )
                }
            }
        },
        ApplyPhase::Fallback { pending, idx, fixed, mut failures } => {
            let len = pending.len();
            proof {
                assert(idx < len && fixed + failures@.len() == idx);
            }
            let fixed2: u64 = if event.ok {
                fixed + 1
            } else {
                fixed
            };
            if !event.ok {
                failures.push(
                    RelayFailure {
                        relay: pending[idx].0.clone(),
                        wanted_on: pending[idx].1,
                        status: event.status,
                        body: event.body,
                    },
                );
            }
            let idx2 = idx + 1;
            if idx2 < len {
                let relay = pending[idx2].0.clone();
                let on = pending[idx2].1;
                (
                    ApplyPhase::Fallback { pending, idx: idx2, fixed: fixed2, failures },
                    ApplyAction::CallRelay { relay, on },
                )
            } else {
                if failures.len() == 0 {
                    let message = make_fallback_message(fixed2);
                    (
                        ApplyPhase::Finished { result: Ok(CommandResult { ok: true, message }) },
                        ApplyAction::Stop,
                    )
                } else {
                    (
                        ApplyPhase::Finished {
                            result: Err(ApplyError::FallbackFailed { failures }),
                        },
                        ApplyAction::Stop,
                    )
                }
            }
        },
        ApplyPhase::Finished { result } => (ApplyPhase::Finished { result }, ApplyAction::Stop),
    }
}

} // verus!
