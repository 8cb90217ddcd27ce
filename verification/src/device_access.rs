//! The ephemeral device-access-token (DAT) protocol, as an explicit state
//! machine: list existing tokens and reuse the last one; only when none
//! exist, create one, list again and take the newest; run the wrapped
//! operation; and delete the token afterwards exactly when this protocol
//! created it, whatever the operation returned. The HTTP calls that answer
//! each action are suspension points and live with the caller.
//!
//! Two laws are proved over whole protocol traces: a first listing that
//! finds a token never leads to a create call, and a completed protocol
//! issues a delete call if and only if it issued a create call.

use vstd::prelude::*;
use vstd::string::*;

verus! {

/// One short-lived device access token, as the listing endpoint reports it.
#[derive(Debug, Clone)]
pub struct DeviceAccessTokenItem {
    pub token: String,
}

/// What the protocol asks its driver to do next.
#[derive(Debug)]
pub enum DatAction {
    /// List the device's tokens.
    ListTokens,
    /// Create a token valid for this many minutes.
    CreateToken { minutes_valid: u32 },
    /// Run the wrapped operation with this token.
    Invoke { token: String },
    /// Delete this token; a failure is logged, never fatal.
    DeleteToken { token: String },
    /// Nothing more to do.
    Stop,
}

/// What the outside world answered; `R` is the wrapped operation's result,
/// carried through untouched.
#[derive(Debug)]
pub enum DatEvent<R> {
    Listed { items: Vec<DeviceAccessTokenItem> },
    ListFailed,
    Created,
    CreateFailed,
    OperationDone { result: R },
    Deleted { ok: bool },
}

/// Why the protocol failed before the operation could run.
#[derive(Debug, Clone, PartialEq, Eq, Structural)]
pub enum DatError {
    /// A listing call failed.
    ListFailed,
    /// The create call failed.
    CreateFailed,
    /// The create call succeeded but a fresh listing still yields no
    /// token: a provider consistency fault, distinct and fatal.
    MissingAfterCreate,
}

/// Where the protocol stands.
#[derive(Debug)]
pub enum DatPhase<R> {
    /// Waiting for the first listing.
    FirstList,
    /// Waiting for the create call's outcome.
    Creating,
    /// Waiting for the listing that follows a create.
    SecondList,
    /// The operation is running with `token`; `created` records whether
    /// this protocol minted it.
    Operating { token: String, created: bool },
    /// Waiting for the delete call's outcome; the operation's result is
    /// already in hand.
    Deleting { result: R },
    /// The protocol is complete.
    Done { result: R },
    /// The protocol failed before the operation ran.
    Failed { error: DatError },
}

/// The protocol's first phase and first action.
pub open spec fn dat_init_spec<R>() -> (DatPhase<R>, DatAction) {
    (DatPhase::FirstList, DatAction::ListTokens)
}

/// Starts the protocol: the first action is always a listing.
pub fn dat_init<R>() -> (r: (DatPhase<R>, DatAction))
    ensures
        r == dat_init_spec::<R>(),
{
    (DatPhase::FirstList, DatAction::ListTokens)
}

/// One protocol transition; an event that the current phase cannot
/// accept changes nothing and asks the driver to stop.
pub open spec fn dat_step_spec<R>(
    phase: DatPhase<R>,
    event: DatEvent<R>,
    minutes_valid: u32,
) -> (DatPhase<R>, DatAction) {
    match (phase, event) {
        (DatPhase::FirstList, DatEvent::Listed { items }) => {
            if items@.len() > 0 {
                let token = items@.last().token;
                (
                    DatPhase::Operating { token, created: false },
                    DatAction::Invoke { token },
                )
            } else {
                (DatPhase::Creating, DatAction::CreateToken { minutes_valid })
            }
        },
        (DatPhase::FirstList, DatEvent::ListFailed) => (
            DatPhase::Failed { error: DatError::ListFailed },
            DatAction::Stop,
        ),
        (DatPhase::Creating, DatEvent::Created) => (DatPhase::SecondList, DatAction::ListTokens),
        (DatPhase::Creating, DatEvent::CreateFailed) => (
            DatPhase::Failed { error: DatError::CreateFailed },
            DatAction::Stop,
        ),
        (DatPhase::SecondList, DatEvent::Listed { items }) => {
            if items@.len() > 0 {
                let token = items@.last().token;
                (
                    DatPhase::Operating { token, created: true },
                    DatAction::Invoke { token },
                )
            } else {
                (DatPhase::Failed { error: DatError::MissingAfterCreate }, DatAction::Stop)
            }
        },
        (DatPhase::SecondList, DatEvent::ListFailed) => (
            DatPhase::Failed { error: DatError::ListFailed },
            DatAction::Stop,
        ),
        (DatPhase::Operating { token, created }, DatEvent::OperationDone { result }) => {
            if created {
                (DatPhase::Deleting { result }, DatAction::DeleteToken { token })
            } else {
                (DatPhase::Done { result }, DatAction::Stop)
            }
        },
        (DatPhase::Deleting { result }, DatEvent::Deleted { .. }) => (
            DatPhase::Done { result },
            DatAction::Stop,
        ),
        (other, _) => (other, DatAction::Stop),
    }
}

/// Performs one protocol transition.
pub fn dat_step<R>(phase: DatPhase<R>, event: DatEvent<R>, minutes_valid: u32) -> (r: (
    DatPhase<R>,
    DatAction,
))
    ensures
        r == dat_step_spec(phase, event, minutes_valid),
{
    match (phase, event) {
        (DatPhase::FirstList, DatEvent::Listed { items }) => {
            if items.len() > 0 {
                let token = items[items.len() - 1].token.clone();
                let token2 = token.clone();
                (
                    DatPhase::Operating { token, created: false },
                    DatAction::Invoke { token: token2 },
                )
            } else {
                (DatPhase::Creating, DatAction::CreateToken { minutes_valid })
            }
        },
        (DatPhase::FirstList, DatEvent::ListFailed) => (
            DatPhase::Failed { error: DatError::ListFailed },
            DatAction::Stop,
        ),
        (DatPhase::Creating, DatEvent::Created) => (DatPhase::SecondList, DatAction::ListTokens),
        (DatPhase::Creating, DatEvent::CreateFailed) => (
            DatPhase::Failed { error: DatError::CreateFailed },
            DatAction::Stop,
        ),
        (DatPhase::SecondList, DatEvent::Listed { items }) => {
            if items.len() > 0 {
                let token = items[items.len() - 1].token.clone();
                let token2 = token.clone();
                (
                    DatPhase::Operating { token, created: true },
                    DatAction::Invoke { token: token2 },
                )
            } else {
                (DatPhase::Failed { error: DatError::MissingAfterCreate }, DatAction::Stop)
            }
        },
        (DatPhase::SecondList, DatEvent::ListFailed) => (
            DatPhase::Failed { error: DatError::ListFailed },
            DatAction::Stop,
        ),
        (DatPhase::Operating { token, created }, DatEvent::OperationDone { result }) => {
            if created {
                (DatPhase::Deleting { result }, DatAction::DeleteToken { token })
            } else {
                (DatPhase::Done { result }, DatAction::Stop)
            }
        },
        (DatPhase::Deleting { result }, DatEvent::Deleted { .. }) => (
            DatPhase::Done { result },
            DatAction::Stop,
        ),
        (other, _) => (other, DatAction::Stop),
    }
}

/// The phase reached and the actions issued after consuming `events`,
/// starting from the initial phase. The first action is the initial
/// listing; each event appends the action it provoked.
pub open spec fn dat_run<R>(events: Seq<DatEvent<R>>, minutes_valid: u32) -> (
    DatPhase<R>,
    Seq<DatAction>,
)
    decreases events.len(),
{
    if events.len() == 0 {
        let (ph, a) = dat_init_spec::<R>();
        (ph, seq![a])
    } else {
        let (ph, acts) = dat_run(events.drop_last(), minutes_valid);
        let (ph2, a) = dat_step_spec(ph, events.last(), minutes_valid);
        (ph2, acts.push(a))
    }
}

/// Some action in the trace is a create call.
pub open spec fn has_create(acts: Seq<DatAction>) -> bool {
    exists|i: int| 0 <= i < acts.len() && (#[trigger] acts[i]) is CreateToken
}

/// Some action in the trace is a delete call.
pub open spec fn has_delete(acts: Seq<DatAction>) -> bool {
    exists|i: int| 0 <= i < acts.len() && (#[trigger] acts[i]) is DeleteToken
}

proof fn lemma_push_create(acts: Seq<DatAction>, a: DatAction)
    ensures
        has_create(acts.push(a)) == (has_create(acts) || a is CreateToken),
        has_delete(acts.push(a)) == (has_delete(acts) || a is DeleteToken),
{
    if has_create(acts) {
        let i = choose|i: int| 0 <= i < acts.len() && (#[trigger] acts[i]) is CreateToken;
        assert(acts.push(a)[i] is CreateToken);
    }
    if a is CreateToken {
        assert(acts.push(a)[acts.len() as int] is CreateToken);
    }
    if has_create(acts.push(a)) {
        let i = choose|i: int| 0 <= i < acts.push(a).len() && (#[trigger] acts.push(a)[i]) is CreateToken;
        if i < acts.len() {
            assert(acts[i] is CreateToken);
        }
    }
    if has_delete(acts) {
        let i = choose|i: int| 0 <= i < acts.len() && (#[trigger] acts[i]) is DeleteToken;
        assert(acts.push(a)[i] is DeleteToken);
    }
    if a is DeleteToken {
        assert(acts.push(a)[acts.len() as int] is DeleteToken);
    }
    if has_delete(acts.push(a)) {
        let i = choose|i: int| 0 <= i < acts.push(a).len() && (#[trigger] acts.push(a)[i]) is DeleteToken;
        if i < acts.len() {
            assert(acts[i] is DeleteToken);
        }
    }
}

/// The bookkeeping invariant tying a phase to the calls issued so far.
pub open spec fn dat_trace_inv<R>(phase: DatPhase<R>, acts: Seq<DatAction>) -> bool {
    match phase {
        DatPhase::FirstList => !has_create(acts) && !has_delete(acts),
        DatPhase::Creating => has_create(acts) && !has_delete(acts),
        DatPhase::SecondList => has_create(acts) && !has_delete(acts),
        DatPhase::Operating { created, .. } => created == has_create(acts) && !has_delete(acts),
        DatPhase::Deleting { .. } => has_create(acts) && has_delete(acts),
        DatPhase::Done { .. } => has_create(acts) == has_delete(acts),
        DatPhase::Failed { .. } => !has_delete(acts),
    }
}

/// Every trace satisfies the bookkeeping invariant.
pub proof fn lemma_dat_trace_inv<R>(events: Seq<DatEvent<R>>, minutes_valid: u32)
    ensures
        dat_trace_inv(dat_run(events, minutes_valid).0, dat_run(events, minutes_valid).1),
    decreases events.len(),
{
    if events.len() == 0 {
        let (ph, acts) = dat_run(events, minutes_valid);
        assert(!has_create(acts) && !has_delete(acts));
    } else {
        lemma_dat_trace_inv(events.drop_last(), minutes_valid);
        let (ph, acts) = dat_run(events.drop_last(), minutes_valid);
        let (ph2, a) = dat_step_spec(ph, events.last(), minutes_valid);
        lemma_push_create(acts, a);
        assert(dat_run(events, minutes_valid).0 == ph2);
        assert(dat_run(events, minutes_valid).1 == acts.push(a));
        match ph {
            DatPhase::FirstList => {
                assert(dat_trace_inv(ph2, acts.push(a)));
            },
            DatPhase::Creating => {
                assert(dat_trace_inv(ph2, acts.push(a)));
            },
            DatPhase::SecondList => {
                assert(dat_trace_inv(ph2, acts.push(a)));
            },
            DatPhase::Operating { .. } => {
                assert(dat_trace_inv(ph2, acts.push(a)));
            },
            DatPhase::Deleting { .. } => {
                assert(dat_trace_inv(ph2, acts.push(a)));
            },
            DatPhase::Done { .. } => {
                assert(dat_trace_inv(ph2, acts.push(a)));
            },
            DatPhase::Failed { .. } => {
                assert(dat_trace_inv(ph2, acts.push(a)));
            },
        }
    }
}

/// A trace always opens with the initial listing.
proof fn lemma_dat_run_first<R>(events: Seq<DatEvent<R>>, minutes_valid: u32)
    ensures
        dat_run(events, minutes_valid).1.len() == events.len() + 1,
        dat_run(events, minutes_valid).1[0] == dat_init_spec::<R>().1,
    decreases events.len(),
{
    if events.len() > 0 {
        lemma_dat_run_first(events.drop_last(), minutes_valid);
    }
}

/// The scoped-usage guarantee, whatever result the wrapped operation
/// returned: a completed protocol deleted a token exactly when it created
/// one; a delete is issued only after a create, and never before the
/// deleting phase.
pub proof fn lemma_delete_iff_created<R>(events: Seq<DatEvent<R>>, minutes_valid: u32)
    ensures
        dat_run(events, minutes_valid).0 is Done ==> (has_delete(dat_run(events, minutes_valid).1)
            <==> has_create(dat_run(events, minutes_valid).1)),
        dat_run(events, minutes_valid).0 is Deleting ==> has_create(
            dat_run(events, minutes_valid).1,
        ) && has_delete(dat_run(events, minutes_valid).1),
        !(dat_run(events, minutes_valid).0 is Done) && !(dat_run(events, minutes_valid).0
            is Deleting) ==> !has_delete(dat_run(events, minutes_valid).1),
{
    lemma_dat_trace_inv(events, minutes_valid);
}

/// Whether the first event is a listing that found at least one token.
pub open spec fn first_list_nonempty<R>(e: DatEvent<R>) -> bool {
    match e {
        DatEvent::Listed { items } => items@.len() > 0,
        _ => false,
    }
}

/// After a first listing that found a token, the reachable phases never
/// record a created token and never issue another listing, a create or a
/// delete.
pub open spec fn reuse_phase<R>(phase: DatPhase<R>) -> bool {
    match phase {
        DatPhase::Operating { created, .. } => !created,
        DatPhase::Done { .. } => true,
        DatPhase::Failed { .. } => true,
        _ => false,
    }
}

proof fn lemma_reuse_helper<R>(events: Seq<DatEvent<R>>, minutes_valid: u32)
    requires
        events.len() > 0,
        first_list_nonempty(events[0]),
    ensures
        reuse_phase(dat_run(events, minutes_valid).0),
        forall|i: int|
            1 <= i < dat_run(events, minutes_valid).1.len() ==> !((#[trigger] dat_run(
                events,
                minutes_valid,
            ).1[i]) is CreateToken) && !(dat_run(events, minutes_valid).1[i] is DeleteToken)
                && !(dat_run(events, minutes_valid).1[i] is ListTokens),
    decreases events.len(),
{
    if events.len() == 1 {
        assert(events.drop_last().len() == 0);
        let (ph, acts) = dat_run(events.drop_last(), minutes_valid);
        let (ph2, a) = dat_step_spec(ph, events[0], minutes_valid);
        assert(a is Invoke);
    } else {
        lemma_reuse_helper(events.drop_last(), minutes_valid);
        assert(events.drop_last()[0] == events[0]);
        let (ph, acts) = dat_run(events.drop_last(), minutes_valid);
        let (ph2, a) = dat_step_spec(ph, events.last(), minutes_valid);
        assert(!(a is CreateToken) && !(a is DeleteToken) && !(a is ListTokens));
        assert forall|i: int| 1 <= i < acts.push(a).len() implies !((#[trigger] acts.push(a)[i])
            is CreateToken) && !(acts.push(a)[i] is DeleteToken) && !(acts.push(a)[i]
            is ListTokens) by {
            if i < acts.len() {
                assert(acts.push(a)[i] == acts[i]);
            }
        }
    }
}

/// Re-running the protocol when a token already exists never issues a
/// create call: the one listing is the only listing, and nothing is
/// created or deleted.
pub proof fn lemma_reuse_never_creates<R>(events: Seq<DatEvent<R>>, minutes_valid: u32)
    requires
        events.len() > 0,
        first_list_nonempty(events[0]),
    ensures
        !has_create(dat_run(events, minutes_valid).1),
        !has_delete(dat_run(events, minutes_valid).1),
{
    lemma_reuse_helper(events, minutes_valid);
    lemma_dat_run_first(events, minutes_valid);
    let (ph, acts) = dat_run(events, minutes_valid);
    assert(acts[0] == dat_init_spec::<R>().1);
    if has_create(acts) {
        let i = choose|i: int| 0 <= i < acts.len() && (#[trigger] acts[i]) is CreateToken;
        assert(i >= 1);
    }
    if has_delete(acts) {
        let i = choose|i: int| 0 <= i < acts.len() && (#[trigger] acts[i]) is DeleteToken;
        assert(i >= 1);
    }
}

} // verus!
