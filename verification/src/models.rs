//! The run data model: run lifecycle states, the run record, and the
//! request shapes the service accepts.

use vstd::prelude::*;
use crate::kvlist::KvList;
use crate::policy::Policy;

verus! {

/// The lifecycle state of a run. Terminal states are `Succeeded`,
/// `Failed` and `Canceled`; no transition leaves a terminal state.
#[derive(Debug, Clone, Copy, PartialEq, Eq, Structural)]
pub enum RunStatus {
    Starting,
    Running,
    Succeeded,
    Failed,
    Canceling,
    Canceled,
}

/// No transition is permitted out of these states.
pub open spec fn is_terminal(s: RunStatus) -> bool {
    s == RunStatus::Succeeded || s == RunStatus::Failed || s == RunStatus::Canceled
}

/// The run state machine: `Starting → Running → {Succeeded, Failed}`,
/// and `Starting | Running → Canceling → Canceled`.
pub open spec fn status_step_allowed(a: RunStatus, b: RunStatus) -> bool {
    ||| (a == RunStatus::Starting && b == RunStatus::Running)
    ||| (a == RunStatus::Running && (b == RunStatus::Succeeded || b == RunStatus::Failed))
    ||| ((a == RunStatus::Starting || a == RunStatus::Running) && b == RunStatus::Canceling)
    ||| (a == RunStatus::Canceling && b == RunStatus::Canceled)
}

/// One tracked execution of a policy's command sequence.
#[derive(Debug)]
pub struct RunRecord {
    pub run_id: String,
    pub installation_id: String,
    pub policy: Policy,
    pub level: u8,
    pub actions: Vec<String>,
    pub dry_run: bool,
    pub status: RunStatus,
    pub started_at_ms: u128,
    pub updated_at_ms: u128,
    pub cancel_requested: bool,
}

/// The body of a start-run request.
#[derive(Debug)]
pub struct StartRunRequest {
    pub policy: Policy,
    pub dry_run: bool,
    pub metadata: Option<KvList<String>>,
    pub requested_by: Option<String>,
}

/// The query of an evaluate request.
#[derive(Debug)]
pub struct EvaluateRequest {
    pub policy: Policy,
    pub dry_run: bool,
    pub installation_id: Option<String>,
}

/// The query parameters of the planning-preview endpoint.
#[derive(Debug)]
pub struct EvalParams {
    pub installation_id: String,
    pub policy: Policy,
    pub dry_run: bool,
}

} // verus!
