//! The planning engine: a pure, side-effect-free evaluation of policy
//! intent for an installation. Execution is left to the enactor and the
//! device driver.

use vstd::prelude::*;
use vstd::string::*;
use crate::policy::{action_strings, actions_spec, level_spec, summary_spec, Policy};

verus! {

/// A pure evaluation of what a policy means for an installation,
/// including the ordered actions the policy would expand to.
#[derive(Debug)]
pub struct Evaluation {
    pub ok: bool,
    pub installation_id: String,
    pub policy: Policy,
    pub level: u8,
    pub summary: &'static str,
    pub actions: Vec<String>,
    pub dry_run: bool,
}

/// The intent-level planner.
#[derive(Debug)]
pub struct Engine;

impl Engine {
    pub fn new() -> (r: Self) {
        Engine
    }

    /// Plans at the intent level: the policy's severity, summary and
    /// ordered actions, echoing the installation and the dry-run flag.
    pub fn evaluate(&self, installation_id: &str, policy: Policy, dry_run: bool) -> (r: Evaluation)
        ensures
            r.ok,
            r.installation_id@ == installation_id@,
            r.policy == policy,
            r.level == level_spec(policy),
            r.summary@ == summary_spec(policy),
            r.actions@.map_values(|s: String| s@) == actions_spec(policy),
            r.dry_run == dry_run,
    {
        Evaluation {
            ok: true,
            installation_id: installation_id.to_owned(),
            policy,
            level: policy.level(),
            summary: policy.summary(),
            actions: action_strings(policy),
            dry_run,
        }
    }
}

} // verus!
