//! The enactor: expands a policy into its fixed ordered command sequence
//! and drives the device driver one command at a time. In dry-run mode
//! every step is recorded as successful without any device call; in live
//! mode the first failing step aborts the remainder.

use vstd::prelude::*;
use vstd::string::*;
use crate::command::{command_name_spec, Command};
use crate::dal::DeviceDriver;
use crate::policy::Policy;

verus! {

/// One executed (or simulated) step of an enactment.
#[derive(Debug)]
pub struct EnactStep {
    pub name: String,
    pub ok: bool,
    pub message: String,
}

/// The full report of one enactment.
#[derive(Debug)]
pub struct EnactReport {
    pub policy: Policy,
    pub steps: Vec<EnactStep>,
    pub ok: bool,
}

/// The fixed ordered command sequence of each policy.
pub open spec fn enact_plan_spec(policy: Policy) -> Seq<Command> {
    match policy {
        Policy::Observe => seq![Command::Monitor],
        Policy::Prepare => seq![Command::ArmSensors, Command::StagePumps],
        Policy::Defend => seq![Command::ArmSensors, Command::EnablePumpsLow],
        Policy::Contain => seq![
            Command::ArmSensors,
            Command::EnablePumpsHigh,
            Command::OpenValvesPriority,
        ],
        Policy::Suppress => seq![Command::Lockdown],
        Policy::Unknown => seq![Command::Noop],
    }
}

/// The commands a policy expands to, in order.
pub fn enact_plan(policy: Policy) -> (r: Vec<Command>)
    ensures
        r@ == enact_plan_spec(policy),
{
    let mut v: Vec<Command> = Vec::new();
    match policy {
        Policy::Observe => {
            v.push(Command::Monitor);
        },
        Policy::Prepare => {
            v.push(Command::ArmSensors);
            v.push(Command::StagePumps);
        },
        Policy::Defend => {
            v.push(Command::ArmSensors);
            v.push(Command::EnablePumpsLow);
        },
        Policy::Contain => {
            v.push(Command::ArmSensors);
            v.push(Command::EnablePumpsHigh);
            v.push(Command::OpenValvesPriority);
        },
        Policy::Suppress => {
            v.push(Command::Lockdown);
        },
        Policy::Unknown => {
            v.push(Command::Noop);
        },
    }
    proof {
        assert(v@ =~= enact_plan_spec(policy));
    }
    v
}

/// A report is well formed for `policy` and `dry_run` when its steps
/// follow the policy's plan in order, only its last step may have failed,
/// the plan is cut short only by a failing step — so a failure at the
/// step after `i` successes leaves exactly `i + 1` recorded steps — `ok`
/// means the whole plan ran and succeeded, and in dry-run mode every
/// step succeeded with the dry-run message and the plan was never cut
/// short.
pub open spec fn report_wf(r: EnactReport, policy: Policy, dry_run: bool) -> bool {
    let plan = enact_plan_spec(policy);
    &&& r.policy == policy
    &&& r.steps@.len() <= plan.len()
    &&& forall|i: int|
        0 <= i < r.steps@.len() ==> (#[trigger] r.steps@[i]).name@ == command_name_spec(plan[i])
    &&& forall|i: int| 0 <= i < r.steps@.len() - 1 ==> (#[trigger] r.steps@[i]).ok
    &&& (r.steps@.len() < plan.len() ==> r.steps@.len() > 0 && !r.steps@.last().ok)
    &&& (r.ok <==> r.steps@.len() == plan.len() && (r.steps@.len() == 0 || r.steps@.last().ok))
    &&& dry_run ==> r.ok && r.steps@.len() == plan.len() && forall|i: int|
        0 <= i < r.steps@.len() ==> (#[trigger] r.steps@[i]).ok && r.steps@[i].message@
            == "dry_run"@
}

/// Translates a policy into device operations and executes them, unless
/// `dry_run` is set.
pub trait InstallationEnactor {
    fn enact(&self, installation_id: &str, policy: Policy, dry_run: bool) -> (r: EnactReport)
        ensures
            report_wf(r, policy, dry_run),
    ;
}

/// An enactor that maps each planned command through one device driver.
pub struct SimpleEnactor<D: DeviceDriver> {
    pub driver: D,
}

impl<D: DeviceDriver> SimpleEnactor<D> {
    pub fn new(driver: D) -> (r: Self)
        ensures
            r.driver == driver,
    {
        SimpleEnactor { driver }
    }
}

impl<D: DeviceDriver> InstallationEnactor for SimpleEnactor<D> {
    fn enact(&self, installation_id: &str, policy: Policy, dry_run: bool) -> (r: EnactReport) {
        let plan = enact_plan(policy);
        let mut steps: Vec<EnactStep> = Vec::new();
        let mut all_ok: bool = true;
        let n = plan.len();
        let mut i: usize = 0;
        while i < n && all_ok
            invariant
                0 <= i <= n,
                n == enact_plan_spec(policy).len(),
                plan@ == enact_plan_spec(policy),
                steps@.len() == i,
                all_ok ==> forall|k: int| 0 <= k < steps@.len() ==> (#[trigger] steps@[k]).ok,
                !all_ok ==> 0 < steps@.len() && !steps@.last().ok,
                forall|k: int|
                    0 <= k < steps@.len() ==> (#[trigger] steps@[k]).name@ == command_name_spec(
                        enact_plan_spec(policy)[k],
                    ),
                forall|k: int| 0 <= k < steps@.len() - 1 ==> (#[trigger] steps@[k]).ok,
                dry_run ==> all_ok && forall|k: int|
                    0 <= k < steps@.len() ==> (#[trigger] steps@[k]).ok && steps@[k].message@
                        == "dry_run"@,
            decreases n - i,
        {
            let cmd = plan[i];
            let mut name = String::new();
            name.append(cmd.name());
            if dry_run {
                steps.push(EnactStep { name, ok: true, message: String::from_str("dry_run") });
            } else {
                match self.driver.apply(installation_id, cmd) {
                    Ok(res) => {
                        all_ok = res.ok;
                        steps.push(EnactStep { name, ok: res.ok, message: res.message });
                    },
                    Err(e) => {
                        all_ok = false;
                        steps.push(EnactStep { name, ok: false, message: e });
                    },
                }
            }
            i += 1;
        }
        EnactReport { policy, steps, ok: all_ok }
    }
}

} // verus!
