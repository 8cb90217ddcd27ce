//! The run orchestrator: creation, lookup, cancellation and background
//! progression of runs over a shared run table. Cancellation is
//! cooperative: the flag is polled at step boundaries only, never during
//! an in-flight device call.

use vstd::prelude::*;
use vstd::string::*;
use crate::command::{action_to_command, action_to_command_spec, Command};
use crate::dal::DeviceDriver;
use crate::enactor::InstallationEnactor;
use crate::kvlist::KvList;
use crate::models::{is_terminal, status_step_allowed, RunRecord, RunStatus};
use crate::policy::Policy;
use crate::strutil::clone_string_vec;

verus! {

/// A run table: run records keyed by run identifier.
pub type RunTable = KvList<RunRecord>;

/// `r` with a new status and update time, all else unchanged.
pub open spec fn with_status(r: RunRecord, status: RunStatus, now_ms: u128) -> RunRecord {
    RunRecord {
        run_id: r.run_id,
        installation_id: r.installation_id,
        policy: r.policy,
        level: r.level,
        actions: r.actions,
        dry_run: r.dry_run,
        status,
        started_at_ms: r.started_at_ms,
        updated_at_ms: now_ms,
        cancel_requested: r.cancel_requested,
    }
}

/// `r` after a cancel request: the flag is set, and a starting or running
/// run moves to `Canceling` with a fresh update time.
pub open spec fn cancel_applied(r: RunRecord, now_ms: u128) -> RunRecord {
    let status = if r.status == RunStatus::Starting || r.status == RunStatus::Running {
        RunStatus::Canceling
    } else {
        r.status
    };
    let updated = if r.status == RunStatus::Starting || r.status == RunStatus::Running {
        now_ms
    } else {
        r.updated_at_ms
    };
    RunRecord {
        run_id: r.run_id,
        installation_id: r.installation_id,
        policy: r.policy,
        level: r.level,
        actions: r.actions,
        dry_run: r.dry_run,
        status,
        started_at_ms: r.started_at_ms,
        updated_at_ms: updated,
        cancel_requested: true,
    }
}

/// Inserts a fresh `Starting` record for a new run.
pub fn create_run(
    table: &mut RunTable,
    run_id: String,
    installation_id: String,
    policy: Policy,
    level: u8,
    actions: Vec<String>,
    dry_run: bool,
    now_ms: u128,
)
    requires
        old(table).wf(),
    ensures
        final (table).wf(),
        final (table).as_map() == old(table).as_map().insert(
            run_id@,
            RunRecord {
                run_id,
                installation_id,
                policy,
                level,
                actions,
                dry_run,
                status: RunStatus::Starting,
                started_at_ms: now_ms,
                updated_at_ms: now_ms,
                cancel_requested: false,
            },
        ),
{
    let key = run_id.clone();
    table.insert(
        key,
        RunRecord {
            run_id,
            installation_id,
            policy,
            level,
            actions,
            dry_run,
            status: RunStatus::Starting,
            started_at_ms: now_ms,
            updated_at_ms: now_ms,
            cancel_requested: false,
        },
    );
}

/// Looks a run up.
pub fn get_run<'a>(table: &'a RunTable, run_id: &str) -> (r: Option<&'a RunRecord>)
    requires
        table.wf(),
    ensures
        match r {
            Some(rec) => table.as_map().contains_key(run_id@) && *rec == table.as_map()[run_id@],
            None => !table.as_map().contains_key(run_id@),
        },
{
    table.get(run_id)
}

/// The answer to a cancel request.
#[derive(Debug, Clone, Copy, PartialEq, Eq, Structural)]
pub enum CancelOutcome {
    /// The run will be canceled at its next step boundary.
    Accepted,
    /// The run already finished; nothing was changed.
    Conflict,
    /// No such run.
    NotFound,
}

/// Requests cancellation: rejected as a conflict on a terminal run,
/// otherwise the flag is set and a starting or running run moves to
/// `Canceling`.
pub fn cancel_run(table: &mut RunTable, run_id: &str, now_ms: u128) -> (r: CancelOutcome)
    requires
        old(table).wf(),
    ensures
        final (table).wf(),
        !old(table).as_map().contains_key(run_id@) ==> r == CancelOutcome::NotFound
            && *final (table) == *old(table),
        old(table).as_map().contains_key(run_id@) && is_terminal(
            old(table).as_map()[run_id@].status,
        ) ==> r == CancelOutcome::Conflict && final (table).as_map() == old(table).as_map(),
        old(table).as_map().contains_key(run_id@) && !is_terminal(
            old(table).as_map()[run_id@].status,
        ) ==> r == CancelOutcome::Accepted && final (table).as_map() == old(table).as_map().insert(
            run_id@,
            cancel_applied(old(table).as_map()[run_id@], now_ms),
        ),
{
    let ghost m0 = table.as_map();
    match table.remove(run_id) {
        None => CancelOutcome::NotFound,
        Some(mut rec) => {
            let terminal = match rec.status {
                RunStatus::Succeeded | RunStatus::Failed | RunStatus::Canceled => true,
                _ => false,
            };
            if terminal {
                table.insert(run_id.to_owned(), rec);
                proof {
                    assert(table.as_map() =~= m0);
                }
                CancelOutcome::Conflict
            } else {
                rec.cancel_requested = true;
                match rec.status {
                    RunStatus::Starting | RunStatus::Running => {
                        rec.status = RunStatus::Canceling;
                        rec.updated_at_ms = now_ms;
                    },
                    _ => {},
                }
                table.insert(run_id.to_owned(), rec);
                proof {
                    assert(table.as_map() =~= m0.insert(run_id@, cancel_applied(m0[run_id@], now_ms)));
                }
                CancelOutcome::Accepted
            }
        },
    }
}

/// Loads a run for background execution: a missing or already-terminal
/// run yields nothing; otherwise the run's inputs are returned and a
/// `Starting` run moves to `Running`.
pub fn begin_run(table: &mut RunTable, run_id: &str, now_ms: u128) -> (r: Option<
    (String, Policy, bool, Vec<String>, bool)
>)
    requires
        old(table).wf(),
    ensures
        final (table).wf(),
        match r {
            None => (!old(table).as_map().contains_key(run_id@) || is_terminal(
                old(table).as_map()[run_id@].status,
            )) && final (table).as_map() == old(table).as_map(),
            Some((installation_id, policy, dry_run, actions, cancel_requested)) => {
                let rec0 = old(table).as_map()[run_id@];
                &&& old(table).as_map().contains_key(run_id@)
                &&& !is_terminal(rec0.status)
                &&& installation_id@ == rec0.installation_id@
                &&& policy == rec0.policy
                &&& dry_run == rec0.dry_run
                &&& actions@ == rec0.actions@
                &&& cancel_requested == rec0.cancel_requested
                &&& final (table).as_map() == old(table).as_map().insert(
                    run_id@,
                    if rec0.status == RunStatus::Starting {
                        with_status(rec0, RunStatus::Running, now_ms)
                    } else {
                        rec0
                    },
                )
            },
        },
{
    let ghost m0 = table.as_map();
    match table.remove(run_id) {
        None => None,
        Some(mut rec) => {
            let terminal = match rec.status {
                RunStatus::Succeeded | RunStatus::Failed | RunStatus::Canceled => true,
                _ => false,
            };
            if terminal {
                table.insert(run_id.to_owned(), rec);
                proof {
                    assert(table.as_map() =~= m0);
                }
                None
            } else {
                let installation_id = rec.installation_id.clone();
                let policy = rec.policy;
                let dry_run = rec.dry_run;
                let actions = clone_string_vec(&rec.actions);
                let cancel_requested = rec.cancel_requested;
                match rec.status {
                    RunStatus::Starting => {
                        rec.status = RunStatus::Running;
                        rec.updated_at_ms = now_ms;
                    },
                    _ => {},
                }
                table.insert(run_id.to_owned(), rec);
                proof {
                    let rec0 = m0[run_id@];
                    if rec0.status == RunStatus::Starting {
                        assert(table.as_map() =~= m0.insert(
                            run_id@,
                            with_status(rec0, RunStatus::Running, now_ms),
                        ));
                    } else {
                        assert(table.as_map() =~= m0.insert(run_id@, rec0));
                    }
                }
                Some((installation_id, policy, dry_run, actions, cancel_requested))
            }
        },
    }
}

/// What a step-boundary check found.
#[derive(Debug, Clone, Copy, PartialEq, Eq, Structural)]
pub enum Boundary {
    /// Cancellation was requested: the run is now `Canceled`; stop.
    CancelObserved,
    /// Go on with the next step.
    Proceed,
    /// The run vanished; stop.
    Missing,
}

/// The cooperative cancellation check between steps: when the flag is
/// set, the run moves to `Canceled` and execution must stop.
pub fn observe_boundary(table: &mut RunTable, run_id: &str, now_ms: u128) -> (r: Boundary)
    requires
        old(table).wf(),
    ensures
        final (table).wf(),
        !old(table).as_map().contains_key(run_id@) ==> r == Boundary::Missing && *final (table)
            == *old(table),
        old(table).as_map().contains_key(run_id@)
            && old(table).as_map()[run_id@].cancel_requested ==> r == Boundary::CancelObserved
            && final (table).as_map() == old(table).as_map().insert(
            run_id@,
            with_status(old(table).as_map()[run_id@], RunStatus::Canceled, now_ms),
        ),
        old(table).as_map().contains_key(run_id@)
            && !old(table).as_map()[run_id@].cancel_requested ==> r == Boundary::Proceed
            && final (table).as_map() == old(table).as_map(),
{
    let ghost m0 = table.as_map();
    match table.remove(run_id) {
        None => Boundary::Missing,
        Some(mut rec) => {
            if rec.cancel_requested {
                rec.status = RunStatus::Canceled;
                rec.updated_at_ms = now_ms;
                table.insert(run_id.to_owned(), rec);
                proof {
                    assert(table.as_map() =~= m0.insert(
                        run_id@,
                        with_status(m0[run_id@], RunStatus::Canceled, now_ms),
                    ));
                }
                Boundary::CancelObserved
            } else {
                table.insert(run_id.to_owned(), rec);
                proof {
                    assert(table.as_map() =~= m0);
                }
                Boundary::Proceed
            }
        },
    }
}

/// Records the final verdict of a run's execution. A run that is already
/// terminal is left untouched: no transition leaves a terminal state.
pub fn finish_run(table: &mut RunTable, run_id: &str, ok: bool, now_ms: u128)
    requires
        old(table).wf(),
    ensures
        final (table).wf(),
        !old(table).as_map().contains_key(run_id@) ==> *final (table) == *old(table),
        old(table).as_map().contains_key(run_id@) && is_terminal(
            old(table).as_map()[run_id@].status,
        ) ==> final (table).as_map() == old(table).as_map(),
        old(table).as_map().contains_key(run_id@) && !is_terminal(
            old(table).as_map()[run_id@].status,
        ) ==> final (table).as_map() == old(table).as_map().insert(
            run_id@,
            with_status(
                old(table).as_map()[run_id@],
                if ok {
                    RunStatus::Succeeded
                } else {
                    RunStatus::Failed
                },
                now_ms,
            ),
        ),
{
    let ghost m0 = table.as_map();
    match table.remove(run_id) {
        None => {},
        Some(mut rec) => {
            let terminal = match rec.status {
                RunStatus::Succeeded | RunStatus::Failed | RunStatus::Canceled => true,
                _ => false,
            };
            if terminal {
                table.insert(run_id.to_owned(), rec);
                proof {
                    assert(table.as_map() =~= m0);
                }
            } else {
                rec.status = if ok {
                    RunStatus::Succeeded
                } else {
                    RunStatus::Failed
                };
                rec.updated_at_ms = now_ms;
                table.insert(run_id.to_owned(), rec);
                proof {
                    assert(table.as_map() =~= m0.insert(
                        run_id@,
                        with_status(
                            m0[run_id@],
                            if ok {
                                RunStatus::Succeeded
                            } else {
                                RunStatus::Failed
                            },
                            now_ms,
                        ),
                    ));
                }
            }
        },
    }
}

/// What the background runner does at one step, once the boundary check
/// said to proceed: a dry run records the step as successful without any
/// outbound device call; a live run applies the action's command.
#[derive(Debug)]
pub enum StepDirective {
    /// Record the step as done; no device call is made.
    RecordDryRun,
    /// Apply this command to the installation's hardware.
    Apply(Command),
}

/// Decides one step of a run: the dry-run bypass is taken here, never by
/// the caller.
pub fn plan_step(dry_run: bool, action: &str) -> (r: StepDirective)
    ensures
        dry_run ==> r is RecordDryRun,
        !dry_run ==> (r matches StepDirective::Apply(c) && c == action_to_command_spec(action@)),
{
    if dry_run {
        StepDirective::RecordDryRun
    } else {
        StepDirective::Apply(action_to_command(action))
    }
}

/// Executes a run's action list against a device driver, checking the
/// cancellation flag before every step: the run ends `Canceled` when the
/// flag was up at a boundary, `Failed` on the first failing step, and
/// `Succeeded` only when every step ran without failure — in particular a
/// run whose cancellation was requested before any step never succeeds
/// unless its action list is empty, an empty action list always
/// succeeds, and the final transition stamps the supplied time.
pub fn drive_run_actions<D: DeviceDriver>(
    table: &mut RunTable,
    run_id: &str,
    driver: &D,
    now_ms: u128,
)
    requires
        old(table).wf(),
    ensures
        final (table).wf(),
        !old(table).as_map().contains_key(run_id@) ==> final (table).as_map() == old(
            table,
        ).as_map(),
        old(table).as_map().contains_key(run_id@) ==> ({
            let rec0 = old(table).as_map()[run_id@];
            &&& final (table).as_map().contains_key(run_id@)
            &&& final (table).as_map() == old(table).as_map().insert(
                run_id@,
                final (table).as_map()[run_id@],
            )
            &&& ({
                let rec1 = final (table).as_map()[run_id@];
                &&& is_terminal(rec0.status) ==> rec1 == rec0
                &&& !is_terminal(rec0.status) ==> {
                    &&& is_terminal(rec1.status)
                    &&& rec1.installation_id == rec0.installation_id
                    &&& rec1.policy == rec0.policy
                    &&& rec1.dry_run == rec0.dry_run
                    &&& rec1.actions == rec0.actions
                    &&& rec1.cancel_requested == rec0.cancel_requested
                    &&& rec1.updated_at_ms == now_ms
                    &&& (rec0.cancel_requested && rec0.actions@.len() > 0 ==> rec1.status
                        == RunStatus::Canceled)
                    &&& (rec0.actions@.len() == 0 ==> rec1.status == RunStatus::Succeeded)
                    &&& (rec0.dry_run && !(rec0.cancel_requested && rec0.actions@.len() > 0)
                        ==> rec1.status == RunStatus::Succeeded)
                    &&& (rec1.status == RunStatus::Succeeded ==> !rec0.cancel_requested
                        || rec0.actions@.len() == 0)
                }
            })
        }),
{
    let ghost m0 = table.as_map();
    let begun = begin_run(table, run_id, now_ms);
    match begun {
        None => {
            proof {
                if m0.contains_key(run_id@) {
                    assert(m0.insert(run_id@, m0[run_id@]) =~= m0);
                }
            }
        },
        Some((installation_id, _policy, dry_run, actions, cancel0)) => {
            let ghost rec0 = m0[run_id@];
            let n = actions.len();
            let mut i: usize = 0;
            let mut failed: bool = false;
            let mut canceled: bool = false;
            while i < n && !failed && !canceled
                invariant
                    0 <= i <= n,
                    n == actions@.len(),
                    table.wf(),
                    m0.contains_key(run_id@),
                    rec0 == m0[run_id@],
                    !is_terminal(rec0.status),
                    cancel0 == rec0.cancel_requested,
                    dry_run == rec0.dry_run,
                    actions@ == rec0.actions@,
                    failed ==> !rec0.dry_run,
                    failed ==> 0 < n,
                    canceled ==> 0 < n,
                    !canceled && !failed ==> table.as_map() == m0.insert(
                        run_id@,
                        if rec0.status == RunStatus::Starting {
                            with_status(rec0, RunStatus::Running, now_ms)
                        } else {
                            rec0
                        },
                    ),
                    !canceled && !failed && i > 0 ==> !rec0.cancel_requested,
                    failed ==> !rec0.cancel_requested,
                    canceled ==> rec0.cancel_requested && table.as_map() == m0.insert(
                        run_id@,
                        with_status(
                            if rec0.status == RunStatus::Starting {
                                with_status(rec0, RunStatus::Running, now_ms)
                            } else {
                                rec0
                            },
                            RunStatus::Canceled,
                            now_ms,
                        ),
                    ),
                    failed ==> table.as_map() == m0.insert(
                        run_id@,
                        with_status(
                            if rec0.status == RunStatus::Starting {
                                with_status(rec0, RunStatus::Running, now_ms)
                            } else {
                                rec0
                            },
                            RunStatus::Failed,
                            now_ms,
                        ),
                    ),
                decreases n - i, (if !canceled && !failed { 1int } else { 0int }),
            {
                match observe_boundary(table, run_id, now_ms) {
                    Boundary::CancelObserved => {
                        canceled = true;
                        proof {
                            let run_expr = if rec0.status == RunStatus::Starting {
                                with_status(rec0, RunStatus::Running, now_ms)
                            } else {
                                rec0
                            };
                            assert(table.as_map() =~= m0.insert(
                                run_id@,
                                with_status(run_expr, RunStatus::Canceled, now_ms),
                            ));
                        }
                    },
                    Boundary::Missing => {
                        proof {
                            assert(false);
                        }
                    },
                    Boundary::Proceed => {
                        match plan_step(dry_run, actions[i].as_str()) {
                            StepDirective::RecordDryRun => {},
                            StepDirective::Apply(cmd) => {
                                let step_ok = match driver.apply(installation_id.as_str(), cmd) {
                                    Ok(res) => res.ok,
                                    Err(_) => false,
                                };
                                if !step_ok {
                                    finish_run(table, run_id, false, now_ms);
                                    failed = true;
                                    proof {
                                        let run_expr = if rec0.status == RunStatus::Starting {
                                            with_status(rec0, RunStatus::Running, now_ms)
                                        } else {
                                            rec0
                                        };
                                        assert(table.as_map() =~= m0.insert(
                                            run_id@,
                                            with_status(run_expr, RunStatus::Failed, now_ms),
                                        ));
                                    }
                                }
                            },
                        }
                        i += 1;
                    },
                }
            }
            if !failed && !canceled {
                finish_run(table, run_id, true, now_ms);
                proof {
                    let run_expr = if rec0.status == RunStatus::Starting {
                        with_status(rec0, RunStatus::Running, now_ms)
                    } else {
                        rec0
                    };
                    assert(table.as_map() =~= m0.insert(
                        run_id@,
                        with_status(run_expr, RunStatus::Succeeded, now_ms),
                    ));
                }
            }
        },
    }
}

/// Runs a policy through an enactor as one unit of background work: the
/// cancellation flag is honored at the single boundary before enactment;
/// afterwards the run succeeds exactly when the report is `ok` — so a
/// dry run that was not canceled always succeeds.
pub fn drive_run_policy<E: InstallationEnactor>(
    table: &mut RunTable,
    run_id: &str,
    enactor: &E,
    now_ms: u128,
) -> (report: Option<crate::enactor::EnactReport>)
    requires
        old(table).wf(),
    ensures
        final (table).wf(),
        !old(table).as_map().contains_key(run_id@) ==> final (table).as_map() == old(
            table,
        ).as_map() && report is None,
        old(table).as_map().contains_key(run_id@) ==> ({
            let rec0 = old(table).as_map()[run_id@];
            &&& final (table).as_map().contains_key(run_id@)
            &&& final (table).as_map() == old(table).as_map().insert(
                run_id@,
                final (table).as_map()[run_id@],
            )
            &&& ({
                let rec1 = final (table).as_map()[run_id@];
                &&& is_terminal(rec0.status) ==> rec1 == rec0 && report is None
                &&& !is_terminal(rec0.status) ==> {
                    &&& is_terminal(rec1.status)
                    &&& rec1.updated_at_ms == now_ms
                    &&& (rec0.cancel_requested ==> rec1.status == RunStatus::Canceled)
                    &&& (!rec0.cancel_requested ==> {
                        &&& report matches Some(rep)
                        &&& crate::enactor::report_wf(rep, rec0.policy, rec0.dry_run)
                        &&& rec1.status == if rep.ok {
                            RunStatus::Succeeded
                        } else {
                            RunStatus::Failed
                        }
                        &&& (rec0.dry_run ==> rec1.status == RunStatus::Succeeded)
                    })
                }
            })
        }),
{
    let ghost m0 = table.as_map();
    let begun = begin_run(table, run_id, now_ms);
    match begun {
        None => {
            proof {
                if m0.contains_key(run_id@) {
                    assert(m0.insert(run_id@, m0[run_id@]) =~= m0);
                }
            }
            None
        },
        Some((installation_id, policy, dry_run, _actions, _cancel)) => {
            match observe_boundary(table, run_id, now_ms) {
                Boundary::CancelObserved => None,
                Boundary::Missing => {
                    proof {
                        assert(false);
                    }
                    None
                },
                Boundary::Proceed => {
                    let report = enactor.enact(installation_id.as_str(), policy, dry_run);
                    finish_run(table, run_id, report.ok, now_ms);
                    Some(report)
                },
            }
        },
    }
}

/// No transition leaves a terminal state.
pub proof fn lemma_terminal_is_final(a: RunStatus, b: RunStatus)
    requires
        is_terminal(a),
    ensures
        !status_step_allowed(a, b),
{
}

/// Along any path of allowed transitions that starts at `Canceling`, the
/// run never reaches `Succeeded`: once cancellation was observed, the run
/// can only become `Canceled`.
pub proof fn lemma_canceling_never_succeeds(path: Seq<RunStatus>)
    requires
        path.len() > 0,
        path[0] == RunStatus::Canceling,
        forall|i: int| 0 <= i < path.len() - 1 ==> status_step_allowed(#[trigger] path[i], path[i + 1]),
    ensures
        forall|i: int|
            0 <= i < path.len() ==> (#[trigger] path[i]) == RunStatus::Canceling || path[i]
                == RunStatus::Canceled,
        forall|i: int| 0 <= i < path.len() ==> (#[trigger] path[i]) != RunStatus::Succeeded,
    decreases path.len(),
{
    if path.len() > 1 {
        assert(status_step_allowed(path[0], path[1]));
        assert(path[1] == RunStatus::Canceled);
        lemma_canceled_stays(path.drop_first(), RunStatus::Canceled);
        assert forall|i: int|
            0 <= i < path.len() implies (#[trigger] path[i]) == RunStatus::Canceling || path[i]
            == RunStatus::Canceled by {
            if i > 0 {
                assert(path.drop_first()[i - 1] == path[i]);
            }
        }
    }
}

proof fn lemma_canceled_stays(path: Seq<RunStatus>, start: RunStatus)
    requires
        path.len() > 0,
        path[0] == start,
        is_terminal(start),
        forall|i: int| 0 <= i < path.len() - 1 ==> status_step_allowed(#[trigger] path[i], path[i + 1]),
    ensures
        forall|i: int| 0 <= i < path.len() ==> (#[trigger] path[i]) == start,
    decreases path.len(),
{
    if path.len() > 1 {
        assert(status_step_allowed(path[0], path[1]));
        assert(false);
    }
}

} // verus!
