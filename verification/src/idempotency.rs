//! The idempotency layer: a deterministic fingerprint over a canonical
//! encoding of the start-run body, a keyed store of cached responses, and
//! the start-run decision itself — replay on a matching fingerprint,
//! conflict on a differing one, creation otherwise.

use vstd::prelude::*;
use vstd::string::*;
use crate::kvlist::KvList;
use crate::models::{RunRecord, RunStatus, StartRunRequest};
use crate::policy::{actions_spec, level_spec, policy_name_spec, summary_spec, Policy};
use crate::runs::{create_run, RunTable};
use crate::strutil::{hex_rep, u64_to_hex16};

verus! {

/// The response a start-run request yields, cached for replay.
#[derive(Debug)]
pub struct RunResponse {
    pub run_id: String,
    pub installation_id: String,
    pub status: RunStatus,
    pub policy: Policy,
    pub level: u8,
    pub summary: &'static str,
    pub actions: Vec<String>,
}

/// The mathematical content of a response.
pub struct RunResponseView {
    pub run_id: Seq<char>,
    pub installation_id: Seq<char>,
    pub status: RunStatus,
    pub policy: Policy,
    pub level: u8,
    pub summary: Seq<char>,
    pub actions: Seq<Seq<char>>,
}

impl View for RunResponse {
    type V = RunResponseView;

    open spec fn view(&self) -> RunResponseView {
        RunResponseView {
            run_id: self.run_id@,
            installation_id: self.installation_id@,
            status: self.status,
            policy: self.policy,
            level: self.level,
            summary: self.summary@,
            actions: self.actions@.map_values(|s: String| s@),
        }
    }
}

impl Clone for RunResponse {
    fn clone(&self) -> (r: Self)
        ensures
            r@ == self@,
    {
        let r = RunResponse {
            run_id: self.run_id.clone(),
            installation_id: self.installation_id.clone(),
            status: self.status,
            policy: self.policy,
            level: self.level,
            summary: self.summary,
            actions: crate::strutil::clone_string_vec(&self.actions),
        };
        proof {
            assert(r@.actions =~= self@.actions);
        }
        r
    }
}

/// A stored result of an idempotent create call.
#[derive(Debug, Clone)]
pub struct IdemRecord {
    pub run_id: String,
    pub body_fingerprint: u64,
    pub response: RunResponse,
    pub created_at_ms: u128,
}

/// The in-memory idempotency store; an external store is a drop-in
/// replacement behind the same lookup and insert.
#[derive(Debug)]
pub struct IdempotencyStore {
    pub records: KvList<IdemRecord>,
}

impl IdempotencyStore {
    pub open spec fn wf(&self) -> bool {
        self.records.wf()
    }

    pub open spec fn as_map(&self) -> Map<Seq<char>, IdemRecord> {
        self.records.as_map()
    }

    pub fn new() -> (r: Self)
        ensures
            r.wf(),
            r.as_map() == Map::<Seq<char>, IdemRecord>::empty(),
    {
        IdempotencyStore { records: KvList::new() }
    }

    /// Scopes a client-supplied key to one installation.
    pub fn scope_key(&self, installation_id: &str, key: &str) -> (r: String)
        ensures
            r@ == scoped_key_spec(installation_id@, key@),
    {
        let mut s = String::new();
        s.append(installation_id);
        s.append("::");
        s.append(key);
        s
    }

    /// Looks a scoped key up.
    pub fn get(&self, scoped_key: &str) -> (r: Option<&IdemRecord>)
        requires
            self.wf(),
        ensures
            match r {
                Some(rec) => self.as_map().contains_key(scoped_key@) && *rec == self.as_map()[
                    scoped_key@
                ],
                None => !self.as_map().contains_key(scoped_key@),
            },
    {
        self.records.get(scoped_key)
    }

    /// Inserts or overwrites a record.
    pub fn put(&mut self, scoped_key: String, rec: IdemRecord)
        requires
            old(self).wf(),
        ensures
            final (self).wf(),
            final (self).as_map() == old(self).as_map().insert(scoped_key@, rec),
    {
        self.records.insert(scoped_key, rec);
    }
}

/// A scoped key: the installation joined with the client key.
pub open spec fn scoped_key_spec(installation_id: Seq<char>, key: Seq<char>) -> Seq<char> {
    installation_id + "::"@ + key
}

/// The field and record separators of the canonical body encoding: two
/// control characters that cannot collide with readable field content.
pub open spec fn field_sep() -> Seq<char> {
    "\u{1f}"@
}

pub open spec fn record_sep() -> Seq<char> {
    "\u{1e}"@
}

/// The canonical encoding of the metadata map, entry for entry.
pub open spec fn metadata_enc(pairs: Seq<(String, String)>) -> Seq<char>
    decreases pairs.len(),
{
    if pairs.len() == 0 {
        Seq::empty()
    } else {
        metadata_enc(pairs.drop_last()) + pairs.last().0@ + field_sep() + pairs.last().1@
            + record_sep()
    }
}

/// The canonical encoding of an optional string: a marker distinguishes
/// absence from any present value.
pub open spec fn opt_enc(v: Option<Seq<char>>) -> Seq<char> {
    match v {
        None => "-"@,
        Some(s) => "+"@ + s,
    }
}

/// The canonical encoding of a start-run body: the fields that determine
/// the request's identity, separated unambiguously.
pub open spec fn canonical_body_spec(body: StartRunRequest) -> Seq<char> {
    policy_name_spec(body.policy) + field_sep() + (if body.dry_run {
        "true"@
    } else {
        "false"@
    }) + field_sep() + (match body.metadata {
        None => "-"@,
        Some(m) => "+"@ + metadata_enc(m.pairs@),
    }) + field_sep() + opt_enc(
        match body.requested_by {
            None => None,
            Some(s) => Some(s@),
        },
    )
}

/// Builds the canonical encoding of a body.
pub fn canonical_body(body: &StartRunRequest) -> (r: String)
    ensures
        r@ == canonical_body_spec(*body),
{
    let mut s = String::new();
    s.append(body.policy.name());
    s.append("\u{1f}");
    s.append(if body.dry_run { "true" } else { "false" });
    s.append("\u{1f}");
    match &body.metadata {
        None => {
            s.append("-");
        },
        Some(m) => {
            s.append("+");
            let n = m.pairs.len();
            let mut i: usize = 0;
            while i < n
                invariant
                    0 <= i <= n,
                    n == m.pairs@.len(),
                    s@ == policy_name_spec(body.policy) + field_sep() + (if body.dry_run {
                        "true"@
                    } else {
                        "false"@
                    }) + field_sep() + "+"@ + metadata_enc(m.pairs@.take(i as int)),
                decreases n - i,
            {
                let ghost prefix = m.pairs@.take(i as int);
                s.append(m.pairs[i].0.as_str());
                s.append("\u{1f}");
                s.append(m.pairs[i].1.as_str());
                s.append("\u{1e}");
                proof {
                    let next = m.pairs@.take(i + 1);
                    assert(next.drop_last() =~= prefix);
                    assert(next.last() == m.pairs@[i as int]);
                }
                i += 1;
            }
            proof {
                assert(m.pairs@.take(n as int) =~= m.pairs@);
            }
        },
    }
    s.append("\u{1f}");
    match &body.requested_by {
        None => {
            s.append("-");
        },
        Some(who) => {
            s.append("+");
            s.append(who.as_str());
        },
    }
    s
}

/// One step of the 64-bit FNV-1a fold.
pub open spec fn fnv_step(h: u64, c: char) -> u64 {
    (((h ^ ((c as u32) as u64)) * 0x100000001b3) % 0x10000000000000000) as u64
}

/// The 64-bit FNV-1a hash of a character sequence.
pub open spec fn fnv_fold(s: Seq<char>) -> u64
    decreases s.len(),
{
    if s.len() == 0 {
        0xcbf29ce484222325u64
    } else {
        fnv_step(fnv_fold(s.drop_last()), s.last())
    }
}

/// The deterministic fingerprint of a start-run body: FNV-1a over its
/// canonical encoding.
pub open spec fn fingerprint_spec(body: StartRunRequest) -> u64 {
    fnv_fold(canonical_body_spec(body))
}

/// Computes the fingerprint of a body.
pub fn fingerprint_request(body: &StartRunRequest) -> (r: u64)
    ensures
        r == fingerprint_spec(*body),
{
    let enc = canonical_body(body);
    let encs = enc.as_str();
    let n = encs.unicode_len();
    let mut h: u64 = 0xcbf29ce484222325;
    let mut i: usize = 0;
    while i < n
        invariant
            0 <= i <= n,
            n == encs@.len(),
            encs@ == canonical_body_spec(*body),
            h == fnv_fold(encs@.take(i as int)),
        decreases n - i,
    {
        let c = encs.get_char(i);
        let x: u64 = (c as u32) as u64;
        let prod: u128 = ((h ^ x) as u128) * 0x100000001b3u128;
        h = (prod % 0x10000000000000000u128) as u64;
        proof {
            let next = encs@.take(i + 1);
            assert(next.drop_last() =~= encs@.take(i as int));
            assert(next.last() == encs@[i as int]);
        }
        i += 1;
    }
    proof {
        assert(encs@.take(n as int) =~= encs@);
    }
    h
}

/// What the store says about a scoped key and a fingerprint.
pub enum IdemDecision {
    /// A record exists with the same fingerprint: replay it.
    Replay(IdemRecord),
    /// A record exists with a different fingerprint: key reuse.
    Conflict,
    /// No record: create.
    Miss,
}

/// The deduplication decision: replay on a matching fingerprint, conflict
/// on a differing one, miss when the key is unknown.
pub open spec fn idem_decision(
    store: Map<Seq<char>, IdemRecord>,
    scoped: Seq<char>,
    fp: u64,
) -> IdemDecision {
    if store.contains_key(scoped) {
        if store[scoped].body_fingerprint == fp {
            IdemDecision::Replay(store[scoped])
        } else {
            IdemDecision::Conflict
        }
    } else {
        IdemDecision::Miss
    }
}

/// Replaying is stable: after a create call cached its record, the same
/// scoped key with the same body fingerprint always replays exactly that
/// record's response.
pub proof fn lemma_same_body_replays(
    store: Map<Seq<char>, IdemRecord>,
    scoped: Seq<char>,
    rec: IdemRecord,
)
    ensures
        idem_decision(store.insert(scoped, rec), scoped, rec.body_fingerprint)
            == IdemDecision::Replay(rec),
{
}

/// Reusing a key with a body whose fingerprint differs is rejected as a
/// conflict, and the cached record is untouched by the rejection.
pub proof fn lemma_different_body_conflicts(
    store: Map<Seq<char>, IdemRecord>,
    scoped: Seq<char>,
    rec: IdemRecord,
    other_fp: u64,
)
    requires
        other_fp != rec.body_fingerprint,
    ensures
        idem_decision(store.insert(scoped, rec), scoped, other_fp) == IdemDecision::Conflict,
        store.insert(scoped, rec)[scoped] == rec,
{
}

/// The character carries the Unicode White_Space property — the same set
/// that `str::trim` strips.
pub open spec fn is_whitespace_char(c: char) -> bool {
    let u = c as u32;
    ||| (0x09 <= u && u <= 0x0d)
    ||| u == 0x20
    ||| u == 0x85
    ||| u == 0xa0
    ||| u == 0x1680
    ||| (0x2000 <= u && u <= 0x200a)
    ||| u == 0x2028
    ||| u == 0x2029
    ||| u == 0x202f
    ||| u == 0x205f
    ||| u == 0x3000
}

/// All characters are whitespace (or there are none): the key trims to
/// nothing.
pub open spec fn is_blank(s: Seq<char>) -> bool {
    forall|i: int| 0 <= i < s.len() ==> is_whitespace_char(#[trigger] s[i])
}

fn whitespace_char(c: char) -> (r: bool)
    ensures
        r == is_whitespace_char(c),
{
    let u = c as u32;
    (0x09 <= u && u <= 0x0d) || u == 0x20 || u == 0x85 || u == 0xa0 || u == 0x1680 || (0x2000 <= u
        && u <= 0x200a) || u == 0x2028 || u == 0x2029 || u == 0x202f || u == 0x205f || u == 0x3000
}

fn check_blank(s: &str) -> (r: bool)
    ensures
        r == is_blank(s@),
{
    let n = s.unicode_len();
    let mut i: usize = 0;
    while i < n
        invariant
            0 <= i <= n,
            n == s@.len(),
            forall|j: int| 0 <= j < i ==> is_whitespace_char(#[trigger] s@[j]),
        decreases n - i,
    {
        if !whitespace_char(s.get_char(i)) {
            return false;
        }
        i += 1;
    }
    true
}

/// The outcome of a start-run request.
#[derive(Debug)]
pub enum StartRunOutcome {
    /// A new run was created and its response cached under the key.
    Created { response: RunResponse },
    /// The exact same request was seen before: the cached response.
    Replayed { response: RunResponse },
    /// The key was used before with a different body.
    Conflict,
    /// A supplied idempotency key may not be blank.
    EmptyKey,
}

/// The response a fresh creation yields.
pub open spec fn created_response_view(
    installation_id: Seq<char>,
    policy: Policy,
    counter0: u64,
) -> RunResponseView {
    RunResponseView {
        run_id: "r_"@ + hex_rep(counter0 as nat, 16),
        installation_id,
        status: RunStatus::Starting,
        policy,
        level: level_spec(policy),
        summary: summary_spec(policy),
        actions: actions_spec(policy),
    }
}

/// The run identifier assigned from a counter value.
pub open spec fn run_id_view(counter0: u64) -> Seq<char> {
    "r_"@ + hex_rep(counter0 as nat, 16)
}

fn make_run_id(counter0: u64) -> (r: String)
    ensures
        r@ == run_id_view(counter0),
{
    let mut s = String::new();
    s.append("r_");
    let hex = u64_to_hex16(counter0);
    s.append(hex.as_str());
    s
}

/// Handles a start-run request end to end, up to (but not including)
/// launching the background work: deduplicates by scoped idempotency key
/// and fingerprint, rejects blank keys and key reuse with a different
/// body, assigns the next run identifier, records the `Starting` run, and
/// caches the response when a key was supplied. A request without a key
/// is never deduplicated.
pub fn start_run(
    table: &mut RunTable,
    store: &mut IdempotencyStore,
    run_counter: &mut u64,
    installation_id: &str,
    body: &StartRunRequest,
    idempotency_key: Option<&str>,
    now_ms: u128,
) -> (r: StartRunOutcome)
    requires
        old(table).wf(),
        old(store).wf(),
        *old(run_counter) < u64::MAX,
    ensures
        final (table).wf(),
        final (store).wf(),
        ({
            let fp = fingerprint_spec(*body);
            match idempotency_key {
                Some(key) => {
                    if is_blank(key@) {
                        &&& r is EmptyKey
                        &&& final (table).as_map() == old(table).as_map()
                        &&& final (store).as_map() == old(store).as_map()
                        &&& *final (run_counter) == *old(run_counter)
                    } else {
                        let scoped = scoped_key_spec(installation_id@, key@);
                        match idem_decision(old(store).as_map(), scoped, fp) {
                            IdemDecision::Replay(rec) => {
                                &&& r matches StartRunOutcome::Replayed { response } && response@
                                    == rec.response@
                                &&& final (table).as_map() == old(table).as_map()
                                &&& final (store).as_map() == old(store).as_map()
                                &&& *final (run_counter) == *old(run_counter)
                            },
                            IdemDecision::Conflict => {
                                &&& r is Conflict
                                &&& final (table).as_map() == old(table).as_map()
                                &&& final (store).as_map() == old(store).as_map()
                                &&& *final (run_counter) == *old(run_counter)
                            },
                            IdemDecision::Miss => {
                                &&& created_ensures(
                                    r,
                                    *old(table),
                                    *final (table),
                                    *old(run_counter),
                                    installation_id@,
                                    *body,
                                    now_ms,
                                )
                                &&& *final (run_counter) == *old(run_counter) + 1
                                &&& final (store).as_map().contains_key(scoped)
                                &&& final (store).as_map() == old(store).as_map().insert(
                                    scoped,
                                    final (store).as_map()[scoped],
                                )
                                &&& ({
                                    let cached = final (store).as_map()[scoped];
                                    &&& cached.body_fingerprint == fp
                                    &&& cached.run_id@ == run_id_view(*old(run_counter))
                                    &&& cached.created_at_ms == now_ms
                                    &&& cached.response@ == created_response_view(
                                        installation_id@,
                                        body.policy,
                                        *old(run_counter),
                                    )
                                })
                            },
                        }
                    }
                },
                None => {
                    &&& created_ensures(
                        r,
                        *old(table),
                        *final (table),
                        *old(run_counter),
                        installation_id@,
                        *body,
                        now_ms,
                    )
                    &&& *final (run_counter) == *old(run_counter) + 1
                    &&& final (store).as_map() == old(store).as_map()
                },
            }
        }),
{
    let fp = fingerprint_request(body);
    let mut scoped_opt: Option<String> = None;
    match idempotency_key {
        Some(key) => {
            if check_blank(key) {
                return StartRunOutcome::EmptyKey;
            }
            let scoped = store.scope_key(installation_id, key);
            match store.get(scoped.as_str()) {
                Some(rec) => {
                    if rec.body_fingerprint != fp {
                        return StartRunOutcome::Conflict;
                    }
                    let response = rec.response.clone();
                    return StartRunOutcome::Replayed { response };
                },
                None => {
                    scoped_opt = Some(scoped);
                },
            }
        },
        None => {},
    }
    let counter0 = *run_counter;
    *run_counter = counter0 + 1;
    let run_id = make_run_id(counter0);
    let level = body.policy.level();
    let actions = crate::policy::action_strings(body.policy);
    let response = RunResponse {
        run_id: run_id.clone(),
        installation_id: installation_id.to_owned(),
        status: RunStatus::Starting,
        policy: body.policy,
        level,
        summary: body.policy.summary(),
        actions: crate::strutil::clone_string_vec(&actions),
    };
    proof {
        assert(response@.actions =~= actions_spec(body.policy));
    }
    create_run(
        table,
        run_id.clone(),
        installation_id.to_owned(),
        body.policy,
        level,
        actions,
        body.dry_run,
        now_ms,
    );
    match scoped_opt {
        Some(scoped) => {
            let cached = IdemRecord {
                run_id,
                body_fingerprint: fp,
                response: response.clone(),
                created_at_ms: now_ms,
            };
            store.put(scoped, cached);
        },
        None => {},
    }
    StartRunOutcome::Created { response }
}

/// What a fresh creation guarantees: the outcome carries the new run's
/// response, and the run table gained exactly the `Starting` record of
/// the new run.
pub open spec fn created_ensures(
    r: StartRunOutcome,
    table0: RunTable,
    table1: RunTable,
    counter0: u64,
    installation_id: Seq<char>,
    body: StartRunRequest,
    now_ms: u128,
) -> bool {
    let rid = run_id_view(counter0);
    &&& r matches StartRunOutcome::Created { response } && response@ == created_response_view(
        installation_id,
        body.policy,
        counter0,
    )
    &&& table1.as_map().contains_key(rid)
    &&& table1.as_map() == table0.as_map().insert(rid, table1.as_map()[rid])
    &&& ({
        let rec = table1.as_map()[rid];
        &&& rec.run_id@ == rid
        &&& rec.installation_id@ == installation_id
        &&& rec.policy == body.policy
        &&& rec.level == level_spec(body.policy)
        &&& rec.actions@.map_values(|s: String| s@) == actions_spec(body.policy)
        &&& rec.dry_run == body.dry_run
        &&& rec.status == RunStatus::Starting
        &&& rec.started_at_ms == now_ms
        &&& rec.updated_at_ms == now_ms
        &&& !rec.cancel_requested
    })
}

} // verus!
