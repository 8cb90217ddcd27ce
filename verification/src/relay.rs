//! The relay planner: the fixed relay universe, the on/off partition each
//! command asks for, the expected-state map of a plan, and mismatch
//! detection between an expected and an observed relay-state map.
//!
//! The canonical universe has nineteen relays; `x19Relay9` does not exist
//! on the supported hardware layout, while `x19Relay10` does.

use vstd::prelude::*;
use vstd::string::*;
use crate::command::Command;
use crate::kvlist::KvList;

verus! {

/// The names of all relays, in canonical order.
pub open spec fn relay_universe_spec() -> Seq<Seq<char>> {
    seq![
        "x21Relay1"@,
        "x21Relay2"@,
        "x21Relay3"@,
        "x21Relay4"@,
        "x19Relay1"@,
        "x19Relay2"@,
        "x19Relay3"@,
        "x19Relay4"@,
        "x19Relay5"@,
        "x19Relay6"@,
        "x19Relay7"@,
        "x19Relay8"@,
        "x19Relay10"@,
        "x19Relay11"@,
        "x19Relay12"@,
        "x19Relay13"@,
        "x19Relay14"@,
        "x19Relay15"@,
        "x19Relay16"@,
    ]
}

/// The relay universe as owned strings, in canonical order.
pub fn relay_universe() -> (r: Vec<String>)
    ensures
        r@.map_values(|s: String| s@) == relay_universe_spec(),
{
    let mut v: Vec<String> = Vec::new();
    v.push(String::from_str("x21Relay1"));
    v.push(String::from_str("x21Relay2"));
    v.push(String::from_str("x21Relay3"));
    v.push(String::from_str("x21Relay4"));
    v.push(String::from_str("x19Relay1"));
    v.push(String::from_str("x19Relay2"));
    v.push(String::from_str("x19Relay3"));
    v.push(String::from_str("x19Relay4"));
    v.push(String::from_str("x19Relay5"));
    v.push(String::from_str("x19Relay6"));
    v.push(String::from_str("x19Relay7"));
    v.push(String::from_str("x19Relay8"));
    v.push(String::from_str("x19Relay10"));
    v.push(String::from_str("x19Relay11"));
    v.push(String::from_str("x19Relay12"));
    v.push(String::from_str("x19Relay13"));
    v.push(String::from_str("x19Relay14"));
    v.push(String::from_str("x19Relay15"));
    v.push(String::from_str("x19Relay16"));
    proof {
        assert(v@.map_values(|s: String| s@) =~= relay_universe_spec());
    }
    v
}

/// No two relays share a name.
pub proof fn lemma_universe_distinct()
    ensures
        forall|i: int, j: int|
            0 <= i < j < relay_universe_spec().len() ==> relay_universe_spec()[i]
                != relay_universe_spec()[j],
{
    reveal_strlit("x21Relay1");
    reveal_strlit("x21Relay2");
    reveal_strlit("x21Relay3");
    reveal_strlit("x21Relay4");
    reveal_strlit("x19Relay1");
    reveal_strlit("x19Relay2");
    reveal_strlit("x19Relay3");
    reveal_strlit("x19Relay4");
    reveal_strlit("x19Relay5");
    reveal_strlit("x19Relay6");
    reveal_strlit("x19Relay7");
    reveal_strlit("x19Relay8");
    reveal_strlit("x19Relay10");
    reveal_strlit("x19Relay11");
    reveal_strlit("x19Relay12");
    reveal_strlit("x19Relay13");
    reveal_strlit("x19Relay14");
    reveal_strlit("x19Relay15");
    reveal_strlit("x19Relay16");
    assert forall|i: int, j: int|
        0 <= i < j < relay_universe_spec().len() implies relay_universe_spec()[i]
        != relay_universe_spec()[j] by {
        let a = relay_universe_spec()[i];
        let b = relay_universe_spec()[j];
        if a.len() == b.len() {
            assert(a[1] != b[1] || a[8] != b[8] || a[9] != b[9]);
        }
    }
}

/// Whether the relay at universe index `i` is planned ON for `cmd`.
pub open spec fn relay_on_spec(cmd: Command, i: int) -> bool {
    match cmd {
        Command::Monitor => false,
        Command::ArmSensors => i == 0,
        Command::StagePumps => false,
        Command::EnablePumpsLow => i == 2 || i == 7,
        Command::EnablePumpsHigh => i == 2 || i == 7 || i == 8 || i == 9,
        Command::OpenValvesPriority => i == 13 || i == 14,
        Command::OpenValvesAll => 13 <= i <= 18,
        Command::Lockdown => true,
        Command::Noop => false,
    }
}

fn relay_on(cmd: Command, i: usize) -> (r: bool)
    ensures
        r == relay_on_spec(cmd, i as int),
{
    match cmd {
        Command::Monitor => false,
        Command::ArmSensors => i == 0,
        Command::StagePumps => false,
        Command::EnablePumpsLow => i == 2 || i == 7,
        Command::EnablePumpsHigh => i == 2 || i == 7 || i == 8 || i == 9,
        Command::OpenValvesPriority => i == 13 || i == 14,
        Command::OpenValvesAll => 13 <= i && i <= 18,
        Command::Lockdown => true,
        Command::Noop => false,
    }
}

/// The desired relay partition of a command: relays to switch on and
/// relays to switch off.
#[derive(Debug, Clone)]
pub struct RelayPlan {
    pub on: Vec<String>,
    pub off: Vec<String>,
}

/// The universe names among the first `n` whose planned state equals
/// `want`, in canonical order.
pub open spec fn plan_names(cmd: Command, want: bool, n: int) -> Seq<Seq<char>>
    decreases n,
{
    if n <= 0 {
        Seq::empty()
    } else {
        plan_names(cmd, want, n - 1) + if relay_on_spec(cmd, n - 1) == want {
            seq![relay_universe_spec()[n - 1]]
        } else {
            Seq::empty()
        }
    }
}

/// The names planned ON for `cmd`.
pub open spec fn plan_on_spec(cmd: Command) -> Seq<Seq<char>> {
    plan_names(cmd, true, relay_universe_spec().len() as int)
}

/// The names planned OFF for `cmd`.
pub open spec fn plan_off_spec(cmd: Command) -> Seq<Seq<char>> {
    plan_names(cmd, false, relay_universe_spec().len() as int)
}

impl RelayPlan {
    /// This plan is exactly the partition `cmd` asks for.
    pub open spec fn is_plan_for(&self, cmd: Command) -> bool {
        self.on@.map_values(|s: String| s@) == plan_on_spec(cmd)
            && self.off@.map_values(|s: String| s@) == plan_off_spec(cmd)
    }
}

/// Maps (installation, command) to the relays that must be ON; every other
/// relay of the universe goes to OFF. Pure and installation-independent;
/// the installation is reserved for per-site policy.
pub fn plan_relays(_installation_id: &str, cmd: Command) -> (r: RelayPlan)
    ensures
        r.is_plan_for(cmd),
{
    let universe = relay_universe();
    let mut on: Vec<String> = Vec::new();
    let mut off: Vec<String> = Vec::new();
    let n = universe.len();
    let mut i: usize = 0;
    while i < n
        invariant
            0 <= i <= n,
            n == universe@.len(),
            universe@.map_values(|s: String| s@) == relay_universe_spec(),
            on@.map_values(|s: String| s@) == plan_names(cmd, true, i as int),
            off@.map_values(|s: String| s@) == plan_names(cmd, false, i as int),
        decreases n - i,
    {
        let name = universe[i].clone();
        assert(name@ == relay_universe_spec()[i as int]);
        if relay_on(cmd, i) {
            on.push(name);
            proof {
                assert(on@.map_values(|s: String| s@) =~= plan_names(cmd, true, i + 1));
                assert(off@.map_values(|s: String| s@) =~= plan_names(cmd, false, i + 1));
            }
        } else {
            off.push(name);
            proof {
                assert(on@.map_values(|s: String| s@) =~= plan_names(cmd, true, i + 1));
                assert(off@.map_values(|s: String| s@) =~= plan_names(cmd, false, i + 1));
            }
        }
        i += 1;
    }
    RelayPlan { on, off }
}

/// Membership in a planned name list means: some universe index carries
/// that name and is planned to `want`.
pub proof fn lemma_plan_names_membership(cmd: Command, want: bool, n: int, x: Seq<char>)
    requires
        0 <= n <= relay_universe_spec().len(),
    ensures
        plan_names(cmd, want, n).contains(x) <==> exists|i: int|
            0 <= i < n && relay_universe_spec()[i] == x && relay_on_spec(cmd, i) == want,
    decreases n,
{
    if n > 0 {
        lemma_plan_names_membership(cmd, want, n - 1, x);
        if plan_names(cmd, want, n).contains(x) {
            let k = choose|k: int| 0 <= k < plan_names(cmd, want, n).len() && #[trigger] plan_names(cmd, want, n)[k] == x;
            if k < plan_names(cmd, want, n - 1).len() {
                assert(plan_names(cmd, want, n - 1).contains(x));
            } else {
                assert(relay_universe_spec()[n - 1] == x && relay_on_spec(cmd, n - 1) == want);
            }
        }
        if exists|i: int| 0 <= i < n && relay_universe_spec()[i] == x && relay_on_spec(cmd, i) == want {
            let i = choose|i: int| 0 <= i < n && relay_universe_spec()[i] == x && relay_on_spec(cmd, i) == want;
            if i < n - 1 {
                assert(plan_names(cmd, want, n - 1).contains(x));
                let k = choose|k: int| 0 <= k < plan_names(cmd, want, n - 1).len() && #[trigger] plan_names(cmd, want, n - 1)[k] == x;
                assert(plan_names(cmd, want, n)[k] == x);
            } else {
                assert(plan_names(cmd, want, n).last() == x);
            }
        }
    }
}

/// For every command, the ON and OFF name sets are disjoint and together
/// cover exactly the relay universe.
pub proof fn lemma_plan_partition(cmd: Command)
    ensures
        plan_on_spec(cmd).to_set().intersect(plan_off_spec(cmd).to_set()) =~= Set::empty(),
        plan_on_spec(cmd).to_set().union(plan_off_spec(cmd).to_set())
            =~= relay_universe_spec().to_set(),
{
    let n = relay_universe_spec().len() as int;
    lemma_universe_distinct();
    assert forall|x: Seq<char>|
        !(plan_on_spec(cmd).to_set().intersect(plan_off_spec(cmd).to_set()).contains(x)) by {
        if plan_on_spec(cmd).to_set().contains(x) && plan_off_spec(cmd).to_set().contains(x) {
            lemma_plan_names_membership(cmd, true, n, x);
            lemma_plan_names_membership(cmd, false, n, x);
            let i = choose|i: int| 0 <= i < n && relay_universe_spec()[i] == x && relay_on_spec(cmd, i) == true;
            let j = choose|j: int| 0 <= j < n && relay_universe_spec()[j] == x && relay_on_spec(cmd, j) == false;
            assert(i != j);
            assert(relay_universe_spec()[i] != relay_universe_spec()[j]);
        }
    }
    assert forall|x: Seq<char>|
        plan_on_spec(cmd).to_set().union(plan_off_spec(cmd).to_set()).contains(x)
            <==> relay_universe_spec().to_set().contains(x) by {
        lemma_plan_names_membership(cmd, true, n, x);
        lemma_plan_names_membership(cmd, false, n, x);
        if relay_universe_spec().to_set().contains(x) {
            let i = choose|i: int| 0 <= i < n && relay_universe_spec()[i] == x;
            if relay_on_spec(cmd, i) {
                assert(plan_on_spec(cmd).contains(x));
            } else {
                assert(plan_off_spec(cmd).contains(x));
            }
        }
        if plan_on_spec(cmd).to_set().contains(x) || plan_off_spec(cmd).to_set().contains(x) {
            assert(relay_universe_spec().to_set().contains(x));
        }
    }
}

/// A `Lockdown` plan switches everything on and nothing off; `Monitor`
/// and `Noop` plans switch nothing on.
pub proof fn lemma_plan_extremes()
    ensures
        plan_off_spec(Command::Lockdown) == Seq::<Seq<char>>::empty(),
        plan_on_spec(Command::Monitor) == Seq::<Seq<char>>::empty(),
        plan_on_spec(Command::Noop) == Seq::<Seq<char>>::empty(),
{
    lemma_plan_names_trivial(Command::Lockdown, false, relay_universe_spec().len() as int);
    lemma_plan_names_trivial(Command::Monitor, true, relay_universe_spec().len() as int);
    lemma_plan_names_trivial(Command::Noop, true, relay_universe_spec().len() as int);
}

proof fn lemma_plan_names_trivial(cmd: Command, want: bool, n: int)
    requires
        forall|i: int| 0 <= i < n ==> relay_on_spec(cmd, i) != want,
    ensures
        plan_names(cmd, want, n) == Seq::<Seq<char>>::empty(),
    decreases n,
{
    if n > 0 {
        lemma_plan_names_trivial(cmd, want, n - 1);
        assert(plan_names(cmd, want, n) =~= Seq::<Seq<char>>::empty());
    } else {
        assert(plan_names(cmd, want, n) =~= Seq::<Seq<char>>::empty());
    }
}

/// The map that binds every name in `names` to `val`, over `base`.
pub open spec fn bind_all(base: Map<Seq<char>, bool>, names: Seq<Seq<char>>, val: bool) -> Map<
    Seq<char>,
    bool,
>
    decreases names.len(),
{
    if names.len() == 0 {
        base
    } else {
        bind_all(base, names.drop_last(), val).insert(names.last(), val)
    }
}

/// The relay states a plan expects: ON relays bind to true, OFF relays
/// to false.
pub open spec fn expected_map_spec(plan: &RelayPlan) -> Map<Seq<char>, bool> {
    bind_all(
        bind_all(Map::empty(), plan.on@.map_values(|s: String| s@), true),
        plan.off@.map_values(|s: String| s@),
        false,
    )
}

/// Builds the expected relay-state map of a plan.
pub fn expected_from_plan(plan: &RelayPlan) -> (r: KvList<bool>)
    ensures
        r.wf(),
        r.as_map() == expected_map_spec(plan),
{
    let mut m: KvList<bool> = KvList::new();
    let mut i: usize = 0;
    let n = plan.on.len();
    while i < n
        invariant
            0 <= i <= n,
            n == plan.on@.len(),
            m.wf(),
            m.as_map() == bind_all(
                Map::<Seq<char>, bool>::empty(),
                plan.on@.map_values(|s: String| s@).take(i as int),
                true,
            ),
        decreases n - i,
    {
        let ghost prefix = plan.on@.map_values(|s: String| s@).take(i as int);
        m.insert(plan.on[i].clone(), true);
        proof {
            let next = plan.on@.map_values(|s: String| s@).take(i + 1);
            assert(next.drop_last() =~= prefix);
            assert(next.last() == plan.on@[i as int]@);
        }
        i += 1;
    }
    proof {
        assert(plan.on@.map_values(|s: String| s@).take(n as int) =~= plan.on@.map_values(
            |s: String| s@,
        ));
    }
    let ghost on_map = m.as_map();
    let mut j: usize = 0;
    let k = plan.off.len();
    while j < k
        invariant
            0 <= j <= k,
            k == plan.off@.len(),
            m.wf(),
            m.as_map() == bind_all(on_map, plan.off@.map_values(|s: String| s@).take(j as int), false),
        decreases k - j,
    {
        let ghost prefix = plan.off@.map_values(|s: String| s@).take(j as int);
        m.insert(plan.off[j].clone(), false);
        proof {
            let next = plan.off@.map_values(|s: String| s@).take(j + 1);
            assert(next.drop_last() =~= prefix);
            assert(next.last() == plan.off@[j as int]@);
        }
        j += 1;
    }
    proof {
        assert(plan.off@.map_values(|s: String| s@).take(k as int) =~= plan.off@.map_values(
            |s: String| s@,
        ));
    }
    m
}

/// A lookup as an option.
pub open spec fn lookup(m: Map<Seq<char>, bool>, k: Seq<char>) -> Option<bool> {
    if m.contains_key(k) {
        Some(m[k])
    } else {
        None
    }
}

/// The mismatching entries of `pairs` against observed states `m`, in
/// order: each carries the relay, the wanted state, and what was observed
/// (nothing when the relay is absent).
pub open spec fn mismatch_seq(pairs: Seq<(String, bool)>, m: Map<Seq<char>, bool>) -> Seq<
    (String, bool, Option<bool>),
>
    decreases pairs.len(),
{
    if pairs.len() == 0 {
        Seq::empty()
    } else {
        mismatch_seq(pairs.drop_last(), m) + if lookup(m, pairs.last().0@) != Some(pairs.last().1) {
            seq![(pairs.last().0, pairs.last().1, lookup(m, pairs.last().0@))]
        } else {
            Seq::empty()
        }
    }
}

/// Computes the relays whose observed state differs from the expected
/// one, or which the observation does not mention at all.
pub fn mismatches(expected: &KvList<bool>, actual: &KvList<bool>) -> (r: Vec<
    (String, bool, Option<bool>),
>)
    requires
        actual.wf(),
    ensures
        r@ == mismatch_seq(expected.pairs@, actual.as_map()),
{
    let mut diffs: Vec<(String, bool, Option<bool>)> = Vec::new();
    let n = expected.pairs.len();
    let mut i: usize = 0;
    while i < n
        invariant
            0 <= i <= n,
            n == expected.pairs@.len(),
            actual.wf(),
            diffs@ == mismatch_seq(expected.pairs@.take(i as int), actual.as_map()),
        decreases n - i,
    {
        let ghost prefix = expected.pairs@.take(i as int);
        let relay = &expected.pairs[i].0;
        let want = expected.pairs[i].1;
        let got: Option<bool> = match actual.get(relay.as_str()) {
            Some(b) => Some(*b),
            None => None,
        };
        let differs = match got {
            Some(g) => g != want,
            None => true,
        };
        if differs {
            diffs.push((relay.clone(), want, got));
        }
        proof {
            let next = expected.pairs@.take(i + 1);
            assert(next.drop_last() =~= prefix);
            assert(next.last() == expected.pairs@[i as int]);
            if differs {
                assert(diffs@ =~= mismatch_seq(next, actual.as_map()));
            } else {
                assert(diffs@ =~= mismatch_seq(next, actual.as_map()));
            }
        }
        i += 1;
    }
    proof {
        assert(expected.pairs@.take(n as int) =~= expected.pairs@);
    }
    diffs
}

/// The mismatch list is empty exactly when every expected relay is
/// present in the observation with the expected state.
pub proof fn lemma_mismatches_empty_iff(pairs: Seq<(String, bool)>, m: Map<Seq<char>, bool>)
    ensures
        mismatch_seq(pairs, m).len() == 0 <==> (forall|i: int|
            0 <= i < pairs.len() ==> lookup(m, (#[trigger] pairs[i]).0@) == Some(pairs[i].1)),
    decreases pairs.len(),
{
    if pairs.len() > 0 {
        lemma_mismatches_empty_iff(pairs.drop_last(), m);
        if mismatch_seq(pairs, m).len() == 0 {
            assert forall|i: int| 0 <= i < pairs.len() implies lookup(
                m,
                (#[trigger] pairs[i]).0@,
            ) == Some(pairs[i].1) by {
                if i < pairs.len() - 1 {
                    assert(pairs.drop_last()[i] == pairs[i]);
                }
            }
        }
        if forall|i: int| 0 <= i < pairs.len() ==> lookup(m, (#[trigger] pairs[i]).0@) == Some(
            pairs[i].1,
        ) {
            assert forall|i: int| 0 <= i < pairs.drop_last().len() implies lookup(
                m,
                (#[trigger] pairs.drop_last()[i]).0@,
            ) == Some(pairs.drop_last()[i].1) by {
                assert(pairs.drop_last()[i] == pairs[i]);
            }
            assert(lookup(m, pairs.last().0@) == Some(pairs.last().1));
        }
    }
}

} // verus!
