//! The five-level policy scale, its severity levels, summaries and ordered
//! action lists, and the name registry that resolves textual policy names.

use vstd::prelude::*;
use vstd::string::StringExecFns;
use crate::kvlist::KvList;

verus! {

/// A security/safety posture; `Unknown` absorbs unrecognized names so
/// that reading a policy never fails.
#[derive(Debug, Clone, Copy, PartialEq, Eq, Structural)]
pub enum Policy {
    Observe,
    Prepare,
    Defend,
    Contain,
    Suppress,
    Unknown,
}

/// The fixed severity level of each policy.
pub open spec fn level_spec(p: Policy) -> u8 {
    match p {
        Policy::Observe => 1,
        Policy::Prepare => 2,
        Policy::Defend => 3,
        Policy::Contain => 4,
        Policy::Suppress => 5,
        Policy::Unknown => 0,
    }
}

/// The human summary of each policy.
pub open spec fn summary_spec(p: Policy) -> Seq<char> {
    match p {
        Policy::Observe => "Monitor conditions; no active defenses."@,
        Policy::Prepare => "Arm sensors; stage equipment."@,
        Policy::Defend => "Activate low-intensity defenses."@,
        Policy::Contain => "High-intensity defenses; prioritize containment."@,
        Policy::Suppress => "Maximum response; all systems engaged."@,
        Policy::Unknown => "Unrecognized policy."@,
    }
}

/// The ordered action names of each policy.
pub open spec fn actions_spec(p: Policy) -> Seq<Seq<char>> {
    match p {
        Policy::Observe => seq!["monitor"@],
        Policy::Prepare => seq!["arm_sensors"@, "stage_pumps"@],
        Policy::Defend => seq!["arm_sensors"@, "enable_pumps_low"@],
        Policy::Contain => seq!["arm_sensors"@, "enable_pumps_high"@, "open_valves_priority"@],
        Policy::Suppress => seq!["arm_sensors"@, "enable_pumps_high"@, "open_valves_all"@, "lockdown"@],
        Policy::Unknown => seq!["noop"@],
    }
}

/// The lower-case name of each policy.
pub open spec fn policy_name_spec(p: Policy) -> Seq<char> {
    match p {
        Policy::Observe => "observe"@,
        Policy::Prepare => "prepare"@,
        Policy::Defend => "defend"@,
        Policy::Contain => "contain"@,
        Policy::Suppress => "suppress"@,
        Policy::Unknown => "unknown"@,
    }
}

impl Policy {
    /// The severity level, 0 for `Unknown` up to 5 for `Suppress`.
    pub fn level(self) -> (r: u8)
        ensures
            r == level_spec(self),
    {
        match self {
            Policy::Observe => 1,
            Policy::Prepare => 2,
            Policy::Defend => 3,
            Policy::Contain => 4,
            Policy::Suppress => 5,
            Policy::Unknown => 0,
        }
    }

    /// A human-readable summary of the posture.
    pub fn summary(self) -> (r: &'static str)
        ensures
            r@ == summary_spec(self),
    {
        match self {
            Policy::Observe => "Monitor conditions; no active defenses.",
            Policy::Prepare => "Arm sensors; stage equipment.",
            Policy::Defend => "Activate low-intensity defenses.",
            Policy::Contain => "High-intensity defenses; prioritize containment.",
            Policy::Suppress => "Maximum response; all systems engaged.",
            Policy::Unknown => "Unrecognized policy.",
        }
    }

    /// The ordered list of action names this policy expands to.
    pub fn actions(self) -> (r: Vec<&'static str>)
        ensures
            r@.map_values(|s: &'static str| s@) == actions_spec(self),
    {
        let mut v: Vec<&'static str> = Vec::new();
        match self {
            Policy::Observe => {
                v.push("monitor");
            },
            Policy::Prepare => {
                v.push("arm_sensors");
                v.push("stage_pumps");
            },
            Policy::Defend => {
                v.push("arm_sensors");
                v.push("enable_pumps_low");
            },
            Policy::Contain => {
                v.push("arm_sensors");
                v.push("enable_pumps_high");
                v.push("open_valves_priority");
            },
            Policy::Suppress => {
                v.push("arm_sensors");
                v.push("enable_pumps_high");
                v.push("open_valves_all");
                v.push("lockdown");
            },
            Policy::Unknown => {
                v.push("noop");
            },
        }
        proof {
            assert(v@.map_values(|s: &'static str| s@) =~= actions_spec(self));
        }
        v
    }

    /// The lower-case display name.
    pub fn name(self) -> (r: &'static str)
        ensures
            r@ == policy_name_spec(self),
    {
        match self {
            Policy::Observe => "observe",
            Policy::Prepare => "prepare",
            Policy::Defend => "defend",
            Policy::Contain => "contain",
            Policy::Suppress => "suppress",
            Policy::Unknown => "unknown",
        }
    }

    /// The policy a textual value denotes; anything unrecognized is `Unknown`.
    pub fn from_name(s: &str) -> (r: Policy)
        ensures
            r == policy_from_name_spec(s@),
    {
        if crate::strutil::str_eq(s, "observe") { Policy::Observe }
        else if crate::strutil::str_eq(s, "prepare") { Policy::Prepare }
        else if crate::strutil::str_eq(s, "defend") { Policy::Defend }
        else if crate::strutil::str_eq(s, "contain") { Policy::Contain }
        else if crate::strutil::str_eq(s, "suppress") { Policy::Suppress }
        else { Policy::Unknown }
    }
}

/// The ordered action names of a policy, as owned strings.
pub fn action_strings(policy: Policy) -> (r: Vec<String>)
    ensures
        r@.map_values(|s: String| s@) == actions_spec(policy),
{
    let names = policy.actions();
    let mut out: Vec<String> = Vec::new();
    let n = names.len();
    let mut i: usize = 0;
    while i < n
        invariant
            0 <= i <= n,
            n == names@.len(),
            names@.map_values(|s: &'static str| s@) == actions_spec(policy),
            out@.len() == i,
            forall|k: int| 0 <= k < i ==> (#[trigger] out@[k])@ == names@[k]@,
        decreases n - i,
    {
        out.push(names[i].to_owned());
        i += 1;
    }
    proof {
        assert forall|k: int| 0 <= k < n implies out@.map_values(|s: String| s@)[k]
            == actions_spec(policy)[k] by {
            assert(names@.map_values(|s: &'static str| s@)[k] == names@[k]@);
        }
        assert(out@.map_values(|s: String| s@) =~= actions_spec(policy));
    }
    out
}

/// The policy named by a textual value, `Unknown` when unrecognized.
pub open spec fn policy_from_name_spec(s: Seq<char>) -> Policy {
    if s == "observe"@ { Policy::Observe }
    else if s == "prepare"@ { Policy::Prepare }
    else if s == "defend"@ { Policy::Defend }
    else if s == "contain"@ { Policy::Contain }
    else if s == "suppress"@ { Policy::Suppress }
    else { Policy::Unknown }
}

/// A registry from policy names to policies, covering the five named
/// postures and never `Unknown`.
pub struct PolicyRegistry {
    pub by_name: KvList<Policy>,
}

/// The map a freshly built registry holds.
pub open spec fn registry_map() -> Map<Seq<char>, Policy> {
    Map::empty()
        .insert("observe"@, Policy::Observe)
        .insert("prepare"@, Policy::Prepare)
        .insert("defend"@, Policy::Defend)
        .insert("contain"@, Policy::Contain)
        .insert("suppress"@, Policy::Suppress)
}

impl PolicyRegistry {
    pub fn new() -> (r: Self)
        ensures
            r.by_name.wf(),
            r.by_name.as_map() == registry_map(),
    {
        let mut by_name: KvList<Policy> = KvList::new();
        by_name.insert(String::from_str("observe"), Policy::Observe);
        by_name.insert(String::from_str("prepare"), Policy::Prepare);
        by_name.insert(String::from_str("defend"), Policy::Defend);
        by_name.insert(String::from_str("contain"), Policy::Contain);
        by_name.insert(String::from_str("suppress"), Policy::Suppress);
        PolicyRegistry { by_name }
    }

    /// Resolves a name to its policy, or nothing for an unknown name.
    pub fn resolve(&self, name: &str) -> (r: Option<Policy>)
        requires
            self.by_name.wf(),
        ensures
            r == if self.by_name.as_map().contains_key(name@) {
                Some(self.by_name.as_map()[name@])
            } else {
                None::<Policy>
            },
    {
        match self.by_name.get(name) {
            Some(p) => Some(*p),
            None => None,
        }
    }
}

} // verus!
