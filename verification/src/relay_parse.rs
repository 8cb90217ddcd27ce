//! Parsing a device's batch custom-state body into a relay-state map.
//!
//! The JSON decoding itself is delegated to `serde_json` behind one trusted
//! wrapper that hands the flat object out as plain scalars; everything the
//! body's entries mean — which keys are relays, which scalar shapes count
//! as ON — is decided here, verified.

use vstd::prelude::*;
use vstd::string::*;
use crate::kvlist::KvList;
use crate::strutil::{has_prefix, is_prefix_of, str_eq};

verus! {

/// The shape of one flat JSON value, as the relay logic reads it.
/// Anything that is not a string, an unsigned integer or a boolean is
/// `Other` and is skipped by the state parser.
#[derive(Debug, Clone)]
pub enum JsonScalar {
    Text(String),
    UInt(u64),
    Flag(bool),
    Other,
}

/// The mathematical shape of a `JsonScalar`.
pub enum ScalarShape {
    Text(Seq<char>),
    UInt(u64),
    Flag(bool),
    Other,
}

impl View for JsonScalar {
    type V = ScalarShape;

    open spec fn view(&self) -> ScalarShape {
        match self {
            JsonScalar::Text(t) => ScalarShape::Text(t@),
            JsonScalar::UInt(u) => ScalarShape::UInt(*u),
            JsonScalar::Flag(b) => ScalarShape::Flag(*b),
            JsonScalar::Other => ScalarShape::Other,
        }
    }
}

/// The view of an entry list.
pub open spec fn entries_view(v: Seq<(String, JsonScalar)>) -> Seq<(Seq<char>, ScalarShape)> {
    v.map_values(|p: (String, JsonScalar)| (p.0@, p.1@))
}

/// What `serde_json` yields for a body: the entries of the flat JSON
/// object, in its deterministic (key-ordered) iteration order, or nothing
/// when the body is not a JSON object.
pub uninterp spec fn flat_object_of(body: Seq<char>) -> Option<Seq<(Seq<char>, ScalarShape)>>;

/// Relies on `serde_json::from_str` and `serde_json::Value`: parses `body`
/// and, when it is a JSON object, hands its entries out as plain scalars;
/// the result is a function of `body` alone.
#[verifier::external_body]
fn parse_flat_object(body: &str) -> (r: Option<Vec<(String, JsonScalar)>>)
    ensures
        match r {
            Some(v) => flat_object_of(body@) == Some(entries_view(v@)),
            None => flat_object_of(body@) is None,
        },
{
    let v: serde_json::Value = serde_json::from_str(body).ok()?;
    Some(v.as_object()?.iter().map(|(k, val)| (k.clone(), match val {
        serde_json::Value::Bool(b) => JsonScalar::Flag(*b),
        serde_json::Value::String(t) => JsonScalar::Text(t.clone()),
        serde_json::Value::Number(n) => n.as_u64().map_or(JsonScalar::Other, JsonScalar::UInt),
        _ => JsonScalar::Other,
    })).collect())
}

/// A separator ends the leading token of a textual relay state.
pub open spec fn is_sep(c: char) -> bool {
    c == ' ' || c == '@'
}

/// The index of the first separator, or the length when there is none.
pub open spec fn first_sep(s: Seq<char>) -> int
    decreases s.len(),
{
    if s.len() == 0 {
        0
    } else if is_sep(s[0]) {
        0
    } else {
        1 + first_sep(s.drop_first())
    }
}

/// The token before the first separator.
pub open spec fn first_token(s: Seq<char>) -> Seq<char> {
    s.take(first_sep(s))
}

proof fn lemma_first_sep_at(s: Seq<char>, i: int)
    requires
        0 <= i <= s.len(),
        forall|j: int| 0 <= j < i ==> !is_sep(s[j]),
        i < s.len() ==> is_sep(s[i]),
    ensures
        first_sep(s) == i,
    decreases i,
{
    if i == 0 {
    } else {
        lemma_first_sep_at(s.drop_first(), i - 1);
    }
}

/// Extracts the token before the first space or `@`.
pub fn token_before_sep(s: &str) -> (r: String)
    ensures
        r@ == first_token(s@),
{
    let n = s.unicode_len();
    let mut i: usize = 0;
    while i < n
        invariant
            0 <= i <= n,
            n == s@.len(),
            forall|j: int| 0 <= j < i ==> !is_sep(s@[j]),
        decreases n - i,
    {
        let c = s.get_char(i);
        if c == ' ' || c == '@' {
            proof {
                lemma_first_sep_at(s@, i as int);
            }
            return s.substring_char(0, i).to_owned();
        }
        i += 1;
    }
    proof {
        lemma_first_sep_at(s@, n as int);
        assert(s@.take(n as int) =~= s@);
    }
    s.to_owned()
}

/// Whether a scalar counts as ON, OFF, or is skipped: boolean values count
/// as themselves, an unsigned integer counts as ON exactly for 1, and a
/// string counts as ON when its token before the first space or `@` is
/// `1` or `true`; any other shape is skipped.
pub open spec fn scalar_on_spec(s: ScalarShape) -> Option<bool> {
    match s {
        ScalarShape::Text(t) => Some(first_token(t) == "1"@ || first_token(t) == "true"@),
        ScalarShape::UInt(u) => Some(u == 1),
        ScalarShape::Flag(b) => Some(b),
        ScalarShape::Other => None,
    }
}

fn scalar_on(s: &JsonScalar) -> (r: Option<bool>)
    ensures
        r == scalar_on_spec(s@),
{
    match s {
        JsonScalar::Text(t) => {
            let token = token_before_sep(t.as_str());
            Some(str_eq(token.as_str(), "1") || str_eq(token.as_str(), "true"))
        },
        JsonScalar::UInt(u) => Some(*u == 1),
        JsonScalar::Flag(b) => Some(*b),
        JsonScalar::Other => None,
    }
}

/// A key denotes a relay when it carries one of the known relay-name
/// prefixes.
pub open spec fn is_relay_key(k: Seq<char>) -> bool {
    is_prefix_of("x21Relay"@, k) || is_prefix_of("x19Relay"@, k)
}

/// The relay states named by an entry list: relay-prefixed keys with a
/// recognized scalar shape, later entries winning.
pub open spec fn relay_states_spec(entries: Seq<(Seq<char>, ScalarShape)>) -> Map<Seq<char>, bool>
    decreases entries.len(),
{
    if entries.len() == 0 {
        Map::empty()
    } else {
        let m = relay_states_spec(entries.drop_last());
        let k = entries.last().0;
        let on = scalar_on_spec(entries.last().1);
        if is_relay_key(k) && on is Some {
            m.insert(k, on.unwrap())
        } else {
            m
        }
    }
}

/// Builds the relay-state map of a flat object's entries. Keys without a
/// relay prefix and values of unknown shape are silently skipped.
pub fn relay_states_of_entries(entries: &Vec<(String, JsonScalar)>) -> (r: KvList<bool>)
    ensures
        r.wf(),
        r.as_map() == relay_states_spec(entries_view(entries@)),
{
    let mut m: KvList<bool> = KvList::new();
    let n = entries.len();
    let mut i: usize = 0;
    while i < n
        invariant
            0 <= i <= n,
            n == entries@.len(),
            m.wf(),
            m.as_map() == relay_states_spec(entries_view(entries@.take(i as int))),
        decreases n - i,
    {
        let ghost prefix = entries_view(entries@.take(i as int));
        let key = &entries[i].0;
        let is_relay = has_prefix(key.as_str(), "x21Relay") || has_prefix(key.as_str(), "x19Relay");
        if is_relay {
            match scalar_on(&entries[i].1) {
                Some(on) => {
                    m.insert(key.clone(), on);
                },
                None => {},
            }
        }
        proof {
            let next = entries_view(entries@.take(i + 1));
            assert(next.drop_last() =~= prefix);
            assert(next.last() == (entries@[i as int].0@, entries@[i as int].1@));
        }
        i += 1;
    }
    proof {
        assert(entries_view(entries@.take(n as int)) =~= entries_view(entries@));
    }
    m
}

/// The body could not be read as a flat JSON object.
#[derive(Debug, Clone, PartialEq, Eq, Structural)]
pub struct RelayParseError;

/// Parses a batch custom-state body into a relay-state map: the body must
/// be a JSON object; among its entries, exactly the relay-prefixed keys
/// with a recognized scalar shape are kept.
pub fn parse_relay_state_map(body: &str) -> (r: Result<KvList<bool>, RelayParseError>)
    ensures
        match r {
            Ok(m) => flat_object_of(body@) is Some && m.wf() && m.as_map() == relay_states_spec(
                flat_object_of(body@).unwrap(),
            ),
            Err(_) => flat_object_of(body@) is None,
        },
{
    match parse_flat_object(body) {
        Some(entries) => Ok(relay_states_of_entries(&entries)),
        None => Err(RelayParseError),
    }
}

} // verus!
