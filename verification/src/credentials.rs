//! The credential manager's decision logic: when a cached management
//! bearer token may be reused, when a refresh grant is attempted, and how
//! a successful grant updates the cached state.
//!
//! The network calls themselves are suspension points and live with the
//! caller; this module fixes, with contracts, every decision between them:
//! a fresh cached token is returned as is, an expiring one is refreshed
//! when a refresh token exists, and a failed refresh falls through to a
//! full password login instead of failing the caller.

use vstd::prelude::*;
use vstd::string::*;

verus! {

/// A successful token grant, as the auth endpoint reports it.
#[derive(Debug, Clone)]
pub struct TokenResp {
    pub expires_in: u64,
    pub access_token: String,
    pub refresh_token: Option<String>,
}

/// The cached credential state: the bearer token, an optional refresh
/// token, and the absolute expiry instant in milliseconds since epoch.
#[derive(Debug, Clone)]
pub struct CredentialState {
    pub access_token: Option<String>,
    pub refresh_token: Option<String>,
    pub expires_at_ms: Option<u128>,
}

/// The safety margin before expiry within which a cached token is no
/// longer considered fresh.
pub open spec fn freshness_margin_ms() -> int {
    60000
}

/// A cached token exists and has more than the safety margin remaining.
pub open spec fn token_fresh(st: CredentialState, now_ms: u128) -> bool {
    st.access_token is Some && st.expires_at_ms is Some && now_ms + freshness_margin_ms()
        < st.expires_at_ms.unwrap()
}

/// What to do first when a token is needed.
#[derive(Debug)]
pub enum CredStep {
    /// The cached token is fresh: use it, no call is made.
    UseCached { token: String },
    /// Attempt a refresh grant with this refresh token.
    Refresh { refresh_token: String },
    /// No usable cache: perform a password-grant login.
    Login,
}

/// A login must be performed and it failed; fatal to the caller.
#[derive(Debug, Clone, PartialEq, Eq, Structural)]
pub struct CredentialError;

impl CredentialState {
    pub fn new() -> (r: Self)
        ensures
            r.access_token is None,
            r.refresh_token is None,
            r.expires_at_ms is None,
    {
        CredentialState { access_token: None, refresh_token: None, expires_at_ms: None }
    }
}

/// The expiry instant cached after a grant: now plus the grant's lifetime
/// shortened by the safety margin, saturating on overflow.
pub open spec fn expiry_after(now_ms: u128, expires_in: u64) -> u128 {
    let gain = (if expires_in >= 60 { expires_in - 60 } else { 0 }) * 1000;
    if now_ms + gain <= u128::MAX {
        (now_ms + gain) as u128
    } else {
        u128::MAX
    }
}

/// Decides the first step of obtaining a token: reuse the fresh cached
/// one, try a refresh grant, or log in from scratch.
pub fn ensure_token_step(st: &CredentialState, now_ms: u128) -> (r: CredStep)
    ensures
        token_fresh(*st, now_ms) ==> (r matches CredStep::UseCached { token } && token@
            == st.access_token.unwrap()@),
        !token_fresh(*st, now_ms) && st.refresh_token is Some ==> (r matches CredStep::Refresh {
            refresh_token,
        } && refresh_token@ == st.refresh_token.unwrap()@),
        !token_fresh(*st, now_ms) && st.refresh_token is None ==> r is Login,
{
    let fresh = match (&st.access_token, &st.expires_at_ms) {
        (Some(_), Some(exp)) => now_ms < u128::MAX - 60000 && now_ms + 60000 < *exp,
        _ => false,
    };
    proof {
        if st.access_token is Some && st.expires_at_ms is Some {
            assert(fresh == token_fresh(*st, now_ms));
        }
    }
    if fresh {
        match &st.access_token {
            Some(tok) => CredStep::UseCached { token: tok.clone() },
            None => CredStep::Login,
        }
    } else {
        match &st.refresh_token {
            Some(rt) => CredStep::Refresh { refresh_token: rt.clone() },
            None => CredStep::Login,
        }
    }
}

/// Overwrites the cached state with a successful grant.
pub fn apply_grant(st: &mut CredentialState, grant: &TokenResp, now_ms: u128)
    ensures
        final (st).access_token == Some(grant.access_token),
        final (st).refresh_token == grant.refresh_token,
        final (st).expires_at_ms == Some(expiry_after(now_ms, grant.expires_in)),
{
    let shortened: u64 = if grant.expires_in >= 60 {
        grant.expires_in - 60
    } else {
        0
    };
    let gain: u128 = (shortened as u128) * 1000;
    let expires_at: u128 = if now_ms <= u128::MAX - gain {
        now_ms + gain
    } else {
        u128::MAX
    };
    st.access_token = Some(grant.access_token.clone());
    st.refresh_token = match &grant.refresh_token {
        Some(rt) => Some(rt.clone()),
        None => None,
    };
    st.expires_at_ms = Some(expires_at);
}

/// Folds the outcome of a refresh grant into the cached state: a grant
/// overwrites the cache and yields its token; a failure leaves the cache
/// unchanged and falls through to a password login.
pub fn refresh_outcome(st: &mut CredentialState, outcome: Option<&TokenResp>, now_ms: u128) -> (r:
    Option<String>)
    ensures
        match outcome {
            Some(grant) => {
                &&& r matches Some(token) && token@ == grant.access_token@
                &&& final (st).access_token == Some(grant.access_token)
                &&& final (st).refresh_token == grant.refresh_token
                &&& final (st).expires_at_ms == Some(expiry_after(now_ms, grant.expires_in))
            },
            None => r is None && *final (st) == *old(st),
        },
{
    match outcome {
        Some(grant) => {
            apply_grant(st, grant, now_ms);
            Some(grant.access_token.clone())
        },
        None => None,
    }
}

/// Folds the outcome of a password-grant login into the cached state: a
/// grant overwrites the cache and yields its token; a failure is fatal.
pub fn login_outcome(st: &mut CredentialState, outcome: Option<&TokenResp>, now_ms: u128) -> (r:
    Result<String, CredentialError>)
    ensures
        match outcome {
            Some(grant) => {
                &&& r matches Ok(token) && token@ == grant.access_token@
                &&& final (st).access_token == Some(grant.access_token)
                &&& final (st).refresh_token == grant.refresh_token
                &&& final (st).expires_at_ms == Some(expiry_after(now_ms, grant.expires_in))
            },
            None => r is Err && *final (st) == *old(st),
        },
{
    match outcome {
        Some(grant) => {
            apply_grant(st, grant, now_ms);
            Ok(grant.access_token.clone())
        },
        None => Err(CredentialError),
    }
}

} // verus!
