//! Wall-clock access. The clock is an outside collaborator: nothing can
//! be promised of what it returns, so every function that needs a
//! timestamp takes one as an argument and is verified for all of them.

use vstd::prelude::*;

verus! {

/// Relies on `std::time::SystemTime::now`: the current UTC time in
/// milliseconds since the Unix epoch (0 if the clock reads before it).
/// Time-dependent, so nothing is promised of the result.
#[verifier::external_body]
pub fn now_ms() -> u128 {
    std::time::SystemTime::now()
        .duration_since(std::time::UNIX_EPOCH)
        .map(|d| d.as_millis())
        .unwrap_or(0)
}

} // verus!
