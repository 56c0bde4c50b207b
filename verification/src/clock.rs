//! The wall clock.

use vstd::prelude::*;

verus! {

/// The milliseconds since the Unix epoch; zero where the clock stands before it.
///
/// Trusted: the body reads `std::time::SystemTime::now`. Nothing is promised
/// of the result: every caller holds for whatever comes back.
#[verifier::external_body]
pub(crate) fn now_millis() -> (now: u64) {
    match std::time::SystemTime::now().duration_since(std::time::UNIX_EPOCH) {
        Ok(d) => d.as_millis() as u64,
        Err(_) => 0,
    }
}

} // verus!
