//! Calls into outside crates for randomness, identifiers and the clock.
//! Everything else in the crate works on the plain values returned here.

use vstd::prelude::*;

verus! {

/// Relies on rand's `Rng::gen_range` over the inclusive range `lo..=hi`:
/// it returns a value within the bounds and panics only on an empty range,
/// which the precondition rules out.
#[verifier::external_body]
pub(crate) fn random_in_range(lo: u64, hi: u64) -> (r: u64)
    requires
        lo <= hi,
    ensures
        lo <= r <= hi,
{
    rand::Rng::gen_range(&mut rand::thread_rng(), lo..=hi)
}

/// Relies on uuid's `Uuid::new_v4`, read back as its 128-bit value.
/// The result is random, so nothing is promised of it.
#[verifier::external_body]
pub(crate) fn fresh_id() -> (r: u128) {
    uuid::Uuid::new_v4().as_u128()
}

/// Relies on chrono's `Utc::now`, reported as milliseconds since the Unix
/// epoch. The result depends on the wall clock, so nothing is promised of it.
#[verifier::external_body]
pub(crate) fn now_millis() -> (r: i64) {
    chrono::Utc::now().timestamp_millis()
}

} // verus!
