//! Sources of fresh identifiers and of the current time. Both results
//! depend on the outside world, so nothing is promised of their values;
//! every caller's contract holds whatever comes back.
use vstd::prelude::*;

verus! {

/// Relies on uuid::Uuid::new_v4: a randomly generated identifier,
/// carried as its 128-bit value. Nothing is promised of the result.
#[verifier::external_body]
pub(crate) fn fresh_id() -> u128 {
    uuid::Uuid::new_v4().as_u128()
}

/// Relies on chrono::Utc::now and DateTime::timestamp_millis: the current
/// time as milliseconds since the epoch. Nothing is promised of the result.
#[verifier::external_body]
pub(crate) fn now_millis() -> i64 {
    chrono::Utc::now().timestamp_millis()
}

} // verus!
