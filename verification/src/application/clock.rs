//! The system clock, as the use cases read it.

use vstd::prelude::*;
use chrono::Utc;

verus! {

/// Reads the clock (chrono's `Utc::now`, then `timestamp_micros`) as
/// microseconds since 1970-01-01 UTC. Of the result only this is stated:
/// it is not negative, since `Utc::now` measures the time elapsed since
/// 1970 (and stops the program if the system clock reads an earlier time).
/// Which time it is depends on the system clock.
#[verifier::external_body]
pub(crate) fn utc_now_micros() -> (t: i64)
    ensures
        t >= 0,
{
    Utc::now().timestamp_micros()
}

/// Reads the clock (chrono's `Utc::now`) and writes the time in RFC 3339
/// (chrono's `to_rfc3339`). Nothing is stated of the result: it is the time
/// the system clock gives.
#[verifier::external_body]
pub(crate) fn utc_now_rfc3339() -> (t: String) {
    Utc::now().to_rfc3339()
}

} // verus!
