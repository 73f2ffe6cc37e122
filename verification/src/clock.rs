//! The wall clock, reduced to a plain timestamp.

use vstd::prelude::*;
use crate::time_format::MAX_TIMESTAMP_SECS;

verus! {

/// Relies on chrono's `Utc::now`: the current wall-clock time as whole
/// seconds since the Unix epoch. Nothing is assumed of the clock's value.
#[verifier::external_body]
fn now_unix() -> (r: i64) {
    chrono::Utc::now().timestamp()
}

/// The current time as a timestamp the store accepts: a clock reading
/// before the epoch or past the largest renderable second is clamped to
/// the nearest representable timestamp.
pub fn current_timestamp() -> (r: u64)
    ensures
        r <= MAX_TIMESTAMP_SECS,
{
    let t = now_unix();
    if t < 0 {
        0
    } else if t > MAX_TIMESTAMP_SECS as i64 {
        MAX_TIMESTAMP_SECS
    } else {
        t as u64
    }
}

} // verus!
