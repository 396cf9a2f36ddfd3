//! Day bucketing of timestamps: epoch seconds are divided into calendar days
//! of 86400 seconds, with integer division truncating toward zero, matching
//! the host clock's epoch-seconds representation.

use vstd::prelude::*;

use crate::types::Timestamp;

verus! {

/// The day number of a moment given in epoch seconds: division by 86400,
/// truncating toward zero.
pub open spec fn day_of(secs: int) -> int {
    if secs >= 0 {
        secs / 86400
    } else {
        -((-secs) / 86400)
    }
}

/// The day number of a timestamp, from its whole seconds.
pub fn timestamp_to_days(timestamp: Timestamp) -> (r: i64)
    ensures
        r == day_of(timestamp.secs as int),
{
    let d = timestamp.secs.checked_div(86400);
    d.unwrap()
}

/// Wraps raw whole seconds and nanoseconds into a `Timestamp`; seconds
/// beyond the signed range wrap, as a plain integer cast does.
pub fn to_timestamp(secs: u64, nanos: u32) -> (r: Timestamp)
    ensures
        r.secs == secs as i64,
        r.nanos == nanos,
{
    Timestamp { secs: #[verifier::truncate] (secs as i64), nanos }
}

} // verus!
