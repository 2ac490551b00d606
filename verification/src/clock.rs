//! The wall clock.
//!
//! Every lifecycle operation takes the current time as a plain argument; this
//! is the one place that reads it.
use vstd::prelude::*;

verus! {

/// Relies on chrono::Utc::now and DateTime::timestamp: signed seconds since
/// the Unix epoch. The result depends on the system clock, so nothing is
/// promised of it.
#[verifier::external_body]
fn chrono_now_seconds() -> i64 {
    chrono::Utc::now().timestamp()
}

/// Reads the wall clock as unsigned seconds since the Unix epoch; a clock
/// before the epoch reads as zero. Time-dependent, so no more can be said.
pub fn current_time() -> u64 {
    let t = chrono_now_seconds();
    if t < 0 {
        0
    } else {
        t as u64
    }
}

} // verus!
