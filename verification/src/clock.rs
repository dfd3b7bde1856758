//! The wall clock. Timestamps are Unix seconds; calendar dates elsewhere in
//! the crate are day numbers. All session-expiry logic takes the current
//! time as an argument, so it is verified for every reading of this clock.

use vstd::prelude::*;

verus! {

/// Relies on `chrono::Utc::now` and `chrono::DateTime::timestamp`: the
/// current wall-clock time as Unix seconds. Nothing is promised of the
/// value.
#[verifier::external_body]
pub(crate) fn now_seconds() -> i64 {
    chrono::Utc::now().timestamp()
}

} // verus!
