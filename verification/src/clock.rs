//! Wall-clock access for the entry points that stamp their own time.

use vstd::prelude::*;

verus! {

/// Relies on `chrono::Utc::now` and `chrono::DateTime::timestamp_millis`
/// to read the current wall-clock time as milliseconds since the Unix
/// epoch. The result depends on the clock, so nothing is promised of it;
/// every function that consumes a time takes it as a plain argument and
/// is verified for all values.
#[verifier::external_body]
pub(crate) fn now_timestamp_millis() -> i64 {
    chrono::Utc::now().timestamp_millis()
}

} // verus!
