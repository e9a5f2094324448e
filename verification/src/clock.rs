//! The time of day.

use vstd::prelude::*;

verus! {

/// `chrono::Utc::now`, read through `DateTime::timestamp_millis`: the
/// milliseconds that the system clock counts since the Unix epoch. The reading
/// depends on the machine, so nothing is promised of it.
#[verifier::external_body]
pub(crate) fn now_millis() -> i64 {
    chrono::Utc::now().timestamp_millis()
}

} // verus!
