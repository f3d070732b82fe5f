//! The time of day, from `chrono`.
use vstd::prelude::*;

verus! {

/// Calls `chrono::Utc::now` and writes the moment out as `chrono` displays
/// it: date, time of day and the letters `UTC`. Nothing is claimed of the
/// text, since it differs from call to call. `chrono` refuses to go on if
/// the system clock stands before the year 1970.
#[verifier::external_body]
pub(crate) fn timestamp_now() -> (text: String) {
    chrono::Utc::now().to_string()
}

} // verus!
