//! The wall clock.

use vstd::prelude::*;

verus! {

/// The current instant, in milliseconds since the Unix epoch; negative for an
/// instant before it.
///
/// This takes the system time from `std::time::SystemTime::now`, turns it into
/// a `chrono::DateTime<Utc>` with chrono's `From<SystemTime>`, and that into
/// milliseconds with `DateTime::timestamp_millis`. The value depends on the
/// moment of the call and on the machine, so nothing is claimed of it: every
/// caller is proved for whatever number comes back. chrono holds the instants
/// within some 260,000 years of the epoch, and a system clock beyond them is
/// not one that it converts.
#[verifier::external_body]
pub(crate) fn now_millis() -> i64 {
    chrono::DateTime::<chrono::Utc>::from(std::time::SystemTime::now()).timestamp_millis()
}

} // verus!
