//! The wall clock.

use vstd::prelude::*;

verus! {

/// The current time in milliseconds since the Unix epoch: what
/// `std::time::SystemTime::now` gives, turned into a `chrono::DateTime<Utc>`
/// by chrono's conversion from `SystemTime`, which also takes a clock that
/// stands before the epoch, and then into milliseconds by
/// `DateTime::timestamp_millis`. Nothing is promised of the value: two calls
/// may differ in either direction.
#[verifier::external_body]
pub(crate) fn now_ms() -> (now: i64) {
    chrono::DateTime::<chrono::Utc>::from(std::time::SystemTime::now()).timestamp_millis()
}

} // verus!
