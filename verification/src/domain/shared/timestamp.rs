use vstd::prelude::*;

verus! {

/// A point in time, as microseconds since the Unix epoch (UTC).
pub type Timestamp = i64;

/// Calls `chrono::Utc::now`. The current time is not claimed to be anything.
#[verifier::external_body]
pub(crate) fn now() -> Timestamp {
    chrono::Utc::now().timestamp_micros()
}

} // verus!
