//! What the engine takes from outside itself: fresh identifiers and the time.

use vstd::prelude::*;

verus! {

/// A fresh identifier for a log record: `uuid::Uuid::new_v4()` written out by
/// `to_string`, which for a `Uuid` is the hyphenated lower-case form of 36
/// characters. Which identifier comes back is left open, as it is random.
/// This is believed, not proved. The call panics where the operating system
/// hands out no random bytes.
#[verifier::external_body]
pub(crate) fn fresh_operation_id() -> (id: String)
    ensures
        id@.len() == 36,
{
    uuid::Uuid::new_v4().to_string()
}

/// The current time in milliseconds since the Unix epoch:
/// `chrono::Utc::now()` read through `timestamp_millis`. Nothing is claimed
/// of the value. The call panics where the system clock stands before the
/// epoch.
#[verifier::external_body]
pub(crate) fn now_millis() -> (now: i64) {
    chrono::Utc::now().timestamp_millis()
}

} // verus!
