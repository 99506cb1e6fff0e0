//! The two things that a job takes from its surroundings: the time and a
//! fresh identifier.

use vstd::prelude::*;

verus! {

/// Milliseconds since the Unix epoch, as `chrono::Utc::now` followed by
/// `DateTime::timestamp_millis` gives them.
///
/// Trusted: `Utc::now` returns only where the system clock is not before the
/// epoch, so the count is never negative. Nothing else is claimed of it.
#[verifier::external_body]
pub(crate) fn utc_now_millis() -> (ms: i64)
    ensures
        ms >= 0,
{
    chrono::Utc::now().timestamp_millis()
}

/// A random identifier, as `uuid::Uuid::new_v4` draws it, in the hyphenated
/// lower-case form that the identifier's `Display` writes.
///
/// Trusted: that form is 36 characters long. Which characters they are
/// depends on chance and is not stated.
#[verifier::external_body]
pub(crate) fn random_task_id() -> (id: String)
    ensures
        id@.len() == 36,
{
    uuid::Uuid::new_v4().to_string()
}

/// The current time in milliseconds since the Unix epoch.
pub fn now_ms() -> u64 {
    let ms = utc_now_millis();
    ms as u64
}

} // verus!
