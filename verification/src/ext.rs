//! The two points where the service touches the outside world besides its
//! callers: the id generator and the clock.

use vstd::prelude::*;

verus! {

/// Relies on uuid::Uuid::new_v4 and its display form: a fresh random
/// version-4 UUID rendered hyphenated, which is always 36 ASCII characters.
/// Distinctness across calls is not promised; the caller must cope with a
/// collision.
#[verifier::external_body]
pub(crate) fn fresh_post_id() -> (id: String)
    ensures
        id@.len() == 36,
{
    uuid::Uuid::new_v4().to_string()
}

/// Relies on chrono::Utc::now: the wall-clock time in milliseconds since the
/// Unix epoch. Nothing is promised of the value; the clock may stand still or
/// move backwards between calls.
#[verifier::external_body]
pub(crate) fn current_millis() -> (t: i64) {
    chrono::Utc::now().timestamp_millis()
}

} // verus!
