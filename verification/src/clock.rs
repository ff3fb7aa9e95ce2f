//! The one place the core touches the environment: reading the wall clock.

use vstd::prelude::*;

verus! {

/// Relies on `std::time::SystemTime::now` and
/// `SystemTime::duration_since(UNIX_EPOCH)`: whole seconds since the unix
/// epoch, or `None` when the system clock reads earlier than the epoch.
/// Nothing is promised of the value itself, which depends on the wall clock;
/// callers state what holds of every outcome.
#[verifier::external_body]
pub(crate) fn unix_time_now() -> Option<u64> {
    std::time::SystemTime::now()
        .duration_since(std::time::UNIX_EPOCH)
        .ok()
        .map(|d| d.as_secs())
}

} // verus!
