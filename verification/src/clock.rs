//! The wall clock.

use vstd::prelude::*;

verus! {

/// The current time, in whole seconds since the Unix epoch.
///
/// Calls `chrono::Utc::now` and takes its `timestamp`. Nothing is claimed of
/// the value: it is whatever the system clock says. `chrono` itself stops the
/// program if that clock stands before 1970.
#[verifier::external_body]
pub(crate) fn unix_now() -> (now: i64) {
    chrono::Utc::now().timestamp()
}

} // verus!
