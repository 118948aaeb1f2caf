//! The wall clock.

use std::time::SystemTime;
use std::time::UNIX_EPOCH;
use vstd::prelude::*;

verus! {

/// Relies on `std::time::SystemTime::now`: seconds since the Unix epoch, or
/// zero for a clock set before it. Nothing is known of the value.
#[verifier::external_body]
pub(crate) fn unix_now() -> (r: u64) {
    SystemTime::now().duration_since(UNIX_EPOCH).map_or(0, |d| d.as_secs())
}

} // verus!
