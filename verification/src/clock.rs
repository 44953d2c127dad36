//! The single clock read the cover-traffic planner needs: the current
//! UTC hour of day.

use vstd::prelude::*;

verus! {

/// Relies on chrono: `Timelike::hour` on `Utc::now()` returns the hour
/// number from 0 to 23.
#[verifier::external_body]
pub fn utc_hour() -> (h: u8)
    ensures
        h < 24,
{
    chrono::Timelike::hour(&chrono::Utc::now()) as u8
}

} // verus!
