//! Reading the clock.
//!
//! The time now is environmental: nothing can be promised about the value
//! a reading returns, so every function that works with a reading takes it
//! as a plain argument and is verified for every value of it.  The two
//! readers here are the only places the clock is consulted.

use vstd::prelude::*;

use chrono::Timelike;

verus! {

/// Relies on chrono's `Utc::now` and `DateTime::timestamp`: the current
/// instant as whole seconds since the Unix epoch.  Nothing is promised of
/// the value; callers must hold for every reading.
#[verifier::external_body]
pub(crate) fn now_unix_seconds() -> i64 {
    chrono::Utc::now().timestamp()
}

/// Relies on chrono's `Local::now` and `Timelike::num_seconds_from_midnight`
/// on the local wall-clock time: the current local second-of-day.  A
/// `NaiveTime` holds at most 23:59:59 in whole seconds (leap seconds ride
/// on the fractional part), so the reading is below 86400.
#[verifier::external_body]
pub(crate) fn local_seconds_of_day() -> (r: u32)
    ensures
        r < 86400,
{
    chrono::Local::now().time().num_seconds_from_midnight()
}

} // verus!
