//! The one clock read the library needs. Every other function takes the
//! current time as a plain argument, so all time-dependent decisions are
//! verified for every value of the clock.
use vstd::prelude::*;

verus! {

/// Relies on chrono::Utc::now together with chrono::DateTime::timestamp: the
/// current time as whole seconds since the Unix epoch. chrono panics on a
/// pre-epoch system clock instead of returning a negative count, so the
/// result is non-negative.
#[verifier::external_body]
fn now_unix_seconds() -> (seconds: i64)
    ensures
        0 <= seconds,
{
    chrono::Utc::now().timestamp()
}

/// The current time in whole seconds since the Unix epoch. The value depends
/// on the machine clock, so nothing further can be promised of it; every
/// decision over it is made by functions that take it as an argument.
pub fn current_epoch_seconds() -> u64 {
    now_unix_seconds() as u64
}

} // verus!
