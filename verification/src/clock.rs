//! The clock: seconds since the Unix epoch.

use vstd::prelude::*;

verus! {

/// Seconds that an access token lives: five minutes.
pub const ACCESS_LIFETIME: usize = 300;

/// Seconds that a refresh token lives: seven days.
pub const REFRESH_LIFETIME: usize = 604800;

/// `chrono::Utc::now().timestamp()`: the system clock, in whole seconds since
/// the Unix epoch. Nothing is promised of the reading, which may step
/// backwards from one call to the next. (The call panics on a machine whose
/// clock stands before 1970.)
#[verifier::external_body]
fn system_seconds() -> i64 {
    chrono::Utc::now().timestamp()
}

/// The reading `seconds` as a point in time that a token's expiry can be
/// compared with: readings before the epoch count as the epoch itself, and
/// readings beyond the machine's word as its largest value.
pub open spec fn reading_of(seconds: i64) -> usize {
    if seconds < 0 {
        0
    } else if seconds > usize::MAX {
        usize::MAX
    } else {
        seconds as usize
    }
}

/// Brings a reading of the system clock into the range of `usize`.
pub fn clamp_reading(seconds: i64) -> (now: usize)
    ensures
        now == reading_of(seconds),
{
    if seconds < 0 {
        0
    } else if seconds as u64 > usize::MAX as u64 {
        usize::MAX
    } else {
        seconds as usize
    }
}

/// The present time, as every function of this library that takes a `now`
/// expects it.
pub fn now() -> (now: usize)
    ensures
        exists|seconds: i64| now == reading_of(seconds),
{
    clamp_reading(system_seconds())
}

} // verus!
