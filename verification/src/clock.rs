//! Where the time comes from.
use std::time::{Duration, SystemTime, SystemTimeError};
use vstd::prelude::*;

verus! {

/// `std::time::SystemTime`: a reading of the machine's clock.
#[verifier::external_type_specification]
#[verifier::external_body]
pub struct ExSystemTime(SystemTime);

/// `std::time::SystemTimeError`: that one reading is before another.
#[verifier::external_type_specification]
#[verifier::external_body]
pub struct ExSystemTimeError(SystemTimeError);

/// Calls `std::time::SystemTime::now`: the machine's clock. Nothing is claimed
/// of what it reads.
#[verifier::external_body]
fn system_time() -> SystemTime {
    SystemTime::now()
}

/// `std::time::Duration::as_secs`: the whole seconds of a duration. Nothing is
/// claimed of how many there are.
pub assume_specification[ Duration::as_secs ](since: &Duration) -> u64;

/// Calls `std::time::SystemTime::duration_since` with the Unix epoch: how long
/// after it a reading is, or that the reading is before it. Nothing is claimed
/// of which it is.
#[verifier::external_body]
fn since_epoch(time: SystemTime) -> Result<Duration, SystemTimeError> {
    time.duration_since(std::time::UNIX_EPOCH)
}

/// The whole seconds since the Unix epoch, held to what a signed number can
/// be: none for a time before it.
pub open spec fn whole_seconds(since: Option<u64>) -> int {
    match since {
        None => 0,
        Some(whole) => if whole > i64::MAX {
            i64::MAX as int
        } else {
            whole as int
        },
    }
}

/// Whether a number is a reading of the machine's clock: the clock gave a time,
/// and the number is that time's whole seconds since the Unix epoch, or none
/// where the time is before it.
pub closed spec fn is_reading(seconds: i64) -> bool {
    exists|time: SystemTime, since: Result<Duration, SystemTimeError>|
        {
            &&& #[trigger] call_ensures(system_time, (), time)
            &&& #[trigger] call_ensures(since_epoch, (time,), since)
            &&& match since {
                Err(_) => seconds == whole_seconds(None),
                Ok(since) => exists|whole: u64| #[trigger]
                    call_ensures(Duration::as_secs, (&since,), whole) && seconds == whole_seconds(
                        Some(whole),
                    ),
            }
        }
}

/// The whole seconds since the Unix epoch as a signed number: none for a time
/// before it, and the largest there is for one beyond reach.
pub fn signed_seconds(since: Option<u64>) -> (seconds: i64)
    ensures
        seconds as int == whole_seconds(since),
        since is None ==> seconds == 0,
        since matches Some(whole) ==> (whole <= i64::MAX ==> seconds == whole),
        since matches Some(whole) ==> (whole > i64::MAX ==> seconds == i64::MAX),
{
    match since {
        None => 0,
        Some(whole) => if whole > i64::MAX as u64 {
            i64::MAX
        } else {
            whole as i64
        },
    }
}

/// Where a time fits in a signed number it is told as it is, one beyond reach
/// is the largest there is, and one before the Unix epoch is none: no two times
/// that fit are told as the same.
pub proof fn law_seconds_are_told_as_they_are(whole: u64, other: u64)
    ensures
        whole <= i64::MAX ==> whole_seconds(Some(whole)) == whole,
        whole > i64::MAX ==> whole_seconds(Some(whole)) == i64::MAX,
        whole_seconds(None) == 0,
        whole < other <= i64::MAX ==> whole_seconds(Some(whole)) < whole_seconds(Some(other)),
{
}

/// A reading of the machine's clock is what the clock gave: the whole seconds
/// of the time since the Unix epoch where they fit, the largest number there is
/// where they do not, and zero for a time before the epoch.
proof fn law_a_reading_is_what_the_clock_gave(seconds: i64)
    ensures
        is_reading(seconds) <==> exists|
            time: SystemTime,
            since: Result<Duration, SystemTimeError>,
        |
            {
                &&& #[trigger] call_ensures(system_time, (), time)
                &&& #[trigger] call_ensures(since_epoch, (time,), since)
                &&& since is Err ==> seconds == 0
                &&& since matches Ok(since) ==> exists|whole: u64|
                    {
                        &&& #[trigger] call_ensures(Duration::as_secs, (&since,), whole)
                        &&& whole <= i64::MAX ==> seconds == whole
                        &&& whole > i64::MAX ==> seconds == i64::MAX
                    }
            },
{
}

/// The machine's clock can always be read, and reads nothing but what the
/// machine's clock gave, never a time before the Unix epoch.
pub proof fn law_the_system_clock_is_the_machine_s(seconds: i64)
    ensures
        SystemClock.is_readable(),
        SystemClock.may_read(seconds) <==> seconds >= 0 && is_reading(seconds),
{
}

/// Seconds since the Unix epoch, now.
#[must_use]
pub fn now() -> (seconds: i64)
    ensures
        seconds >= 0,
        is_reading(seconds),
{
    match since_epoch(system_time()) {
        Ok(since) => signed_seconds(Some(since.as_secs())),
        Err(_) => signed_seconds(None),
    }
}

/// What tells the time, in seconds since the Unix epoch.
pub trait Clock {
    /// Whether the clock can be read.
    spec fn is_readable(&self) -> bool;

    /// What the clock may read.
    spec fn may_read(&self, seconds: i64) -> bool;

    /// Read the clock.
    fn seconds(&self) -> (seconds: i64)
        requires
            self.is_readable(),
        ensures
            self.may_read(seconds),
    ;
}

/// The machine's own clock.
pub struct SystemClock;

impl Clock for SystemClock {
    open spec fn is_readable(&self) -> bool {
        true
    }

    open spec fn may_read(&self, seconds: i64) -> bool {
        seconds >= 0 && is_reading(seconds)
    }

    fn seconds(&self) -> (seconds: i64) {
        now()
    }
}

/// Any function of no arguments that gives seconds is a clock.
impl<F: Fn() -> i64> Clock for F {
    open spec fn is_readable(&self) -> bool {
        call_requires(*self, ())
    }

    open spec fn may_read(&self, seconds: i64) -> bool {
        call_ensures(*self, (), seconds)
    }

    fn seconds(&self) -> (seconds: i64) {
        self()
    }
}

} // verus!
