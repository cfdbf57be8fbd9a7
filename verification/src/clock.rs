//! The wall clock, read through chrono.

use vstd::prelude::*;

verus! {

/// The Unix times, in seconds, that chrono can represent lie strictly within this bound
/// either side of the epoch (its dates run from about the year -262143 to 262143).
pub const CLOCK_MAX_SECS: i64 = 9_000_000_000_000;

/// A value the clock can read: a Unix time within chrono's range, before or after the epoch.
pub open spec fn is_clock_reading(t: i64) -> bool {
    -CLOCK_MAX_SECS <= t <= CLOCK_MAX_SECS
}

/// `std::time::SystemTime::now`, turned into a `chrono::DateTime<Utc>` by its
/// `From<SystemTime>` impl, then `DateTime::timestamp`.
/// Claimed: the current Unix time in seconds, which lies within chrono's date range.
/// A system clock set before 1970 gives a negative reading; no time zone is looked up.
/// The value depends on the time of the call, so nothing names it.
/// The conversion unwraps the `DateTime` it builds, so it panics on a system clock that
/// reads more than about 262,000 years from 1970, beyond chrono's range; that is a state
/// of the machine, not of an argument, and no `requires` can exclude it.
#[verifier::external_body]
fn unix_now() -> (t: i64)
    ensures
        is_clock_reading(t),
{
    chrono::DateTime::<chrono::Utc>::from(std::time::SystemTime::now()).timestamp()
}

/// The readings a sign-in has taken from the clock, in the order taken. Only
/// [`read_clock`] adds to it, so every entry is a reading the clock gave.
pub struct ClockLog {
    readings: Ghost<Seq<i64>>,
}

impl ClockLog {
    /// The readings taken so far, oldest first.
    pub closed spec fn readings(&self) -> Seq<i64> {
        self.readings@
    }

    /// A log with no readings yet.
    pub fn new() -> (log: ClockLog)
        ensures
            log.readings() == Seq::<i64>::empty(),
    {
        ClockLog { readings: Ghost(Seq::empty()) }
    }
}

/// Reads the clock and records the reading at the end of `log`.
pub fn read_clock(log: &mut ClockLog) -> (t: i64)
    ensures
        is_clock_reading(t),
        final(log).readings() == old(log).readings().push(t),
{
    let t: i64 = unix_now();
    proof {
        log.readings = Ghost(log.readings@.push(t));
    }
    t
}

} // verus!
