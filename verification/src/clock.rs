//! Readings of the clock as plain values: the time of day, an instant, and
//! the time that has passed between two instants.

use vstd::prelude::*;
use chrono::{Local, Timelike};

verus! {

/// A time of day by its hour, minute and second.
#[derive(Clone, Copy, Debug, PartialEq, Eq)]
pub struct TimeOfDay {
    /// Hour of the day, 0 to 23.
    pub hour: u32,
    /// Minute of the hour, 0 to 59.
    pub minute: u32,
    /// Second of the minute, 0 to 59.
    pub second: u32,
}

impl TimeOfDay {
    /// Whether the three fields lie in the ranges of a time of day.
    pub open spec fn is_valid(self) -> bool {
        self.hour < 24 && self.minute < 60 && self.second < 60
    }

    /// The time of day with these fields, if they lie in their ranges.
    pub fn new(hour: u32, minute: u32, second: u32) -> (time: Option<TimeOfDay>)
        ensures
            time is Some <==> hour < 24 && minute < 60 && second < 60,
            time matches Some(t) ==> t.hour == hour && t.minute == minute && t.second == second
                && t.is_valid(),
    {
        if hour < 24 && minute < 60 && second < 60 {
            Some(TimeOfDay { hour, minute, second })
        } else {
            None
        }
    }
}

/// A point in time, in milliseconds since the start of 1970 in UTC.
#[derive(Clone, Copy, Debug, PartialEq, Eq)]
pub struct Instant {
    /// Milliseconds since the start of 1970; negative before it.
    pub millis: i64,
}

/// A span of time in whole seconds; negative where it runs backwards.
#[derive(Clone, Copy, Debug, PartialEq, Eq)]
pub struct Elapsed {
    /// Whole seconds.
    pub seconds: i64,
}

/// The whole seconds from `start` to `now`: their distance in milliseconds
/// by 1000, rounded toward zero, and negative where `now` is the earlier one.
pub open spec fn seconds_between(start: Instant, now: Instant) -> int {
    let millis = now.millis - start.millis;
    if millis >= 0 {
        millis / 1000
    } else {
        -((-millis) / 1000)
    }
}

/// The time that has passed from `start` to `now`, in whole seconds.
pub fn elapsed_between(start: Instant, now: Instant) -> (elapsed: Elapsed)
    ensures
        elapsed.seconds == seconds_between(start, now),
{
    let millis: i128 = now.millis as i128 - start.millis as i128;
    if millis >= 0 {
        let whole: u128 = (millis as u128) / 1000;
        Elapsed { seconds: whole as i64 }
    } else {
        let whole: u128 = ((0 - millis) as u128) / 1000;
        Elapsed { seconds: 0 - (whole as i64) }
    }
}

/// `Local::now` of chrono reads the system clock in the local time zone;
/// `Timelike::hour`, `minute` and `second` give the fields of the reading,
/// which chrono documents to lie between 0 and 23, 0 and 59, and 0 and 59 (a
/// leap second shows as 59). Which time it is depends on the clock, so no
/// more is claimed.
#[verifier::external_body]
pub(crate) fn local_time() -> (now: TimeOfDay)
    ensures
        now.is_valid(),
{
    let now = Local::now();
    TimeOfDay { hour: now.hour(), minute: now.minute(), second: now.second() }
}

/// `Local::now` of chrono reads the system clock; `DateTime::timestamp_millis`
/// gives the reading in milliseconds since the start of 1970 in UTC. Nothing
/// is claimed of the number.
#[verifier::external_body]
pub(crate) fn now_millis() -> (millis: i64) {
    Local::now().timestamp_millis()
}

} // verus!
