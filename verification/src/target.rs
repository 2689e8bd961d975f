//! The countdown to a time of day: which instant is meant, and what is shown
//! until it comes.

use vstd::prelude::*;
use crate::calendar::{
    civil_time,
    civil_time_in,
    instant_of_local,
    local_instant,
    parse_time_of_day,
    time_of_day_in,
    CivilTime,
    TimeOfDay,
};
use crate::text::{hms_text, push_hms};

verus! {

/// Why a target time could not be resolved.
#[derive(Clone, Copy, Debug, PartialEq, Eq, Structural)]
pub enum TargetError {
    /// The text is not a time of day of the form `HH:MM:SS`.
    InvalidTime,
    /// Today's date in the zone could not be told: the zone is unknown, or
    /// the present instant is outside the years that can be held.
    UnknownDate,
    /// Today has no single moment at which the zone reads that time: its
    /// clocks skip it or show it twice.
    NoSuchMoment,
}

impl TargetError {
    /// The words that report the error. A time that the clocks skip or show
    /// twice is reported as a malformed one is.
    pub open spec fn message_text(self) -> Seq<char> {
        match self {
            TargetError::InvalidTime => "Invalid target time format"@,
            TargetError::UnknownDate => "Unknown time zone or date"@,
            TargetError::NoSuchMoment => "Invalid target time format"@,
        }
    }

    /// The words that report the error.
    pub fn message(&self) -> (text: &'static str)
        ensures
            text@ == self.message_text(),
    {
        match self {
            TargetError::InvalidTime => "Invalid target time format",
            TargetError::UnknownDate => "Unknown time zone or date",
            TargetError::NoSuchMoment => "Invalid target time format",
        }
    }
}

/// A date on the calendar with a time of day.
#[derive(Clone, Copy, Debug, PartialEq, Eq, Structural)]
pub struct LocalMoment {
    pub date: CivilTime,
    pub time: TimeOfDay,
}

/// The moment that a target time means: that time of day on today's date.
/// The time must have been read and today's date must be known.
pub open spec fn moment_of(time: Option<TimeOfDay>, today: Option<CivilTime>) -> Result<
    LocalMoment,
    TargetError,
> {
    match time {
        None => Err(TargetError::InvalidTime),
        Some(time) => match today {
            None => Err(TargetError::UnknownDate),
            Some(date) => Ok(LocalMoment { date, time }),
        },
    }
}

/// The instant that a target time stands for when it is given at the instant
/// `now`: the moment of today, in the zone, at which its clocks read the
/// time of day that `text` gives.
pub open spec fn target_of(zone: Seq<char>, now: int, text: Seq<char>) -> Result<i64, TargetError> {
    match moment_of(time_of_day_in(text), civil_time_in(zone, now)) {
        Err(e) => Err(e),
        Ok(moment) => match instant_of_local(
            zone,
            moment.date.year as int,
            moment.date.month as int,
            moment.date.day as int,
            moment.time.hour as int,
            moment.time.minute as int,
            moment.time.second as int,
        ) {
            Some(instant) => Ok(instant),
            None => Err(TargetError::NoSuchMoment),
        },
    }
}

/// The whole seconds from `nanos` nanoseconds after the instant `now` to the
/// instant `target`, rounded toward zero.
pub open spec fn seconds_until(target: int, now: int, nanos: int) -> int {
    let gap = (target - now) * 1_000_000_000 - nanos;
    if gap >= 0 {
        gap / 1_000_000_000
    } else {
        -((-gap) / 1_000_000_000)
    }
}

/// Puts a time of day on today's date.
pub fn target_moment(time: Option<TimeOfDay>, today: Option<CivilTime>) -> (moment: Result<
    LocalMoment,
    TargetError,
>)
    ensures
        moment == moment_of(time, today),
{
    match time {
        None => Err(TargetError::InvalidTime),
        Some(time) => match today {
            None => Err(TargetError::UnknownDate),
            Some(date) => Ok(LocalMoment { date, time }),
        },
    }
}

/// Resolves a target time given as `HH:MM:SS` to the instant of today, in
/// the zone, at which that time is read. `now` is the present instant.
pub fn resolve_target(zone: &str, now: i64, text: &str) -> (target: Result<i64, TargetError>)
    ensures
        target == target_of(zone@, now as int, text@),
{
    let time = parse_time_of_day(text);
    let today = civil_time(zone, now);
    match target_moment(time, today) {
        Err(e) => Err(e),
        Ok(moment) => match local_instant(zone, &moment.date, &moment.time) {
            Some(instant) => Ok(instant),
            None => Err(TargetError::NoSuchMoment),
        },
    }
}

/// The frame of a countdown to `target`, `nanos` nanoseconds after the
/// instant `now`: the whole seconds to go as `HH:MM:SS`, or nothing once no
/// whole second is left, which ends the countdown.
pub fn target_frame(target: i64, now: i64, nanos: u32) -> (text: Option<String>)
    ensures
        match text {
            Some(shown) => seconds_until(target as int, now as int, nanos as int) > 0 && shown@
                == hms_text(seconds_until(target as int, now as int, nanos as int) as nat),
            None => seconds_until(target as int, now as int, nanos as int) <= 0,
        },
{
    let gap: i128 = (target as i128 - now as i128) * 1_000_000_000 - nanos as i128;
    if gap < 1_000_000_000 {
        return None;
    }
    let left = gap as u128 / 1_000_000_000;
    let mut shown = String::new();
    push_hms(&mut shown, left);
    Some(shown)
}

} // verus!
