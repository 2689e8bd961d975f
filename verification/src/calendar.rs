//! Time zones and the civil calendar.
//!
//! An instant is a number of seconds since the start of 1970 in UTC. What an
//! instant reads in a zone, and which instant a local date and time is, are
//! questions for chrono and the zone database of chrono-tz. Their answers are
//! functions of the arguments alone; contracts refer to them by name.

use vstd::prelude::*;
use chrono::{DateTime, Datelike, NaiveDate, NaiveTime, TimeZone, Timelike};
use chrono_tz::Tz;
use crate::text::two_digits;

verus! {

/// A date and a time of day as a calendar and a wall clock show them.
#[derive(Clone, Copy, Debug, PartialEq, Eq, Structural)]
pub struct CivilTime {
    pub year: i32,
    /// One for January to twelve for December.
    pub month: u32,
    /// The day of the month, from one.
    pub day: u32,
    pub hour: u32,
    pub minute: u32,
    pub second: u32,
}

/// A time of day.
#[derive(Clone, Copy, Debug, PartialEq, Eq, Structural)]
pub struct TimeOfDay {
    pub hour: u32,
    pub minute: u32,
    pub second: u32,
}

impl CivilTime {
    /// Every field is in the range that its name gives it.
    pub open spec fn wf(self) -> bool {
        &&& 1 <= self.month <= 12
        &&& 1 <= self.day <= 31
        &&& self.hour < 24
        &&& self.minute < 60
        &&& self.second < 60
    }
}

impl TimeOfDay {
    /// Every field is in the range that its name gives it.
    pub open spec fn wf(self) -> bool {
        self.hour < 24 && self.minute < 60 && self.second < 60
    }
}

/// Whether the zone database holds a zone of this name.
pub uninterp spec fn zone_known(name: Seq<char>) -> bool;

/// What the instant reads in the zone; nothing if the zone is unknown or the
/// instant is outside the years chrono can hold.
pub uninterp spec fn civil_time_in(zone: Seq<char>, instant: int) -> Option<CivilTime>;

/// The instant at which the zone reads the given date and time; nothing if
/// the zone is unknown, there is no such date or time, or the zone's clocks
/// skip it or show it twice.
pub uninterp spec fn instant_of_local(
    zone: Seq<char>,
    year: int,
    month: int,
    day: int,
    hour: int,
    minute: int,
    second: int,
) -> Option<i64>;

/// The time of day that a text of the form `HH:MM:SS` gives, as chrono reads
/// it.
pub uninterp spec fn time_of_day_in(text: Seq<char>) -> Option<TimeOfDay>;

/// The short name of the weekday on which a date falls, as chrono writes it;
/// nothing if the calendar has no such date.
pub uninterp spec fn weekday_text(year: int, month: int, day: int) -> Option<Seq<char>>;

/// Hour and minute, two digits each, with a colon between: `HH:MM`.
pub open spec fn clock_text(hour: nat, minute: nat) -> Seq<char> {
    two_digits(hour) + seq![':'] + two_digits(minute)
}

/// Month and day, two digits each, with a dot between: `MM.DD`.
pub open spec fn month_day_text(month: nat, day: nat) -> Seq<char> {
    two_digits(month) + seq!['.'] + two_digits(day)
}

/// The zone that is shown when none is asked for.
pub const DEFAULT_ZONE: &'static str = "Europe/Belgrade";

/// The zone that stands in for an unknown one.
pub const FALLBACK_ZONE: &'static str = "Asia/Manila";

/// `chrono_tz::Tz::from_str`: whether chrono-tz has a zone of this name. It
/// has one named `Asia/Manila`.
#[verifier::external_body]
pub(crate) fn zone_exists(name: &str) -> (known: bool)
    ensures
        known == zone_known(name@),
        name@ == FALLBACK_ZONE@ ==> known,
{
    name.parse::<Tz>().is_ok()
}

/// `chrono::DateTime::from_timestamp` taken to the zone with
/// `DateTime::with_timezone`, and read with the accessors of `Datelike` and
/// `Timelike`: the date and the time of day at the instant. chrono keeps the
/// month, day, hour, minute and second in their usual ranges.
#[verifier::external_body]
pub(crate) fn civil_time(zone: &str, instant: i64) -> (time: Option<CivilTime>)
    ensures
        time == civil_time_in(zone@, instant as int),
        time matches Some(t) ==> t.wf(),
{
    let tz: Tz = zone.parse().ok()?;
    let at = DateTime::from_timestamp(instant, 0)?.with_timezone(&tz);
    Some(CivilTime {
        year: at.year(),
        month: at.month(),
        day: at.day(),
        hour: at.hour(),
        minute: at.minute(),
        second: at.second(),
    })
}

/// `chrono::TimeZone::with_ymd_and_hms` of the zone, narrowed by `single`
/// and read with `DateTime::timestamp`: the one instant at which the zone
/// reads the given date and time.
#[verifier::external_body]
pub(crate) fn local_instant(zone: &str, date: &CivilTime, time: &TimeOfDay) -> (instant: Option<i64>)
    ensures
        instant == instant_of_local(
            zone@,
            date.year as int,
            date.month as int,
            date.day as int,
            time.hour as int,
            time.minute as int,
            time.second as int,
        ),
{
    let tz: Tz = zone.parse().ok()?;
    tz.with_ymd_and_hms(date.year, date.month, date.day, time.hour, time.minute, time.second)
        .single()
        .map(|at| at.timestamp())
}

/// `chrono::NaiveTime::parse_from_str` with the format `%H:%M:%S`, read with
/// the accessors of `Timelike`, which keep hour, minute and second in their
/// usual ranges.
#[verifier::external_body]
pub(crate) fn parse_time_of_day(text: &str) -> (time: Option<TimeOfDay>)
    ensures
        time == time_of_day_in(text@),
        time matches Some(t) ==> t.wf(),
{
    let at = NaiveTime::parse_from_str(text, "%H:%M:%S").ok()?;
    Some(TimeOfDay { hour: at.hour(), minute: at.minute(), second: at.second() })
}

/// `chrono::NaiveTime::format` with the pattern `%H:%M`, on the time that
/// `NaiveTime::from_hms_opt` makes of the hour and the minute: chrono writes
/// each as a number of two digits, padded with a zero. There is no text for
/// an hour or a minute that the day does not have.
#[verifier::external_body]
pub(crate) fn format_hour_minute(hour: u32, minute: u32) -> (text: Option<String>)
    ensures
        match text {
            Some(shown) => hour < 24 && minute < 60 && shown@ == clock_text(
                hour as nat,
                minute as nat,
            ),
            None => hour >= 24 || minute >= 60,
        },
{
    NaiveTime::from_hms_opt(hour, minute, 0).map(|t| t.format("%H:%M").to_string())
}

/// `chrono::NaiveDate::format` with the pattern `%m.%d`, on the date that
/// `NaiveDate::from_ymd_opt` makes of year, month and day: chrono writes
/// month and day as numbers of two digits, padded with a zero. There is no
/// text for a date that the calendar does not have.
#[verifier::external_body]
pub(crate) fn format_month_day(year: i32, month: u32, day: u32) -> (text: Option<String>)
    ensures
        match weekday_text(year as int, month as int, day as int) {
            Some(_) => text matches Some(shown) && shown@ == month_day_text(
                month as nat,
                day as nat,
            ),
            None => text is None,
        },
{
    NaiveDate::from_ymd_opt(year, month, day).map(|d| d.format("%m.%d").to_string())
}

/// `chrono::NaiveDate::format` with the pattern `%a`, on the date that
/// `NaiveDate::from_ymd_opt` makes of year, month and day: the short name of
/// the weekday, which chrono writes with three letters. There is no text for
/// a date that the calendar does not have.
#[verifier::external_body]
pub(crate) fn format_weekday(year: i32, month: u32, day: u32) -> (text: Option<String>)
    ensures
        match weekday_text(year as int, month as int, day as int) {
            Some(name) => text matches Some(shown) && shown@ == name && name.len() == 3,
            None => text is None,
        },
{
    NaiveDate::from_ymd_opt(year, month, day).map(|d| d.format("%a").to_string())
}

/// The zone to use when `name` was asked for and is known or not: the zone
/// asked for if it is known, the fallback zone otherwise.
pub fn zone_or_fallback(name: &str, known: bool) -> (zone: String)
    ensures
        zone@ == (if known {
            name@
        } else {
            FALLBACK_ZONE@
        }),
{
    if known {
        name.to_owned()
    } else {
        FALLBACK_ZONE.to_owned()
    }
}

/// The name of the zone to show times in: `name` if the zone database holds
/// it, the fallback zone if not. The result is always a known zone.
pub fn resolve_timezone(name: &str) -> (zone: String)
    ensures
        zone@ == (if zone_known(name@) {
            name@
        } else {
            FALLBACK_ZONE@
        }),
        zone_known(zone@),
{
    let known = zone_exists(name);
    let zone = zone_or_fallback(name, known);
    if !known {
        // Looked up as any other name is; the database has it.
        let found = zone_exists(zone.as_str());
        assert(found);
    }
    zone
}

} // verus!
