//! The faces of the wall clock: the time with a centred date line, and the
//! date alone.

use vstd::prelude::*;
use vstd::string::*;
use crate::calendar::{
    civil_time,
    civil_time_in,
    clock_text,
    format_hour_minute,
    format_month_day,
    format_weekday,
    month_day_text,
    weekday_text,
    CivilTime,
};
use crate::text::lemma_two_digits;

verus! {

/// The seconds between two frames of the date face.
pub const DATE_REFRESH_SECONDS: u64 = 60;

/// The width of the date text in columns.
pub const DATE_TEXT_WIDTH: u16 = 9;

/// What the clock shows for one minute.
#[derive(Debug, PartialEq, Eq)]
pub struct ClockFace {
    /// The time of day, to be drawn large.
    pub time: String,
    /// The line below it: the date, moved to the middle of the terminal.
    pub date_line: String,
    /// The seconds to sleep until the next minute begins.
    pub wait_seconds: u32,
}

/// Month, day and the name of the weekday, with a blank before the name:
/// `MM.DD Www`.
pub open spec fn date_text(month: nat, day: nat, weekday: Seq<char>) -> Seq<char> {
    month_day_text(month, day) + seq![' '] + weekday
}

/// A row of `n` blanks.
pub open spec fn blanks(n: nat) -> Seq<char> {
    Seq::new(n, |i: int| ' ')
}

/// The blanks in front of a text of `len` columns that is centred in
/// `width` columns.
pub open spec fn centre_padding(width: int, len: int) -> nat {
    ((width - len) / 2) as nat
}

/// A text behind the blanks that centre it in `width` columns.
pub open spec fn centred(text: Seq<char>, width: int) -> Seq<char> {
    blanks(centre_padding(width, text.len() as int)) + text
}

/// Whether `face` is the clock face of the date and time `t` on a terminal
/// of `width` columns: the time as `HH:MM`, the date with a weekday of three
/// letters, centred, and the wait that ends with the minute. A date that the
/// calendar does not have has no face.
pub open spec fn is_clock_face(face: Option<ClockFace>, t: CivilTime, width: u16) -> bool {
    match weekday_text(t.year as int, t.month as int, t.day as int) {
        Some(name) => face matches Some(shown) && shown.time@ == clock_text(
            t.hour as nat,
            t.minute as nat,
        ) && shown.date_line@ == centred(date_text(t.month as nat, t.day as nat, name), width as int)
            && shown.wait_seconds == 60 - t.second && name.len() == 3,
        None => face is None,
    }
}

/// Whether `text` is the date face of the date `t`: month, day and a weekday
/// of three letters as `MM.DD Www`. A date that the calendar does not have
/// has no face.
pub open spec fn is_date_face(text: Option<String>, t: CivilTime) -> bool {
    match weekday_text(t.year as int, t.month as int, t.day as int) {
        Some(name) => text matches Some(shown) && shown@ == date_text(
            t.month as nat,
            t.day as nat,
            name,
        ) && name.len() == 3,
        None => text is None,
    }
}

/// With a weekday of three letters the date text takes
/// [`DATE_TEXT_WIDTH`] columns, whatever the date.
pub proof fn lemma_date_text_len(t: CivilTime, weekday: Seq<char>)
    requires
        t.wf(),
        weekday.len() == 3,
    ensures
        date_text(t.month as nat, t.day as nat, weekday).len() == DATE_TEXT_WIDTH,
{
    lemma_two_digits(t.month as nat);
    lemma_two_digits(t.day as nat);
}

/// A text of `padding` blanks followed by `text`.
fn pad_left(text: &str, padding: usize) -> (line: String)
    ensures
        line@ == blanks(padding as nat) + text@,
{
    let mut line = String::new();
    let mut i: usize = 0;
    while i < padding
        invariant
            i <= padding,
            line@ == blanks(i as nat),
        decreases padding - i,
    {
        proof {
            reveal_strlit(" ");
        }
        line.append(" ");
        i += 1;
    }
    line.append(text);
    line
}

/// Writes the date face: month, day and weekday as `MM.DD Www`.
pub fn date_face_at(t: &CivilTime) -> (text: Option<String>)
    ensures
        is_date_face(text, *t),
{
    proof {
        reveal_strlit(" ");
    }
    let mut text = format_month_day(t.year, t.month, t.day)?;
    let weekday = format_weekday(t.year, t.month, t.day)?;
    text.append(" ");
    text.append(weekday.as_str());
    assert(text@ =~= date_text(t.month as nat, t.day as nat, weekday@));
    Some(text)
}

/// Writes the clock face for a terminal of `width` columns: the time as
/// `HH:MM`, the date centred below it, and the seconds left in the minute.
pub fn clock_face_at(t: &CivilTime, width: u16) -> (face: Option<ClockFace>)
    requires
        t.wf(),
        width >= DATE_TEXT_WIDTH,
    ensures
        is_clock_face(face, *t, width),
{
    let date = date_face_at(t)?;
    proof {
        lemma_date_text_len(*t, weekday_text(t.year as int, t.month as int, t.day as int).unwrap());
    }
    let time = format_hour_minute(t.hour, t.minute)?;
    let padding = (width as usize - date.as_str().unicode_len()) / 2;
    let date_line = pad_left(date.as_str(), padding);
    Some(ClockFace { time, date_line, wait_seconds: 60 - t.second })
}

/// The date face of the instant `now` in the zone; nothing if the zone is
/// unknown or the instant is outside the years that can be held.
pub fn date_face(zone: &str, now: i64) -> (text: Option<String>)
    ensures
        match civil_time_in(zone@, now as int) {
            Some(t) => is_date_face(text, t),
            None => text is None,
        },
{
    match civil_time(zone, now) {
        Some(t) => date_face_at(&t),
        None => None,
    }
}

/// The clock face of the instant `now` in the zone, for a terminal of
/// `width` columns; nothing if the zone is unknown or the instant is outside
/// the years that can be held.
pub fn clock_face(zone: &str, now: i64, width: u16) -> (face: Option<ClockFace>)
    requires
        width >= DATE_TEXT_WIDTH,
    ensures
        match civil_time_in(zone@, now as int) {
            Some(t) => is_clock_face(face, t, width),
            None => face is None,
        },
{
    match civil_time(zone, now) {
        Some(t) => clock_face_at(&t, width),
        None => None,
    }
}

} // verus!
