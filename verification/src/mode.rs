//! What the program shows, chosen once from the command line.

use vstd::prelude::*;

verus! {

/// One of the four displays.
#[derive(Debug, PartialEq, Eq)]
pub enum Mode {
    /// Count down to a time of day, given as text.
    TargetTime(String),
    /// Count down a duration, given as text.
    Duration(String),
    /// Show the date and the weekday.
    Date,
    /// Show the time; the default.
    Clock,
}

/// A mode as contracts see it.
pub enum ModeModel {
    TargetTime(Seq<char>),
    Duration(Seq<char>),
    Date,
    Clock,
}

impl View for Mode {
    type V = ModeModel;

    open spec fn view(&self) -> ModeModel {
        match *self {
            Mode::TargetTime(text) => ModeModel::TargetTime(text@),
            Mode::Duration(text) => ModeModel::Duration(text@),
            Mode::Date => ModeModel::Date,
            Mode::Clock => ModeModel::Clock,
        }
    }
}

/// The mode that the options select. A target time goes before a duration,
/// a duration before the date flag, and the clock is what is left.
pub open spec fn mode_of(
    target_time: Option<Seq<char>>,
    duration: Option<Seq<char>>,
    date: bool,
) -> ModeModel {
    match target_time {
        Some(text) => ModeModel::TargetTime(text),
        None => match duration {
            Some(text) => ModeModel::Duration(text),
            None => if date {
                ModeModel::Date
            } else {
                ModeModel::Clock
            },
        },
    }
}

/// The text of an option, if it was given.
pub open spec fn option_text(option: Option<String>) -> Option<Seq<char>> {
    match option {
        Some(text) => Some(text@),
        None => None,
    }
}

/// Chooses the display from the options of the command line.
pub fn select_mode(target_time: Option<String>, duration: Option<String>, date: bool) -> (mode: Mode)
    ensures
        mode@ == mode_of(option_text(target_time), option_text(duration), date),
{
    match target_time {
        Some(text) => Mode::TargetTime(text),
        None => match duration {
            Some(text) => Mode::Duration(text),
            None => if date {
                Mode::Date
            } else {
                Mode::Clock
            },
        },
    }
}

} // verus!
