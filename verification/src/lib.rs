//! Logic of a terminal clock and countdown timer.
//!
//! The crate decides what a front end shows and when: it reads duration
//! expressions, writes the text of each frame, steps the countdown through
//! pause, resume and completion, and resolves wall-clock targets in a named
//! time zone. Drawing, sleeping, reading keys and the system clock, and
//! starting other programs are left to the caller.

pub mod calendar;
pub mod clock;
pub mod command;
pub mod duration;
pub mod keys;
pub mod mode;
pub mod palette;
pub mod target;
pub mod text;
pub mod timer;
