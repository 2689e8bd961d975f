//! The colours a frame can be drawn in.

use vstd::prelude::*;

verus! {

/// A colour of the display.
#[derive(Clone, Copy, Debug, PartialEq, Eq, Structural)]
pub enum Color {
    Red,
    Green,
    Yellow,
    Blue,
    Magenta,
    Cyan,
    White,
    Gray,
    Black,
    /// The colour of a paused countdown; no index selects it.
    BlueBright,
}

/// The index that is used when the user gives none.
pub const DEFAULT_COLOR_INDEX: u8 = 2;

/// The colour that an index selects: one to nine run through the palette in
/// order, every other index gives white.
pub open spec fn color_of(index: u8) -> Color {
    match index {
        1 => Color::Red,
        2 => Color::Green,
        3 => Color::Yellow,
        4 => Color::Blue,
        5 => Color::Magenta,
        6 => Color::Cyan,
        7 => Color::White,
        8 => Color::Gray,
        9 => Color::Black,
        _ => Color::White,
    }
}

/// Maps a colour index to its colour; an index outside one to nine falls
/// back to white.
pub fn get_color(index: u8) -> (color: Color)
    ensures
        color == color_of(index),
{
    match index {
        1 => Color::Red,
        2 => Color::Green,
        3 => Color::Yellow,
        4 => Color::Blue,
        5 => Color::Magenta,
        6 => Color::Cyan,
        7 => Color::White,
        8 => Color::Gray,
        9 => Color::Black,
        _ => Color::White,
    }
}

} // verus!
