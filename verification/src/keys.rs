//! The keyboard: the two flags that keys move, and the terminal mode in which
//! single keys can be read.

use vstd::prelude::*;

verus! {

/// The key that pauses and resumes: the space bar.
pub const KEY_PAUSE: u8 = 32;

/// The key that ends the display: `q`.
pub const KEY_QUIT: u8 = 113;

/// The two flags that the keyboard sets and the display loop reads.
#[derive(Clone, Copy, Debug, PartialEq, Eq, Structural)]
pub struct Controls {
    /// Up until the quit key is pressed.
    pub running: bool,
    /// Turned over by every press of the pause key.
    pub paused: bool,
}

/// The flags after a key: the pause key turns the pause flag over, the quit
/// key clears the run flag, and no other key does anything.
pub open spec fn pressed(c: Controls, key: u8) -> Controls {
    if key == KEY_PAUSE {
        Controls { paused: !c.paused, ..c }
    } else if key == KEY_QUIT {
        Controls { running: false, ..c }
    } else {
        c
    }
}

/// The flags after a row of keys.
pub open spec fn after_keys(c: Controls, keys: Seq<u8>) -> Controls
    decreases keys.len(),
{
    if keys.len() == 0 {
        c
    } else {
        pressed(after_keys(c, keys.drop_last()), keys.last())
    }
}

/// How many of the keys are the pause key.
pub open spec fn pause_presses(keys: Seq<u8>) -> nat
    decreases keys.len(),
{
    if keys.len() == 0 {
        0
    } else if keys.last() == KEY_PAUSE {
        pause_presses(keys.drop_last()) + 1
    } else {
        pause_presses(keys.drop_last())
    }
}

/// The local-mode flags of a terminal with line buffering and echo switched
/// off: `local` without the bits of `canonical` and `echo`.
pub open spec fn raw_mode(local: u64, canonical: u64, echo: u64) -> u64 {
    local & !(canonical | echo)
}

impl Controls {
    /// The flags at the start: running, not paused.
    pub fn new() -> (c: Controls)
        ensures
            c == (Controls { running: true, paused: false }),
    {
        Controls { running: true, paused: false }
    }

    /// Takes one key from the keyboard.
    pub fn press(&mut self, key: u8)
        ensures
            *final(self) == pressed(*old(self), key),
    {
        if key == KEY_PAUSE {
            self.paused = !self.paused;
        } else if key == KEY_QUIT {
            self.running = false;
        }
    }
}

/// Computes the local-mode flags for reading single keys: line buffering
/// and echo are switched off, every other flag stays as it is.
pub fn raw_mode_flags(local: u64, canonical: u64, echo: u64) -> (raw: u64)
    ensures
        raw == raw_mode(local, canonical, echo),
        raw & canonical == 0,
        raw & echo == 0,
        raw | (local & (canonical | echo)) == local,
{
    let raw = local & !(canonical | echo);
    assert(raw & canonical == 0 && raw & echo == 0 && raw | (local & (canonical | echo)) == local)
        by (bit_vector)
        requires
            raw == local & !(canonical | echo),
    ;
    raw
}

/// No key raises the run flag again, and the pause flag is turned over once
/// for every press of the pause key.
pub proof fn lemma_keys(c: Controls, keys: Seq<u8>)
    ensures
        !c.running ==> !after_keys(c, keys).running,
        after_keys(c, keys).paused == (if pause_presses(keys) % 2 == 0 {
            c.paused
        } else {
            !c.paused
        }),
    decreases keys.len(),
{
    if keys.len() > 0 {
        lemma_keys(c, keys.drop_last());
    }
}

} // verus!
