//! The countdown timer: a state machine that the display loop drives.
//!
//! The loop owns the clock, the screen and the keyboard flags. Once per
//! second it reports the flags with [`Timer::wake`], does what the returned
//! [`Step`] says, sleeps, and after a counted second reports the flags again
//! with [`Timer::elapse`], which tells it whether the completion action is
//! due.

use vstd::prelude::*;
use crate::palette::Color;
use crate::text::{countdown_text, format_countdown};

verus! {

/// Where the timer stands.
#[derive(Clone, Copy, Debug, PartialEq, Eq, Structural)]
pub enum Phase {
    /// Counting down.
    Running,
    /// Held by the pause flag; the tracker has been told to stop.
    Paused,
    /// The loop has been left; nothing changes any more.
    Stopped,
}

/// A call of the external time tracker.
#[derive(Clone, Copy, Debug, PartialEq, Eq, Structural)]
pub enum TrackerHook {
    /// Tracking goes on: at the start and on every resume.
    Continue,
    /// Tracking halts: on every pause and when the loop is left.
    Stop,
}

/// The program that tracks the time spent.
pub const TRACKER_PROGRAM: &'static str = "timew";

impl TrackerHook {
    /// The argument that makes the tracker do what the call asks for.
    pub open spec fn subcommand_text(self) -> Seq<char> {
        match self {
            TrackerHook::Continue => "continue"@,
            TrackerHook::Stop => "stop"@,
        }
    }

    /// The argument that makes the tracker do what the call asks for.
    pub fn subcommand(&self) -> (text: &'static str)
        ensures
            text@ == self.subcommand_text(),
    {
        match self {
            TrackerHook::Continue => "continue",
            TrackerHook::Stop => "stop",
        }
    }
}

/// The timer as contracts see it.
pub struct TimerModel {
    /// Seconds to go; negative once the countdown has run past zero.
    pub remaining: int,
    pub phase: Phase,
    /// The latch of the completion action: set when zero is reached.
    pub fired: bool,
    /// The colour of a frame that is not paused.
    pub color: Color,
}

/// What the display loop does after reporting the flags.
pub enum StepModel {
    Hold { text: Seq<char>, color: Color, hook: Option<TrackerHook> },
    Count { text: Seq<char>, color: Color, hook: Option<TrackerHook> },
    Exit { hook: Option<TrackerHook> },
}

/// The readings of the two flags during one pass of the display loop.
pub struct Beat {
    /// The run flag at the head of the pass.
    pub running: bool,
    /// The pause flag before the frame is drawn.
    pub paused: bool,
    /// The pause flag after the second has been slept.
    pub paused_after: bool,
    /// The run flag after the second has been slept.
    pub running_after: bool,
}

/// The timer that counts down from `seconds`, before its first pass.
pub open spec fn started(seconds: int, color: Color) -> TimerModel {
    TimerModel { remaining: seconds, phase: Phase::Running, fired: false, color }
}

/// The timer after the flags were reported at the head of a pass: a cleared
/// run flag stops it for good, otherwise the pause flag decides between
/// paused and running. The countdown itself is untouched.
pub open spec fn woken(m: TimerModel, running: bool, paused: bool) -> TimerModel {
    if m.phase == Phase::Stopped || !running {
        TimerModel { phase: Phase::Stopped, ..m }
    } else if paused {
        TimerModel { phase: Phase::Paused, ..m }
    } else {
        TimerModel { phase: Phase::Running, ..m }
    }
}

/// What the loop is told at the head of a pass: the frame to draw, and the
/// tracker call on each edge between running and paused and on leaving.
pub open spec fn step_of(m: TimerModel, running: bool, paused: bool) -> StepModel {
    if m.phase == Phase::Stopped {
        StepModel::Exit { hook: None }
    } else if !running {
        StepModel::Exit { hook: Some(TrackerHook::Stop) }
    } else if paused {
        StepModel::Hold {
            text: countdown_text(m.remaining),
            color: Color::BlueBright,
            hook: if m.phase == Phase::Running {
                Some(TrackerHook::Stop)
            } else {
                None
            },
        }
    } else {
        StepModel::Count {
            text: countdown_text(m.remaining),
            color: m.color,
            hook: if m.phase == Phase::Paused {
                Some(TrackerHook::Continue)
            } else {
                None
            },
        }
    }
}

/// The timer after a counted second: one second less unless the pause flag
/// came up meanwhile, and the latch set once the countdown stands at zero.
pub open spec fn elapsed(m: TimerModel, paused: bool) -> TimerModel {
    if m.phase == Phase::Running {
        let remaining = if paused {
            m.remaining
        } else {
            m.remaining - 1
        };
        TimerModel { remaining, fired: m.fired || remaining == 0, ..m }
    } else {
        m
    }
}

/// Whether the completion action is due after a counted second: the countdown
/// stands at zero, the latch was not set before, and the run flag is still up.
pub open spec fn due(m: TimerModel, paused: bool, running: bool) -> bool {
    m.phase == Phase::Running && !m.fired && elapsed(m, paused).remaining == 0 && running
}

/// The timer after one whole pass of the display loop.
pub open spec fn after_beat(m: TimerModel, b: Beat) -> TimerModel {
    elapsed(woken(m, b.running, b.paused), b.paused_after)
}

/// Whether the completion action is run during one pass.
pub open spec fn beat_fires(m: TimerModel, b: Beat) -> bool {
    due(woken(m, b.running, b.paused), b.paused_after, b.running_after)
}

/// The timer after a run of passes.
pub open spec fn after_beats(m: TimerModel, beats: Seq<Beat>) -> TimerModel
    decreases beats.len(),
{
    if beats.len() == 0 {
        m
    } else {
        after_beat(after_beats(m, beats.drop_last()), beats.last())
    }
}

/// How often the completion action is run during a run of passes.
pub open spec fn fire_count(m: TimerModel, beats: Seq<Beat>) -> nat
    decreases beats.len(),
{
    if beats.len() == 0 {
        0
    } else {
        let before = fire_count(m, beats.drop_last());
        if beat_fires(after_beats(m, beats.drop_last()), beats.last()) {
            before + 1
        } else {
            before
        }
    }
}

/// The countdown timer.
#[derive(Clone, Copy, Debug, PartialEq, Eq, Structural)]
pub struct Timer {
    /// Seconds to go; negative once the countdown has run past zero.
    pub remaining: i64,
    pub phase: Phase,
    /// The latch of the completion action.
    pub fired: bool,
    /// The colour of a frame that is not paused.
    pub color: Color,
}

/// What the display loop does after [`Timer::wake`].
#[derive(Debug, PartialEq, Eq)]
pub enum Step {
    /// Paused: draw `text` in `color`, then make the tracker call if there
    /// is one, sleep a second and wake the timer again.
    Hold { text: String, color: Color, hook: Option<TrackerHook> },
    /// Running: make the tracker call if there is one, draw `text` in
    /// `color`, sleep a second and report it with [`Timer::elapse`].
    Count { text: String, color: Color, hook: Option<TrackerHook> },
    /// Leave the loop, after the tracker call if there is one.
    Exit { hook: Option<TrackerHook> },
}

impl View for Timer {
    type V = TimerModel;

    open spec fn view(&self) -> TimerModel {
        TimerModel {
            remaining: self.remaining as int,
            phase: self.phase,
            fired: self.fired,
            color: self.color,
        }
    }
}

impl View for Step {
    type V = StepModel;

    open spec fn view(&self) -> StepModel {
        match *self {
            Step::Hold { text, color, hook } => StepModel::Hold { text: text@, color, hook },
            Step::Count { text, color, hook } => StepModel::Count { text: text@, color, hook },
            Step::Exit { hook } => StepModel::Exit { hook },
        }
    }
}

impl Timer {
    /// A timer that counts down from `seconds`, with the tracker call that
    /// goes with the start.
    pub fn start(seconds: i64, color: Color) -> (r: (Timer, TrackerHook))
        ensures
            r.0@ == started(seconds as int, color),
            r.1 == TrackerHook::Continue,
    {
        (
            Timer { remaining: seconds, phase: Phase::Running, fired: false, color },
            TrackerHook::Continue,
        )
    }

    /// Reports the two flags at the head of a pass and says what to do.
    pub fn wake(&mut self, running: bool, paused: bool) -> (step: Step)
        ensures
            final(self)@ == woken(old(self)@, running, paused),
            step@ == step_of(old(self)@, running, paused),
    {
        match self.phase {
            Phase::Stopped => Step::Exit { hook: None },
            was => {
                if !running {
                    self.phase = Phase::Stopped;
                    Step::Exit { hook: Some(TrackerHook::Stop) }
                } else if paused {
                    self.phase = Phase::Paused;
                    Step::Hold {
                        text: format_countdown(self.remaining),
                        color: Color::BlueBright,
                        hook: match was {
                            Phase::Running => Some(TrackerHook::Stop),
                            _ => None,
                        },
                    }
                } else {
                    self.phase = Phase::Running;
                    Step::Count {
                        text: format_countdown(self.remaining),
                        color: self.color,
                        hook: match was {
                            Phase::Paused => Some(TrackerHook::Continue),
                            _ => None,
                        },
                    }
                }
            },
        }
    }

    /// Reports the two flags after a counted second. The result says whether
    /// the completion action is to be run now.
    pub fn elapse(&mut self, paused: bool, running: bool) -> (launch: bool)
        requires
            old(self).remaining > i64::MIN,
        ensures
            final(self)@ == elapsed(old(self)@, paused),
            launch == due(old(self)@, paused, running),
    {
        match self.phase {
            Phase::Running => {
                if !paused {
                    self.remaining = self.remaining - 1;
                }
                if self.remaining == 0 && !self.fired {
                    self.fired = true;
                    running
                } else {
                    false
                }
            },
            _ => false,
        }
    }
}

/// A pass in which the loop goes on and sees the pause flag up, before the
/// frame or after the sleep.
pub open spec fn held(b: Beat) -> bool {
    b.running && (b.paused || b.paused_after)
}

/// A pass in which the loop goes on and the pause flag stays down.
pub open spec fn counted(b: Beat) -> bool {
    b.running && !b.paused && !b.paused_after
}

/// The text of the frame that a pass draws, if it draws one.
pub open spec fn frame_text(m: TimerModel, b: Beat) -> Option<Seq<char>> {
    match step_of(m, b.running, b.paused) {
        StepModel::Hold { text, .. } => Some(text),
        StepModel::Count { text, .. } => Some(text),
        StepModel::Exit { .. } => None,
    }
}

/// The tracker call that a pass makes, if it makes one.
pub open spec fn hook_of(step: StepModel) -> Option<TrackerHook> {
    match step {
        StepModel::Hold { hook, .. } => hook,
        StepModel::Count { hook, .. } => hook,
        StepModel::Exit { hook } => hook,
    }
}

/// The tracker is called on the edges only: it is stopped on the first pass
/// that finds a running timer paused, told to go on on the first pass that
/// finds a paused timer resumed, and stopped once more when the loop is
/// left. A pass that finds the timer as the pass before left it makes no
/// call.
pub proof fn lemma_tracker_on_edges(m: TimerModel, running: bool, paused: bool)
    requires
        m.phase != Phase::Stopped,
    ensures
        hook_of(step_of(m, running, paused)) == (if !running {
            Some(TrackerHook::Stop)
        } else if paused && m.phase == Phase::Running {
            Some(TrackerHook::Stop)
        } else if !paused && m.phase == Phase::Paused {
            Some(TrackerHook::Continue)
        } else {
            None
        }),
        running ==> hook_of(step_of(woken(m, running, paused), running, paused)).is_none(),
        hook_of(step_of(woken(m, false, paused), running, paused)).is_none(),
{
}

/// A stopped timer stays as it is and never runs the completion action.
pub proof fn lemma_stopped_is_final(m: TimerModel, beats: Seq<Beat>)
    requires
        m.phase == Phase::Stopped,
    ensures
        after_beats(m, beats) == m,
        fire_count(m, beats) == 0,
    decreases beats.len(),
{
    if beats.len() > 0 {
        lemma_stopped_is_final(m, beats.drop_last());
    }
}

/// While the pause flag is seen up the countdown is frozen: after any run of
/// held passes the timer has as many seconds to go as before, and every frame
/// drawn on the way shows the same text.
pub proof fn lemma_pause_freezes(m: TimerModel, beats: Seq<Beat>)
    requires
        m.phase != Phase::Stopped,
        forall|i: int| 0 <= i < beats.len() ==> held(#[trigger] beats[i]),
    ensures
        after_beats(m, beats).remaining == m.remaining,
        after_beats(m, beats).phase != Phase::Stopped,
        forall|k: int|
            0 <= k < beats.len() ==> frame_text(
                #[trigger] after_beats(m, beats.take(k)),
                beats[k],
            ) == Some(countdown_text(m.remaining)),
    decreases beats.len(),
{
    if beats.len() > 0 {
        let front = beats.drop_last();
        lemma_pause_freezes(m, front);
        assert forall|k: int| 0 <= k < beats.len() implies frame_text(
            #[trigger] after_beats(m, beats.take(k)),
            beats[k],
        ) == Some(countdown_text(m.remaining)) by {
            if k < front.len() {
                assert(beats.take(k) =~= front.take(k));
            }
        }
    }
}

/// Resuming goes on from the frozen value: the first counted pass after a
/// run of held passes shows the text that was frozen and takes one second
/// off it.
pub proof fn lemma_resume_counts_on(m: TimerModel, beats: Seq<Beat>, next: Beat)
    requires
        m.phase != Phase::Stopped,
        forall|i: int| 0 <= i < beats.len() ==> held(#[trigger] beats[i]),
        counted(next),
    ensures
        frame_text(after_beats(m, beats), next) == Some(countdown_text(m.remaining)),
        after_beats(m, beats.push(next)).remaining == m.remaining - 1,
{
    lemma_pause_freezes(m, beats);
    assert(beats.push(next).drop_last() =~= beats);
}

/// The completion action is run at most once in the life of a timer, however
/// many passes follow; once the latch is set it is never run again.
pub proof fn lemma_fires_at_most_once(m: TimerModel, beats: Seq<Beat>)
    ensures
        fire_count(m, beats) <= 1,
        m.fired ==> fire_count(m, beats) == 0,
        (m.fired || fire_count(m, beats) == 1) ==> after_beats(m, beats).fired,
    decreases beats.len(),
{
    if beats.len() > 0 {
        lemma_fires_at_most_once(m, beats.drop_last());
    }
}

/// A countdown that starts above zero and is never told to stop runs the
/// completion action exactly once by the time it has reached or passed zero,
/// and not before.
pub proof fn lemma_fires_exactly_once(seconds: int, color: Color, beats: Seq<Beat>)
    requires
        seconds > 0,
        forall|i: int|
            0 <= i < beats.len() ==> (#[trigger] beats[i]).running && beats[i].running_after,
    ensures
        after_beats(started(seconds, color), beats).remaining <= 0 ==> fire_count(
            started(seconds, color),
            beats,
        ) == 1,
        after_beats(started(seconds, color), beats).remaining > 0 ==> fire_count(
            started(seconds, color),
            beats,
        ) == 0,
        after_beats(started(seconds, color), beats).fired <==> after_beats(
            started(seconds, color),
            beats,
        ).remaining <= 0,
        after_beats(started(seconds, color), beats).phase != Phase::Stopped,
    decreases beats.len(),
{
    if beats.len() > 0 {
        let front = beats.drop_last();
        lemma_fires_exactly_once(seconds, color, front);
    }
}

} // verus!
