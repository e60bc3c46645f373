//! The colours in which a host draws the timer.

use vstd::prelude::*;
use crate::phase::{TimerPhase, TimerState};

verus! {

/// A colour, as its red, green and blue parts.
#[derive(Debug, PartialEq, Eq, Clone, Copy, Structural)]
pub struct Rgb {
    pub red: u8,
    pub green: u8,
    pub blue: u8,
}

/// The grey of the given lightness.
pub open spec fn gray(lightness: u8) -> Rgb {
    Rgb { red: lightness, green: lightness, blue: lightness }
}

/// The colour that stands for the time left: a dimmed grey while the timer is
/// paused, else red for a focus interval, green for a short break and blue for
/// a long one.
pub open spec fn color_of_remaining(state: TimerState, phase: TimerPhase) -> Rgb {
    if state == TimerState::Paused {
        gray(150)
    } else {
        match phase {
            TimerPhase::Pomodoro => Rgb { red: 255, green: 70, blue: 70 },
            TimerPhase::ShortBreak => Rgb { red: 70, green: 200, blue: 70 },
            TimerPhase::LongBreak => Rgb { red: 70, green: 130, blue: 255 },
        }
    }
}

/// The colour in which the time left of the current phase is drawn; see
/// [`color_of_remaining`].
pub fn remaining_color(state: TimerState, phase: TimerPhase) -> (color: Rgb)
    ensures
        color == color_of_remaining(state, phase),
{
    match (state, phase) {
        (TimerState::Paused, _) => Rgb { red: 150, green: 150, blue: 150 },
        (_, TimerPhase::Pomodoro) => Rgb { red: 255, green: 70, blue: 70 },
        (_, TimerPhase::ShortBreak) => Rgb { red: 70, green: 200, blue: 70 },
        (_, TimerPhase::LongBreak) => Rgb { red: 70, green: 130, blue: 255 },
    }
}

/// The colour in which the time spent is drawn: a dark grey, whatever the
/// phase.
pub fn spent_color() -> (color: Rgb)
    ensures
        color == gray(80),
{
    Rgb { red: 80, green: 80, blue: 80 }
}

} // verus!
