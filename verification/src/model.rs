//! The timer as a mathematical value, and each command as a function from
//! one such value to the next.
//!
//! Every contract of the engine is stated over this model. Lengths and
//! instants are unbounded integers here, both in milliseconds, and every
//! length is the plain difference of instants. The engine holds its lengths
//! in 64 bits; where a difference is beyond them its contracts say so with
//! [`fit`].

use vstd::prelude::*;
use crate::minutes::{fit, MS_PER_MINUTE};
use crate::phase::{TimerError, TimerPhase, TimerState};

verus! {

/// The greater of two numbers.
pub open spec fn later(a: int, b: int) -> int {
    if a >= b {
        a
    } else {
        b
    }
}

/// The total length of the given pauses. A pause is a pair of instants: the
/// one at which it began and the one at which it ended.
pub open spec fn total_length(pauses: Seq<(int, int)>) -> int
    decreases pauses.len(),
{
    if pauses.len() == 0 {
        0
    } else {
        total_length(pauses.drop_last()) + (pauses.last().1 - pauses.last().0)
    }
}

/// The settings and the session state of a timer.
pub struct TimerModel {
    /// Length of a focus interval.
    pub pomodoro: int,
    /// Length of a short break.
    pub short_break: int,
    /// Length of a long break.
    pub long_break: int,
    /// Number of focus intervals from one long break to the next.
    pub cycles: int,
    /// Whether the host should sound the bell when a phase completes.
    pub play_sound: bool,
    pub state: TimerState,
    pub phase: TimerPhase,
    /// Focus intervals completed since the last long break.
    pub cycle: int,
    /// The instant at which the current phase began.
    pub phase_start: Option<int>,
    /// The instant at which the current pause began.
    pub pause_start: Option<int>,
    /// The total length of the pauses of the current phase that have ended.
    pub pause_delta: int,
}

impl TimerModel {
    /// A timer at rest with the usual settings: 25 minutes of focus, breaks of
    /// 5 and 15 minutes, a long break after every fourth focus interval.
    pub open spec fn initial() -> TimerModel {
        TimerModel {
            pomodoro: 25 * MS_PER_MINUTE,
            short_break: 5 * MS_PER_MINUTE,
            long_break: 15 * MS_PER_MINUTE,
            cycles: 4,
            play_sound: true,
            state: TimerState::Stopped,
            phase: TimerPhase::Pomodoro,
            cycle: 0,
            phase_start: None,
            pause_start: None,
            pause_delta: 0,
        }
    }

    /// The configured length of a phase of the given kind.
    pub open spec fn duration_of(self, phase: TimerPhase) -> int {
        match phase {
            TimerPhase::Pomodoro => self.pomodoro,
            TimerPhase::ShortBreak => self.short_break,
            TimerPhase::LongBreak => self.long_break,
        }
    }

    /// Whether a phase of the given kind may begin under the current settings.
    pub open spec fn configured_for(self, phase: TimerPhase) -> bool {
        self.duration_of(phase) > 0 && self.cycles >= 1
    }

    /// What holds of every timer, in every state: the start of the phase is
    /// known exactly while a session is under way, the start of a pause
    /// exactly while the timer is paused; the cycle counter and the pauses
    /// accounted for are not negative; at rest no cycle is counted; and while
    /// a session is under way the cycle counter is below the number of cycles
    /// and the current phase has a positive length.
    pub open spec fn wf(self) -> bool {
        &&& self.phase_start is Some <==> self.state != TimerState::Stopped
        &&& self.pause_start is Some <==> self.state == TimerState::Paused
        &&& 0 <= self.cycle
        &&& 0 <= self.pause_delta
        &&& self.state == TimerState::Stopped ==> self.cycle == 0
        &&& self.state != TimerState::Stopped ==> {
            &&& self.cycle < self.cycles
            &&& self.duration_of(self.phase) > 0
        }
    }

    /// The time spent in the current phase, as seen at the instant `now`.
    ///
    /// Nothing while no phase has begun. While the timer is paused, the time
    /// from the start of the phase to the start of the pause, less the pauses
    /// that have ended: `now` has no part in it. Otherwise the time from the
    /// start of the phase to `now`, less the pauses that have ended. It is
    /// below zero where the instant it is counted to lies before the start of
    /// the phase moved on by the pauses, as after the clock was set back.
    pub open spec fn spent(self, now: int) -> int {
        match self.phase_start {
            None => 0,
            Some(phase_start) => match (self.state, self.pause_start) {
                (TimerState::Paused, Some(pause_start)) => (pause_start - phase_start)
                    - self.pause_delta,
                (TimerState::Paused, None) => 0,
                _ => (now - phase_start) - self.pause_delta,
            },
        }
    }

    /// The time left of the current phase at the instant `now`: the length of
    /// the phase less the time spent; zero or less once the phase is over.
    pub open spec fn remaining(self, now: int) -> int {
        self.duration_of(self.phase) - self.spent(now)
    }

    /// The part of the current phase that is over at `now`: the length of the
    /// phase less what is left of it, where what is left counts as zero once
    /// the phase has run over, and the part as zero where more than the whole
    /// is left. Zero for a phase without a positive length.
    pub open spec fn progress_part(self, now: int) -> int {
        if self.duration_of(self.phase) > 0 {
            later(0, self.duration_of(self.phase) - later(0, self.remaining(now)))
        } else {
            0
        }
    }

    /// What `progress_part` is a part of: the length of the current phase, or
    /// one for a phase without a positive length.
    pub open spec fn progress_whole(self) -> int {
        if self.duration_of(self.phase) > 0 {
            self.duration_of(self.phase)
        } else {
            1
        }
    }

    /// The timer with another length of the focus interval.
    pub open spec fn with_pomodoro(self, length: int) -> TimerModel {
        TimerModel { pomodoro: length, ..self }
    }

    /// The timer with another length of the short break.
    pub open spec fn with_short_break(self, length: int) -> TimerModel {
        TimerModel { short_break: length, ..self }
    }

    /// The timer with another length of the long break.
    pub open spec fn with_long_break(self, length: int) -> TimerModel {
        TimerModel { long_break: length, ..self }
    }

    /// The timer with another number of cycles.
    pub open spec fn with_cycles(self, cycles: int) -> TimerModel {
        TimerModel { cycles: cycles, ..self }
    }

    /// The timer with the bell switched on or off.
    pub open spec fn with_play_sound(self, play: bool) -> TimerModel {
        TimerModel { play_sound: play, ..self }
    }

    /// The timer after a phase of the given kind has begun at `now` in a
    /// session that is under way: the phase began at `now` and no pause is
    /// accounted for. The state stays, and so does the start of an open pause.
    pub open spec fn begun(self, phase: TimerPhase, now: int) -> TimerModel {
        TimerModel { phase: phase, phase_start: Some(now), pause_delta: 0, ..self }
    }

    /// The timer after it was started at `now` with a phase of the given
    /// kind: it runs, the phase began at `now`, no pause is open and none is
    /// accounted for.
    pub open spec fn started(self, phase: TimerPhase, now: int) -> TimerModel {
        TimerModel { state: TimerState::Running, pause_start: None, ..self }.begun(phase, now)
    }

    /// The running timer after it was paused at `now`.
    pub open spec fn paused(self, now: int) -> TimerModel {
        TimerModel { state: TimerState::Paused, pause_start: Some(now), ..self }
    }

    /// The length of the open pause, as seen at `now`: the time from the
    /// start of the pause to `now`. A pause has no negative length: where
    /// `now` lies before its start the length is zero, so that the pauses
    /// accounted for never fall.
    pub open spec fn pause_length(self, now: int) -> int
        recommends
            self.pause_start is Some,
    {
        later(now - self.pause_start.unwrap(), 0)
    }

    /// The paused timer after it was resumed at `now`: it runs, no pause is
    /// open, and the length of the pause is added to the pauses accounted for.
    pub open spec fn resumed(self, now: int) -> TimerModel {
        TimerModel {
            state: TimerState::Running,
            pause_start: None,
            pause_delta: self.pause_delta + self.pause_length(now),
            ..self
        }
    }

    /// The timer with the pauses accounted for held to what a length can
    /// hold. It is the same timer wherever they fit.
    pub open spec fn limited(self) -> TimerModel {
        TimerModel { pause_delta: fit(self.pause_delta), ..self }
    }

    /// The running timer after each of the given pauses in turn: paused at
    /// the first instant of the pair and resumed at the second.
    pub open spec fn after_pauses(self, pauses: Seq<(int, int)>) -> TimerModel
        decreases pauses.len(),
    {
        if pauses.len() == 0 {
            self
        } else {
            self.after_pauses(pauses.drop_last()).paused(pauses.last().0).resumed(pauses.last().1)
        }
    }

    /// The same as the engine stores it: after each resume the pauses
    /// accounted for are held to what a length can hold.
    pub open spec fn stored_after_pauses(self, pauses: Seq<(int, int)>) -> TimerModel
        decreases pauses.len(),
    {
        if pauses.len() == 0 {
            self
        } else {
            self.stored_after_pauses(pauses.drop_last()).paused(pauses.last().0).resumed(
                pauses.last().1,
            ).limited()
        }
    }

    /// The timer after a reset: at rest, before the first focus interval, with
    /// the settings untouched.
    pub open spec fn cleared(self) -> TimerModel {
        TimerModel {
            state: TimerState::Stopped,
            phase: TimerPhase::Pomodoro,
            cycle: 0,
            phase_start: None,
            pause_start: None,
            pause_delta: 0,
            ..self
        }
    }

    /// The kind of phase that follows the current one.
    pub open spec fn next_phase(self) -> TimerPhase {
        match self.phase {
            TimerPhase::Pomodoro => if self.cycle + 1 >= self.cycles {
                TimerPhase::LongBreak
            } else {
                TimerPhase::ShortBreak
            },
            TimerPhase::ShortBreak | TimerPhase::LongBreak => TimerPhase::Pomodoro,
        }
    }

    /// The cycle counter once the current phase is over.
    pub open spec fn next_cycle(self) -> int {
        match self.phase {
            TimerPhase::Pomodoro => if self.cycle + 1 >= self.cycles {
                0
            } else {
                self.cycle + 1
            },
            TimerPhase::ShortBreak | TimerPhase::LongBreak => self.cycle,
        }
    }

    /// The timer after it moved on to the next phase at `now`: the cycle
    /// counter is brought up to date and the phase that follows begins.
    pub open spec fn advanced(self, now: int) -> TimerModel {
        TimerModel { cycle: self.next_cycle(), ..self }.begun(self.next_phase(), now)
    }

    /// Whether the current phase is over at `now` and the timer is running, so
    /// that a poll at `now` has to move on.
    pub open spec fn due(self, now: int) -> bool {
        self.state == TimerState::Running && self.remaining(now) <= 0
    }

    /// What a poll at `now` answers: `true` when a phase is complete and the
    /// timer moves on, `false` when nothing is due, and an error when a phase
    /// is complete but the phase that follows it cannot begin.
    pub open spec fn poll_outcome(self, now: int) -> Result<bool, TimerError> {
        if !self.due(now) {
            Ok(false)
        } else if self.configured_for(self.next_phase()) {
            Ok(true)
        } else {
            Err(TimerError::InvalidConfiguration)
        }
    }

    /// The timer after a poll at `now`.
    pub open spec fn polled(self, now: int) -> TimerModel {
        if self.due(now) && self.configured_for(self.next_phase()) {
            self.advanced(now)
        } else {
            self
        }
    }
}

} // verus!
