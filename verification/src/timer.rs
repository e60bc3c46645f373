//! The timer engine.
//!
//! Every command and query that depends on the time comes in two forms. The
//! form whose name ends in `_at` takes the instant as an argument, and its
//! contract says exactly what it does. The form without the ending reads the
//! system clock and hands the instant to the first; its contract says what
//! holds whatever the clock showed.
//!
//! Lengths are held in 64 bits. A length that is beyond them, which takes
//! instants some hundred million years apart, is given as the nearest length
//! that fits: the contracts say so with [`fit`].

use vstd::prelude::*;
use crate::clock::now_millis;
use crate::minutes::{fit, Minutes, Progress};
use crate::model::TimerModel;
use crate::phase::{TimerError, TimerPhase, TimerState};

verus! {

/// An instant that may be absent, as a mathematical value.
pub open spec fn instant_view(t: Option<i64>) -> Option<int> {
    match t {
        Some(v) => Some(v as int),
        None => None,
    }
}

/// The timer: its settings and the state of the session.
///
/// All of it is reached through the methods. Whatever is done to a timer, the
/// invariants of [`TimerModel::wf`] hold of it.
pub struct MyApp {
    pomodoro_min: Minutes,
    short_break_min: Minutes,
    cycles: i32,
    long_break_min: Minutes,
    play_sound: bool,
    timer_state: TimerState,
    current_phase: TimerPhase,
    current_cycle: i32,
    phase_start_time: Option<i64>,
    pause_delta_min: Minutes,
    pause_start_time: Option<i64>,
}

impl View for MyApp {
    type V = TimerModel;

    closed spec fn view(&self) -> TimerModel {
        TimerModel {
            pomodoro: self.pomodoro_min.millis as int,
            short_break: self.short_break_min.millis as int,
            long_break: self.long_break_min.millis as int,
            cycles: self.cycles as int,
            play_sound: self.play_sound,
            state: self.timer_state,
            phase: self.current_phase,
            cycle: self.current_cycle as int,
            phase_start: instant_view(self.phase_start_time),
            pause_start: instant_view(self.pause_start_time),
            pause_delta: self.pause_delta_min.millis as int,
        }
    }
}

impl Default for MyApp {
    /// A timer at rest with the usual settings.
    fn default() -> (app: MyApp)
        ensures
            app@ == TimerModel::initial(),
    {
        MyApp {
            pomodoro_min: Minutes::from_whole(25),
            short_break_min: Minutes::from_whole(5),
            cycles: 4,
            long_break_min: Minutes::from_whole(15),
            play_sound: true,
            timer_state: TimerState::Stopped,
            current_phase: TimerPhase::Pomodoro,
            current_cycle: 0,
            phase_start_time: None,
            pause_delta_min: Minutes::from_millis(0),
            pause_start_time: None,
        }
    }
}

impl MyApp {
    /// What the fields of every timer satisfy: the invariants of the model.
    #[verifier::type_invariant]
    pub closed spec fn inv(&self) -> bool {
        self@.wf()
    }

    // ----- the settings -----

    /// The configured length of a focus interval.
    pub fn pomodoro_min(&self) -> (length: Minutes)
        ensures
            length.millis == self@.pomodoro,
    {
        self.pomodoro_min
    }

    /// The configured length of a short break.
    pub fn short_break_min(&self) -> (length: Minutes)
        ensures
            length.millis == self@.short_break,
    {
        self.short_break_min
    }

    /// The configured length of a long break.
    pub fn long_break_min(&self) -> (length: Minutes)
        ensures
            length.millis == self@.long_break,
    {
        self.long_break_min
    }

    /// After how many focus intervals a long break is due.
    pub fn cycles(&self) -> (cycles: i32)
        ensures
            cycles == self@.cycles,
    {
        self.cycles
    }

    /// Whether the host should sound the bell when a phase completes.
    pub fn play_sound(&self) -> (play: bool)
        ensures
            play == self@.play_sound,
    {
        self.play_sound
    }

    /// Sets the length of a focus interval. The settings may change only
    /// while the timer is at rest: otherwise this is turned down with
    /// `InvalidStateTransition` and nothing changes. Any length is taken; one
    /// that is not positive is turned down when a focus interval is to begin.
    pub fn set_pomodoro_min(&mut self, length: Minutes) -> (outcome: Result<(), TimerError>)
        ensures
            outcome is Ok <==> old(self)@.state == TimerState::Stopped,
            outcome is Ok ==> final(self)@ == old(self)@.with_pomodoro(length.millis as int),
            outcome is Err ==> final(self)@ == old(self)@,
            outcome is Err ==> outcome == Err::<(), TimerError>(TimerError::InvalidStateTransition),
    {
        proof {
            use_type_invariant(&*self);
        }
        if self.timer_state != TimerState::Stopped {
            return Err(TimerError::InvalidStateTransition);
        }
        *self = MyApp { pomodoro_min: length, ..*self };
        Ok(())
    }

    /// Sets the length of a short break, under the same rule as
    /// [`MyApp::set_pomodoro_min`].
    pub fn set_short_break_min(&mut self, length: Minutes) -> (outcome: Result<(), TimerError>)
        ensures
            outcome is Ok <==> old(self)@.state == TimerState::Stopped,
            outcome is Ok ==> final(self)@ == old(self)@.with_short_break(length.millis as int),
            outcome is Err ==> final(self)@ == old(self)@,
            outcome is Err ==> outcome == Err::<(), TimerError>(TimerError::InvalidStateTransition),
    {
        proof {
            use_type_invariant(&*self);
        }
        if self.timer_state != TimerState::Stopped {
            return Err(TimerError::InvalidStateTransition);
        }
        *self = MyApp { short_break_min: length, ..*self };
        Ok(())
    }

    /// Sets the length of a long break, under the same rule as
    /// [`MyApp::set_pomodoro_min`].
    pub fn set_long_break_min(&mut self, length: Minutes) -> (outcome: Result<(), TimerError>)
        ensures
            outcome is Ok <==> old(self)@.state == TimerState::Stopped,
            outcome is Ok ==> final(self)@ == old(self)@.with_long_break(length.millis as int),
            outcome is Err ==> final(self)@ == old(self)@,
            outcome is Err ==> outcome == Err::<(), TimerError>(TimerError::InvalidStateTransition),
    {
        proof {
            use_type_invariant(&*self);
        }
        if self.timer_state != TimerState::Stopped {
            return Err(TimerError::InvalidStateTransition);
        }
        *self = MyApp { long_break_min: length, ..*self };
        Ok(())
    }

    /// Sets after how many focus intervals a long break is due, under the
    /// same rule as [`MyApp::set_pomodoro_min`]. A number below one is taken
    /// here and turned down when a phase is to begin.
    pub fn set_cycles(&mut self, cycles: i32) -> (outcome: Result<(), TimerError>)
        ensures
            outcome is Ok <==> old(self)@.state == TimerState::Stopped,
            outcome is Ok ==> final(self)@ == old(self)@.with_cycles(cycles as int),
            outcome is Err ==> final(self)@ == old(self)@,
            outcome is Err ==> outcome == Err::<(), TimerError>(TimerError::InvalidStateTransition),
    {
        proof {
            use_type_invariant(&*self);
        }
        if self.timer_state != TimerState::Stopped {
            return Err(TimerError::InvalidStateTransition);
        }
        *self = MyApp { cycles: cycles, ..*self };
        Ok(())
    }

    /// Sets whether the host should sound the bell when a phase completes,
    /// under the same rule as [`MyApp::set_pomodoro_min`].
    pub fn set_play_sound(&mut self, play: bool) -> (outcome: Result<(), TimerError>)
        ensures
            outcome is Ok <==> old(self)@.state == TimerState::Stopped,
            outcome is Ok ==> final(self)@ == old(self)@.with_play_sound(play),
            outcome is Err ==> final(self)@ == old(self)@,
            outcome is Err ==> outcome == Err::<(), TimerError>(TimerError::InvalidStateTransition),
    {
        proof {
            use_type_invariant(&*self);
        }
        if self.timer_state != TimerState::Stopped {
            return Err(TimerError::InvalidStateTransition);
        }
        *self = MyApp { play_sound: play, ..*self };
        Ok(())
    }

    // ----- the session -----

    /// Whether the timer is running, paused or at rest. Every timer meets the
    /// invariants of the model, and a caller that reasons about one learns so
    /// here.
    pub fn timer_state(&self) -> (state: TimerState)
        ensures
            state == self@.state,
            self@.wf(),
    {
        proof {
            use_type_invariant(self);
        }
        self.timer_state
    }

    /// The kind of the phase that the timer is in, or will start with.
    pub fn current_phase(&self) -> (phase: TimerPhase)
        ensures
            phase == self@.phase,
    {
        self.current_phase
    }

    /// The focus intervals completed since the last long break.
    pub fn current_cycle(&self) -> (cycle: i32)
        ensures
            cycle == self@.cycle,
    {
        self.current_cycle
    }

    /// The instant at which the current phase began; `None` exactly while the
    /// timer is at rest.
    pub fn phase_start_time(&self) -> (instant: Option<i64>)
        ensures
            instant_view(instant) == self@.phase_start,
            instant is None <==> self@.state == TimerState::Stopped,
    {
        proof {
            use_type_invariant(self);
        }
        self.phase_start_time
    }

    /// The instant at which the open pause began; `Some` exactly while the
    /// timer is paused.
    pub fn pause_start_time(&self) -> (instant: Option<i64>)
        ensures
            instant_view(instant) == self@.pause_start,
            instant is Some <==> self@.state == TimerState::Paused,
    {
        proof {
            use_type_invariant(self);
        }
        self.pause_start_time
    }

    /// The total length of the pauses of the current phase that have ended.
    pub fn pause_delta_min(&self) -> (length: Minutes)
        ensures
            length.millis == self@.pause_delta,
            0 <= length.millis,
    {
        proof {
            use_type_invariant(self);
        }
        self.pause_delta_min
    }

    /// The configured length of a phase of the given kind.
    pub fn get_phase_duration_minutes(&self, phase: TimerPhase) -> (duration: Minutes)
        ensures
            duration.millis == self@.duration_of(phase),
    {
        match phase {
            TimerPhase::Pomodoro => self.pomodoro_min,
            TimerPhase::ShortBreak => self.short_break_min,
            TimerPhase::LongBreak => self.long_break_min,
        }
    }

    /// The configured length of the phase that the timer is in, for a timer
    /// in which that length is positive. A phase without a positive length is
    /// not to be timed: ask [`MyApp::get_phase_duration_minutes`] for what is
    /// configured before relying on it. While a session is under way the
    /// length of its phase is always positive.
    pub fn get_current_phase_duration_minutes(&self) -> (duration: Minutes)
        requires
            self@.duration_of(self@.phase) > 0,
        ensures
            duration.millis == self@.duration_of(self@.phase),
            0 < duration.millis,
    {
        self.get_phase_duration_minutes(self.current_phase)
    }

    // ----- the accounting of time -----

    /// The time spent in the current phase as seen at `now`, in full width.
    fn elapsed(&self, now: i64) -> (spent: i128)
        ensures
            spent == self@.spent(now as int),
    {
        proof {
            use_type_invariant(self);
        }
        match self.phase_start_time {
            None => 0,
            Some(phase_start) => {
                let until: i64 = if self.timer_state == TimerState::Paused {
                    match self.pause_start_time {
                        Some(pause_start) => pause_start,
                        None => {
                            return 0;
                        },
                    }
                } else {
                    now
                };
                (until as i128 - phase_start as i128) - self.pause_delta_min.millis as i128
            },
        }
    }

    /// The time spent in the current phase as seen at the instant `now`, with
    /// the pauses left out: the time from the start of the phase to `now`,
    /// less the pauses that have ended. Zero while no phase is under way. While
    /// the timer is paused, the time from the start of the phase to the start
    /// of the pause, less the pauses that have ended, whatever `now` is. A
    /// value beyond 64 bits is given as the nearest length that fits.
    pub fn get_spent_time_minutes_at(&self, now: i64) -> (spent: Minutes)
        ensures
            spent.millis == fit(self@.spent(now as int)),
    {
        Minutes::from_wide(self.elapsed(now))
    }

    /// The time left of the current phase as seen at the instant `now`: the
    /// length of the phase less the time spent. It is zero or negative once
    /// the phase is over. A value beyond 64 bits is given as the nearest
    /// length that fits.
    pub fn get_remaining_time_minutes_at(&self, now: i64) -> (remaining: Minutes)
        ensures
            remaining.millis == fit(self@.remaining(now as int)),
    {
        let total = self.get_phase_duration_minutes(self.current_phase);
        Minutes::from_wide(total.millis as i128 - self.elapsed(now))
    }

    /// How far the current phase has come at the instant `now`, as a part of
    /// the whole: the length of the phase less what is left of it, out of the
    /// length of the phase. What is left counts as zero once the phase has
    /// run over, so the part never exceeds the whole; and where more than the
    /// whole is left the part is zero. A phase without a positive length has
    /// come no way at all: zero out of one.
    pub fn progress_ratio_at(&self, now: i64) -> (progress: Progress)
        ensures
            progress.part == self@.progress_part(now as int),
            progress.whole == self@.progress_whole(),
            0 <= progress.part <= progress.whole,
            0 < progress.whole,
    {
        let total = self.get_phase_duration_minutes(self.current_phase);
        if total.millis > 0 {
            let spent = self.elapsed(now);
            let part: i64 = if spent < 0 {
                0
            } else if spent > total.millis as i128 {
                total.millis
            } else {
                spent as i64
            };
            Progress { part: part, whole: total.millis }
        } else {
            Progress { part: 0, whole: 1 }
        }
    }

    // ----- the commands -----

    /// Whether a phase of the given kind may begin under the current settings.
    fn is_configured_for(&self, phase: TimerPhase) -> (ok: bool)
        ensures
            ok == self@.configured_for(phase),
    {
        self.get_phase_duration_minutes(phase).millis > 0 && self.cycles >= 1
    }

    /// Starts the timer at the instant `now` with a phase of the given kind,
    /// whatever state it is in: it runs, the phase began at `now`, no pause is
    /// open and none is accounted for. It is turned down with
    /// `InvalidConfiguration`, and nothing changes, if the length of that
    /// phase is not positive or the number of cycles is below one.
    pub fn begin_timer_with_phase_at(&mut self, phase: TimerPhase, now: i64) -> (outcome: Result<
        (),
        TimerError,
    >)
        ensures
            outcome is Ok <==> old(self)@.configured_for(phase),
            outcome is Ok ==> final(self)@ == old(self)@.started(phase, now as int),
            outcome is Err ==> final(self)@ == old(self)@,
            outcome is Err ==> outcome == Err::<(), TimerError>(TimerError::InvalidConfiguration),
    {
        proof {
            use_type_invariant(&*self);
        }
        if !self.is_configured_for(phase) {
            return Err(TimerError::InvalidConfiguration);
        }
        *self = MyApp {
            timer_state: TimerState::Running,
            current_phase: phase,
            phase_start_time: Some(now),
            pause_delta_min: Minutes::from_millis(0),
            pause_start_time: None,
            ..*self
        };
        Ok(())
    }

    /// Starts the timer at the instant `now` with a focus interval; see
    /// [`MyApp::begin_timer_with_phase_at`].
    pub fn begin_timer_at(&mut self, now: i64) -> (outcome: Result<(), TimerError>)
        ensures
            outcome is Ok <==> old(self)@.configured_for(TimerPhase::Pomodoro),
            outcome is Ok ==> final(self)@ == old(self)@.started(TimerPhase::Pomodoro, now as int),
            outcome is Err ==> final(self)@ == old(self)@,
            outcome is Err ==> outcome == Err::<(), TimerError>(TimerError::InvalidConfiguration),
    {
        self.begin_timer_with_phase_at(TimerPhase::Pomodoro, now)
    }

    /// Begins a new phase of the given kind at the instant `now` in a session
    /// that is under way: the start of the phase is `now` and no pause is
    /// accounted for. The state stays as it is: a paused timer stays paused,
    /// with the start of its pause. It is turned down, and nothing changes,
    /// with `InvalidStateTransition` if the timer is at rest, and with
    /// `InvalidConfiguration` if it is not at rest and the length of that
    /// phase is not positive.
    pub fn begin_phase_at(&mut self, phase: TimerPhase, now: i64) -> (outcome: Result<
        (),
        TimerError,
    >)
        ensures
            outcome is Ok <==> old(self)@.state != TimerState::Stopped
                && old(self)@.configured_for(phase),
            outcome is Ok ==> final(self)@ == old(self)@.begun(phase, now as int),
            outcome is Err ==> final(self)@ == old(self)@,
            outcome == Err::<(), TimerError>(TimerError::InvalidStateTransition)
                <==> old(self)@.state == TimerState::Stopped,
            outcome == Err::<(), TimerError>(TimerError::InvalidConfiguration)
                <==> old(self)@.state != TimerState::Stopped && !old(self)@.configured_for(phase),
    {
        proof {
            use_type_invariant(&*self);
        }
        if self.timer_state == TimerState::Stopped {
            return Err(TimerError::InvalidStateTransition);
        }
        if !self.is_configured_for(phase) {
            return Err(TimerError::InvalidConfiguration);
        }
        *self = MyApp {
            current_phase: phase,
            phase_start_time: Some(now),
            pause_delta_min: Minutes::from_millis(0),
            ..*self
        };
        Ok(())
    }

    /// Pauses the running timer at the instant `now`. It is turned down with
    /// `InvalidStateTransition`, and nothing changes, if the timer is not
    /// running.
    pub fn pause_timer_at(&mut self, now: i64) -> (outcome: Result<(), TimerError>)
        ensures
            outcome is Ok <==> old(self)@.state == TimerState::Running,
            outcome is Ok ==> final(self)@ == old(self)@.paused(now as int),
            outcome is Err ==> final(self)@ == old(self)@,
            outcome is Err ==> outcome == Err::<(), TimerError>(TimerError::InvalidStateTransition),
    {
        proof {
            use_type_invariant(&*self);
        }
        if self.timer_state != TimerState::Running {
            return Err(TimerError::InvalidStateTransition);
        }
        *self = MyApp { timer_state: TimerState::Paused, pause_start_time: Some(now), ..*self };
        Ok(())
    }

    /// Resumes the paused timer at the instant `now`: the length of the pause,
    /// from its start to `now`, is added to the pauses accounted for, so that
    /// it does not count as time spent. Where `now` lies before the start of
    /// the pause nothing is added: the pauses accounted for never fall. A sum
    /// beyond 64 bits is stored as the greatest length. It is turned down with
    /// `InvalidStateTransition`, and nothing changes, if the timer is not
    /// paused.
    pub fn resume_timer_at(&mut self, now: i64) -> (outcome: Result<(), TimerError>)
        ensures
            outcome is Ok <==> old(self)@.state == TimerState::Paused,
            outcome is Ok ==> final(self)@ == old(self)@.resumed(now as int).limited(),
            outcome is Err ==> final(self)@ == old(self)@,
            outcome is Err ==> outcome == Err::<(), TimerError>(TimerError::InvalidStateTransition),
    {
        proof {
            use_type_invariant(&*self);
        }
        match (self.timer_state, self.pause_start_time) {
            (TimerState::Paused, Some(pause_start)) => {
                let pause: i128 = if now > pause_start {
                    now as i128 - pause_start as i128
                } else {
                    0
                };
                let total = Minutes::from_wide(self.pause_delta_min.millis as i128 + pause);
                *self = MyApp {
                    timer_state: TimerState::Running,
                    pause_delta_min: total,
                    pause_start_time: None,
                    ..*self
                };
                Ok(())
            },
            _ => Err(TimerError::InvalidStateTransition),
        }
    }

    /// Brings the timer to rest, from any state: no phase is under way, the
    /// first focus interval is next and no cycle is counted. The settings stay.
    pub fn reset_timer(&mut self)
        ensures
            final(self)@ == old(self)@.cleared(),
    {
        proof {
            use_type_invariant(&*self);
        }
        *self = MyApp {
            timer_state: TimerState::Stopped,
            current_phase: TimerPhase::Pomodoro,
            current_cycle: 0,
            phase_start_time: None,
            pause_delta_min: Minutes::from_millis(0),
            pause_start_time: None,
            ..*self
        };
    }

    /// The kind of phase that follows the current one, and the cycle counter
    /// that goes with it.
    fn successor(&self) -> (next: (TimerPhase, i32))
        ensures
            next.0 == self@.next_phase(),
            next.1 == self@.next_cycle(),
    {
        proof {
            use_type_invariant(self);
        }
        match self.current_phase {
            TimerPhase::Pomodoro => {
                let counted: i32 = self.current_cycle + 1;
                if counted >= self.cycles {
                    (TimerPhase::LongBreak, 0)
                } else {
                    (TimerPhase::ShortBreak, counted)
                }
            },
            TimerPhase::ShortBreak | TimerPhase::LongBreak => (
                TimerPhase::Pomodoro,
                self.current_cycle,
            ),
        }
    }

    /// Moves the timer on to the next phase at the instant `now`, in a session
    /// that is under way.
    ///
    /// After a focus interval the cycle counter goes up by one; if it has
    /// reached the number of cycles a long break follows and the counter
    /// returns to zero, else a short break follows. After a break a focus
    /// interval follows and the counter stays. The phase that follows begins
    /// at `now` with no pause accounted for. The state stays as it is: a
    /// paused timer stays paused, with the start of its pause. It is turned
    /// down, and nothing changes, with `InvalidStateTransition` if the timer
    /// is at rest, and with `InvalidConfiguration` if it is not at rest and
    /// the length of the phase that follows is not positive.
    pub fn next_phase_at(&mut self, now: i64) -> (outcome: Result<(), TimerError>)
        ensures
            outcome is Ok <==> old(self)@.state != TimerState::Stopped
                && old(self)@.configured_for(old(self)@.next_phase()),
            outcome is Ok ==> final(self)@ == old(self)@.advanced(now as int),
            outcome is Err ==> final(self)@ == old(self)@,
            outcome == Err::<(), TimerError>(TimerError::InvalidStateTransition)
                <==> old(self)@.state == TimerState::Stopped,
            outcome == Err::<(), TimerError>(TimerError::InvalidConfiguration)
                <==> old(self)@.state != TimerState::Stopped
                && !old(self)@.configured_for(old(self)@.next_phase()),
    {
        proof {
            use_type_invariant(&*self);
        }
        if self.timer_state == TimerState::Stopped {
            return Err(TimerError::InvalidStateTransition);
        }
        let (phase, cycle) = self.successor();
        if !self.is_configured_for(phase) {
            return Err(TimerError::InvalidConfiguration);
        }
        *self = MyApp {
            current_phase: phase,
            current_cycle: cycle,
            phase_start_time: Some(now),
            pause_delta_min: Minutes::from_millis(0),
            ..*self
        };
        Ok(())
    }

    /// The poll of the host loop, at the instant `now`.
    ///
    /// If the timer is running and no time is left of the current phase, the
    /// phase is complete: the timer moves on to the next phase, which begins
    /// at `now`, and the answer is `true`, the one signal for this completion.
    /// Otherwise nothing changes and the answer is `false`. If the phase is
    /// complete but the length of the phase that follows is not positive, the
    /// poll is turned down with `InvalidConfiguration` and nothing changes.
    pub fn handle_timer_completion_at(&mut self, now: i64) -> (outcome: Result<bool, TimerError>)
        ensures
            outcome == old(self)@.poll_outcome(now as int),
            final(self)@ == old(self)@.polled(now as int),
    {
        let remaining = self.get_remaining_time_minutes_at(now);
        if self.timer_state == TimerState::Running && remaining.millis <= 0 {
            match self.next_phase_at(now) {
                Ok(_) => Ok(true),
                Err(e) => Err(e),
            }
        } else {
            Ok(false)
        }
    }

    // ----- the same, at the instant the system clock shows -----

    /// [`MyApp::get_spent_time_minutes_at`] for the instant the system clock
    /// shows. While the timer does not run the clock has no say.
    pub fn get_spent_time_minutes(&self) -> (spent: Minutes)
        ensures
            exists|now: i64| spent.millis == fit(self@.spent(now as int)),
            self@.state != TimerState::Running ==> spent.millis == fit(self@.spent(0)),
    {
        proof {
            use_type_invariant(self);
        }
        let now = now_millis();
        self.get_spent_time_minutes_at(now)
    }

    /// [`MyApp::get_remaining_time_minutes_at`] for the instant the system
    /// clock shows. While the timer does not run the clock has no say.
    pub fn get_remaining_time_minutes(&self) -> (remaining: Minutes)
        ensures
            exists|now: i64| remaining.millis == fit(self@.remaining(now as int)),
            self@.state != TimerState::Running ==> remaining.millis == fit(self@.remaining(0)),
    {
        proof {
            use_type_invariant(self);
        }
        let now = now_millis();
        self.get_remaining_time_minutes_at(now)
    }

    /// [`MyApp::progress_ratio_at`] for the instant the system clock shows.
    /// While the timer does not run the clock has no say.
    pub fn progress_ratio(&self) -> (progress: Progress)
        ensures
            exists|now: i64| progress.part == self@.progress_part(now as int),
            progress.whole == self@.progress_whole(),
            0 <= progress.part <= progress.whole,
            0 < progress.whole,
            self@.state != TimerState::Running ==> progress.part == self@.progress_part(0),
    {
        proof {
            use_type_invariant(self);
        }
        let now = now_millis();
        self.progress_ratio_at(now)
    }

    /// [`MyApp::begin_timer_at`] for the instant the system clock shows.
    pub fn begin_timer(&mut self) -> (outcome: Result<(), TimerError>)
        ensures
            outcome is Ok <==> old(self)@.configured_for(TimerPhase::Pomodoro),
            outcome is Ok ==> exists|now: i64|
                final(self)@ == old(self)@.started(TimerPhase::Pomodoro, now as int),
            outcome is Err ==> final(self)@ == old(self)@,
            outcome is Err ==> outcome == Err::<(), TimerError>(TimerError::InvalidConfiguration),
    {
        let now = now_millis();
        self.begin_timer_at(now)
    }

    /// [`MyApp::begin_timer_with_phase_at`] for the instant the system clock
    /// shows.
    pub fn begin_timer_with_phase(&mut self, phase: TimerPhase) -> (outcome: Result<
        (),
        TimerError,
    >)
        ensures
            outcome is Ok <==> old(self)@.configured_for(phase),
            outcome is Ok ==> exists|now: i64|
                final(self)@ == old(self)@.started(phase, now as int),
            outcome is Err ==> final(self)@ == old(self)@,
            outcome is Err ==> outcome == Err::<(), TimerError>(TimerError::InvalidConfiguration),
    {
        let now = now_millis();
        self.begin_timer_with_phase_at(phase, now)
    }

    /// [`MyApp::begin_phase_at`] for the instant the system clock shows.
    pub fn begin_phase(&mut self, phase: TimerPhase) -> (outcome: Result<(), TimerError>)
        ensures
            outcome is Ok <==> old(self)@.state != TimerState::Stopped
                && old(self)@.configured_for(phase),
            outcome is Ok ==> exists|now: i64|
                final(self)@ == old(self)@.begun(phase, now as int),
            outcome is Err ==> final(self)@ == old(self)@,
            outcome == Err::<(), TimerError>(TimerError::InvalidStateTransition)
                <==> old(self)@.state == TimerState::Stopped,
            outcome == Err::<(), TimerError>(TimerError::InvalidConfiguration)
                <==> old(self)@.state != TimerState::Stopped && !old(self)@.configured_for(phase),
    {
        let now = now_millis();
        self.begin_phase_at(phase, now)
    }

    /// [`MyApp::pause_timer_at`] for the instant the system clock shows.
    pub fn pause_timer(&mut self) -> (outcome: Result<(), TimerError>)
        ensures
            outcome is Ok <==> old(self)@.state == TimerState::Running,
            outcome is Ok ==> exists|now: i64|
                final(self)@ == old(self)@.paused(now as int),
            outcome is Err ==> final(self)@ == old(self)@,
            outcome is Err ==> outcome == Err::<(), TimerError>(TimerError::InvalidStateTransition),
    {
        let now = now_millis();
        self.pause_timer_at(now)
    }

    /// [`MyApp::resume_timer_at`] for the instant the system clock shows.
    pub fn resume_timer(&mut self) -> (outcome: Result<(), TimerError>)
        ensures
            outcome is Ok <==> old(self)@.state == TimerState::Paused,
            outcome is Ok ==> exists|now: i64|
                final(self)@ == old(self)@.resumed(now as int).limited(),
            outcome is Err ==> final(self)@ == old(self)@,
            outcome is Err ==> outcome == Err::<(), TimerError>(TimerError::InvalidStateTransition),
    {
        let now = now_millis();
        self.resume_timer_at(now)
    }

    /// [`MyApp::next_phase_at`] for the instant the system clock shows.
    pub fn next_phase(&mut self) -> (outcome: Result<(), TimerError>)
        ensures
            outcome is Ok <==> old(self)@.state != TimerState::Stopped
                && old(self)@.configured_for(old(self)@.next_phase()),
            outcome is Ok ==> exists|now: i64|
                final(self)@ == old(self)@.advanced(now as int),
            outcome is Err ==> final(self)@ == old(self)@,
            outcome == Err::<(), TimerError>(TimerError::InvalidStateTransition)
                <==> old(self)@.state == TimerState::Stopped,
            outcome == Err::<(), TimerError>(TimerError::InvalidConfiguration)
                <==> old(self)@.state != TimerState::Stopped
                && !old(self)@.configured_for(old(self)@.next_phase()),
    {
        let now = now_millis();
        self.next_phase_at(now)
    }

    /// [`MyApp::handle_timer_completion_at`] for the instant the system clock
    /// shows. Whatever the clock shows, a timer that does not run is left as
    /// it is and gives no signal.
    pub fn handle_timer_completion(&mut self) -> (outcome: Result<bool, TimerError>)
        ensures
            exists|now: i64|
                outcome == #[trigger] old(self)@.poll_outcome(now as int)
                    && final(self)@ == old(self)@.polled(now as int),
            old(self)@.state != TimerState::Running ==> outcome == Ok::<bool, TimerError>(false)
                && final(self)@ == old(self)@,
    {
        let now = now_millis();
        self.handle_timer_completion_at(now)
    }
}

} // verus!
