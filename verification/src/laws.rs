//! What holds of the timer whatever the settings, the state and the clock.
//!
//! Each statement is about the functions of [`TimerModel`], in which the
//! contracts of the engine are written, so it holds of every run of the
//! engine. The engine gives a length through [`fit`] and stores the pauses
//! through [`TimerModel::limited`]; the first two statements say that both
//! change nothing wherever the length fits in 64 bits.

use vstd::prelude::*;
use crate::minutes::{fit, fits};
use crate::model::{total_length, TimerModel};
use crate::phase::{TimerError, TimerPhase, TimerState};

verus! {

/// A length that fits is given as it is. One that does not is given as the
/// nearest that does, so that lengths keep their order and their sign.
pub proof fn fit_keeps_what_fits(a: int, b: int)
    ensures
        fits(fit(a)),
        fits(a) ==> fit(a) == a,
        a <= b ==> fit(a) <= fit(b),
        fit(a) <= 0 <==> a <= 0,
        fit(a) >= 0 <==> a >= 0,
{
}

/// A timer whose pauses fit is stored as it is.
pub proof fn limited_keeps_what_fits(m: TimerModel)
    ensures
        fits(m.pause_delta) ==> m.limited() == m,
        m.wf() ==> m.limited().wf(),
        m.wf() && fits(m.pause_delta) ==> m.limited().pause_delta >= m.pause_delta,
{
}

/// The timer that `MyApp::default` gives meets the invariants.
pub proof fn initial_is_wf()
    ensures
        TimerModel::initial().wf(),
{
}

/// Every command keeps the invariants: a timer that meets them before a start,
/// a pause, a resume, a reset, a new phase, a move to the next phase or a
/// poll, each on the inputs on which the engine carries it out, meets them
/// after it.
pub proof fn commands_keep_wf(m: TimerModel, phase: TimerPhase, now: int)
    requires
        m.wf(),
    ensures
        m.configured_for(phase) ==> m.started(phase, now).wf(),
        m.state == TimerState::Running ==> m.paused(now).wf(),
        m.state == TimerState::Paused ==> m.resumed(now).wf() && m.resumed(now).limited().wf(),
        m.cleared().wf(),
        m.state != TimerState::Stopped && m.configured_for(phase) ==> m.begun(phase, now).wf(),
        m.state != TimerState::Stopped && m.configured_for(m.next_phase())
            ==> m.advanced(now).wf(),
        m.polled(now).wf(),
{
}

/// A change of the settings keeps the invariants while the timer is at rest,
/// whatever the new value is.
pub proof fn settings_keep_wf(m: TimerModel, length: int, cycles: int, play: bool)
    requires
        m.wf(),
        m.state == TimerState::Stopped,
    ensures
        m.with_pomodoro(length).wf(),
        m.with_short_break(length).wf(),
        m.with_long_break(length).wf(),
        m.with_cycles(cycles).wf(),
        m.with_play_sound(play).wf(),
{
}

/// The session fields follow the state: the start of the phase is known
/// exactly while the timer runs or is paused, the start of a pause exactly
/// while it is paused, and the cycle counter stays below the number of cycles
/// while a session is under way.
pub proof fn session_fields_follow_state(m: TimerModel)
    requires
        m.wf(),
    ensures
        m.phase_start is Some <==> (m.state == TimerState::Running
            || m.state == TimerState::Paused),
        m.pause_start is Some <==> m.state == TimerState::Paused,
        0 <= m.pause_delta,
        0 <= m.cycle,
        m.state != TimerState::Stopped ==> m.cycle < m.cycles,
{
}

/// The pauses accounted for only grow within a phase: a resume never lowers
/// them, a resume after the start of the pause raises them, and a pause leaves
/// them as they are. They return to zero only when a phase begins.
pub proof fn pause_delta_only_grows(m: TimerModel, phase: TimerPhase, now: int)
    requires
        m.wf(),
        m.state != TimerState::Stopped,
    ensures
        m.state == TimerState::Paused ==> m.resumed(now).pause_delta >= m.pause_delta,
        m.state == TimerState::Paused && now > m.pause_start.unwrap() ==> m.resumed(
            now,
        ).pause_delta > m.pause_delta,
        m.paused(now).pause_delta == m.pause_delta,
        m.begun(phase, now).pause_delta == 0,
        m.started(phase, now).pause_delta == 0,
        m.advanced(now).pause_delta == 0,
{
}

/// Right after a start the whole length of the phase remains and nothing is
/// spent, whatever the settings and whatever the timer was doing before. At
/// any other instant what remains is short of the length by the time gone by
/// since the start.
pub proof fn remaining_after_start_is_duration(
    m: TimerModel,
    phase: TimerPhase,
    start: int,
    now: int,
)
    ensures
        m.started(phase, start).remaining(start) == m.duration_of(phase),
        m.started(phase, start).spent(start) == 0,
        m.started(phase, start).remaining(now) == m.duration_of(phase) - (now - start),
{
}

/// While the timer runs, the time spent is the time from the start of the
/// phase to `now` less the pauses that have ended; while it is paused, the
/// time from the start of the phase to the start of the pause less the pauses
/// that have ended; at rest, nothing. What remains is the length of the phase
/// less the time spent.
pub proof fn spent_is_elapsed_less_pauses(m: TimerModel, now: int)
    requires
        m.wf(),
    ensures
        m.state == TimerState::Running ==> m.spent(now) == (now - m.phase_start.unwrap())
            - m.pause_delta,
        m.state == TimerState::Paused ==> m.spent(now) == (m.pause_start.unwrap()
            - m.phase_start.unwrap()) - m.pause_delta,
        m.state == TimerState::Stopped ==> m.spent(now) == 0,
        m.remaining(now) == m.duration_of(m.phase) - m.spent(now),
{
}

/// While the timer runs, two readings of the time spent differ by exactly the
/// time between them, so the time spent never goes down as the clock goes on.
/// In any state a later reading is at least the earlier one.
pub proof fn spent_is_monotonic(m: TimerModel, t1: int, t2: int)
    requires
        m.wf(),
    ensures
        m.state == TimerState::Running ==> m.spent(t2) - m.spent(t1) == t2 - t1,
        t1 <= t2 ==> m.spent(t1) <= m.spent(t2),
        t1 <= t2 ==> m.remaining(t1) >= m.remaining(t2),
{
}

/// A pause freezes the time spent: a paused timer shows the same value at any
/// two instants.
pub proof fn pause_freezes_spent(m: TimerModel, t1: int, t2: int)
    requires
        m.state == TimerState::Paused,
    ensures
        m.spent(t1) == m.spent(t2),
        m.remaining(t1) == m.remaining(t2),
        m.progress_part(t1) == m.progress_part(t2),
{
}

/// Pausing at an instant keeps what had been spent at that instant.
pub proof fn pause_keeps_spent(m: TimerModel, at: int, later_on: int)
    requires
        m.wf(),
        m.state == TimerState::Running,
    ensures
        m.paused(at).spent(later_on) == m.spent(at),
{
}

/// A pause is left out of the time spent. Take a running timer that is paused
/// at `paused_at` and resumed at `resumed_at`, not before the pause, and look
/// at it at `now`. The pauses accounted for have grown by the length of the
/// pause, and everything else is as it was before the pause. The time spent is
/// what it was when the pause began plus the time since the resume, which is
/// the time since the start of the phase less all the pauses. So it is above
/// the value at the pause as soon as `now` is after the resume, and below the
/// plain time since the start of the phase as soon as a pause had any length.
pub proof fn resume_excludes_pause(m: TimerModel, paused_at: int, resumed_at: int, now: int)
    requires
        m.wf(),
        m.state == TimerState::Running,
        paused_at <= resumed_at,
    ensures
        ({
            let paused = m.paused(paused_at);
            let resumed = paused.resumed(resumed_at);
            let at_pause = paused.spent(paused_at);
            let pause = resumed_at - paused_at;
            &&& resumed == TimerModel { pause_delta: m.pause_delta + pause, ..m }
            &&& resumed.spent(now) == at_pause + (now - resumed_at)
            &&& resumed.spent(now) == (now - m.phase_start.unwrap()) - m.pause_delta - pause
            &&& resumed_at < now ==> resumed.spent(now) > at_pause
            &&& resumed_at <= now ==> resumed.spent(now) >= at_pause
            &&& 0 < m.pause_delta + pause ==> resumed.spent(now) < now - m.phase_start.unwrap()
        }),
{
}

/// The same of what the engine gives and stores, wherever the lengths fit in
/// 64 bits: if the pauses accounted for fit after the resume, the timer is
/// stored as the model has it, and if the time spent fits at the pause and at
/// `now`, the value given at `now` is the value given at the pause plus the
/// time since the resume.
pub proof fn resume_excludes_pause_as_given(
    m: TimerModel,
    paused_at: int,
    resumed_at: int,
    now: int,
)
    requires
        m.wf(),
        m.state == TimerState::Running,
        paused_at <= resumed_at,
        fits(m.pause_delta + (resumed_at - paused_at)),
    ensures
        ({
            let paused = m.paused(paused_at);
            let resumed = paused.resumed(resumed_at).limited();
            &&& resumed == TimerModel { pause_delta: m.pause_delta + (resumed_at - paused_at), ..m }
            &&& fits(paused.spent(paused_at)) && fits(resumed.spent(now)) ==> fit(
                resumed.spent(now),
            ) == fit(paused.spent(paused_at)) + (now - resumed_at)
        }),
{
}

/// Every pause that has ended is left out of the time spent exactly once,
/// however many there were. Take a running timer and any number of pauses,
/// none resumed before it began. After all of them the pauses accounted for
/// have grown by their total length and everything else is as it was, so the
/// time spent at `now` is the time since the start of the phase less the
/// pauses accounted for before and less that total.
pub proof fn pauses_are_left_out_once(m: TimerModel, pauses: Seq<(int, int)>, now: int)
    requires
        m.wf(),
        m.state == TimerState::Running,
        forall|i: int| 0 <= i < pauses.len() ==> (#[trigger] pauses[i]).0 <= pauses[i].1,
    ensures
        0 <= total_length(pauses),
        m.after_pauses(pauses) == (TimerModel {
            pause_delta: m.pause_delta + total_length(pauses),
            ..m
        }),
        m.after_pauses(pauses).spent(now) == (now - m.phase_start.unwrap()) - m.pause_delta
            - total_length(pauses),
    decreases pauses.len(),
{
    if pauses.len() > 0 {
        let earlier = pauses.drop_last();
        assert forall|i: int| 0 <= i < earlier.len() implies (#[trigger] earlier[i]).0
            <= earlier[i].1 by {
            assert(earlier[i] == pauses[i]);
        }
        pauses_are_left_out_once(m, earlier, now);
        assert(pauses.last() == pauses[pauses.len() - 1]);
    }
}

/// The engine stores the timer after any number of pauses as the model has it,
/// wherever the pauses accounted for fit in 64 bits at the end: they only
/// grow, so they fit all the way.
pub proof fn pauses_are_stored_as_they_are(m: TimerModel, pauses: Seq<(int, int)>)
    requires
        m.wf(),
        m.state == TimerState::Running,
        forall|i: int| 0 <= i < pauses.len() ==> (#[trigger] pauses[i]).0 <= pauses[i].1,
        fits(m.pause_delta + total_length(pauses)),
    ensures
        m.stored_after_pauses(pauses) == m.after_pauses(pauses),
    decreases pauses.len(),
{
    if pauses.len() > 0 {
        let earlier = pauses.drop_last();
        assert forall|i: int| 0 <= i < earlier.len() implies (#[trigger] earlier[i]).0
            <= earlier[i].1 by {
            assert(earlier[i] == pauses[i]);
        }
        assert(pauses.last() == pauses[pauses.len() - 1]);
        pauses_are_left_out_once(m, earlier, 0);
        pauses_are_left_out_once(m, pauses, 0);
        pauses_are_stored_as_they_are(m, earlier);
    }
}

/// A pause and a resume at one instant change nothing. A resume before the
/// start of the pause, as after the clock was set back, adds no pause.
pub proof fn resume_at_once_changes_nothing(m: TimerModel, paused_at: int, resumed_at: int)
    requires
        m.wf(),
        m.state == TimerState::Running,
        resumed_at <= paused_at,
    ensures
        m.paused(paused_at).resumed(resumed_at) == m,
{
}

/// The end of a focus interval, in a session that is under way, running or
/// paused. If it is the last of its round, that is, the cycle counter is one
/// below the number of cycles, a long break follows and the counter returns to
/// zero. After any earlier one a short break follows and the counter goes up
/// by one.
pub proof fn focus_is_followed_by_break(m: TimerModel, now: int)
    requires
        m.wf(),
        m.state != TimerState::Stopped,
        m.phase == TimerPhase::Pomodoro,
    ensures
        m.cycle == m.cycles - 1 ==> m.advanced(now).phase == TimerPhase::LongBreak
            && m.advanced(now).cycle == 0,
        m.cycle < m.cycles - 1 ==> m.advanced(now).phase == TimerPhase::ShortBreak
            && m.advanced(now).cycle == m.cycle + 1,
        0 <= m.advanced(now).cycle < m.cycles,
{
}

/// The end of a break, short or long: a focus interval follows and the cycle
/// counter is not touched.
pub proof fn break_is_followed_by_focus(m: TimerModel, now: int)
    requires
        m.phase == TimerPhase::ShortBreak || m.phase == TimerPhase::LongBreak,
    ensures
        m.advanced(now).phase == TimerPhase::Pomodoro,
        m.advanced(now).cycle == m.cycle,
{
}

/// A new phase, begun by hand or by a move to the next phase, begins afresh at
/// `now`: no pause is accounted for. The state, the start of an open pause and
/// the settings are not touched, and a phase begun by hand leaves the cycle
/// counter alone. In a running timer nothing is spent at `now` and the whole
/// length of the new phase remains.
pub proof fn new_phase_begins_afresh(m: TimerModel, phase: TimerPhase, now: int)
    ensures
        m.begun(phase, now) == (TimerModel {
            phase: phase,
            phase_start: Some(now),
            pause_delta: 0,
            ..m
        }),
        m.advanced(now) == (TimerModel {
            phase: m.next_phase(),
            cycle: m.next_cycle(),
            phase_start: Some(now),
            pause_delta: 0,
            ..m
        }),
        m.state == TimerState::Running ==> m.begun(phase, now).spent(now) == 0 && m.begun(
            phase,
            now,
        ).remaining(now) == m.duration_of(phase),
        m.state == TimerState::Running ==> m.advanced(now).spent(now) == 0 && m.advanced(
            now,
        ).remaining(now) == m.duration_of(m.next_phase()),
{
}

/// A reset, from any state, leaves the timer at rest before the first focus
/// interval, with no cycle counted, no instant stored and no pause accounted
/// for. A second reset changes nothing more.
pub proof fn reset_clears_session(m: TimerModel)
    ensures
        m.cleared().state == TimerState::Stopped,
        m.cleared().phase == TimerPhase::Pomodoro,
        m.cleared().cycle == 0,
        m.cleared().phase_start is None,
        m.cleared().pause_start is None,
        m.cleared().pause_delta == 0,
        m.cleared().cleared() == m.cleared(),
        m.cleared().pomodoro == m.pomodoro,
        m.cleared().short_break == m.short_break,
        m.cleared().long_break == m.long_break,
        m.cleared().cycles == m.cycles,
        m.cleared().play_sound == m.play_sound,
{
}

/// A completion is signalled once. After a poll that answered `true`, the
/// whole length of the new phase remains and that length is positive, so a
/// second poll at the same instant answers `false` and changes nothing.
pub proof fn completion_is_signalled_once(m: TimerModel, now: int)
    requires
        m.wf(),
        m.poll_outcome(now) == Ok::<bool, TimerError>(true),
    ensures
        m.polled(now) == m.advanced(now),
        m.polled(now).state == TimerState::Running,
        m.polled(now).remaining(now) == m.duration_of(m.next_phase()),
        m.polled(now).remaining(now) > 0,
        m.polled(now).poll_outcome(now) == Ok::<bool, TimerError>(false),
        m.polled(now).polled(now) == m.polled(now),
{
}

/// A poll acts only on a running timer whose phase is over: a timer that is
/// paused or at rest, or one with time left, is left as it is and gives no
/// signal.
pub proof fn poll_leaves_unfinished_alone(m: TimerModel, now: int)
    requires
        m.state != TimerState::Running || m.remaining(now) > 0,
    ensures
        m.poll_outcome(now) == Ok::<bool, TimerError>(false),
        m.polled(now) == m,
{
}

/// The progress of a phase lies between nothing and the whole of it, and goes
/// with the time spent: it is the time spent, held between zero and the length
/// of the phase.
pub proof fn progress_is_a_fraction(m: TimerModel, now: int)
    ensures
        0 <= m.progress_part(now) <= m.progress_whole(),
        0 < m.progress_whole(),
        m.duration_of(m.phase) > 0 ==> m.progress_part(now) == (if m.spent(now) < 0 {
            0
        } else if m.spent(now) < m.duration_of(m.phase) {
            m.spent(now)
        } else {
            m.duration_of(m.phase)
        }),
{
}

} // verus!
