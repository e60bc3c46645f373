use mypomodoro::display::{remaining_color, spent_color};
use mypomodoro::minutes::{MS_PER_MINUTE, MS_PER_SECOND};
use mypomodoro::{Minutes, Rgb, TimerError, TimerPhase, TimerState};

#[test]
fn minutes_are_kept_in_milliseconds() {
    assert_eq!(MS_PER_MINUTE, 60_000);
    assert_eq!(MS_PER_SECOND, 1_000);
    assert_eq!(Minutes::from_whole(25).as_millis(), 1_500_000);
    assert_eq!(Minutes::from_whole(-1).as_millis(), -60_000);
    assert_eq!(Minutes::from_whole(0), Minutes::from_millis(0));
    assert_eq!(Minutes::from_whole(i32::MAX).as_millis(), 128_849_018_820_000);
    assert_eq!(Minutes::from_whole(i32::MIN).as_millis(), -128_849_018_880_000);
    assert_eq!(Minutes::from_millis(90_500).millis, 90_500);
    assert!(Minutes::from_millis(1) < Minutes::from_millis(2));
    assert!(Minutes::from_millis(-1) < Minutes::from_millis(0));
}

#[test]
fn countdown_shows_whole_minutes_and_seconds() {
    assert_eq!(Minutes::from_whole(25).countdown(), (25, 0));
    assert_eq!(Minutes::from_millis(1_499_999).countdown(), (24, 59));
    assert_eq!(Minutes::from_millis(60_000).countdown(), (1, 0));
    assert_eq!(Minutes::from_millis(59_999).countdown(), (0, 59));
    assert_eq!(Minutes::from_millis(61_500).countdown(), (1, 1));
    assert_eq!(Minutes::from_millis(1_000).countdown(), (0, 1));
    assert_eq!(Minutes::from_millis(i64::MAX).countdown(), (153_722_867_280_912, 55));
}

#[test]
fn countdown_shows_a_second_while_any_time_is_left() {
    assert_eq!(Minutes::from_millis(999).countdown(), (0, 1));
    assert_eq!(Minutes::from_millis(1).countdown(), (0, 1));
    assert_eq!(Minutes::from_millis(60_001).countdown(), (1, 0));
}

#[test]
fn countdown_shows_nought_when_no_time_is_left() {
    assert_eq!(Minutes::from_millis(0).countdown(), (0, 0));
    assert_eq!(Minutes::from_millis(-5).countdown(), (0, 0));
    assert_eq!(Minutes::from_whole(-25).countdown(), (0, 0));
    assert_eq!(Minutes::from_millis(i64::MIN).countdown(), (0, 0));
}

#[test]
fn seconds_are_rounded_to_the_nearest() {
    assert_eq!(Minutes::from_millis(0).rounded_seconds(), 0);
    assert_eq!(Minutes::from_millis(499).rounded_seconds(), 0);
    assert_eq!(Minutes::from_millis(500).rounded_seconds(), 1);
    assert_eq!(Minutes::from_millis(1_499).rounded_seconds(), 1);
    assert_eq!(Minutes::from_millis(1_500).rounded_seconds(), 2);
    assert_eq!(Minutes::from_whole(25).rounded_seconds(), 1_500);
    assert_eq!(Minutes::from_millis(-499).rounded_seconds(), 0);
    assert_eq!(Minutes::from_millis(-500).rounded_seconds(), -1);
    assert_eq!(Minutes::from_millis(-1_499).rounded_seconds(), -1);
    assert_eq!(Minutes::from_millis(-1_500).rounded_seconds(), -2);
    assert_eq!(Minutes::from_millis(i64::MAX).rounded_seconds(), 9_223_372_036_854_776);
    assert_eq!(Minutes::from_millis(i64::MIN).rounded_seconds(), -9_223_372_036_854_776);
}

#[test]
fn errors_say_what_went_wrong() {
    assert_eq!(
        TimerError::InvalidStateTransition.message(),
        "the timer is not in a state that allows this"
    );
    assert_eq!(
        TimerError::InvalidConfiguration.message(),
        "a phase length or the cycle count is not positive"
    );
}

#[test]
fn each_phase_has_its_colour() {
    for state in [TimerState::Running, TimerState::Stopped] {
        assert_eq!(
            remaining_color(state, TimerPhase::Pomodoro),
            Rgb { red: 255, green: 70, blue: 70 }
        );
        assert_eq!(
            remaining_color(state, TimerPhase::ShortBreak),
            Rgb { red: 70, green: 200, blue: 70 }
        );
        assert_eq!(
            remaining_color(state, TimerPhase::LongBreak),
            Rgb { red: 70, green: 130, blue: 255 }
        );
    }
    for phase in [TimerPhase::Pomodoro, TimerPhase::ShortBreak, TimerPhase::LongBreak] {
        assert_eq!(
            remaining_color(TimerState::Paused, phase),
            Rgb { red: 150, green: 150, blue: 150 }
        );
    }
    assert_eq!(spent_color(), Rgb { red: 80, green: 80, blue: 80 });
}
