use std::time::{Duration, Instant};

use mypomodoro::{Minutes, MyApp};

/// Lets the wall clock run on for the given time.
fn wait(time: Duration) {
    let begin = Instant::now();
    while begin.elapsed() < time {
        std::hint::spin_loop();
    }
}

#[test]
fn test_get_spent_time_minutes_when_stopped() {
    let app = MyApp::default();

    assert_eq!(app.get_spent_time_minutes(), Minutes::from_whole(0));
}

#[test]
fn test_get_remaining_time_minutes_when_stopped() {
    let app = MyApp::default();

    assert_eq!(app.get_remaining_time_minutes(), app.pomodoro_min());
}

#[test]
fn test_get_spent_time_minutes_increases_over_time() {
    let mut app = MyApp::default();

    app.begin_timer().unwrap();

    let initial_spent = app.get_spent_time_minutes();

    wait(Duration::from_millis(100));

    let later_spent = app.get_spent_time_minutes();

    assert!(later_spent > initial_spent);
}

#[test]
fn test_get_remaining_time_minutes_decreases_over_time() {
    let mut app = MyApp::default();

    app.begin_timer().unwrap();

    let initial_remaining = app.get_remaining_time_minutes();

    wait(Duration::from_millis(100));

    let later_remaining = app.get_remaining_time_minutes();

    assert!(later_remaining < initial_remaining);
}

#[test]
fn test_pause_stops_time_calculation() {
    let mut app = MyApp::default();

    app.begin_timer().unwrap();

    wait(Duration::from_millis(100));

    app.pause_timer().unwrap();

    let spent_at_pause = app.get_spent_time_minutes();

    wait(Duration::from_millis(100));

    let spent_after_wait = app.get_spent_time_minutes();

    assert_eq!(spent_at_pause, spent_after_wait);
}

#[test]
fn test_resume_continues_time_calculation() {
    let mut app = MyApp::default();

    app.begin_timer().unwrap();

    app.pause_timer().unwrap();

    let spent_at_pause = app.get_spent_time_minutes();

    app.resume_timer().unwrap();

    wait(Duration::from_millis(100));

    let spent_after_resume = app.get_spent_time_minutes();

    assert!(spent_after_resume > spent_at_pause);
}

#[test]
fn test_clock_reads_the_current_instant() {
    let before = chrono::Utc::now().timestamp_millis();
    let mut app = MyApp::default();
    app.begin_timer().unwrap();
    let after = chrono::Utc::now().timestamp_millis();

    let start = app.phase_start_time().unwrap();
    assert!(before <= start);
    assert!(start <= after);
    // Later than the first day of 2020: the clock is in milliseconds.
    assert!(start > 1_577_836_800_000);
}

#[test]
fn test_pause_and_resume_read_the_clock() {
    let mut app = MyApp::default();
    app.begin_timer().unwrap();
    let start = app.phase_start_time().unwrap();

    wait(Duration::from_millis(30));
    app.pause_timer().unwrap();
    let pause_start = app.pause_start_time().unwrap();
    assert!(pause_start >= start + 25);

    wait(Duration::from_millis(40));
    app.resume_timer().unwrap();
    assert!(app.pause_delta_min().as_millis() >= 35);
    assert!(app.pause_delta_min().as_millis() < 5_000);
}

#[test]
fn test_poll_reads_the_clock() {
    let mut app = MyApp::default();
    app.set_pomodoro_min(Minutes::from_millis(20)).unwrap();
    app.begin_timer().unwrap();
    assert_eq!(app.get_current_phase_duration_minutes(), Minutes::from_millis(20));

    wait(Duration::from_millis(60));

    assert_eq!(app.handle_timer_completion(), Ok(true));
    assert_eq!(app.current_phase(), mypomodoro::TimerPhase::ShortBreak);
    assert_eq!(app.handle_timer_completion(), Ok(false));
    let progress = app.progress_ratio();
    assert_eq!(progress.whole, 5 * 60_000);
    assert!(progress.part < 5_000);
}
