use focus_daily::timer_state::{SessionPhase, TimerState, TimerStatus};

#[test]
fn default_state_is_empty_and_idle() {
    let t = TimerState::default();
    assert!(matches!(t.status, TimerStatus::Idle));
    assert!(matches!(t.phase, SessionPhase::Focus));
    assert_eq!(t.total_duration, 0);
    assert_eq!(t.remaining_duration, 0);
    assert_eq!(t.elapsed_duration, 0);
    assert!(t.start_time.is_none());
    assert!(t.session_id.is_none());
}

#[test]
fn new_focus_session_converts_minutes() {
    let t = TimerState::new_focus_session(90);
    assert_eq!(t.total_duration, 5400);
    assert_eq!(t.remaining_duration, 5400);
    assert_eq!(t.elapsed_duration, 0);
    assert!(matches!(t.phase, SessionPhase::Focus));
    assert!(matches!(t.status, TimerStatus::Idle));
}

#[test]
fn start_pause_resume_round_trip() {
    let mut t = TimerState::new_focus_session(1);
    t.start(1_000);
    assert!(matches!(t.status, TimerStatus::Running));
    assert_eq!(t.start_time, Some(1_000));
    assert!(t.pause_time.is_none());

    t.pause(2_000);
    assert!(matches!(t.status, TimerStatus::Paused));
    assert_eq!(t.pause_time, Some(2_000));
    assert_eq!(t.remaining_duration, 60);

    t.resume();
    assert!(matches!(t.status, TimerStatus::Running));
    assert!(t.pause_time.is_none());
}

#[test]
fn pause_does_nothing_unless_running() {
    let mut t = TimerState::new_focus_session(1);
    t.pause(5_000);
    assert!(matches!(t.status, TimerStatus::Idle));
    assert!(t.pause_time.is_none());
}

#[test]
fn complete_forces_terminal_shape() {
    let mut t = TimerState::new_focus_session(2);
    t.start(0);
    t.complete();
    assert!(matches!(t.status, TimerStatus::Completed));
    assert_eq!(t.remaining_duration, 0);
    assert_eq!(t.elapsed_duration, 120);
}

#[test]
fn reset_restores_full_idle_segment() {
    let mut t = TimerState::new_focus_session(2);
    t.start(0);
    t.tick();
    t.reset();
    assert!(matches!(t.status, TimerStatus::Idle));
    assert_eq!(t.remaining_duration, 120);
    assert_eq!(t.elapsed_duration, 0);
    assert!(t.start_time.is_none());
}

#[test]
fn update_remaining_rebalances_elapsed() {
    let mut t = TimerState::new_focus_session(2);
    t.update_remaining(40);
    assert_eq!(t.remaining_duration, 40);
    assert_eq!(t.elapsed_duration, 80);
    t.update_remaining(500);
    assert_eq!(t.remaining_duration, 500);
    assert_eq!(t.elapsed_duration, 0);
}

#[test]
fn progress_is_permille_of_elapsed() {
    let mut t = TimerState::new_focus_session(1);
    assert_eq!(t.progress(), 0);
    t.start(0);
    for _ in 0..30 {
        t.tick();
    }
    assert_eq!(t.progress(), 500);
    let empty = TimerState::default();
    assert_eq!(empty.progress(), 0);
}

#[test]
fn ticks_count_down_and_complete() {
    // With total T, after N ticks: remaining = max(T - N, 0), elapsed =
    // min(N, T), and the segment counts as completed exactly when nothing
    // remains.
    let mut t = TimerState::new_focus_session(1);
    t.start(0);
    for n in 1..=60u64 {
        let ticked = t.tick();
        assert!(ticked);
        assert_eq!(t.remaining_duration, 60 - n);
        assert_eq!(t.elapsed_duration, n);
        assert_eq!(t.is_completed(), t.remaining_duration == 0);
    }
    assert!(t.is_completed());
    assert!(matches!(t.status, TimerStatus::Running));

    // The wrap-up tick turns the exhausted segment into its completed form.
    let ticked = t.tick();
    assert!(!ticked);
    assert!(matches!(t.status, TimerStatus::Completed));
    assert_eq!(t.remaining_duration, 0);
    assert_eq!(t.elapsed_duration, 60);

    // Further ticks change nothing.
    assert!(!t.tick());
    assert_eq!(t.elapsed_duration, 60);
}

#[test]
fn tick_ignores_paused_segments() {
    let mut t = TimerState::new_focus_session(1);
    t.start(0);
    t.pause(1);
    assert!(!t.tick());
    assert_eq!(t.remaining_duration, 60);
}
