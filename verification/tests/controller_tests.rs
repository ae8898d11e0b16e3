use focus_daily::events::EnhancedEventManager;
use focus_daily::models::UserSettings;
use focus_daily::timer_manager::{CycleState, TimerError, TimerManager};
use focus_daily::timer_state::{SessionPhase, TimerEvent, TimerStatus};

fn setup() -> (TimerManager, EnhancedEventManager) {
    (TimerManager::new(UserSettings::default()), EnhancedEventManager::new(None))
}

fn last_emitted(pipeline: &EnhancedEventManager) -> TimerEvent {
    pipeline.pending.last().expect("an event was emitted").event
}

#[test]
fn default_settings_are_usable() {
    let s = UserSettings::default();
    assert_eq!(s.focus_duration_minutes, 90);
    assert_eq!(s.long_break_duration_minutes, 20);
    assert_eq!(s.micro_break_min_interval_minutes, 3);
    assert_eq!(s.micro_break_max_interval_minutes, 5);
    assert_eq!(s.micro_break_duration_seconds, 15);
    assert_eq!(s.language, "zh-CN");
    assert!(s.notifications_enabled);
}

#[test]
fn starting_focus_builds_a_running_session() {
    let (mut m, mut p) = setup();
    let id = m.start_focus_session(&mut p).expect("start must succeed");
    let state = m.get_state();
    assert!(matches!(state.status, TimerStatus::Running));
    assert!(matches!(state.phase, SessionPhase::Focus));
    assert_eq!(state.total_duration, 5400);
    assert_eq!(state.remaining_duration, 5400);
    assert_eq!(state.session_id, Some(id));
    assert!(matches!(m.get_cycle_state(), CycleState::InFocusSession));
    assert!(matches!(
        last_emitted(&p),
        TimerEvent::Started { phase: SessionPhase::Focus, duration: 5400, .. }
    ));
}

#[test]
fn second_start_fails_already_running() {
    // Two starts without an intervening completion: the second one fails.
    let (mut m, mut p) = setup();
    assert!(m.start_focus_session(&mut p).is_ok());
    let second = m.start_focus_session(&mut p);
    assert!(matches!(second, Err(TimerError::AlreadyRunning)));
    let third = m.start_long_break_session(&mut p);
    assert!(matches!(third, Err(TimerError::AlreadyRunning)));
}

#[test]
fn first_micro_break_schedule_is_within_bounds() {
    // Defaults of 3..5 minutes: the first offset falls within [180, 300]
    // seconds, and reaching it makes the trigger check fire.
    let (mut m, mut p) = setup();
    m.start_focus_session(&mut p).unwrap();
    let next = m.get_state().next_micro_break_at.expect("a break is scheduled");
    assert!((180..=300).contains(&next));
    assert_eq!(m.scheduler.next_break_at(), Some(next));
    assert!(m.scheduler.should_trigger_break(next));
    assert!(!m.scheduler.should_trigger_break(next - 1));
}

#[test]
fn second_session_schedule_starts_neutral_again() {
    let (mut m, mut p) = setup();
    m.start_focus_session(&mut p).unwrap();
    // Adapt the cadence during the session through a skipped break.
    m.start_micro_break_session(&mut p).unwrap();
    m.skip_micro_break(&mut p).unwrap();
    assert_eq!(m.scheduler.adjustment_factor(), 90);
    // Finish the session; the next one schedules from the plain base
    // interval again because the new round resets the factor.
    while m.handle_tick(&mut p) {}
    assert!(matches!(m.get_cycle_state(), CycleState::WaitingToStart));
    m.start_focus_session(&mut p).unwrap();
    assert_eq!(m.scheduler.adjustment_factor(), 100);
    let next = m.get_state().next_micro_break_at.expect("a break is scheduled");
    assert!((180..=300).contains(&next));
}

#[test]
fn focus_session_completes_after_all_ticks() {
    // 90 minutes = 5400 ticks of work; the wrap-up pass then fires the
    // Completed event, folds the cycle back to waiting and counts the
    // completed focus session.
    let (mut m, mut p) = setup();
    m.start_focus_session(&mut p).unwrap();
    assert_eq!(m.completed_focus_sessions, 0);
    for n in 1..=5400u64 {
        assert!(m.handle_tick(&mut p), "tick {} should keep running", n);
    }
    let state = m.get_state();
    assert_eq!(state.remaining_duration, 0);
    assert_eq!(state.elapsed_duration, 5400);
    assert!(state.is_completed());
    assert!(matches!(m.get_cycle_state(), CycleState::InFocusSession));

    assert!(!m.handle_tick(&mut p));
    assert!(matches!(m.get_state().status, TimerStatus::Completed));
    assert!(matches!(m.get_cycle_state(), CycleState::WaitingToStart));
    assert_eq!(m.completed_focus_sessions, 1);
    assert!(matches!(
        last_emitted(&p),
        TimerEvent::Completed { phase: SessionPhase::Focus, .. }
    ));
}

#[test]
fn ticks_report_progress() {
    let (mut m, mut p) = setup();
    m.start_focus_session(&mut p).unwrap();
    assert!(m.handle_tick(&mut p));
    assert_eq!(m.get_state().remaining_duration, 5399);
    assert_eq!(m.get_state().elapsed_duration, 1);
    assert!(matches!(
        last_emitted(&p),
        TimerEvent::Tick { phase: SessionPhase::Focus, remaining: 5399, elapsed: 1, .. }
    ));
}

#[test]
fn idle_ticks_do_nothing() {
    let (mut m, mut p) = setup();
    assert!(!m.handle_tick(&mut p));
    assert!(p.pending.is_empty());
}

#[test]
fn skip_outside_micro_break_fails_and_changes_nothing() {
    // InvalidState everywhere but InMicroBreak, and the state is untouched.
    let (mut m, mut p) = setup();
    let r = m.skip_micro_break(&mut p);
    assert!(matches!(r, Err(TimerError::InvalidState)));
    assert!(matches!(m.get_cycle_state(), CycleState::WaitingToStart));
    assert!(p.pending.is_empty());

    m.start_focus_session(&mut p).unwrap();
    let events_before = p.pending.len();
    let state_before = m.get_state();
    let r = m.skip_micro_break(&mut p);
    assert!(matches!(r, Err(TimerError::InvalidState)));
    let state_after = m.get_state();
    assert!(matches!(m.get_cycle_state(), CycleState::InFocusSession));
    assert_eq!(state_after.remaining_duration, state_before.remaining_duration);
    assert_eq!(state_after.session_id, state_before.session_id);
    assert_eq!(p.pending.len(), events_before);
}

#[test]
fn skip_micro_break_resumes_the_suspended_focus() {
    let (mut m, mut p) = setup();
    m.start_focus_session(&mut p).unwrap();
    for _ in 0..10 {
        m.handle_tick(&mut p);
    }
    let focus_remaining = m.get_state().remaining_duration;
    assert_eq!(focus_remaining, 5390);

    m.start_micro_break_session(&mut p).unwrap();
    assert!(matches!(m.get_cycle_state(), CycleState::InMicroBreak));
    assert!(matches!(m.get_state().phase, SessionPhase::MicroBreak));
    assert_eq!(m.get_state().total_duration, 15);
    assert_eq!(m.get_state().micro_break_count, 1);

    let r = m.skip_micro_break(&mut p);
    assert!(r.is_ok());
    assert!(matches!(m.get_cycle_state(), CycleState::InFocusSession));
    let resumed = m.get_state();
    assert!(matches!(resumed.phase, SessionPhase::Focus));
    assert!(matches!(resumed.status, TimerStatus::Running));
    assert_eq!(resumed.remaining_duration, 5390);
    assert_eq!(resumed.elapsed_duration, 10);
    assert_eq!(m.scheduler.skip_count(), 1);
    assert_eq!(m.scheduler.adjustment_factor(), 90);
    assert!(matches!(
        last_emitted(&p),
        TimerEvent::PhaseChanged { from: SessionPhase::MicroBreak, to: SessionPhase::Focus }
    ));
}

#[test]
fn micro_break_completion_hands_back_to_focus() {
    let (mut m, mut p) = setup();
    m.start_focus_session(&mut p).unwrap();
    m.start_micro_break_session(&mut p).unwrap();
    for _ in 0..15 {
        assert!(m.handle_tick(&mut p));
    }
    assert!(!m.handle_tick(&mut p));
    assert!(matches!(m.get_cycle_state(), CycleState::InFocusSession));
    assert!(matches!(
        last_emitted(&p),
        TimerEvent::Completed { phase: SessionPhase::MicroBreak, .. }
    ));
}

#[test]
fn long_break_runs_and_folds_back_to_waiting() {
    let (mut m, mut p) = setup();
    let id = m.start_long_break_session(&mut p).expect("start must succeed");
    assert!(matches!(m.get_cycle_state(), CycleState::InLongBreak));
    assert_eq!(m.get_state().total_duration, 1200);
    assert_eq!(m.get_state().session_id, Some(id));
    for _ in 0..1200 {
        assert!(m.handle_tick(&mut p));
    }
    assert!(!m.handle_tick(&mut p));
    assert!(matches!(m.get_cycle_state(), CycleState::WaitingToStart));
    assert_eq!(m.completed_focus_sessions, 0);
}

#[test]
fn pause_and_resume_guard_their_states() {
    let (mut m, mut p) = setup();
    assert!(matches!(m.pause_timer(&mut p), Err(TimerError::NotRunning)));
    assert!(matches!(m.resume_timer(&mut p), Err(TimerError::NotRunning)));

    m.start_focus_session(&mut p).unwrap();
    for _ in 0..5 {
        m.handle_tick(&mut p);
    }
    assert!(m.pause_timer(&mut p).is_ok());
    assert!(matches!(m.get_state().status, TimerStatus::Paused));
    assert_eq!(m.get_state().remaining_duration, 5395);
    assert!(matches!(
        last_emitted(&p),
        TimerEvent::Paused { phase: SessionPhase::Focus, remaining: 5395 }
    ));
    assert!(matches!(m.pause_timer(&mut p), Err(TimerError::NotRunning)));
    assert!(!m.handle_tick(&mut p));

    assert!(m.resume_timer(&mut p).is_ok());
    assert!(matches!(m.get_state().status, TimerStatus::Running));
    assert_eq!(m.get_state().remaining_duration, 5395);
    assert!(matches!(
        last_emitted(&p),
        TimerEvent::Resumed { phase: SessionPhase::Focus, remaining: 5395 }
    ));
}

#[test]
fn reset_restores_the_segment_and_emits() {
    let (mut m, mut p) = setup();
    m.start_focus_session(&mut p).unwrap();
    for _ in 0..5 {
        m.handle_tick(&mut p);
    }
    assert!(m.reset_timer(&mut p).is_ok());
    let state = m.get_state();
    assert!(matches!(state.status, TimerStatus::Idle));
    assert_eq!(state.remaining_duration, 5400);
    assert_eq!(state.elapsed_duration, 0);
    assert!(matches!(last_emitted(&p), TimerEvent::Reset { phase: SessionPhase::Focus }));
}

#[test]
fn settings_updates_are_validated_and_apply_next_session() {
    let (mut m, mut p) = setup();
    let mut bad = UserSettings::default();
    bad.micro_break_min_interval_minutes = 10;
    bad.micro_break_max_interval_minutes = 5;
    assert!(matches!(m.update_settings(bad), Err(TimerError::Settings)));
    assert_eq!(m.settings.micro_break_min_interval_minutes, 3);

    let mut good = UserSettings::default();
    good.focus_duration_minutes = 1;
    assert!(m.update_settings(good).is_ok());
    m.start_focus_session(&mut p).unwrap();
    assert_eq!(m.get_state().total_duration, 60);
}

#[test]
fn micro_break_watcher_fires_once_due() {
    let (mut m, mut p) = setup();
    m.start_focus_session(&mut p).unwrap();
    assert!(!m.poll_micro_break(&mut p));
    let due = m.get_state().next_micro_break_at.unwrap();
    for _ in 0..due {
        m.handle_tick(&mut p);
    }
    let before = p.pending.len();
    assert!(m.poll_micro_break(&mut p));
    assert_eq!(p.pending.len(), before + 1);
    assert!(matches!(
        last_emitted(&p),
        TimerEvent::MicroBreakTriggered { count: 1, duration: 15 }
    ));
}

#[test]
fn watcher_stays_quiet_outside_focus() {
    let (mut m, mut p) = setup();
    assert!(!m.poll_micro_break(&mut p));
    m.start_long_break_session(&mut p).unwrap();
    assert!(!m.poll_micro_break(&mut p));
    assert!(matches!(last_emitted(&p), TimerEvent::Started { .. }));
}

#[test]
fn error_messages_are_short_and_stable() {
    assert_eq!(TimerError::AlreadyRunning.message(), "a timer is already running");
    assert_eq!(TimerError::NotRunning.message(), "no timer is running");
    assert_eq!(
        TimerError::InvalidState.message(),
        "the command is not allowed in the current cycle state"
    );
    assert_eq!(TimerError::SkipLimitExceeded.message(), "the micro-break skip limit was reached");
}
