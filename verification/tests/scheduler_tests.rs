use focus_daily::micro_break::{EnhancedMicroBreakScheduler, MicroBreakTimer, DEFAULT_SKIP_LIMIT};
use focus_daily::timer_manager::TimerError;
use focus_daily::timer_state::TimerStatus;

#[test]
fn first_schedule_falls_within_base_interval() {
    // Fresh scheduler: factor 1.0, fatigue 0, so the draw comes from
    // [min * 60, max * 60] = [180, 300] seconds.
    let mut s = EnhancedMicroBreakScheduler::new(3, 5, 15);
    s.start_scheduling();
    let next = s.next_break_at().expect("a break must be scheduled");
    assert!((180..=300).contains(&next));
    assert!(s.should_trigger_break(next));
    assert!(s.should_trigger_break(next + 1));
    assert!(!s.should_trigger_break(next - 1));
}

#[test]
fn should_trigger_needs_a_schedule() {
    let s = EnhancedMicroBreakScheduler::new(3, 5, 15);
    assert!(!s.should_trigger_break(10_000));
}

#[test]
fn skip_adjustments_narrow_with_floor() {
    let mut s = EnhancedMicroBreakScheduler::new(3, 5, 15);
    s.start_scheduling();
    let expected = [90u32, 81, 72, 70, 70];
    for (i, want) in expected.iter().enumerate() {
        s.on_break_skipped(100 + i as u64);
        assert_eq!(s.adjustment_factor(), *want);
        assert!((70..=130).contains(&s.adjustment_factor()));
    }
    assert_eq!(s.skip_count(), 5);
    assert_eq!(s.fatigue_level(), 50);
}

#[test]
fn completion_adjustments_widen_with_cap() {
    let mut s = EnhancedMicroBreakScheduler::new(3, 5, 15);
    s.start_scheduling();
    let expected = [105u32, 110, 115, 120, 126, 130, 130];
    for (i, want) in expected.iter().enumerate() {
        s.on_break_completed(100 + i as u64);
        assert_eq!(s.adjustment_factor(), *want);
        assert!((70..=130).contains(&s.adjustment_factor()));
    }
    assert_eq!(s.completed_count(), 7);
}

#[test]
fn mixed_adjustments_stay_in_band() {
    let mut s = EnhancedMicroBreakScheduler::new(3, 5, 15);
    s.start_scheduling();
    for i in 0..200u64 {
        if i % 3 == 0 {
            s.on_break_completed(i);
        } else {
            s.on_break_skipped(i);
        }
        let f = s.adjustment_factor();
        assert!((70..=130).contains(&f));
        assert!(s.fatigue_level() <= 100);
    }
}

#[test]
fn fatigue_rises_on_skip_and_decays_on_completion() {
    let mut s = EnhancedMicroBreakScheduler::new(3, 5, 15);
    s.start_scheduling();
    s.on_break_skipped(10);
    assert_eq!(s.fatigue_level(), 10);
    s.on_break_skipped(20);
    assert_eq!(s.fatigue_level(), 20);
    s.on_break_completed(30);
    assert_eq!(s.fatigue_level(), 14);
}

#[test]
fn fatigue_discount_shortens_the_draw() {
    let mut s = EnhancedMicroBreakScheduler::new(3, 5, 15);
    s.start_scheduling();
    for i in 0..10u64 {
        s.on_break_skipped(i);
    }
    // Factor is floored at 0.7 and fatigue capped at 1.0, so the next draw
    // comes from [180*0.7*0.7, 300*0.7*0.7] = [88, 147] seconds after the
    // last skip's elapsed time (9).
    let next = s.next_break_at().expect("scheduled");
    assert!((9 + 88..=9 + 147).contains(&next));
}

#[test]
fn triggered_breaks_reschedule_past_the_break() {
    let mut s = EnhancedMicroBreakScheduler::new(3, 5, 15);
    s.start_scheduling();
    s.on_break_triggered(200);
    assert_eq!(s.break_count(), 1);
    let next = s.next_break_at().expect("scheduled");
    // Scheduled from elapsed + break duration = 215, with the base interval
    // untouched by a plain trigger.
    assert!((215 + 180..=215 + 300).contains(&next));
}

#[test]
fn completion_rate_counts_percent() {
    let mut s = EnhancedMicroBreakScheduler::new(3, 5, 15);
    assert_eq!(s.completion_rate(), 100);
    s.start_scheduling();
    s.on_break_triggered(100);
    s.on_break_triggered(400);
    s.on_break_completed(415);
    assert_eq!(s.completion_rate(), 50);
    let stats = s.get_stats_summary();
    assert_eq!(stats.total_triggered, 2);
    assert_eq!(stats.completed, 1);
    assert_eq!(stats.skipped, 0);
    assert_eq!(stats.completion_rate, 50);
}

#[test]
fn reset_forgets_all_adaptation() {
    let mut s = EnhancedMicroBreakScheduler::new(3, 5, 15);
    s.start_scheduling();
    s.on_break_skipped(10);
    s.reset();
    assert_eq!(s.adjustment_factor(), 100);
    assert_eq!(s.fatigue_level(), 0);
    assert_eq!(s.skip_count(), 0);
    assert!(s.next_break_at().is_none());
}

#[test]
fn start_scheduling_resets_the_adaptation() {
    // A new scheduling round starts neutral: counters, fatigue and the
    // adjustment factor all reset, so the first draw comes from the plain
    // base interval again.
    let mut s = EnhancedMicroBreakScheduler::new(3, 5, 15);
    s.start_scheduling();
    s.on_break_skipped(10);
    s.on_break_skipped(20);
    assert_eq!(s.adjustment_factor(), 81);
    s.start_scheduling();
    assert_eq!(s.adjustment_factor(), 100);
    assert_eq!(s.skip_count(), 0);
    assert_eq!(s.fatigue_level(), 0);
    let next = s.next_break_at().expect("a break is scheduled");
    assert!((180..=300).contains(&next));
}

#[test]
fn fourth_skip_fails_until_reset() {
    // Cap of 3 skips per focus session: the fourth fails, and clearing the
    // count makes skipping succeed again.
    let mut t = MicroBreakTimer::new(15);
    assert_eq!(t.get_skip_stats(), (0, DEFAULT_SKIP_LIMIT));
    for _ in 0..3 {
        assert!(t.skip().is_ok());
    }
    assert!(!t.can_skip());
    assert_eq!(t.remaining_skips(), 0);
    let fourth = t.skip();
    assert!(matches!(fourth, Err(TimerError::SkipLimitExceeded)));
    assert_eq!(t.get_skip_stats(), (3, 3));

    t.reset_skip_count();
    assert!(t.can_skip());
    assert!(t.skip().is_ok());
    assert_eq!(t.get_skip_stats(), (1, 3));
}

#[test]
fn micro_break_timer_runs_and_skips() {
    let mut t = MicroBreakTimer::new_with_skip_limit(5, 1);
    let id = t.start();
    assert_eq!(t.get_state().session_id, Some(id));
    assert!(matches!(t.get_state().status, TimerStatus::Running));
    assert!(t.tick());
    assert_eq!(t.remaining_seconds(), 4);
    assert_eq!(t.progress(), 200);
    assert!(t.skip().is_ok());
    assert!(t.is_completed());
    assert_eq!(t.remaining_seconds(), 0);
    assert!(matches!(t.skip(), Err(TimerError::SkipLimitExceeded)));
}
