use focus_daily::events::{
    categorize_event, get_event_name, should_persist_event, sort_batch_by_priority,
    EnhancedEvent, EnhancedEventManager, EventCategory, EventManagerConfig, EventPriority,
    EventProcessResult, RETRY_DELAY_MS,
};
use focus_daily::timer_state::{SessionPhase, TimerEvent};

fn tick_event(elapsed: u64) -> TimerEvent {
    TimerEvent::Tick { phase: SessionPhase::Focus, remaining: 100, elapsed, progress: 0 }
}

fn plain_event(event: TimerEvent, priority: EventPriority, timestamp: i64) -> EnhancedEvent {
    EnhancedEvent {
        id: 0,
        event,
        priority,
        timestamp,
        category: categorize_event(&event),
        retry_count: 0,
        persist: should_persist_event(&event),
    }
}

#[test]
fn event_names_follow_the_kind() {
    assert_eq!(
        get_event_name(&TimerEvent::Started {
            phase: SessionPhase::Focus,
            duration: 60,
            session_id: 1
        }),
        "timer-started"
    );
    assert_eq!(get_event_name(&tick_event(1)), "timer-tick");
    assert_eq!(
        get_event_name(&TimerEvent::PhaseChanged {
            from: SessionPhase::MicroBreak,
            to: SessionPhase::Focus
        }),
        "phase-changed"
    );
    assert_eq!(
        get_event_name(&TimerEvent::MicroBreakSkipLimitReached { skip_limit: 3 }),
        "micro-break-skip-limit-reached"
    );
}

#[test]
fn categories_and_persistence_follow_the_kind() {
    let started = TimerEvent::Started { phase: SessionPhase::Focus, duration: 1, session_id: 0 };
    assert!(matches!(categorize_event(&started), EventCategory::Timer));
    assert!(should_persist_event(&started));

    let triggered = TimerEvent::MicroBreakTriggered { count: 1, duration: 15 };
    assert!(matches!(categorize_event(&triggered), EventCategory::MicroBreak));
    assert!(!should_persist_event(&triggered));

    let warning = TimerEvent::FatigueWarning { level: 80 };
    assert!(matches!(categorize_event(&warning), EventCategory::Notification));

    let feedback = TimerEvent::EfficiencyFeedback {
        session_id: 0,
        focus_quality: 90,
        micro_break_effectiveness: 50,
    };
    assert!(matches!(categorize_event(&feedback), EventCategory::Analytics));
    assert!(should_persist_event(&feedback));

    assert!(!should_persist_event(&tick_event(1)));
}

#[test]
fn batch_sorts_by_priority_descending() {
    // Priorities [Low, Critical, Normal] come out [Critical, Normal, Low].
    let mut batch = vec![
        plain_event(tick_event(1), EventPriority::Low, 0),
        plain_event(tick_event(2), EventPriority::Critical, 0),
        plain_event(tick_event(3), EventPriority::Normal, 0),
    ];
    sort_batch_by_priority(&mut batch);
    assert_eq!(batch.len(), 3);
    assert!(matches!(batch[0].priority, EventPriority::Critical));
    assert!(matches!(batch[1].priority, EventPriority::Normal));
    assert!(matches!(batch[2].priority, EventPriority::Low));
    assert!(matches!(batch[0].event, TimerEvent::Tick { elapsed: 2, .. }));
    assert!(matches!(batch[1].event, TimerEvent::Tick { elapsed: 3, .. }));
    assert!(matches!(batch[2].event, TimerEvent::Tick { elapsed: 1, .. }));
}

#[test]
fn equal_priorities_keep_arrival_order() {
    let mut batch = vec![
        plain_event(tick_event(10), EventPriority::Normal, 0),
        plain_event(tick_event(11), EventPriority::High, 0),
        plain_event(tick_event(12), EventPriority::Normal, 0),
        plain_event(tick_event(13), EventPriority::Normal, 0),
        plain_event(tick_event(14), EventPriority::High, 0),
    ];
    sort_batch_by_priority(&mut batch);
    let elapsed: Vec<u64> = batch
        .iter()
        .map(|e| match e.event {
            TimerEvent::Tick { elapsed, .. } => elapsed,
            _ => unreachable!(),
        })
        .collect();
    assert_eq!(elapsed, vec![11, 14, 10, 12, 13]);
}

#[test]
fn emit_wraps_events_with_metadata() {
    let mut m = EnhancedEventManager::new(None);
    assert!(m.emit_event(tick_event(5), None).is_ok());
    assert!(m
        .emit_event(
            TimerEvent::Started { phase: SessionPhase::Focus, duration: 60, session_id: 7 },
            Some(EventPriority::High),
        )
        .is_ok());
    assert_eq!(m.pending.len(), 2);
    let first = &m.pending[0];
    assert!(matches!(first.priority, EventPriority::Normal));
    assert!(matches!(first.category, EventCategory::Timer));
    assert_eq!(first.retry_count, 0);
    assert!(!first.persist);
    let second = &m.pending[1];
    assert!(matches!(second.priority, EventPriority::High));
    assert!(second.persist);
    assert_ne!(first.id, second.id);
}

#[test]
fn emit_batch_keeps_order() {
    let mut m = EnhancedEventManager::new(None);
    let events = vec![
        (tick_event(1), Some(EventPriority::Low)),
        (tick_event(2), None),
        (tick_event(3), Some(EventPriority::Critical)),
    ];
    assert!(m.emit_batch_events(events).is_ok());
    assert_eq!(m.pending.len(), 3);
    assert!(matches!(m.pending[0].priority, EventPriority::Low));
    assert!(matches!(m.pending[1].priority, EventPriority::Normal));
    assert!(matches!(m.pending[2].priority, EventPriority::Critical));
}

#[test]
fn take_batch_respects_size_and_drains_retries_first() {
    let mut config = EventManagerConfig::default();
    config.batch_size = 2;
    let mut m = EnhancedEventManager::new(Some(config));
    for i in 0..4 {
        m.emit_event(tick_event(i), None).unwrap();
    }
    m.requeue_retry(plain_event(tick_event(99), EventPriority::Low, 0));
    let batch = m.take_batch();
    // The retried event bypasses the batching window; then up to
    // batch_size pending events follow.
    assert_eq!(batch.len(), 3);
    assert!(matches!(batch[0].event, TimerEvent::Tick { elapsed: 99, .. }));
    assert!(matches!(batch[1].event, TimerEvent::Tick { elapsed: 0, .. }));
    assert!(matches!(batch[2].event, TimerEvent::Tick { elapsed: 1, .. }));
    assert_eq!(m.pending.len(), 2);
    assert_eq!(m.event_queue.len(), 0);
    assert_eq!(m.get_queue_status(), (0, 1000));
}

#[test]
fn delivery_outcomes_classify_by_reason() {
    let e = plain_event(tick_event(1), EventPriority::Normal, 0);
    assert!(matches!(
        EnhancedEventManager::process_single_event(&e, Ok(())),
        EventProcessResult::Success
    ));
    assert!(matches!(
        EnhancedEventManager::process_single_event(&e, Err("connection refused".to_string())),
        EventProcessResult::Retry(d) if d == RETRY_DELAY_MS
    ));
    assert!(matches!(
        EnhancedEventManager::process_single_event(&e, Err("timeout while sending".to_string())),
        EventProcessResult::Retry(_)
    ));
    match EnhancedEventManager::process_single_event(&e, Err("renderer gone".to_string())) {
        EventProcessResult::Failed(msg) => assert_eq!(msg, "renderer gone"),
        other => panic!("expected a final failure, got {:?}", other),
    }
}

#[test]
fn timeout_failures_retry_exactly_max_retries_times() {
    // An event whose delivery always fails with a "timeout" reason is
    // retried exactly max_retries (3) times: 4 delivery attempts in all,
    // then it is dropped.
    let mut m = EnhancedEventManager::new(None);
    let mut event = plain_event(tick_event(1), EventPriority::Normal, 0);
    let mut attempts = 0u32;
    loop {
        attempts += 1;
        let retry = m.process_delivered_event(event, Err("timeout".to_string()), 10);
        match retry {
            Some(next) => {
                assert_eq!(next.retry_count, attempts);
                m.requeue_retry(next);
                let batch = m.take_batch();
                assert_eq!(batch.len(), 1);
                event = batch[0];
            }
            None => break,
        }
        assert!(attempts <= 10, "retries must be bounded");
    }
    assert_eq!(attempts, 4);
    // Retries count toward no outcome counter; the drop is silent.
    assert_eq!(m.stats.total_events, 4);
    assert_eq!(m.stats.successful_events, 0);
    assert_eq!(m.stats.failed_events, 0);
    assert_eq!(m.stats.discarded_events, 0);
    assert!(m.event_history.is_empty());
}

#[test]
fn successful_deliveries_land_in_history_and_stats() {
    let mut m = EnhancedEventManager::new(None);
    let e = plain_event(tick_event(1), EventPriority::High, 0);
    let retry = m.process_delivered_event(e, Ok(()), 250);
    assert!(retry.is_none());
    assert_eq!(m.event_history.len(), 1);
    assert_eq!(m.stats.total_events, 1);
    assert_eq!(m.stats.successful_events, 1);
    assert_eq!(m.stats.events_per_priority.high, 1);
    assert_eq!(m.stats.events_per_category.timer, 1);
    assert_eq!(m.stats.total_processing_micros, 250);
    assert_eq!(m.average_processing_micros(), 250);

    let f = plain_event(tick_event(2), EventPriority::Low, 0);
    let retry = m.process_delivered_event(f, Err("renderer gone".to_string()), 50);
    assert!(retry.is_none());
    assert_eq!(m.stats.failed_events, 1);
    assert_eq!(m.stats.total_events, 2);
    assert_eq!(m.event_history.len(), 1);
    assert_eq!(m.average_processing_micros(), 150);
}

#[test]
fn history_ring_evicts_oldest_on_success() {
    let mut config = EventManagerConfig::default();
    config.max_history_size = 2;
    let mut m = EnhancedEventManager::new(Some(config));
    for i in 0..3 {
        m.process_delivered_event(plain_event(tick_event(i), EventPriority::Normal, 0), Ok(()), 1);
    }
    assert_eq!(m.event_history.len(), 2);
    assert!(matches!(m.event_history[0].event, TimerEvent::Tick { elapsed: 1, .. }));
    assert!(matches!(m.event_history[1].event, TimerEvent::Tick { elapsed: 2, .. }));
}

#[test]
fn cleanup_purges_aged_queue_and_trims_history() {
    // Queued events aged >= event_ttl (default 60s) go; the history is
    // trimmed to max_history_size, keeping the most recent.
    let mut config = EventManagerConfig::default();
    config.max_history_size = 3;
    let mut m = EnhancedEventManager::new(Some(config));
    let now: i64 = 1_000_000;
    m.requeue_retry(plain_event(tick_event(1), EventPriority::Normal, now - 60_000));
    m.requeue_retry(plain_event(tick_event(2), EventPriority::Normal, now - 59_999));
    m.requeue_retry(plain_event(tick_event(3), EventPriority::Normal, now - 70_000));
    m.requeue_retry(plain_event(tick_event(4), EventPriority::Normal, now + 5_000));
    for i in 0..5 {
        m.event_history.push(plain_event(tick_event(100 + i), EventPriority::Normal, now));
    }
    m.cleanup_expired_events_at(now);
    // Exactly the events younger than the ttl stay (an event exactly as
    // old as the ttl goes); a future-dated event stays.
    assert_eq!(m.event_queue.len(), 2);
    assert!(matches!(m.event_queue[0].event, TimerEvent::Tick { elapsed: 2, .. }));
    assert!(matches!(m.event_queue[1].event, TimerEvent::Tick { elapsed: 4, .. }));
    assert_eq!(m.event_history.len(), 3);
    assert!(matches!(m.event_history[0].event, TimerEvent::Tick { elapsed: 102, .. }));
    assert!(matches!(m.event_history[2].event, TimerEvent::Tick { elapsed: 104, .. }));
}

#[test]
fn history_snapshot_is_newest_first_and_limited() {
    let mut m = EnhancedEventManager::new(None);
    for i in 0..5 {
        m.process_delivered_event(plain_event(tick_event(i), EventPriority::Normal, 0), Ok(()), 1);
    }
    let recent = m.get_event_history(Some(2));
    assert_eq!(recent.len(), 2);
    assert!(matches!(recent[0].event, TimerEvent::Tick { elapsed: 4, .. }));
    assert!(matches!(recent[1].event, TimerEvent::Tick { elapsed: 3, .. }));
    let all = m.get_event_history(None);
    assert_eq!(all.len(), 5);
    assert!(matches!(all[4].event, TimerEvent::Tick { elapsed: 0, .. }));
}

#[test]
fn duplicates_are_never_detected() {
    let e = plain_event(tick_event(1), EventPriority::Normal, 0);
    assert!(!EnhancedEventManager::is_duplicate_event(&e));
}

#[test]
fn default_config_matches_the_documented_values() {
    let c = EventManagerConfig::default();
    assert_eq!(c.max_queue_size, 1000);
    assert_eq!(c.max_history_size, 500);
    assert_eq!(c.batch_size, 10);
    assert_eq!(c.batch_interval_ms, 100);
    assert_eq!(c.max_retries, 3);
    assert_eq!(c.event_ttl_ms, 60_000);
    assert!(c.enable_deduplication);
}
