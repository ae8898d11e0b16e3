//! The event delivery pipeline: domain events are wrapped with priority,
//! category and retry metadata, batched, sorted by priority (stably, so
//! arrival order breaks ties), delivered, retried a bounded number of times
//! on retryable failures, and kept in a bounded history with running
//! statistics.

use vstd::prelude::*;

use crate::sys;
use crate::timer_state::TimerEvent;

verus! {

#[derive(Clone, Copy, Debug, PartialEq, Eq, Structural)]
pub enum EventPriority {
    Low,
    Normal,
    High,
    Critical,
}

#[derive(Clone, Copy, Debug, PartialEq, Eq, Structural)]
pub enum EventCategory {
    Timer,
    MicroBreak,
    Audio,
    System,
    Notification,
    Analytics,
}

/// What processing one event came to. A retry carries the delay in
/// milliseconds before the event re-enters the queue; a failure carries
/// the delivery error's text.
#[derive(Clone, Debug)]
pub enum EventProcessResult {
    Success,
    Retry(u64),
    Failed(String),
    Discard,
}

/// A domain event wrapped with delivery metadata. The timestamp is in
/// milliseconds since the Unix epoch.
#[derive(Clone, Copy, Debug)]
pub struct EnhancedEvent {
    pub id: u128,
    pub event: TimerEvent,
    pub priority: EventPriority,
    pub timestamp: i64,
    pub category: EventCategory,
    pub retry_count: u32,
    pub persist: bool,
}

/// The category an event belongs to, derived from its kind alone.
pub open spec fn spec_categorize(e: TimerEvent) -> EventCategory {
    match e {
        TimerEvent::Started { .. } => EventCategory::Timer,
        TimerEvent::Paused { .. } => EventCategory::Timer,
        TimerEvent::Resumed { .. } => EventCategory::Timer,
        TimerEvent::Tick { .. } => EventCategory::Timer,
        TimerEvent::Completed { .. } => EventCategory::Timer,
        TimerEvent::Reset { .. } => EventCategory::Timer,
        TimerEvent::MicroBreakTriggered { .. } => EventCategory::MicroBreak,
        TimerEvent::MicroBreakSkipped { .. } => EventCategory::MicroBreak,
        TimerEvent::MicroBreakCompleted { .. } => EventCategory::MicroBreak,
        TimerEvent::MicroBreakSkipLimitReached { .. } => EventCategory::MicroBreak,
        TimerEvent::MicroBreakScheduleUpdated { .. } => EventCategory::MicroBreak,
        TimerEvent::MicroBreakStatsUpdated { .. } => EventCategory::MicroBreak,
        TimerEvent::PhaseChanged { .. } => EventCategory::System,
        TimerEvent::FatigueWarning { .. } => EventCategory::Notification,
        TimerEvent::EfficiencyFeedback { .. } => EventCategory::Analytics,
    }
}

/// Whether an event is retained in durable history: only session starts,
/// completions and efficiency feedback are.
pub open spec fn spec_should_persist(e: TimerEvent) -> bool {
    match e {
        TimerEvent::Started { .. } => true,
        TimerEvent::Completed { .. } => true,
        TimerEvent::MicroBreakCompleted { .. } => true,
        TimerEvent::EfficiencyFeedback { .. } => true,
        _ => false,
    }
}

/// The outward name of an event kind.
pub open spec fn spec_event_name(e: TimerEvent) -> Seq<char> {
    match e {
        TimerEvent::Started { .. } => "timer-started"@,
        TimerEvent::Paused { .. } => "timer-paused"@,
        TimerEvent::Resumed { .. } => "timer-resumed"@,
        TimerEvent::Tick { .. } => "timer-tick"@,
        TimerEvent::Completed { .. } => "timer-completed"@,
        TimerEvent::Reset { .. } => "timer-reset"@,
        TimerEvent::MicroBreakTriggered { .. } => "micro-break-triggered"@,
        TimerEvent::MicroBreakSkipped { .. } => "micro-break-skipped"@,
        TimerEvent::MicroBreakCompleted { .. } => "micro-break-completed"@,
        TimerEvent::MicroBreakSkipLimitReached { .. } => "micro-break-skip-limit-reached"@,
        TimerEvent::MicroBreakScheduleUpdated { .. } => "micro-break-schedule-updated"@,
        TimerEvent::MicroBreakStatsUpdated { .. } => "micro-break-stats-updated"@,
        TimerEvent::PhaseChanged { .. } => "phase-changed"@,
        TimerEvent::FatigueWarning { .. } => "fatigue-warning"@,
        TimerEvent::EfficiencyFeedback { .. } => "efficiency-feedback"@,
    }
}

pub fn categorize_event(e: &TimerEvent) -> (c: EventCategory)
    ensures
        c == spec_categorize(*e),
{
    match e {
        TimerEvent::Started { .. } => EventCategory::Timer,
        TimerEvent::Paused { .. } => EventCategory::Timer,
        TimerEvent::Resumed { .. } => EventCategory::Timer,
        TimerEvent::Tick { .. } => EventCategory::Timer,
        TimerEvent::Completed { .. } => EventCategory::Timer,
        TimerEvent::Reset { .. } => EventCategory::Timer,
        TimerEvent::MicroBreakTriggered { .. } => EventCategory::MicroBreak,
        TimerEvent::MicroBreakSkipped { .. } => EventCategory::MicroBreak,
        TimerEvent::MicroBreakCompleted { .. } => EventCategory::MicroBreak,
        TimerEvent::MicroBreakSkipLimitReached { .. } => EventCategory::MicroBreak,
        TimerEvent::MicroBreakScheduleUpdated { .. } => EventCategory::MicroBreak,
        TimerEvent::MicroBreakStatsUpdated { .. } => EventCategory::MicroBreak,
        TimerEvent::PhaseChanged { .. } => EventCategory::System,
        TimerEvent::FatigueWarning { .. } => EventCategory::Notification,
        TimerEvent::EfficiencyFeedback { .. } => EventCategory::Analytics,
    }
}

pub fn should_persist_event(e: &TimerEvent) -> (r: bool)
    ensures
        r == spec_should_persist(*e),
{
    match e {
        TimerEvent::Started { .. } => true,
        TimerEvent::Completed { .. } => true,
        TimerEvent::MicroBreakCompleted { .. } => true,
        TimerEvent::EfficiencyFeedback { .. } => true,
        _ => false,
    }
}

pub fn get_event_name(e: &TimerEvent) -> (name: &'static str)
    ensures
        name@ == spec_event_name(*e),
{
    match e {
        TimerEvent::Started { .. } => "timer-started",
        TimerEvent::Paused { .. } => "timer-paused",
        TimerEvent::Resumed { .. } => "timer-resumed",
        TimerEvent::Tick { .. } => "timer-tick",
        TimerEvent::Completed { .. } => "timer-completed",
        TimerEvent::Reset { .. } => "timer-reset",
        TimerEvent::MicroBreakTriggered { .. } => "micro-break-triggered",
        TimerEvent::MicroBreakSkipped { .. } => "micro-break-skipped",
        TimerEvent::MicroBreakCompleted { .. } => "micro-break-completed",
        TimerEvent::MicroBreakSkipLimitReached { .. } => "micro-break-skip-limit-reached",
        TimerEvent::MicroBreakScheduleUpdated { .. } => "micro-break-schedule-updated",
        TimerEvent::MicroBreakStatsUpdated { .. } => "micro-break-stats-updated",
        TimerEvent::PhaseChanged { .. } => "phase-changed",
        TimerEvent::FatigueWarning { .. } => "fatigue-warning",
        TimerEvent::EfficiencyFeedback { .. } => "efficiency-feedback",
    }
}

/// `n` occurs in `h` starting at position `k`.
pub open spec fn match_at(h: Seq<char>, n: Seq<char>, k: int) -> bool {
    &&& 0 <= k
    &&& k + n.len() <= h.len()
    &&& h.subrange(k, k + n.len() as int) == n
}

/// `n` occurs somewhere in `h`.
pub open spec fn has_substring(h: Seq<char>, n: Seq<char>) -> bool {
    exists|k: int| match_at(h, n, k)
}

/// Whether `needle` occurs in `hay`, comparing characters.
pub fn str_contains_substring(hay: &str, needle: &str) -> (r: bool)
    ensures
        r == has_substring(hay@, needle@),
{
    let hay_len = hay.unicode_len();
    let needle_len = needle.unicode_len();
    if needle_len > hay_len {
        assert(!has_substring(hay@, needle@)) by {
            assert(forall|k: int| !match_at(hay@, needle@, k));
        }
        return false;
    }
    if needle_len == 0 {
        assert(match_at(hay@, needle@, 0)) by {
            assert(hay@.subrange(0, 0) =~= needle@);
        }
        return true;
    }
    let mut i: usize = 0;
    while i <= hay_len - needle_len
        invariant
            hay_len == hay@.len(),
            needle_len == needle@.len(),
            0 < needle_len <= hay_len,
            i <= hay_len - needle_len + 1,
            forall|k: int| 0 <= k < i ==> !match_at(hay@, needle@, k),
        decreases hay_len - i,
    {
        if substring_match_at(hay, needle, i) {
            assert(match_at(hay@, needle@, i as int));
            return true;
        }
        i = i + 1;
    }
    assert(!has_substring(hay@, needle@)) by {
        assert(forall|k: int| k >= i ==> !match_at(hay@, needle@, k));
    }
    false
}

/// Whether `needle` occurs in `hay` at exactly position `at`.
fn substring_match_at(hay: &str, needle: &str, at: usize) -> (r: bool)
    requires
        at + needle@.len() <= hay@.len(),
        hay@.len() <= usize::MAX,
    ensures
        r == match_at(hay@, needle@, at as int),
{
    let needle_len = needle.unicode_len();
    let mut j: usize = 0;
    while j < needle_len
        invariant
            needle_len == needle@.len(),
            at + needle_len <= hay@.len(),
            hay@.len() <= usize::MAX,
            j <= needle_len,
            forall|k: int| 0 <= k < j ==> hay@[at + k] == needle@[k],
        decreases needle_len - j,
    {
        if hay.get_char(at + j) != needle.get_char(j) {
            assert(!match_at(hay@, needle@, at as int)) by {
                let sub = hay@.subrange(at as int, at + needle@.len());
                assert(sub[j as int] != needle@[j as int]);
            }
            return false;
        }
        j = j + 1;
    }
    assert(hay@.subrange(at as int, at + needle@.len()) =~= needle@);
    true
}

/// A delivery error is worth retrying when its text speaks of a connection
/// problem or a timeout.
pub open spec fn spec_is_retryable_reason(reason: Seq<char>) -> bool {
    has_substring(reason, "connection"@) || has_substring(reason, "timeout"@)
}

/// How far up the priority ladder a priority sits; batches are dispatched
/// highest rank first.
pub open spec fn priority_rank(p: EventPriority) -> int {
    match p {
        EventPriority::Low => 0,
        EventPriority::Normal => 1,
        EventPriority::High => 2,
        EventPriority::Critical => 3,
    }
}

/// Non-increasing priority along the sequence.
pub open spec fn sorted_by_priority_desc(s: Seq<EnhancedEvent>) -> bool {
    forall|i: int, j: int|
        0 <= i < j < s.len() ==> priority_rank(s[i].priority) >= priority_rank(s[j].priority)
}

/// The subsequence of `s` whose events carry priority `p`, in order.
pub open spec fn events_with_priority(s: Seq<EnhancedEvent>, p: EventPriority) -> Seq<
    EnhancedEvent,
>
    decreases s.len(),
{
    if s.len() == 0 {
        Seq::empty()
    } else {
        let rest = events_with_priority(s.drop_last(), p);
        if s.last().priority == p {
            rest.push(s.last())
        } else {
            rest
        }
    }
}

/// Every event of `s` carries priority `p`.
pub open spec fn all_with_priority(s: Seq<EnhancedEvent>, p: EventPriority) -> bool {
    forall|i: int| 0 <= i < s.len() ==> s[i].priority == p
}

proof fn lemma_ewp_push(s: Seq<EnhancedEvent>, x: EnhancedEvent, p: EventPriority)
    ensures
        events_with_priority(s.push(x), p) == if x.priority == p {
            events_with_priority(s, p).push(x)
        } else {
            events_with_priority(s, p)
        },
{
    assert(s.push(x).drop_last() =~= s);
}

proof fn lemma_ewp_all_have_priority(s: Seq<EnhancedEvent>, p: EventPriority)
    ensures
        all_with_priority(events_with_priority(s, p), p),
    decreases s.len(),
{
    if s.len() > 0 {
        lemma_ewp_all_have_priority(s.drop_last(), p);
    }
}

proof fn lemma_ewp_lens_partition(s: Seq<EnhancedEvent>)
    ensures
        events_with_priority(s, EventPriority::Low).len() + events_with_priority(
            s,
            EventPriority::Normal,
        ).len() + events_with_priority(s, EventPriority::High).len() + events_with_priority(
            s,
            EventPriority::Critical,
        ).len() == s.len(),
    decreases s.len(),
{
    if s.len() > 0 {
        lemma_ewp_lens_partition(s.drop_last());
    }
}

proof fn lemma_ewp_concat(s1: Seq<EnhancedEvent>, s2: Seq<EnhancedEvent>, p: EventPriority)
    ensures
        events_with_priority(s1 + s2, p) == events_with_priority(s1, p) + events_with_priority(
            s2,
            p,
        ),
    decreases s2.len(),
{
    if s2.len() == 0 {
        assert(s1 + s2 =~= s1);
        assert(events_with_priority(s1, p) + events_with_priority(s2, p) =~= events_with_priority(
            s1,
            p,
        ));
    } else {
        lemma_ewp_concat(s1, s2.drop_last(), p);
        assert((s1 + s2).drop_last() =~= s1 + s2.drop_last());
        assert((s1 + s2).last() == s2.last());
        if s2.last().priority == p {
            assert(events_with_priority(s1, p) + events_with_priority(s2.drop_last(), p).push(
                s2.last(),
            ) =~= (events_with_priority(s1, p) + events_with_priority(s2.drop_last(), p)).push(
                s2.last(),
            ));
        }
    }
}

proof fn lemma_ewp_of_uniform(s: Seq<EnhancedEvent>, p: EventPriority, q: EventPriority)
    requires
        all_with_priority(s, p),
    ensures
        events_with_priority(s, q) == if p == q {
            s
        } else {
            Seq::<EnhancedEvent>::empty()
        },
    decreases s.len(),
{
    if s.len() == 0 {
        if p == q {
            assert(s =~= Seq::<EnhancedEvent>::empty());
        }
    } else {
        assert(all_with_priority(s.drop_last(), p)) by {
            assert(forall|i: int|
                0 <= i < s.drop_last().len() ==> s.drop_last()[i] == s[i]);
        }
        lemma_ewp_of_uniform(s.drop_last(), p, q);
        if p == q {
            assert(s.drop_last().push(s.last()) =~= s);
        }
    }
}

/// The rank of the event at position `k` of the concatenation of four
/// uniform-priority runs, highest first.
proof fn lemma_segment_rank(
    cs: Seq<EnhancedEvent>,
    hs: Seq<EnhancedEvent>,
    ns: Seq<EnhancedEvent>,
    ls: Seq<EnhancedEvent>,
    k: int,
)
    requires
        all_with_priority(cs, EventPriority::Critical),
        all_with_priority(hs, EventPriority::High),
        all_with_priority(ns, EventPriority::Normal),
        all_with_priority(ls, EventPriority::Low),
        0 <= k < (cs + hs + ns + ls).len(),
    ensures
        priority_rank((cs + hs + ns + ls)[k].priority) == if k < cs.len() {
            3int
        } else if k < cs.len() + hs.len() {
            2int
        } else if k < cs.len() + hs.len() + ns.len() {
            1int
        } else {
            0int
        },
{
    if k < cs.len() {
        assert((cs + hs + ns + ls)[k] == cs[k]);
    } else if k < cs.len() + hs.len() {
        assert((cs + hs + ns + ls)[k] == hs[k - cs.len()]);
    } else if k < cs.len() + hs.len() + ns.len() {
        assert((cs + hs + ns + ls)[k] == ns[k - cs.len() - hs.len()]);
    } else {
        assert((cs + hs + ns + ls)[k] == ls[k - cs.len() - hs.len() - ns.len()]);
    }
}

/// Sort a batch by priority, descending, stably: events of equal priority
/// keep their arrival order, stated as each priority's subsequence coming
/// through unchanged.
pub fn sort_batch_by_priority(batch: &mut Vec<EnhancedEvent>)
    ensures
        final(batch)@.len() == old(batch)@.len(),
        sorted_by_priority_desc(final(batch)@),
        forall|p: EventPriority| #[trigger]
            events_with_priority(final(batch)@, p) == events_with_priority(old(batch)@, p),
{
    let ghost input = batch@;
    let mut crit: Vec<EnhancedEvent> = Vec::new();
    let mut high: Vec<EnhancedEvent> = Vec::new();
    let mut normal: Vec<EnhancedEvent> = Vec::new();
    let mut low: Vec<EnhancedEvent> = Vec::new();
    let n = batch.len();
    let mut idx: usize = 0;
    while idx < n
        invariant
            n == batch@.len(),
            batch@ == input,
            idx <= n,
            crit@ == events_with_priority(input.subrange(0, idx as int), EventPriority::Critical),
            high@ == events_with_priority(input.subrange(0, idx as int), EventPriority::High),
            normal@ == events_with_priority(input.subrange(0, idx as int), EventPriority::Normal),
            low@ == events_with_priority(input.subrange(0, idx as int), EventPriority::Low),
        decreases n - idx,
    {
        let e = batch[idx];
        proof {
            let prefix = input.subrange(0, idx as int);
            assert(input.subrange(0, idx as int + 1) =~= prefix.push(input[idx as int]));
            lemma_ewp_push(prefix, input[idx as int], EventPriority::Critical);
            lemma_ewp_push(prefix, input[idx as int], EventPriority::High);
            lemma_ewp_push(prefix, input[idx as int], EventPriority::Normal);
            lemma_ewp_push(prefix, input[idx as int], EventPriority::Low);
        }
        match e.priority {
            EventPriority::Critical => crit.push(e),
            EventPriority::High => high.push(e),
            EventPriority::Normal => normal.push(e),
            EventPriority::Low => low.push(e),
        }
        idx = idx + 1;
    }
    proof {
        assert(input.subrange(0, n as int) =~= input);
    }
    let ghost cs = crit@;
    let ghost hs = high@;
    let ghost ns = normal@;
    let ghost ls = low@;
    let mut result = crit;
    result.append(&mut high);
    result.append(&mut normal);
    result.append(&mut low);
    proof {
        assert(result@ =~= cs + hs + ns + ls);
        lemma_ewp_all_have_priority(input, EventPriority::Critical);
        lemma_ewp_all_have_priority(input, EventPriority::High);
        lemma_ewp_all_have_priority(input, EventPriority::Normal);
        lemma_ewp_all_have_priority(input, EventPriority::Low);
        lemma_ewp_lens_partition(input);
        assert(sorted_by_priority_desc(result@)) by {
            assert forall|i: int, j: int| 0 <= i < j < result@.len() implies priority_rank(
                result@[i].priority,
            ) >= priority_rank(result@[j].priority) by {
                lemma_segment_rank(cs, hs, ns, ls, i);
                lemma_segment_rank(cs, hs, ns, ls, j);
            }
        }
        assert forall|p: EventPriority| #[trigger]
            events_with_priority(result@, p) == events_with_priority(input, p) by {
            lemma_ewp_concat(cs, hs, p);
            lemma_ewp_concat(cs + hs, ns, p);
            lemma_ewp_concat(cs + hs + ns, ls, p);
            lemma_ewp_of_uniform(cs, EventPriority::Critical, p);
            lemma_ewp_of_uniform(hs, EventPriority::High, p);
            lemma_ewp_of_uniform(ns, EventPriority::Normal, p);
            lemma_ewp_of_uniform(ls, EventPriority::Low, p);
            assert(cs + hs + ns + ls =~= ((cs + hs) + ns) + ls);
            match p {
                EventPriority::Critical => {
                    assert(events_with_priority(result@, p) =~= cs);
                },
                EventPriority::High => {
                    assert(events_with_priority(result@, p) =~= hs);
                },
                EventPriority::Normal => {
                    assert(events_with_priority(result@, p) =~= ns);
                },
                EventPriority::Low => {
                    assert(events_with_priority(result@, p) =~= ls);
                },
            }
        }
    }
    *batch = result;
}

/// A counter increment that stops at the type's ceiling instead of
/// overflowing.
pub open spec fn bump_u64(x: u64) -> u64 {
    if x < u64::MAX {
        (x + 1) as u64
    } else {
        x
    }
}

/// Saturating addition.
pub open spec fn sat_add_u64(x: u64, y: u64) -> u64 {
    if x + y <= u64::MAX {
        (x + y) as u64
    } else {
        u64::MAX
    }
}

/// Counts of processed events by category.
#[derive(Clone, Copy, Debug)]
pub struct CategoryCounts {
    pub timer: u64,
    pub micro_break: u64,
    pub audio: u64,
    pub system: u64,
    pub notification: u64,
    pub analytics: u64,
}

/// Counts of processed events by priority.
#[derive(Clone, Copy, Debug)]
pub struct PriorityCounts {
    pub low: u64,
    pub normal: u64,
    pub high: u64,
    pub critical: u64,
}

/// Running totals over every processed event. Latency is kept as the
/// accumulated processing time in microseconds; the mean is the quotient
/// by the total. The timestamp is in milliseconds since the Unix epoch.
#[derive(Clone, Copy, Debug)]
pub struct EventStats {
    pub total_events: u64,
    pub successful_events: u64,
    pub failed_events: u64,
    pub discarded_events: u64,
    pub total_processing_micros: u64,
    pub events_per_category: CategoryCounts,
    pub events_per_priority: PriorityCounts,
    pub last_updated: i64,
}

pub open spec fn spec_bump_category(c: CategoryCounts, cat: EventCategory) -> CategoryCounts {
    match cat {
        EventCategory::Timer => CategoryCounts { timer: bump_u64(c.timer), ..c },
        EventCategory::MicroBreak => CategoryCounts { micro_break: bump_u64(c.micro_break), ..c },
        EventCategory::Audio => CategoryCounts { audio: bump_u64(c.audio), ..c },
        EventCategory::System => CategoryCounts { system: bump_u64(c.system), ..c },
        EventCategory::Notification => CategoryCounts {
            notification: bump_u64(c.notification),
            ..c
        },
        EventCategory::Analytics => CategoryCounts { analytics: bump_u64(c.analytics), ..c },
    }
}

pub open spec fn spec_bump_priority(c: PriorityCounts, p: EventPriority) -> PriorityCounts {
    match p {
        EventPriority::Low => PriorityCounts { low: bump_u64(c.low), ..c },
        EventPriority::Normal => PriorityCounts { normal: bump_u64(c.normal), ..c },
        EventPriority::High => PriorityCounts { high: bump_u64(c.high), ..c },
        EventPriority::Critical => PriorityCounts { critical: bump_u64(c.critical), ..c },
    }
}

/// The statistics after one processed event: the total, the outcome's own
/// counter (retries count toward none of them), the category and priority
/// counters and the accumulated latency all move.
pub open spec fn spec_stats_after(
    s: EventStats,
    e: EnhancedEvent,
    result: EventProcessResult,
    processing_micros: u64,
    now_ms: i64,
) -> EventStats {
    EventStats {
        total_events: bump_u64(s.total_events),
        successful_events: if result is Success {
            bump_u64(s.successful_events)
        } else {
            s.successful_events
        },
        failed_events: if result is Failed {
            bump_u64(s.failed_events)
        } else {
            s.failed_events
        },
        discarded_events: if result is Discard {
            bump_u64(s.discarded_events)
        } else {
            s.discarded_events
        },
        total_processing_micros: sat_add_u64(s.total_processing_micros, processing_micros),
        events_per_category: spec_bump_category(s.events_per_category, e.category),
        events_per_priority: spec_bump_priority(s.events_per_priority, e.priority),
        last_updated: now_ms,
    }
}

impl Default for EventStats {
    /// All counters at zero, stamped with the current time.
    fn default() -> (s: EventStats)
        ensures
            s.total_events == 0,
            s.successful_events == 0,
            s.failed_events == 0,
            s.discarded_events == 0,
            s.total_processing_micros == 0,
            s.events_per_category.timer == 0,
            s.events_per_category.micro_break == 0,
            s.events_per_category.audio == 0,
            s.events_per_category.system == 0,
            s.events_per_category.notification == 0,
            s.events_per_category.analytics == 0,
            s.events_per_priority.low == 0,
            s.events_per_priority.normal == 0,
            s.events_per_priority.high == 0,
            s.events_per_priority.critical == 0,
    {
        let now = sys::now_millis();
        EventStats {
            total_events: 0,
            successful_events: 0,
            failed_events: 0,
            discarded_events: 0,
            total_processing_micros: 0,
            events_per_category: CategoryCounts {
                timer: 0,
                micro_break: 0,
                audio: 0,
                system: 0,
                notification: 0,
                analytics: 0,
            },
            events_per_priority: PriorityCounts { low: 0, normal: 0, high: 0, critical: 0 },
            last_updated: now,
        }
    }
}

/// How the pipeline batches, retries, expires and remembers events.
/// Intervals and the time-to-live are in milliseconds.
#[derive(Clone, Copy, Debug)]
pub struct EventManagerConfig {
    pub max_queue_size: usize,
    pub max_history_size: usize,
    pub batch_size: usize,
    pub batch_interval_ms: u64,
    pub max_retries: u32,
    pub event_ttl_ms: u64,
    pub enable_deduplication: bool,
}

/// The configuration the pipeline runs with when none is given.
pub open spec fn spec_default_config() -> EventManagerConfig {
    EventManagerConfig {
        max_queue_size: 1000,
        max_history_size: 500,
        batch_size: 10,
        batch_interval_ms: 100,
        max_retries: 3,
        event_ttl_ms: 60_000,
        enable_deduplication: true,
    }
}

impl Default for EventManagerConfig {
    fn default() -> (c: EventManagerConfig)
        ensures
            c == spec_default_config(),
    {
        EventManagerConfig {
            max_queue_size: 1000,
            max_history_size: 500,
            batch_size: 10,
            batch_interval_ms: 100,
            max_retries: 3,
            event_ttl_ms: 60_000,
            enable_deduplication: true,
        }
    }
}

/// Milliseconds a retryable delivery failure waits before the event
/// re-enters the queue.
pub const RETRY_DELAY_MS: u64 = 500;

/// The metadata `emit` attaches: the given priority, the category and
/// persist flag derived from the event's kind, and no retries yet.
pub open spec fn spec_wraps(w: EnhancedEvent, event: TimerEvent, priority: EventPriority) -> bool {
    &&& w.event == event
    &&& w.priority == priority
    &&& w.category == spec_categorize(event)
    &&& w.retry_count == 0
    &&& w.persist == spec_should_persist(event)
}

pub open spec fn prio_or_normal(priority: Option<EventPriority>) -> EventPriority {
    match priority {
        Some(p) => p,
        None => EventPriority::Normal,
    }
}

/// `post` is `pre` with exactly one new pending event, wrapping `event`
/// under `priority`; nothing else of the pipeline moved.
pub open spec fn spec_emitted(
    pre: EnhancedEventManager,
    post: EnhancedEventManager,
    event: TimerEvent,
    priority: EventPriority,
) -> bool {
    &&& post.pending@.len() == pre.pending@.len() + 1
    &&& post.pending@.subrange(0, pre.pending@.len() as int) == pre.pending@
    &&& spec_wraps(post.pending@.last(), event, priority)
    &&& post.event_queue@ == pre.event_queue@
    &&& post.event_history@ == pre.event_history@
    &&& post.stats == pre.stats
    &&& post.config == pre.config
}

/// The queued events still inside their time-to-live at `now_ms`, in order.
pub open spec fn live_events(s: Seq<EnhancedEvent>, now_ms: int, ttl_ms: int) -> Seq<EnhancedEvent>
    decreases s.len(),
{
    if s.len() == 0 {
        Seq::empty()
    } else {
        let rest = live_events(s.drop_last(), now_ms, ttl_ms);
        if now_ms - s.last().timestamp < ttl_ms {
            rest.push(s.last())
        } else {
            rest
        }
    }
}

proof fn lemma_live_events_push(s: Seq<EnhancedEvent>, x: EnhancedEvent, now_ms: int, ttl_ms: int)
    ensures
        live_events(s.push(x), now_ms, ttl_ms) == if now_ms - x.timestamp < ttl_ms {
            live_events(s, now_ms, ttl_ms).push(x)
        } else {
            live_events(s, now_ms, ttl_ms)
        },
{
    assert(s.push(x).drop_last() =~= s);
}

/// The history after a successful delivery: the event appended, and the
/// oldest entry dropped when that pushed the length over the bound.
pub open spec fn spec_history_after_success(
    h: Seq<EnhancedEvent>,
    e: EnhancedEvent,
    max: int,
) -> Seq<EnhancedEvent> {
    let grown = h.push(e);
    if grown.len() > max {
        grown.subrange(1, grown.len() as int)
    } else {
        grown
    }
}

/// One step of the retry policy: below the cap the event re-enters with
/// its retry count raised; at the cap it is dropped.
pub open spec fn spec_retry_step(e: EnhancedEvent, max_retries: u32) -> Option<EnhancedEvent> {
    if e.retry_count < max_retries {
        Some(EnhancedEvent { retry_count: (e.retry_count + 1) as u32, ..e })
    } else {
        None
    }
}

/// How many delivery attempts an event whose delivery always fails
/// retryably gets before it is dropped: one per retry level left, plus
/// the attempt that exhausts the cap.
pub open spec fn attempts_until_drop(e: EnhancedEvent, max_retries: u32) -> nat
    decreases max_retries - e.retry_count,
{
    if e.retry_count >= max_retries {
        1nat
    } else {
        1nat + attempts_until_drop(
            EnhancedEvent { retry_count: (e.retry_count + 1) as u32, ..e },
            max_retries,
        )
    }
}

/// An event whose delivery always fails retryably is attempted once and
/// then retried exactly `max_retries - retry_count` more times before the
/// policy drops it. A fresh event (retry count zero) therefore sees
/// `max_retries + 1` delivery attempts in all.
pub proof fn lemma_retry_attempts_bounded(e: EnhancedEvent, max_retries: u32)
    requires
        e.retry_count <= max_retries,
    ensures
        attempts_until_drop(e, max_retries) == max_retries - e.retry_count + 1,
        e.retry_count == 0 ==> attempts_until_drop(e, max_retries) == max_retries + 1,
    decreases max_retries - e.retry_count,
{
    if e.retry_count < max_retries {
        lemma_retry_attempts_bounded(
            EnhancedEvent { retry_count: (e.retry_count + 1) as u32, ..e },
            max_retries,
        );
    }
}

/// The event pipeline. Emitted events accumulate in `pending` until the
/// runner takes a batch; retried events re-enter through `event_queue`,
/// bypassing the next batching window; delivered events land in the
/// bounded `event_history`.
pub struct EnhancedEventManager {
    pub pending: Vec<EnhancedEvent>,
    pub event_queue: Vec<EnhancedEvent>,
    pub event_history: Vec<EnhancedEvent>,
    pub stats: EventStats,
    pub config: EventManagerConfig,
}

impl EnhancedEventManager {
    /// An empty pipeline under the given configuration, or the default one.
    pub fn new(config: Option<EventManagerConfig>) -> (m: EnhancedEventManager)
        ensures
            m.pending@.len() == 0,
            m.event_queue@.len() == 0,
            m.event_history@.len() == 0,
            m.config == match config {
                Some(c) => c,
                None => spec_default_config(),
            },
            m.stats.total_events == 0,
            m.stats.successful_events == 0,
            m.stats.failed_events == 0,
            m.stats.discarded_events == 0,
            m.stats.total_processing_micros == 0,
    {
        let config = match config {
            Some(c) => c,
            None => EventManagerConfig::default(),
        };
        EnhancedEventManager {
            pending: Vec::new(),
            event_queue: Vec::new(),
            event_history: Vec::new(),
            stats: EventStats::default(),
            config,
        }
    }

    /// Accept one event: wrap it with a fresh id, the current time, the
    /// given priority (`Normal` when none) and derived metadata, and add it
    /// to the pending batch. Ingestion never fails.
    pub fn emit_event(&mut self, event: TimerEvent, priority: Option<EventPriority>) -> (r: Result<
        (),
        String,
    >)
        ensures
            r is Ok,
            spec_emitted(*old(self), *final(self), event, prio_or_normal(priority)),
    {
        let id = sys::fresh_id();
        let now = sys::now_millis();
        let enhanced = EnhancedEvent {
            id,
            event,
            priority: match priority {
                Some(p) => p,
                None => EventPriority::Normal,
            },
            timestamp: now,
            category: categorize_event(&event),
            retry_count: 0,
            persist: should_persist_event(&event),
        };
        self.pending.push(enhanced);
        proof {
            assert(self.pending@.subrange(0, old(self).pending@.len() as int) =~= old(
                self,
            ).pending@);
        }
        Ok(())
    }

    /// Accept a batch of events, in order.
    pub fn emit_batch_events(&mut self, events: Vec<(TimerEvent, Option<EventPriority>)>) -> (r:
        Result<(), String>)
        ensures
            r is Ok,
            final(self).pending@.len() == old(self).pending@.len() + events@.len(),
            final(self).pending@.subrange(0, old(self).pending@.len() as int) == old(
                self,
            ).pending@,
            forall|i: int|
                0 <= i < events@.len() ==> spec_wraps(
                    #[trigger] final(self).pending@[old(self).pending@.len() + i],
                    events@[i].0,
                    prio_or_normal(events@[i].1),
                ),
            final(self).event_queue@ == old(self).event_queue@,
            final(self).event_history@ == old(self).event_history@,
            final(self).stats == old(self).stats,
            final(self).config == old(self).config,
    {
        let ghost base = self.pending@.len() as int;
        let n = events.len();
        let mut i: usize = 0;
        while i < n
            invariant
                n == events@.len(),
                i <= n,
                self.pending@.len() == base + i,
                base == old(self).pending@.len(),
                self.pending@.subrange(0, base) == old(self).pending@,
                forall|k: int|
                    0 <= k < i ==> spec_wraps(
                        #[trigger] self.pending@[base + k],
                        events@[k].0,
                        prio_or_normal(events@[k].1),
                    ),
                self.event_queue@ == old(self).event_queue@,
                self.event_history@ == old(self).event_history@,
                self.stats == old(self).stats,
                self.config == old(self).config,
            decreases n - i,
        {
            let (event, priority) = events[i];
            let ghost before = self.pending@;
            let _ = self.emit_event(event, priority);
            proof {
                assert forall|k: int| 0 <= k < i + 1 implies spec_wraps(
                    #[trigger] self.pending@[base + k],
                    events@[k].0,
                    prio_or_normal(events@[k].1),
                ) by {
                    if k < i {
                        assert(self.pending@.subrange(0, before.len() as int)[base + k]
                            == before[base + k]);
                    } else {
                        assert(self.pending@[base + k] == self.pending@.last());
                    }
                }
                assert(self.pending@.subrange(0, base) =~= old(self).pending@);
            }
            i = i + 1;
        }
        Ok(())
    }

    pub fn get_stats(&self) -> (r: EventStats)
        ensures
            r == self.stats,
    {
        self.stats
    }

    /// The most recent events, newest first, at most `limit` of them
    /// (100 when none is given).
    pub fn get_event_history(&self, limit: Option<usize>) -> (r: Vec<EnhancedEvent>)
        ensures
            r@.len() == ({
                let cap = match limit {
                    Some(l) => l as int,
                    None => 100int,
                };
                if cap < self.event_history@.len() {
                    cap
                } else {
                    self.event_history@.len() as int
                }
            }),
            forall|i: int|
                0 <= i < r@.len() ==> r@[i] == self.event_history@[self.event_history@.len() - 1
                    - i],
    {
        let cap = match limit {
            Some(l) => l,
            None => 100,
        };
        let len = self.event_history.len();
        let count = if cap < len {
            cap
        } else {
            len
        };
        let mut out: Vec<EnhancedEvent> = Vec::new();
        let mut i: usize = 0;
        while i < count
            invariant
                count <= len,
                len == self.event_history@.len(),
                i <= count,
                out@.len() == i,
                forall|k: int|
                    0 <= k < i ==> out@[k] == self.event_history@[self.event_history@.len() - 1
                        - k],
            decreases count - i,
        {
            let e = self.event_history[len - 1 - i];
            out.push(e);
            i = i + 1;
        }
        out
    }

    /// Purge queued events that have outlived the time-to-live as of
    /// `now_ms`, and trim the history to the bound, oldest first.
    pub fn cleanup_expired_events_at(&mut self, now_ms: i64)
        ensures
            final(self).event_queue@ == live_events(
                old(self).event_queue@,
                now_ms as int,
                old(self).config.event_ttl_ms as int,
            ),
            final(self).event_history@ == ({
                let h = old(self).event_history@;
                let max = old(self).config.max_history_size as int;
                if h.len() > max {
                    h.subrange(h.len() - max, h.len() as int)
                } else {
                    h
                }
            }),
            final(self).pending@ == old(self).pending@,
            final(self).stats == old(self).stats,
            final(self).config == old(self).config,
    {
        let ghost old_queue = self.event_queue@;
        let ghost ttl = self.config.event_ttl_ms as int;
        let mut kept: Vec<EnhancedEvent> = Vec::new();
        let n = self.event_queue.len();
        let mut i: usize = 0;
        while i < n
            invariant
                n == self.event_queue@.len(),
                self.event_queue@ == old_queue,
                ttl == self.config.event_ttl_ms as int,
                i <= n,
                kept@ == live_events(old_queue.subrange(0, i as int), now_ms as int, ttl),
            decreases n - i,
        {
            let e = self.event_queue[i];
            proof {
                let prefix = old_queue.subrange(0, i as int);
                assert(old_queue.subrange(0, i as int + 1) =~= prefix.push(old_queue[i as int]));
                lemma_live_events_push(prefix, old_queue[i as int], now_ms as int, ttl);
            }
            if (e.timestamp as i128) + (self.config.event_ttl_ms as i128) > (now_ms as i128) {
                kept.push(e);
            }
            i = i + 1;
        }
        proof {
            assert(old_queue.subrange(0, n as int) =~= old_queue);
        }
        self.event_queue = kept;
        let ghost old_history = self.event_history@;
        proof {
            assert(old_history.subrange(0, old_history.len() as int) =~= old_history);
        }
        while self.event_history.len() > self.config.max_history_size
            invariant
                old_history == old(self).event_history@,
                self.event_queue@ == live_events(old_queue, now_ms as int, ttl),
                self.pending@ == old(self).pending@,
                self.stats == old(self).stats,
                self.config == old(self).config,
                self.event_history@.len() <= old_history.len(),
                self.event_history@.len() >= if old_history.len()
                    < self.config.max_history_size {
                    old_history.len() as int
                } else {
                    self.config.max_history_size as int
                },
                self.event_history@ == old_history.subrange(
                    old_history.len() - self.event_history@.len(),
                    old_history.len() as int,
                ),
            decreases self.event_history@.len(),
        {
            self.event_history.remove(0);
            proof {
                assert(self.event_history@ =~= old_history.subrange(
                    old_history.len() - self.event_history@.len(),
                    old_history.len() as int,
                ));
            }
        }
        proof {
            let h = old_history;
            let max = self.config.max_history_size as int;
            if h.len() <= max {
                assert(self.event_history@ =~= h);
            }
        }
    }

    /// Purge expired queued events and trim the history, as of the clock's
    /// current reading.
    pub fn cleanup_expired_events(&mut self)
        ensures
            exists|now_ms: int|
                final(self).event_queue@ == live_events(
                    old(self).event_queue@,
                    now_ms,
                    old(self).config.event_ttl_ms as int,
                ),
            final(self).event_history@ == ({
                let h = old(self).event_history@;
                let max = old(self).config.max_history_size as int;
                if h.len() > max {
                    h.subrange(h.len() - max, h.len() as int)
                } else {
                    h
                }
            }),
            final(self).pending@ == old(self).pending@,
            final(self).stats == old(self).stats,
            final(self).config == old(self).config,
    {
        let now = sys::now_millis();
        self.cleanup_expired_events_at(now);
    }

    /// The queue's current length beside its advisory bound. The bound is
    /// reported, not enforced: ingestion stays unbounded.
    pub fn get_queue_status(&self) -> (r: (usize, usize))
        ensures
            r.0 == self.event_queue@.len(),
            r.1 == self.config.max_queue_size,
    {
        (self.event_queue.len(), self.config.max_queue_size)
    }

    /// The next batch to process: everything the retry queue holds (those
    /// events bypass the batching window), followed by up to `batch_size`
    /// pending events, in arrival order.
    pub fn take_batch(&mut self) -> (batch: Vec<EnhancedEvent>)
        ensures
            batch@ == old(self).event_queue@ + old(self).pending@.subrange(
                0,
                ({
                    let take = old(self).config.batch_size as int;
                    if take < old(self).pending@.len() {
                        take
                    } else {
                        old(self).pending@.len() as int
                    }
                }),
            ),
            final(self).event_queue@.len() == 0,
            final(self).pending@ == old(self).pending@.subrange(
                ({
                    let take = old(self).config.batch_size as int;
                    if take < old(self).pending@.len() {
                        take
                    } else {
                        old(self).pending@.len() as int
                    }
                }),
                old(self).pending@.len() as int,
            ),
            final(self).event_history@ == old(self).event_history@,
            final(self).stats == old(self).stats,
            final(self).config == old(self).config,
    {
        let mut batch: Vec<EnhancedEvent> = Vec::new();
        let qlen = self.event_queue.len();
        let mut k: usize = 0;
        while k < qlen
            invariant
                qlen == self.event_queue@.len(),
                self.event_queue@ == old(self).event_queue@,
                self.pending@ == old(self).pending@,
                self.event_history@ == old(self).event_history@,
                self.stats == old(self).stats,
                self.config == old(self).config,
                k <= qlen,
                batch@ == old(self).event_queue@.subrange(0, k as int),
            decreases qlen - k,
        {
            let e = self.event_queue[k];
            proof {
                let q = old(self).event_queue@;
                assert(q.subrange(0, k as int + 1) =~= q.subrange(0, k as int).push(q[k as int]));
            }
            batch.push(e);
            k = k + 1;
        }
        proof {
            assert(old(self).event_queue@.subrange(0, qlen as int) =~= old(self).event_queue@);
        }
        self.event_queue = Vec::new();
        let take = if self.config.batch_size < self.pending.len() {
            self.config.batch_size
        } else {
            self.pending.len()
        };
        let ghost pend = self.pending@;
        let mut i: usize = 0;
        while i < take
            invariant
                take <= pend.len(),
                self.pending@ == pend,
                i <= take,
                batch@ == old(self).event_queue@ + pend.subrange(0, i as int),
                self.event_history@ == old(self).event_history@,
                self.stats == old(self).stats,
                self.config == old(self).config,
                self.event_queue@.len() == 0,
            decreases take - i,
        {
            let e = self.pending[i];
            proof {
                assert(pend.subrange(0, i as int + 1) =~= pend.subrange(0, i as int).push(
                    pend[i as int],
                ));
                assert((old(self).event_queue@ + pend.subrange(0, i as int)).push(pend[i as int])
                    =~= old(self).event_queue@ + pend.subrange(0, i as int + 1));
            }
            batch.push(e);
            i = i + 1;
        }
        let ghost taken = take as int;
        let mut rest: Vec<EnhancedEvent> = Vec::new();
        let mut j: usize = take;
        while j < self.pending.len()
            invariant
                take <= j <= self.pending@.len(),
                self.pending@ == pend,
                taken == take as int,
                rest@ == pend.subrange(taken, j as int),
                self.event_history@ == old(self).event_history@,
                self.stats == old(self).stats,
                self.config == old(self).config,
                self.event_queue@.len() == 0,
            decreases self.pending@.len() - j,
        {
            let e = self.pending[j];
            proof {
                assert(pend.subrange(taken, j as int + 1) =~= pend.subrange(taken, j as int).push(
                    pend[j as int],
                ));
            }
            rest.push(e);
            j = j + 1;
        }
        self.pending = rest;
        batch
    }

    /// Duplicate detection is a deliberate no-op: the dedup key is not yet
    /// settled, so no event is ever considered a duplicate.
    pub fn is_duplicate_event(event: &EnhancedEvent) -> (r: bool)
        ensures
            !r,
    {
        let _ = event;
        false
    }

    /// Classify what one delivery attempt came to: a duplicate would be
    /// discarded (none ever is), success passes through, and a failure is
    /// retried after a fixed delay when its reason speaks of a connection
    /// problem or a timeout, and is final otherwise.
    pub fn process_single_event(event: &EnhancedEvent, delivery: Result<(), String>) -> (r:
        EventProcessResult)
        ensures
            delivery is Ok ==> r is Success,
            delivery matches Err(e) ==> {
                &&& spec_is_retryable_reason(e@) ==> r == EventProcessResult::Retry(RETRY_DELAY_MS)
                &&& !spec_is_retryable_reason(e@) ==> r == EventProcessResult::Failed(e)
            },
    {
        if Self::is_duplicate_event(event) {
            return EventProcessResult::Discard;
        }
        match delivery {
            Ok(_) => EventProcessResult::Success,
            Err(e) => {
                if str_contains_substring(e.as_str(), "connection") || str_contains_substring(
                    e.as_str(),
                    "timeout",
                ) {
                    EventProcessResult::Retry(RETRY_DELAY_MS)
                } else {
                    EventProcessResult::Failed(e)
                }
            },
        }
    }

    /// Fold one processed event into the statistics, as of `now_ms`.
    pub fn update_stats(
        &mut self,
        event: &EnhancedEvent,
        result: &EventProcessResult,
        processing_micros: u64,
        now_ms: i64,
    )
        ensures
            final(self).stats == spec_stats_after(
                old(self).stats,
                *event,
                *result,
                processing_micros,
                now_ms,
            ),
            final(self).pending@ == old(self).pending@,
            final(self).event_queue@ == old(self).event_queue@,
            final(self).event_history@ == old(self).event_history@,
            final(self).config == old(self).config,
    {
        self.stats.total_events = bump_count_u64(self.stats.total_events);
        match result {
            EventProcessResult::Success => {
                self.stats.successful_events = bump_count_u64(self.stats.successful_events);
            },
            EventProcessResult::Failed(_) => {
                self.stats.failed_events = bump_count_u64(self.stats.failed_events);
            },
            EventProcessResult::Discard => {
                self.stats.discarded_events = bump_count_u64(self.stats.discarded_events);
            },
            EventProcessResult::Retry(_) => {},
        }
        match event.category {
            EventCategory::Timer => {
                self.stats.events_per_category.timer = bump_count_u64(
                    self.stats.events_per_category.timer,
                );
            },
            EventCategory::MicroBreak => {
                self.stats.events_per_category.micro_break = bump_count_u64(
                    self.stats.events_per_category.micro_break,
                );
            },
            EventCategory::Audio => {
                self.stats.events_per_category.audio = bump_count_u64(
                    self.stats.events_per_category.audio,
                );
            },
            EventCategory::System => {
                self.stats.events_per_category.system = bump_count_u64(
                    self.stats.events_per_category.system,
                );
            },
            EventCategory::Notification => {
                self.stats.events_per_category.notification = bump_count_u64(
                    self.stats.events_per_category.notification,
                );
            },
            EventCategory::Analytics => {
                self.stats.events_per_category.analytics = bump_count_u64(
                    self.stats.events_per_category.analytics,
                );
            },
        }
        match event.priority {
            EventPriority::Low => {
                self.stats.events_per_priority.low = bump_count_u64(
                    self.stats.events_per_priority.low,
                );
            },
            EventPriority::Normal => {
                self.stats.events_per_priority.normal = bump_count_u64(
                    self.stats.events_per_priority.normal,
                );
            },
            EventPriority::High => {
                self.stats.events_per_priority.high = bump_count_u64(
                    self.stats.events_per_priority.high,
                );
            },
            EventPriority::Critical => {
                self.stats.events_per_priority.critical = bump_count_u64(
                    self.stats.events_per_priority.critical,
                );
            },
        }
        self.stats.total_processing_micros = match self.stats.total_processing_micros.checked_add(
            processing_micros,
        ) {
            Some(v) => v,
            None => u64::MAX,
        };
        self.stats.last_updated = now_ms;
    }

    /// Mean processing latency in microseconds over every processed event.
    pub fn average_processing_micros(&self) -> (r: u64)
        ensures
            r == if self.stats.total_events == 0 {
                0int
            } else {
                self.stats.total_processing_micros as int / self.stats.total_events as int
            },
    {
        if self.stats.total_events == 0 {
            0
        } else {
            self.stats.total_processing_micros / self.stats.total_events
        }
    }

    /// Act on one processing result: success lands the event in the
    /// bounded history; a retryable failure hands back the event with its
    /// retry count raised while the cap allows, and drops it otherwise;
    /// a final failure or a discard changes nothing further.
    pub fn apply_process_result(&mut self, event: EnhancedEvent, result: &EventProcessResult) -> (
    retry: Option<EnhancedEvent>)
        ensures
            result is Success ==> {
                &&& final(self).event_history@ == spec_history_after_success(
                    old(self).event_history@,
                    event,
                    old(self).config.max_history_size as int,
                )
                &&& retry is None
            },
            result is Retry ==> {
                &&& final(self).event_history@ == old(self).event_history@
                &&& retry == spec_retry_step(event, old(self).config.max_retries)
            },
            result is Failed || result is Discard ==> {
                &&& final(self).event_history@ == old(self).event_history@
                &&& retry is None
            },
            final(self).pending@ == old(self).pending@,
            final(self).event_queue@ == old(self).event_queue@,
            final(self).stats == old(self).stats,
            final(self).config == old(self).config,
    {
        match result {
            EventProcessResult::Success => {
                self.event_history.push(event);
                if self.event_history.len() > self.config.max_history_size {
                    self.event_history.remove(0);
                }
                None
            },
            EventProcessResult::Retry(_) => {
                if event.retry_count < self.config.max_retries {
                    Some(EnhancedEvent { retry_count: event.retry_count + 1, ..event })
                } else {
                    None
                }
            },
            EventProcessResult::Failed(_) => None,
            EventProcessResult::Discard => None,
        }
    }

    /// Put a retried event back on the internal queue; it will go out with
    /// the next batch, bypassing the batching window.
    pub fn requeue_retry(&mut self, event: EnhancedEvent)
        ensures
            final(self).event_queue@ == old(self).event_queue@.push(event),
            final(self).pending@ == old(self).pending@,
            final(self).event_history@ == old(self).event_history@,
            final(self).stats == old(self).stats,
            final(self).config == old(self).config,
    {
        self.event_queue.push(event);
    }

    /// Process one delivered event end to end: classify the delivery's
    /// outcome, fold it into the statistics, and either land the event in
    /// history (success) or hand back what the retry policy says (a
    /// retryable failure below the cap), taking `processing_micros` as the
    /// attempt's measured latency.
    pub fn process_delivered_event(
        &mut self,
        event: EnhancedEvent,
        delivery: Result<(), String>,
        processing_micros: u64,
    ) -> (retry: Option<EnhancedEvent>)
        ensures
            delivery is Ok ==> {
                &&& final(self).event_history@ == spec_history_after_success(
                    old(self).event_history@,
                    event,
                    old(self).config.max_history_size as int,
                )
                &&& retry is None
                &&& exists|now: i64|
                    final(self).stats == spec_stats_after(
                        old(self).stats,
                        event,
                        EventProcessResult::Success,
                        processing_micros,
                        now,
                    )
            },
            delivery matches Err(e) ==> {
                &&& final(self).event_history@ == old(self).event_history@
                &&& spec_is_retryable_reason(e@) ==> {
                    &&& retry == spec_retry_step(event, old(self).config.max_retries)
                    &&& exists|now: i64|
                        final(self).stats == spec_stats_after(
                            old(self).stats,
                            event,
                            EventProcessResult::Retry(RETRY_DELAY_MS),
                            processing_micros,
                            now,
                        )
                }
                &&& !spec_is_retryable_reason(e@) ==> {
                    &&& retry is None
                    &&& exists|now: i64|
                        final(self).stats == spec_stats_after(
                            old(self).stats,
                            event,
                            EventProcessResult::Failed(e),
                            processing_micros,
                            now,
                        )
                }
            },
            final(self).pending@ == old(self).pending@,
            final(self).event_queue@ == old(self).event_queue@,
            final(self).config == old(self).config,
    {
        let result = Self::process_single_event(&event, delivery);
        let now = sys::now_millis();
        self.update_stats(&event, &result, processing_micros, now);
        self.apply_process_result(event, &result)
    }
}

/// A counter increment that stops at the ceiling instead of overflowing.
fn bump_count_u64(x: u64) -> (r: u64)
    ensures
        r == bump_u64(x),
{
    if x < u64::MAX {
        x + 1
    } else {
        x
    }
}

} // verus!
