//! The state of one timed segment (a focus session, a long break or a
//! micro-break) and the domain events the cycle emits.
//!
//! A `TimerState` is a pure value: every operation is a total function on it.
//! Its invariant ties the three durations together: `remaining + elapsed`
//! always equals `total`, and a `Completed` segment has nothing remaining.

use vstd::prelude::*;

verus! {

#[derive(Clone, Copy, Debug, PartialEq, Eq, Structural)]
pub enum TimerStatus {
    Idle,
    Running,
    Paused,
    Completed,
}

#[derive(Clone, Copy, Debug, PartialEq, Eq, Structural)]
pub enum SessionPhase {
    Focus,
    LongBreak,
    MicroBreak,
}

/// State of the currently active segment. Durations are in seconds,
/// timestamps in milliseconds since the Unix epoch, identifiers are the
/// 128-bit values of the ids handed out at session start.
#[derive(Clone, Copy, Debug)]
pub struct TimerState {
    pub status: TimerStatus,
    pub phase: SessionPhase,
    pub total_duration: u64,
    pub remaining_duration: u64,
    pub elapsed_duration: u64,
    pub start_time: Option<i64>,
    pub pause_time: Option<i64>,
    pub session_id: Option<u128>,
    pub micro_break_count: u32,
    pub next_micro_break_at: Option<u64>,
}

impl TimerState {
    /// Well-formedness: the durations partition the total, the total is
    /// small enough for progress arithmetic, and completion means empty.
    pub open spec fn wf(self) -> bool {
        &&& self.remaining_duration + self.elapsed_duration == self.total_duration
        &&& self.total_duration <= u32::MAX
        &&& (self.status is Completed ==> self.remaining_duration == 0)
    }

    /// A segment counts as completed once its status says so or nothing
    /// remains of it.
    pub open spec fn spec_is_completed(self) -> bool {
        self.status is Completed || self.remaining_duration == 0
    }

    /// Progress through the segment in thousandths (0 when the total is 0).
    pub open spec fn spec_progress_permille(self) -> int {
        if self.total_duration == 0 {
            0
        } else {
            self.elapsed_duration * 1000 / self.total_duration as int
        }
    }

    /// One one-second step: a running segment with time left loses one
    /// remaining second; a running segment with nothing left completes;
    /// anything else is untouched.
    pub open spec fn spec_tick(self) -> TimerState {
        if !(self.status is Running) {
            self
        } else if self.remaining_duration > 0 {
            TimerState {
                remaining_duration: (self.remaining_duration - 1) as u64,
                elapsed_duration: (self.elapsed_duration + 1) as u64,
                ..self
            }
        } else {
            TimerState {
                status: TimerStatus::Completed,
                remaining_duration: 0,
                elapsed_duration: self.total_duration,
                ..self
            }
        }
    }

    /// The state after `n` ticks.
    pub open spec fn spec_tick_n(self, n: nat) -> TimerState
        decreases n,
    {
        if n == 0 {
            self
        } else {
            self.spec_tick_n((n - 1) as nat).spec_tick()
        }
    }

    pub fn new_focus_session(duration_minutes: u32) -> (t: TimerState)
        requires
            duration_minutes * 60 <= u32::MAX,
        ensures
            t.wf(),
            t.status is Idle,
            t.phase is Focus,
            t.total_duration == duration_minutes * 60,
            t.remaining_duration == t.total_duration,
            t.elapsed_duration == 0,
            t.start_time is None,
            t.pause_time is None,
            t.session_id is None,
            t.micro_break_count == 0,
            t.next_micro_break_at is None,
    {
        let total_seconds = (duration_minutes * 60) as u64;
        TimerState {
            status: TimerStatus::Idle,
            phase: SessionPhase::Focus,
            total_duration: total_seconds,
            remaining_duration: total_seconds,
            elapsed_duration: 0,
            start_time: None,
            pause_time: None,
            session_id: None,
            micro_break_count: 0,
            next_micro_break_at: None,
        }
    }

    pub fn new_long_break_session(duration_minutes: u32) -> (t: TimerState)
        requires
            duration_minutes * 60 <= u32::MAX,
        ensures
            t.wf(),
            t.status is Idle,
            t.phase is LongBreak,
            t.total_duration == duration_minutes * 60,
            t.remaining_duration == t.total_duration,
            t.elapsed_duration == 0,
            t.start_time is None,
            t.pause_time is None,
            t.session_id is None,
            t.micro_break_count == 0,
            t.next_micro_break_at is None,
    {
        let total_seconds = (duration_minutes * 60) as u64;
        TimerState {
            status: TimerStatus::Idle,
            phase: SessionPhase::LongBreak,
            total_duration: total_seconds,
            remaining_duration: total_seconds,
            elapsed_duration: 0,
            start_time: None,
            pause_time: None,
            session_id: None,
            micro_break_count: 0,
            next_micro_break_at: None,
        }
    }

    pub fn new_micro_break_session(duration_seconds: u32) -> (t: TimerState)
        ensures
            t.wf(),
            t.status is Idle,
            t.phase is MicroBreak,
            t.total_duration == duration_seconds,
            t.remaining_duration == t.total_duration,
            t.elapsed_duration == 0,
            t.start_time is None,
            t.pause_time is None,
            t.session_id is None,
            t.micro_break_count == 0,
            t.next_micro_break_at is None,
    {
        let total_seconds = duration_seconds as u64;
        TimerState {
            status: TimerStatus::Idle,
            phase: SessionPhase::MicroBreak,
            total_duration: total_seconds,
            remaining_duration: total_seconds,
            elapsed_duration: 0,
            start_time: None,
            pause_time: None,
            session_id: None,
            micro_break_count: 0,
            next_micro_break_at: None,
        }
    }

    /// Start the segment: it runs from `now_ms` and carries no pause mark.
    pub fn start(&mut self, now_ms: i64)
        ensures
            *final(self) == (TimerState {
                status: TimerStatus::Running,
                start_time: Some(now_ms),
                pause_time: None,
                ..*old(self)
            }),
    {
        self.status = TimerStatus::Running;
        self.start_time = Some(now_ms);
        self.pause_time = None;
    }

    /// Pause a running segment at `now_ms`; any other status is untouched.
    pub fn pause(&mut self, now_ms: i64)
        ensures
            old(self).status is Running ==> *final(self) == (TimerState {
                status: TimerStatus::Paused,
                pause_time: Some(now_ms),
                ..*old(self)
            }),
            !(old(self).status is Running) ==> *final(self) == *old(self),
    {
        if matches!(self.status, TimerStatus::Running) {
            self.status = TimerStatus::Paused;
            self.pause_time = Some(now_ms);
        }
    }

    /// Resume a paused segment; any other status is untouched.
    pub fn resume(&mut self)
        ensures
            old(self).status is Paused ==> *final(self) == (TimerState {
                status: TimerStatus::Running,
                pause_time: None,
                ..*old(self)
            }),
            !(old(self).status is Paused) ==> *final(self) == *old(self),
    {
        if matches!(self.status, TimerStatus::Paused) {
            self.status = TimerStatus::Running;
            self.pause_time = None;
        }
    }

    /// Force the segment to its completed form: nothing remaining,
    /// everything elapsed.
    pub fn complete(&mut self)
        ensures
            *final(self) == (TimerState {
                status: TimerStatus::Completed,
                remaining_duration: 0,
                elapsed_duration: old(self).total_duration,
                ..*old(self)
            }),
            old(self).total_duration <= u32::MAX ==> final(self).wf(),
    {
        self.status = TimerStatus::Completed;
        self.remaining_duration = 0;
        self.elapsed_duration = self.total_duration;
    }

    /// Restore the segment to a full, idle one.
    pub fn reset(&mut self)
        ensures
            *final(self) == (TimerState {
                status: TimerStatus::Idle,
                remaining_duration: old(self).total_duration,
                elapsed_duration: 0,
                start_time: None,
                pause_time: None,
                ..*old(self)
            }),
            old(self).total_duration <= u32::MAX ==> final(self).wf(),
    {
        self.status = TimerStatus::Idle;
        self.remaining_duration = self.total_duration;
        self.elapsed_duration = 0;
        self.start_time = None;
        self.pause_time = None;
    }

    /// Overwrite the remaining time; elapsed becomes whatever of the total
    /// is not remaining (zero if `remaining` exceeds the total).
    pub fn update_remaining(&mut self, remaining: u64)
        ensures
            final(self).remaining_duration == remaining,
            final(self).elapsed_duration == if remaining <= old(self).total_duration {
                old(self).total_duration - remaining
            } else {
                0
            },
            *final(self) == (TimerState {
                remaining_duration: final(self).remaining_duration,
                elapsed_duration: final(self).elapsed_duration,
                ..*old(self)
            }),
    {
        self.remaining_duration = remaining;
        self.elapsed_duration = if remaining <= self.total_duration {
            self.total_duration - remaining
        } else {
            0
        };
    }

    /// Progress through the segment in thousandths.
    pub fn progress(&self) -> (p: u64)
        requires
            self.elapsed_duration <= u32::MAX,
        ensures
            p == self.spec_progress_permille(),
    {
        if self.total_duration == 0 {
            return 0;
        }
        self.elapsed_duration * 1000 / self.total_duration
    }

    /// One one-second step, as `spec_tick` describes. Returns whether a
    /// remaining second was consumed.
    pub fn tick(&mut self) -> (ticked: bool)
        requires
            old(self).wf(),
        ensures
            *final(self) == old(self).spec_tick(),
            final(self).wf(),
            ticked == (old(self).status is Running && old(self).remaining_duration > 0),
    {
        if !matches!(self.status, TimerStatus::Running) {
            return false;
        }
        if self.remaining_duration > 0 {
            self.remaining_duration = self.remaining_duration - 1;
            self.elapsed_duration = self.elapsed_duration + 1;
            true
        } else {
            self.complete();
            false
        }
    }

    pub fn is_completed(&self) -> (r: bool)
        ensures
            r == self.spec_is_completed(),
    {
        matches!(self.status, TimerStatus::Completed) || self.remaining_duration == 0
    }

    pub fn is_running(&self) -> (r: bool)
        ensures
            r == (self.status is Running),
    {
        matches!(self.status, TimerStatus::Running)
    }

    pub fn is_paused(&self) -> (r: bool)
        ensures
            r == (self.status is Paused),
    {
        matches!(self.status, TimerStatus::Paused)
    }

    pub fn is_idle(&self) -> (r: bool)
        ensures
            r == (self.status is Idle),
    {
        matches!(self.status, TimerStatus::Idle)
    }
}

impl Default for TimerState {
    /// The empty idle state.
    fn default() -> (t: TimerState)
        ensures
            t.wf(),
            t.status is Idle,
            t.phase is Focus,
            t.total_duration == 0,
            t.remaining_duration == 0,
            t.elapsed_duration == 0,
            t.start_time is None,
            t.pause_time is None,
            t.session_id is None,
            t.micro_break_count == 0,
            t.next_micro_break_at is None,
    {
        TimerState {
            status: TimerStatus::Idle,
            phase: SessionPhase::Focus,
            total_duration: 0,
            remaining_duration: 0,
            elapsed_duration: 0,
            start_time: None,
            pause_time: None,
            session_id: None,
            micro_break_count: 0,
            next_micro_break_at: None,
        }
    }
}

/// After `n` ticks of a segment that started running with its full time,
/// `remaining` is the total less `n`, floored at zero; `elapsed` is `n`,
/// capped at the total; and the segment counts as completed exactly when
/// nothing remains, which happens exactly once `n` reaches the total.
pub proof fn lemma_tick_n_progress(t: TimerState, n: nat)
    requires
        t.wf(),
        t.status is Running,
        t.elapsed_duration == 0,
        t.remaining_duration == t.total_duration,
    ensures
        ({
            let u = t.spec_tick_n(n);
            &&& u.wf()
            &&& u.total_duration == t.total_duration
            &&& u.phase == t.phase
            &&& u.remaining_duration == if n <= t.total_duration {
                t.total_duration - n
            } else {
                0int
            }
            &&& u.elapsed_duration == if n <= t.total_duration {
                n as int
            } else {
                t.total_duration as int
            }
            &&& u.status == if n > t.total_duration {
                TimerStatus::Completed
            } else {
                TimerStatus::Running
            }
            &&& (u.spec_is_completed() <==> u.remaining_duration == 0)
            &&& (u.spec_is_completed() <==> n >= t.total_duration)
        }),
    decreases n,
{
    if n > 0 {
        lemma_tick_n_progress(t, (n - 1) as nat);
    }
}

/// The domain events the cycle emits. Progress, rates and levels are in
/// thousandths or percent, ids are 128-bit session identifiers.
#[derive(Clone, Copy, Debug)]
pub enum TimerEvent {
    Started { phase: SessionPhase, duration: u64, session_id: u128 },
    Paused { phase: SessionPhase, remaining: u64 },
    Resumed { phase: SessionPhase, remaining: u64 },
    Tick { phase: SessionPhase, remaining: u64, elapsed: u64, progress: u64 },
    Completed { phase: SessionPhase, session_id: u128 },
    Reset { phase: SessionPhase },
    MicroBreakTriggered { count: u32, duration: u64 },
    MicroBreakSkipped { count: u32, remaining_skips: u32, skip_limit: u32 },
    MicroBreakCompleted { count: u32, completion_rate: u64 },
    MicroBreakSkipLimitReached { skip_limit: u32 },
    MicroBreakScheduleUpdated { next_break_at: Option<u64>, adjustment_factor: u32, fatigue_level: u32 },
    MicroBreakStatsUpdated { total: u32, completed: u32, skipped: u32, completion_rate: u64 },
    PhaseChanged { from: SessionPhase, to: SessionPhase },
    FatigueWarning { level: u32 },
    EfficiencyFeedback { session_id: u128, focus_quality: u32, micro_break_effectiveness: u32 },
}

} // verus!
