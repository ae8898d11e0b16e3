//! The micro-break timer with its per-session skip cap, and the adaptive
//! scheduler that decides when the next micro-break fires.
//!
//! The scheduler adapts a percent-valued adjustment factor (70..=130, i.e.
//! 0.7 to 1.3) and a percent-valued fatigue level (0..=100): skipping a
//! break narrows the cadence and raises fatigue, completing one widens the
//! cadence and decays fatigue. The next break is drawn uniformly from the
//! adjusted, fatigue-discounted interval.

use vstd::arithmetic::div_mod::{lemma_div_is_ordered, lemma_div_multiples_vanish};
use vstd::arithmetic::mul::lemma_mul_inequality;
use vstd::prelude::*;

use crate::sys;
use crate::timer_manager::TimerError;
use crate::timer_state::{TimerState, TimerStatus};

verus! {

/// The skip cap a micro-break timer starts with.
pub const DEFAULT_SKIP_LIMIT: u32 = 3;

/// A segment timer for one micro-break, with a cap on how many breaks may
/// be skipped within one focus session.
#[derive(Clone, Copy, Debug)]
pub struct MicroBreakTimer {
    pub state: TimerState,
    pub skip_limit: u32,
    pub skipped_count: u32,
}

/// A skip is rejected exactly when the cap was already used up.
pub open spec fn spec_skip_rejected(t: MicroBreakTimer) -> bool {
    t.skipped_count >= t.skip_limit
}

impl MicroBreakTimer {
    pub fn new(duration_seconds: u32) -> (t: MicroBreakTimer)
        ensures
            t.state.wf(),
            t.state.status is Idle,
            t.state.phase is MicroBreak,
            t.state.total_duration == duration_seconds,
            t.state.remaining_duration == duration_seconds,
            t.state.elapsed_duration == 0,
            t.skip_limit == DEFAULT_SKIP_LIMIT,
            t.skipped_count == 0,
    {
        MicroBreakTimer {
            state: TimerState::new_micro_break_session(duration_seconds),
            skip_limit: DEFAULT_SKIP_LIMIT,
            skipped_count: 0,
        }
    }

    pub fn new_with_skip_limit(duration_seconds: u32, skip_limit: u32) -> (t: MicroBreakTimer)
        ensures
            t.state.wf(),
            t.state.status is Idle,
            t.state.phase is MicroBreak,
            t.state.total_duration == duration_seconds,
            t.state.remaining_duration == duration_seconds,
            t.state.elapsed_duration == 0,
            t.skip_limit == skip_limit,
            t.skipped_count == 0,
    {
        MicroBreakTimer {
            state: TimerState::new_micro_break_session(duration_seconds),
            skip_limit,
            skipped_count: 0,
        }
    }

    /// Start the break under a fresh session id, which is returned.
    pub fn start(&mut self) -> (id: u128)
        ensures
            final(self).state.status is Running,
            final(self).state.session_id == Some(id),
            final(self).state.start_time is Some,
            final(self).state.pause_time is None,
            final(self).state.phase == old(self).state.phase,
            final(self).state.total_duration == old(self).state.total_duration,
            final(self).state.remaining_duration == old(self).state.remaining_duration,
            final(self).state.elapsed_duration == old(self).state.elapsed_duration,
            final(self).state.micro_break_count == old(self).state.micro_break_count,
            final(self).state.next_micro_break_at == old(self).state.next_micro_break_at,
            final(self).skip_limit == old(self).skip_limit,
            final(self).skipped_count == old(self).skipped_count,
    {
        let session_id = sys::fresh_id();
        self.state.session_id = Some(session_id);
        let now = sys::now_millis();
        self.state.start(now);
        session_id
    }

    /// Skip the break. Fails with `SkipLimitExceeded`, leaving everything
    /// unchanged, exactly when the cap was already used up; otherwise the
    /// skip is counted and the break forced to its completed form.
    pub fn skip(&mut self) -> (r: Result<(), TimerError>)
        ensures
            spec_skip_rejected(*old(self)) ==> {
                &&& r == Err::<(), TimerError>(TimerError::SkipLimitExceeded)
                &&& *final(self) == *old(self)
            },
            !spec_skip_rejected(*old(self)) ==> {
                &&& r == Ok::<(), TimerError>(())
                &&& final(self).skipped_count == old(self).skipped_count + 1
                &&& final(self).skip_limit == old(self).skip_limit
                &&& final(self).state == (TimerState {
                    status: TimerStatus::Completed,
                    remaining_duration: 0,
                    elapsed_duration: old(self).state.total_duration,
                    ..old(self).state
                })
            },
    {
        if self.skipped_count >= self.skip_limit {
            return Err(TimerError::SkipLimitExceeded);
        }
        self.skipped_count = self.skipped_count + 1;
        self.state.complete();
        Ok(())
    }

    pub fn can_skip(&self) -> (r: bool)
        ensures
            r == !spec_skip_rejected(*self),
    {
        self.skipped_count < self.skip_limit
    }

    pub fn remaining_skips(&self) -> (r: u32)
        ensures
            r == if self.skipped_count <= self.skip_limit {
                self.skip_limit - self.skipped_count
            } else {
                0int
            },
    {
        if self.skipped_count <= self.skip_limit {
            self.skip_limit - self.skipped_count
        } else {
            0
        }
    }

    /// Restore the break to a full idle one and clear the skip count.
    pub fn reset(&mut self)
        ensures
            final(self).state == (TimerState {
                status: TimerStatus::Idle,
                remaining_duration: old(self).state.total_duration,
                elapsed_duration: 0,
                start_time: None,
                pause_time: None,
                ..old(self).state
            }),
            final(self).skip_limit == old(self).skip_limit,
            final(self).skipped_count == 0,
    {
        self.state.reset();
        self.skipped_count = 0;
    }

    /// Clear the skip count alone; called when a new focus session starts.
    pub fn reset_skip_count(&mut self)
        ensures
            *final(self) == (MicroBreakTimer { skipped_count: 0, ..*old(self) }),
    {
        self.skipped_count = 0;
    }

    pub fn get_state(&self) -> (r: &TimerState)
        ensures
            *r == self.state,
    {
        &self.state
    }

    pub fn get_skip_stats(&self) -> (r: (u32, u32))
        ensures
            r.0 == self.skipped_count,
            r.1 == self.skip_limit,
    {
        (self.skipped_count, self.skip_limit)
    }

    /// One one-second step of the break.
    pub fn tick(&mut self) -> (ticked: bool)
        requires
            old(self).state.wf(),
        ensures
            final(self).state == old(self).state.spec_tick(),
            final(self).state.wf(),
            final(self).skip_limit == old(self).skip_limit,
            final(self).skipped_count == old(self).skipped_count,
            ticked == (old(self).state.status is Running && old(self).state.remaining_duration
                > 0),
    {
        self.state.tick()
    }

    pub fn is_completed(&self) -> (r: bool)
        ensures
            r == self.state.spec_is_completed(),
    {
        self.state.is_completed()
    }

    pub fn remaining_seconds(&self) -> (r: u64)
        ensures
            r == self.state.remaining_duration,
    {
        self.state.remaining_duration
    }

    /// Progress through the break in thousandths.
    pub fn progress(&self) -> (p: u64)
        requires
            self.state.elapsed_duration <= u32::MAX,
        ensures
            p == self.state.spec_progress_permille(),
    {
        self.state.progress()
    }
}

/// Once the skip cap of a session is used up, every further skip is
/// rejected; clearing the count makes skipping possible again whenever the
/// cap itself is positive.
pub proof fn lemma_skip_cap_blocks_until_reset(t: MicroBreakTimer)
    requires
        t.skipped_count >= t.skip_limit,
    ensures
        spec_skip_rejected(t),
        t.skip_limit > 0 ==> !spec_skip_rejected(MicroBreakTimer { skipped_count: 0, ..t }),
{
}

/// A counter increment that stops at the type's ceiling instead of
/// overflowing.
pub open spec fn bump_u32(x: u32) -> u32 {
    if x < u32::MAX {
        (x + 1) as u32
    } else {
        x
    }
}

/// The adjustment factor after a skipped break: scaled by 0.9 and floored
/// at 0.7 (all in percent).
pub open spec fn spec_skip_factor(f: u32) -> u32 {
    let g = f * 90 / 100;
    if g >= 70 {
        g as u32
    } else {
        70u32
    }
}

/// The adjustment factor after a completed break: scaled by 1.05 and
/// capped at 1.3 (all in percent).
pub open spec fn spec_completion_factor(f: u32) -> u32 {
    let g = f * 105 / 100;
    if g <= 130 {
        g as u32
    } else {
        130u32
    }
}

/// Fatigue after a skipped break: raised by a tenth, capped at one.
pub open spec fn spec_bump_fatigue(ft: u32) -> u32 {
    if ft + 10 <= 100 {
        (ft + 10) as u32
    } else {
        100u32
    }
}

/// Fatigue after a completed break: decayed to seven tenths.
pub open spec fn spec_decay_fatigue(ft: u32) -> u32 {
    (ft * 70 / 100) as u32
}

/// One bound of the scheduling interval, in seconds: the base interval in
/// minutes, scaled by the percent adjustment factor, then discounted by
/// 0.3 of the percent fatigue level.
pub open spec fn spec_interval_bound(minutes: u32, factor: u32, fatigue: u32) -> int {
    minutes * 60 * factor / 100 * (1000 - 3 * fatigue) / 1000
}

/// A base interval within the scheduler's limits never exceeds this many
/// seconds, whatever factor and fatigue apply.
pub const MAX_INTERVAL_SECONDS: u64 = 78_000_000;

/// The largest offset (seconds into a focus session) the scheduler accepts
/// as a point to schedule from; keeps `from + interval` within `u64`.
pub const SCHEDULE_FROM_BOUND: u64 = 0x4000_0000_0000;

/// The largest elapsed time (seconds) the adaptation calls accept.
pub const ELAPSED_BOUND: u64 = 0x2000_0000_0000;

/// With the neutral factor (100 percent) and no fatigue, the bound is the
/// base interval itself.
proof fn lemma_interval_bound_neutral(minutes: u32)
    ensures
        spec_interval_bound(minutes, 100, 0) == minutes * 60,
{
    lemma_div_multiples_vanish(minutes * 60, 100);
    lemma_div_multiples_vanish(minutes * 60, 1000);
    assert(minutes * 60 * 100 == 100 * (minutes * 60));
    assert(minutes * 60 * 1000 == 1000 * (minutes * 60));
}

/// A larger base interval gives a larger bound, the factor and fatigue
/// being equal.
proof fn lemma_interval_bound_monotone(lo_minutes: u32, hi_minutes: u32, factor: u32, fatigue: u32)
    requires
        lo_minutes <= hi_minutes,
        fatigue <= 100,
    ensures
        spec_interval_bound(lo_minutes, factor, fatigue) <= spec_interval_bound(
            hi_minutes,
            factor,
            fatigue,
        ),
{
    lemma_mul_inequality(lo_minutes * 60, hi_minutes * 60, factor as int);
    lemma_div_is_ordered(lo_minutes * 60 * factor, hi_minutes * 60 * factor, 100);
    lemma_mul_inequality(
        lo_minutes * 60 * factor / 100,
        hi_minutes * 60 * factor / 100,
        1000 - 3 * fatigue,
    );
    lemma_div_is_ordered(
        lo_minutes * 60 * factor / 100 * (1000 - 3 * fatigue),
        hi_minutes * 60 * factor / 100 * (1000 - 3 * fatigue),
        1000,
    );
}

/// One bound of the scheduling interval, in seconds.
fn interval_bound(minutes: u32, factor: u32, fatigue: u32) -> (r: u64)
    requires
        minutes <= 1_000_000,
        factor <= 130,
        fatigue <= 100,
    ensures
        r == spec_interval_bound(minutes, factor, fatigue),
        r <= MAX_INTERVAL_SECONDS,
{
    let base: u64 = minutes as u64 * 60;
    assert(base * factor <= 60_000_000 * 130) by (nonlinear_arith)
        requires
            base <= 60_000_000,
            factor <= 130,
    ;
    let adjusted: u64 = base * factor as u64 / 100;
    let discount: u64 = 1000 - 3 * fatigue as u64;
    assert(adjusted * discount <= 78_000_000 * 1000) by (nonlinear_arith)
        requires
            adjusted <= 78_000_000,
            discount <= 1000,
    ;
    adjusted * discount / 1000
}

/// Decides, relative to elapsed focus time, when the next micro-break
/// fires, adapting its cadence to recent skip and completion behaviour.
#[derive(Clone, Copy, Debug)]
pub struct EnhancedMicroBreakScheduler {
    pub min_interval_minutes: u32,
    pub max_interval_minutes: u32,
    pub duration_seconds: u32,
    /// Offset from the start of the focus session, in seconds.
    pub next_break_at: Option<u64>,
    pub break_count: u32,
    pub skip_count: u32,
    pub completed_count: u32,
    /// Percent; stays within 70..=130.
    pub interval_adjustment_factor: u32,
    pub last_break_time: Option<i64>,
    /// Percent; stays within 0..=100.
    pub fatigue_level: u32,
}

/// Summary of the scheduler's counters and adaptation state. The
/// completion rate, factor and fatigue level are in percent.
#[derive(Clone, Copy, Debug)]
pub struct MicroBreakStats {
    pub total_triggered: u32,
    pub completed: u32,
    pub skipped: u32,
    pub completion_rate: u64,
    pub fatigue_level: u32,
    pub adjustment_factor: u32,
    pub next_break_at: Option<u64>,
}

impl EnhancedMicroBreakScheduler {
    /// The adaptation state stays in its bands and the configured
    /// intervals stay orderly and bounded.
    pub open spec fn wf(self) -> bool {
        &&& 70 <= self.interval_adjustment_factor <= 130
        &&& self.fatigue_level <= 100
        &&& self.min_interval_minutes <= self.max_interval_minutes
        &&& self.max_interval_minutes <= 1_000_000
        &&& self.duration_seconds <= 1_000_000
    }

    /// The lower end of the interval the next break is drawn from.
    pub open spec fn spec_interval_lo(self) -> int {
        spec_interval_bound(self.min_interval_minutes, self.interval_adjustment_factor, self.fatigue_level)
    }

    /// The upper end of the interval the next break is drawn from.
    pub open spec fn spec_interval_hi(self) -> int {
        spec_interval_bound(self.max_interval_minutes, self.interval_adjustment_factor, self.fatigue_level)
    }

    pub fn new(min_interval_minutes: u32, max_interval_minutes: u32, duration_seconds: u32) -> (s:
        EnhancedMicroBreakScheduler)
        requires
            min_interval_minutes <= max_interval_minutes,
            max_interval_minutes <= 1_000_000,
            duration_seconds <= 1_000_000,
        ensures
            s.wf(),
            s.min_interval_minutes == min_interval_minutes,
            s.max_interval_minutes == max_interval_minutes,
            s.duration_seconds == duration_seconds,
            s.next_break_at is None,
            s.break_count == 0,
            s.skip_count == 0,
            s.completed_count == 0,
            s.interval_adjustment_factor == 100,
            s.last_break_time is None,
            s.fatigue_level == 0,
    {
        EnhancedMicroBreakScheduler {
            min_interval_minutes,
            max_interval_minutes,
            duration_seconds,
            next_break_at: None,
            break_count: 0,
            skip_count: 0,
            completed_count: 0,
            interval_adjustment_factor: 100,
            last_break_time: None,
            fatigue_level: 0,
        }
    }

    /// Draw the next break offset from the adjusted, discounted interval
    /// and set it relative to `from_seconds`.
    fn schedule_next_break(&mut self, from_seconds: u64)
        requires
            old(self).wf(),
            from_seconds <= SCHEDULE_FROM_BOUND,
        ensures
            final(self).next_break_at matches Some(nb) && from_seconds + old(self).spec_interval_lo() <= nb <= from_seconds + old(self).spec_interval_hi(),
            *final(self) == (EnhancedMicroBreakScheduler {
                next_break_at: final(self).next_break_at,
                ..*old(self)
            }),
    {
        let lo = interval_bound(
            self.min_interval_minutes,
            self.interval_adjustment_factor,
            self.fatigue_level,
        );
        let hi = interval_bound(
            self.max_interval_minutes,
            self.interval_adjustment_factor,
            self.fatigue_level,
        );
        proof {
            lemma_interval_bound_monotone(
                self.min_interval_minutes,
                self.max_interval_minutes,
                self.interval_adjustment_factor,
                self.fatigue_level,
            );
        }
        let random_interval = sys::random_in_range(lo, hi);
        self.next_break_at = Some(from_seconds + random_interval);
    }

    /// Start a fresh scheduling round: reset the counters, the fatigue
    /// level and the adjustment factor, and schedule the first break from
    /// offset zero, so the first draw comes from the plain base interval.
    pub fn start_scheduling(&mut self)
        requires
            old(self).wf(),
        ensures
            final(self).wf(),
            final(self).break_count == 0,
            final(self).skip_count == 0,
            final(self).completed_count == 0,
            final(self).fatigue_level == 0,
            final(self).interval_adjustment_factor == 100,
            final(self).min_interval_minutes == old(self).min_interval_minutes,
            final(self).max_interval_minutes == old(self).max_interval_minutes,
            final(self).duration_seconds == old(self).duration_seconds,
            final(self).last_break_time == old(self).last_break_time,
            final(self).next_break_at matches Some(nb) && old(self).min_interval_minutes * 60
                <= nb <= old(self).max_interval_minutes * 60,
    {
        self.break_count = 0;
        self.skip_count = 0;
        self.completed_count = 0;
        self.fatigue_level = 0;
        self.interval_adjustment_factor = 100;
        self.schedule_next_break(0);
        proof {
            lemma_interval_bound_neutral(self.min_interval_minutes);
            lemma_interval_bound_neutral(self.max_interval_minutes);
        }
    }

    /// A break is due once the elapsed focus time reaches the scheduled
    /// offset.
    pub fn should_trigger_break(&self, elapsed_seconds: u64) -> (r: bool)
        ensures
            r == (self.next_break_at matches Some(t) && elapsed_seconds >= t),
    {
        if let Some(next_break_at) = self.next_break_at {
            elapsed_seconds >= next_break_at
        } else {
            false
        }
    }

    /// Count the triggered break and schedule the next one from the moment
    /// the break will have ended.
    pub fn on_break_triggered(&mut self, current_elapsed: u64)
        requires
            old(self).wf(),
            current_elapsed <= ELAPSED_BOUND,
        ensures
            final(self).wf(),
            final(self).break_count == bump_u32(old(self).break_count),
            final(self).last_break_time is Some,
            final(self).skip_count == old(self).skip_count,
            final(self).completed_count == old(self).completed_count,
            final(self).interval_adjustment_factor == old(self).interval_adjustment_factor,
            final(self).fatigue_level == old(self).fatigue_level,
            final(self).min_interval_minutes == old(self).min_interval_minutes,
            final(self).max_interval_minutes == old(self).max_interval_minutes,
            final(self).duration_seconds == old(self).duration_seconds,
            final(self).next_break_at matches Some(nb) && current_elapsed + old(self).duration_seconds + old(self).spec_interval_lo() <= nb <= current_elapsed + old(self).duration_seconds + old(self).spec_interval_hi(),
    {
        self.break_count = bump_counter(self.break_count);
        let now = sys::now_millis();
        self.last_break_time = Some(now);
        let next_schedule_from = current_elapsed + self.duration_seconds as u64;
        self.schedule_next_break(next_schedule_from);
    }

    /// Count the skip, narrow the cadence and raise fatigue, then schedule
    /// the next break from the current moment.
    pub fn on_break_skipped(&mut self, current_elapsed: u64)
        requires
            old(self).wf(),
            current_elapsed <= ELAPSED_BOUND,
        ensures
            final(self).wf(),
            final(self).skip_count == bump_u32(old(self).skip_count),
            final(self).break_count == old(self).break_count,
            final(self).completed_count == old(self).completed_count,
            final(self).interval_adjustment_factor == spec_skip_factor(
                old(self).interval_adjustment_factor,
            ),
            final(self).fatigue_level == spec_bump_fatigue(old(self).fatigue_level),
            final(self).last_break_time == old(self).last_break_time,
            final(self).min_interval_minutes == old(self).min_interval_minutes,
            final(self).max_interval_minutes == old(self).max_interval_minutes,
            final(self).duration_seconds == old(self).duration_seconds,
            final(self).next_break_at matches Some(nb) && current_elapsed + final(self).spec_interval_lo() <= nb <= current_elapsed + final(self).spec_interval_hi(),
    {
        self.skip_count = bump_counter(self.skip_count);
        self.adjust_interval_for_skip();
        self.schedule_next_break(current_elapsed);
    }

    /// Count the completion, widen the cadence, schedule the next break
    /// from the current moment, then decay fatigue. The draw uses the
    /// fatigue level from before the decay.
    pub fn on_break_completed(&mut self, current_elapsed: u64)
        requires
            old(self).wf(),
            current_elapsed <= ELAPSED_BOUND,
        ensures
            final(self).wf(),
            final(self).completed_count == bump_u32(old(self).completed_count),
            final(self).break_count == old(self).break_count,
            final(self).skip_count == old(self).skip_count,
            final(self).interval_adjustment_factor == spec_completion_factor(
                old(self).interval_adjustment_factor,
            ),
            final(self).fatigue_level == spec_decay_fatigue(old(self).fatigue_level),
            final(self).last_break_time == old(self).last_break_time,
            final(self).min_interval_minutes == old(self).min_interval_minutes,
            final(self).max_interval_minutes == old(self).max_interval_minutes,
            final(self).duration_seconds == old(self).duration_seconds,
            final(self).next_break_at matches Some(nb) && current_elapsed + spec_interval_bound(
                old(self).min_interval_minutes,
                spec_completion_factor(old(self).interval_adjustment_factor),
                old(self).fatigue_level,
            ) <= nb <= current_elapsed + spec_interval_bound(
                old(self).max_interval_minutes,
                spec_completion_factor(old(self).interval_adjustment_factor),
                old(self).fatigue_level,
            ),
    {
        self.completed_count = bump_counter(self.completed_count);
        self.adjust_interval_for_completion();
        self.schedule_next_break(current_elapsed);
        self.fatigue_level = self.fatigue_level * 70 / 100;
    }

    /// Narrow the cadence and raise fatigue after a skip.
    fn adjust_interval_for_skip(&mut self)
        requires
            old(self).interval_adjustment_factor <= 130,
            old(self).fatigue_level <= 100,
        ensures
            *final(self) == (EnhancedMicroBreakScheduler {
                interval_adjustment_factor: spec_skip_factor(
                    old(self).interval_adjustment_factor,
                ),
                fatigue_level: spec_bump_fatigue(old(self).fatigue_level),
                ..*old(self)
            }),
    {
        let g = self.interval_adjustment_factor * 90 / 100;
        self.interval_adjustment_factor = if g >= 70 {
            g
        } else {
            70
        };
        let ft = self.fatigue_level + 10;
        self.fatigue_level = if ft <= 100 {
            ft
        } else {
            100
        };
    }

    /// Widen the cadence after a completion.
    fn adjust_interval_for_completion(&mut self)
        requires
            old(self).interval_adjustment_factor <= 130,
        ensures
            *final(self) == (EnhancedMicroBreakScheduler {
                interval_adjustment_factor: spec_completion_factor(
                    old(self).interval_adjustment_factor,
                ),
                ..*old(self)
            }),
    {
        let g = self.interval_adjustment_factor * 105 / 100;
        self.interval_adjustment_factor = if g <= 130 {
            g
        } else {
            130
        };
    }

    pub fn next_break_at(&self) -> (r: Option<u64>)
        ensures
            r == self.next_break_at,
    {
        self.next_break_at
    }

    pub fn break_count(&self) -> (r: u32)
        ensures
            r == self.break_count,
    {
        self.break_count
    }

    pub fn skip_count(&self) -> (r: u32)
        ensures
            r == self.skip_count,
    {
        self.skip_count
    }

    pub fn completed_count(&self) -> (r: u32)
        ensures
            r == self.completed_count,
    {
        self.completed_count
    }

    /// Completed breaks per triggered break, in percent; 100 when nothing
    /// was triggered yet.
    pub fn completion_rate(&self) -> (r: u64)
        ensures
            r == if self.break_count == 0 {
                100int
            } else {
                self.completed_count * 100 / self.break_count as int
            },
    {
        if self.break_count == 0 {
            return 100;
        }
        self.completed_count as u64 * 100 / self.break_count as u64
    }

    pub fn fatigue_level(&self) -> (r: u32)
        ensures
            r == self.fatigue_level,
    {
        self.fatigue_level
    }

    pub fn adjustment_factor(&self) -> (r: u32)
        ensures
            r == self.interval_adjustment_factor,
    {
        self.interval_adjustment_factor
    }

    pub fn get_stats_summary(&self) -> (r: MicroBreakStats)
        ensures
            r.total_triggered == self.break_count,
            r.completed == self.completed_count,
            r.skipped == self.skip_count,
            r.completion_rate == if self.break_count == 0 {
                100int
            } else {
                self.completed_count * 100 / self.break_count as int
            },
            r.fatigue_level == self.fatigue_level,
            r.adjustment_factor == self.interval_adjustment_factor,
            r.next_break_at == self.next_break_at,
    {
        MicroBreakStats {
            total_triggered: self.break_count,
            completed: self.completed_count,
            skipped: self.skip_count,
            completion_rate: self.completion_rate(),
            fatigue_level: self.fatigue_level,
            adjustment_factor: self.interval_adjustment_factor,
            next_break_at: self.next_break_at,
        }
    }

    /// Forget all adaptation: counters, factor, fatigue and schedule.
    pub fn reset(&mut self)
        ensures
            *final(self) == (EnhancedMicroBreakScheduler {
                next_break_at: None,
                break_count: 0,
                skip_count: 0,
                completed_count: 0,
                interval_adjustment_factor: 100,
                last_break_time: None,
                fatigue_level: 0,
                ..*old(self)
            }),
            old(self).wf() ==> final(self).wf(),
    {
        self.next_break_at = None;
        self.break_count = 0;
        self.skip_count = 0;
        self.completed_count = 0;
        self.interval_adjustment_factor = 100;
        self.last_break_time = None;
        self.fatigue_level = 0;
    }
}

/// A counter increment that stops at the ceiling instead of overflowing.
fn bump_counter(x: u32) -> (r: u32)
    ensures
        r == bump_u32(x),
{
    if x < u32::MAX {
        x + 1
    } else {
        x
    }
}

/// The adjustment factor after any sequence of adaptations; `true` stands
/// for a skipped break, `false` for a completed one.
pub open spec fn factor_after(f0: u32, adjustments: Seq<bool>) -> u32
    decreases adjustments.len(),
{
    if adjustments.len() == 0 {
        f0
    } else {
        let f = factor_after(f0, adjustments.drop_last());
        if adjustments.last() {
            spec_skip_factor(f)
        } else {
            spec_completion_factor(f)
        }
    }
}

/// Under an arbitrary sequence of skip and completion adaptations the
/// interval adjustment factor stays within 70..=130 percent, that is
/// within 0.7 to 1.3 of the base cadence.
pub proof fn lemma_adjustment_factor_bounded(f0: u32, adjustments: Seq<bool>)
    requires
        70 <= f0 <= 130,
    ensures
        70 <= factor_after(f0, adjustments) <= 130,
    decreases adjustments.len(),
{
    if adjustments.len() > 0 {
        lemma_adjustment_factor_bounded(f0, adjustments.drop_last());
    }
}

} // verus!
