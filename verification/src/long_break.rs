//! A segment timer for one long break.

use vstd::prelude::*;

use crate::sys;
use crate::timer_state::{TimerState, TimerStatus};

verus! {

#[derive(Clone, Copy, Debug)]
pub struct LongBreakTimer {
    pub state: TimerState,
}

impl LongBreakTimer {
    pub fn new(duration_minutes: u32) -> (t: LongBreakTimer)
        requires
            duration_minutes * 60 <= u32::MAX,
        ensures
            t.state.wf(),
            t.state.status is Idle,
            t.state.phase is LongBreak,
            t.state.total_duration == duration_minutes * 60,
            t.state.remaining_duration == t.state.total_duration,
            t.state.elapsed_duration == 0,
    {
        LongBreakTimer { state: TimerState::new_long_break_session(duration_minutes) }
    }

    /// Start the break under a fresh session id, which is returned.
    pub fn start(&mut self) -> (id: u128)
        ensures
            final(self).state.status is Running,
            final(self).state.session_id == Some(id),
            final(self).state.start_time is Some,
            final(self).state.pause_time is None,
            final(self).state.phase == old(self).state.phase,
            final(self).state.total_duration == old(self).state.total_duration,
            final(self).state.remaining_duration == old(self).state.remaining_duration,
            final(self).state.elapsed_duration == old(self).state.elapsed_duration,
            final(self).state.micro_break_count == old(self).state.micro_break_count,
            final(self).state.next_micro_break_at == old(self).state.next_micro_break_at,
    {
        let session_id = sys::fresh_id();
        self.state.session_id = Some(session_id);
        let now = sys::now_millis();
        self.state.start(now);
        session_id
    }

    /// Pause a running break; any other status is untouched.
    pub fn pause(&mut self)
        ensures
            old(self).state.status is Running ==> final(self).state == (TimerState {
                status: TimerStatus::Paused,
                pause_time: final(self).state.pause_time,
                ..old(self).state
            }) && final(self).state.pause_time is Some,
            !(old(self).state.status is Running) ==> *final(self) == *old(self),
    {
        let now = sys::now_millis();
        self.state.pause(now);
    }

    /// Resume a paused break; any other status is untouched.
    pub fn resume(&mut self)
        ensures
            old(self).state.status is Paused ==> final(self).state == (TimerState {
                status: TimerStatus::Running,
                pause_time: None,
                ..old(self).state
            }),
            !(old(self).state.status is Paused) ==> *final(self) == *old(self),
    {
        self.state.resume();
    }

    /// Skip the break: force it to its completed form.
    pub fn skip(&mut self)
        ensures
            final(self).state == (TimerState {
                status: TimerStatus::Completed,
                remaining_duration: 0,
                elapsed_duration: old(self).state.total_duration,
                ..old(self).state
            }),
    {
        self.state.complete();
    }

    /// Restore the break to a full, idle one.
    pub fn reset(&mut self)
        ensures
            final(self).state == (TimerState {
                status: TimerStatus::Idle,
                remaining_duration: old(self).state.total_duration,
                elapsed_duration: 0,
                start_time: None,
                pause_time: None,
                ..old(self).state
            }),
    {
        self.state.reset();
    }

    pub fn get_state(&self) -> (r: &TimerState)
        ensures
            *r == self.state,
    {
        &self.state
    }

    /// One one-second step of the break.
    pub fn tick(&mut self) -> (ticked: bool)
        requires
            old(self).state.wf(),
        ensures
            final(self).state == old(self).state.spec_tick(),
            final(self).state.wf(),
            ticked == (old(self).state.status is Running && old(self).state.remaining_duration
                > 0),
    {
        self.state.tick()
    }

    pub fn is_completed(&self) -> (r: bool)
        ensures
            r == self.state.spec_is_completed(),
    {
        self.state.is_completed()
    }

    pub fn remaining_seconds(&self) -> (r: u64)
        ensures
            r == self.state.remaining_duration,
    {
        self.state.remaining_duration
    }

    /// Progress through the break in thousandths.
    pub fn progress(&self) -> (p: u64)
        requires
            self.state.elapsed_duration <= u32::MAX,
        ensures
            p == self.state.spec_progress_permille(),
    {
        self.state.progress()
    }

    pub fn elapsed_seconds(&self) -> (r: u64)
        ensures
            r == self.state.elapsed_duration,
    {
        self.state.elapsed_duration
    }

    pub fn total_seconds(&self) -> (r: u64)
        ensures
            r == self.state.total_duration,
    {
        self.state.total_duration
    }

    pub fn is_running(&self) -> (r: bool)
        ensures
            r == (self.state.status is Running),
    {
        self.state.is_running()
    }

    pub fn is_paused(&self) -> (r: bool)
        ensures
            r == (self.state.status is Paused),
    {
        self.state.is_paused()
    }
}

} // verus!
