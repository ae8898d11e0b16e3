//! The cycle controller: owns the active segment's `TimerState`, the coarse
//! `CycleState` and the micro-break scheduler, sequences the transitions
//! between focus, long-break and micro-break segments, and pushes the domain
//! events it emits into the event pipeline.

use vstd::prelude::*;

use crate::events::{EnhancedEventManager, EventPriority, spec_emitted};
use crate::micro_break::{bump_u32, spec_bump_fatigue, spec_skip_factor, EnhancedMicroBreakScheduler};
use crate::models::{valid_settings, validate_settings, UserSettings};
use crate::sys;
use crate::timer_state::{SessionPhase, TimerEvent, TimerState, TimerStatus};

verus! {

/// The typed errors a cycle command can return.
#[derive(Clone, Copy, Debug, PartialEq, Eq, Structural)]
pub enum TimerError {
    AlreadyRunning,
    NotRunning,
    InvalidState,
    Uninitialized,
    SkipLimitExceeded,
    DeliveryFailed,
    Database,
    Settings,
}

/// The short description of each error.
pub open spec fn spec_error_message(e: TimerError) -> Seq<char> {
    match e {
        TimerError::AlreadyRunning => "a timer is already running"@,
        TimerError::NotRunning => "no timer is running"@,
        TimerError::InvalidState => "the command is not allowed in the current cycle state"@,
        TimerError::Uninitialized => "the timer manager is not initialized"@,
        TimerError::SkipLimitExceeded => "the micro-break skip limit was reached"@,
        TimerError::DeliveryFailed => "the notification could not be delivered"@,
        TimerError::Database => "the persistence port reported an error"@,
        TimerError::Settings => "the settings are not usable"@,
    }
}

impl TimerError {
    /// A short description, for surfaces that show errors as text.
    pub fn message(&self) -> (m: &'static str)
        ensures
            m@ == spec_error_message(*self),
    {
        match self {
            TimerError::AlreadyRunning => "a timer is already running",
            TimerError::NotRunning => "no timer is running",
            TimerError::InvalidState => "the command is not allowed in the current cycle state",
            TimerError::Uninitialized => "the timer manager is not initialized",
            TimerError::SkipLimitExceeded => "the micro-break skip limit was reached",
            TimerError::DeliveryFailed => "the notification could not be delivered",
            TimerError::Database => "the persistence port reported an error",
            TimerError::Settings => "the settings are not usable",
        }
    }
}

/// The coarse state of the overall work/rest cycle.
#[derive(Clone, Copy, Debug, PartialEq, Eq, Structural)]
pub enum CycleState {
    WaitingToStart,
    InFocusSession,
    InLongBreak,
    InMicroBreak,
    Completed,
}

/// The cycle controller. It owns the active segment's state, the coarse
/// cycle state, the adaptive scheduler and the focus state suspended while
/// a micro-break runs; nothing else mutates them.
pub struct TimerManager {
    pub state: TimerState,
    pub settings: UserSettings,
    pub cycle_state: CycleState,
    pub completed_focus_sessions: u32,
    pub scheduler: EnhancedMicroBreakScheduler,
    pub suspended_focus: Option<TimerState>,
}

/// Why a focus start would be refused: a timer is still running, or the
/// cycle is neither waiting nor just completed.
pub open spec fn spec_start_focus_error(m: TimerManager) -> Option<TimerError> {
    if m.state.status is Running {
        Some(TimerError::AlreadyRunning)
    } else if !(m.cycle_state is WaitingToStart || m.cycle_state is Completed) {
        Some(TimerError::InvalidState)
    } else {
        None
    }
}

/// Why a long-break start would be refused: only a running timer blocks it.
pub open spec fn spec_start_long_break_error(m: TimerManager) -> Option<TimerError> {
    if m.state.status is Running {
        Some(TimerError::AlreadyRunning)
    } else {
        None
    }
}

/// A micro-break is due: a focus session is running and its elapsed time
/// has reached the scheduled offset.
pub open spec fn spec_micro_break_due(m: TimerManager) -> bool {
    &&& m.cycle_state is InFocusSession
    &&& m.state.status is Running
    &&& m.state.next_micro_break_at matches Some(t) && m.state.elapsed_duration >= t
}

/// A successful focus start leaves the segment running, and a running
/// segment makes every further start attempt fail as `AlreadyRunning`:
/// calling `start_focus_session` twice without an intervening completion
/// must fail the second call.
pub proof fn lemma_second_start_rejected(m: TimerManager)
    requires
        m.state.status is Running,
    ensures
        spec_start_focus_error(m) == Some(TimerError::AlreadyRunning),
        spec_start_long_break_error(m) == Some(TimerError::AlreadyRunning),
{
}

impl TimerManager {
    /// The cycle is coherent: the segment state and the suspended focus
    /// state keep their invariants, the scheduler sits in its bands and
    /// the settings are usable.
    pub open spec fn wf(self) -> bool {
        &&& self.state.wf()
        &&& valid_settings(self.settings)
        &&& self.scheduler.wf()
        &&& (self.suspended_focus matches Some(f) ==> f.wf())
    }

    pub fn new(settings: UserSettings) -> (m: TimerManager)
        requires
            valid_settings(settings),
        ensures
            m.wf(),
            m.state.status is Idle,
            m.state.total_duration == 0,
            m.cycle_state is WaitingToStart,
            m.completed_focus_sessions == 0,
            m.settings == settings,
            m.suspended_focus is None,
            m.scheduler.interval_adjustment_factor == 100,
            m.scheduler.fatigue_level == 0,
            m.scheduler.next_break_at is None,
    {
        let scheduler = EnhancedMicroBreakScheduler::new(
            settings.micro_break_min_interval_minutes as u32,
            settings.micro_break_max_interval_minutes as u32,
            settings.micro_break_duration_seconds as u32,
        );
        TimerManager {
            state: TimerState::default(),
            settings,
            cycle_state: CycleState::WaitingToStart,
            completed_focus_sessions: 0,
            scheduler,
            suspended_focus: None,
        }
    }

    /// A snapshot of the segment state.
    pub fn get_state(&self) -> (r: TimerState)
        ensures
            r == self.state,
    {
        self.state
    }

    pub fn get_cycle_state(&self) -> (r: CycleState)
        ensures
            r == self.cycle_state,
    {
        self.cycle_state
    }

    /// Replace the settings; unusable ones are refused and change nothing.
    /// A change applies from the next session on.
    pub fn update_settings(&mut self, new_settings: UserSettings) -> (r: Result<(), TimerError>)
        ensures
            valid_settings(new_settings) ==> r == Ok::<(), TimerError>(()) && *final(self) == (
            TimerManager { settings: new_settings, ..*old(self) }),
            !valid_settings(new_settings) ==> r == Err::<(), TimerError>(TimerError::Settings)
                && *final(self) == *old(self),
    {
        if !validate_settings(&new_settings) {
            return Err(TimerError::Settings);
        }
        self.settings = new_settings;
        Ok(())
    }

    /// Start a focus session: refused while a timer runs or outside the
    /// waiting and completed cycle states; otherwise a full focus segment
    /// starts running under a fresh session id, the scheduler begins a new
    /// scheduling round from the current settings, and a `Started` event
    /// is emitted.
    pub fn start_focus_session(&mut self, pipeline: &mut EnhancedEventManager) -> (r: Result<
        u128,
        TimerError,
    >)
        requires
            old(self).wf(),
        ensures
            final(self).wf(),
            spec_start_focus_error(*old(self)) matches Some(e) ==> r == Err::<u128, TimerError>(e)
                && *final(self) == *old(self) && *final(pipeline) == *old(pipeline),
            spec_start_focus_error(*old(self)) is None ==> ({
                &&& r matches Ok(id)
                &&& final(self).state.status is Running
                &&& final(self).state.phase is Focus
                &&& final(self).state.session_id == Some(id)
                &&& final(self).state.total_duration == old(self).settings.focus_duration_minutes
                    * 60
                &&& final(self).state.remaining_duration == final(self).state.total_duration
                &&& final(self).state.elapsed_duration == 0
                &&& final(self).state.micro_break_count == 0
                &&& final(self).cycle_state is InFocusSession
                &&& final(self).completed_focus_sessions == old(self).completed_focus_sessions
                &&& final(self).settings == old(self).settings
                &&& final(self).suspended_focus is None
                &&& final(self).scheduler.min_interval_minutes == old(self).settings.micro_break_min_interval_minutes
                &&& final(self).scheduler.max_interval_minutes == old(self).settings.micro_break_max_interval_minutes
                &&& final(self).scheduler.duration_seconds == old(self).settings.micro_break_duration_seconds
                &&& final(self).scheduler.interval_adjustment_factor == 100
                &&& final(self).scheduler.fatigue_level == 0
                &&& final(self).scheduler.break_count == 0
                &&& final(self).scheduler.skip_count == 0
                &&& final(self).scheduler.completed_count == 0
                &&& final(self).scheduler.next_break_at matches Some(nb)
                    && old(self).settings.micro_break_min_interval_minutes * 60 <= nb
                    && nb <= old(self).settings.micro_break_max_interval_minutes * 60
                &&& final(self).state.next_micro_break_at == final(self).scheduler.next_break_at
                &&& spec_emitted(
                    *old(pipeline),
                    *final(pipeline),
                    TimerEvent::Started {
                        phase: SessionPhase::Focus,
                        duration: final(self).state.total_duration,
                        session_id: id,
                    },
                    EventPriority::Normal,
                )
            }),
    {
        if self.state.is_running() {
            return Err(TimerError::AlreadyRunning);
        }
        match self.cycle_state {
            CycleState::WaitingToStart => {},
            CycleState::Completed => {},
            _ => {
                return Err(TimerError::InvalidState);
            },
        }
        let duration_minutes = self.settings.focus_duration_minutes as u32;
        let session_id = sys::fresh_id();
        self.state = TimerState::new_focus_session(duration_minutes);
        self.state.session_id = Some(session_id);
        let now = sys::now_millis();
        self.state.start(now);
        self.cycle_state = CycleState::InFocusSession;
        self.suspended_focus = None;
        self.scheduler.min_interval_minutes = self.settings.micro_break_min_interval_minutes
            as u32;
        self.scheduler.max_interval_minutes = self.settings.micro_break_max_interval_minutes
            as u32;
        self.scheduler.duration_seconds = self.settings.micro_break_duration_seconds as u32;
        self.scheduler.start_scheduling();
        self.state.next_micro_break_at = self.scheduler.next_break_at();
        let duration = self.state.total_duration;
        let _ = pipeline.emit_event(
            TimerEvent::Started { phase: SessionPhase::Focus, duration, session_id },
            None,
        );
        Ok(session_id)
    }

    /// Start a long break: refused only while a timer runs. No micro-break
    /// scheduling accompanies it.
    pub fn start_long_break_session(&mut self, pipeline: &mut EnhancedEventManager) -> (r: Result<
        u128,
        TimerError,
    >)
        requires
            old(self).wf(),
        ensures
            final(self).wf(),
            old(self).state.status is Running ==> r == Err::<u128, TimerError>(
                TimerError::AlreadyRunning,
            ) && *final(self) == *old(self) && *final(pipeline) == *old(pipeline),
            !(old(self).state.status is Running) ==> ({
                &&& r matches Ok(id)
                &&& final(self).state.status is Running
                &&& final(self).state.phase is LongBreak
                &&& final(self).state.session_id == Some(id)
                &&& final(self).state.total_duration == old(self).settings.long_break_duration_minutes * 60
                &&& final(self).state.remaining_duration == final(self).state.total_duration
                &&& final(self).state.elapsed_duration == 0
                &&& final(self).cycle_state is InLongBreak
                &&& final(self).completed_focus_sessions == old(self).completed_focus_sessions
                &&& final(self).settings == old(self).settings
                &&& final(self).scheduler == old(self).scheduler
                &&& final(self).suspended_focus == old(self).suspended_focus
                &&& spec_emitted(
                    *old(pipeline),
                    *final(pipeline),
                    TimerEvent::Started {
                        phase: SessionPhase::LongBreak,
                        duration: final(self).state.total_duration,
                        session_id: id,
                    },
                    EventPriority::Normal,
                )
            }),
    {
        if self.state.is_running() {
            return Err(TimerError::AlreadyRunning);
        }
        let duration_minutes = self.settings.long_break_duration_minutes as u32;
        let session_id = sys::fresh_id();
        self.state = TimerState::new_long_break_session(duration_minutes);
        self.state.session_id = Some(session_id);
        let now = sys::now_millis();
        self.state.start(now);
        self.cycle_state = CycleState::InLongBreak;
        let duration = self.state.total_duration;
        let _ = pipeline.emit_event(
            TimerEvent::Started { phase: SessionPhase::LongBreak, duration, session_id },
            None,
        );
        Ok(session_id)
    }

    /// Start a micro-break: the current segment is suspended (a focus
    /// session will be resumed from it on skip), a micro-break segment
    /// starts running, and the segment's break counter moves up.
    pub fn start_micro_break_session(&mut self, pipeline: &mut EnhancedEventManager) -> (r: Result<
        u128,
        TimerError,
    >)
        requires
            old(self).wf(),
        ensures
            final(self).wf(),
            ({
                &&& r matches Ok(id)
                &&& final(self).state.status is Running
                &&& final(self).state.phase is MicroBreak
                &&& final(self).state.session_id == Some(id)
                &&& final(self).state.total_duration == old(self).settings.micro_break_duration_seconds
                &&& final(self).state.remaining_duration == final(self).state.total_duration
                &&& final(self).state.elapsed_duration == 0
                &&& final(self).state.micro_break_count == 1
                &&& final(self).cycle_state is InMicroBreak
                &&& final(self).completed_focus_sessions == old(self).completed_focus_sessions
                &&& final(self).settings == old(self).settings
                &&& final(self).scheduler == old(self).scheduler
                &&& final(self).suspended_focus == Some(old(self).state)
                &&& spec_emitted(
                    *old(pipeline),
                    *final(pipeline),
                    TimerEvent::Started {
                        phase: SessionPhase::MicroBreak,
                        duration: final(self).state.total_duration,
                        session_id: id,
                    },
                    EventPriority::Normal,
                )
            }),
    {
        let duration_seconds = self.settings.micro_break_duration_seconds as u32;
        let session_id = sys::fresh_id();
        self.suspended_focus = Some(self.state);
        self.state = TimerState::new_micro_break_session(duration_seconds);
        self.state.session_id = Some(session_id);
        let now = sys::now_millis();
        self.state.start(now);
        self.cycle_state = CycleState::InMicroBreak;
        self.state.micro_break_count = self.state.micro_break_count + 1;
        let duration = self.state.total_duration;
        let _ = pipeline.emit_event(
            TimerEvent::Started { phase: SessionPhase::MicroBreak, duration, session_id },
            None,
        );
        Ok(session_id)
    }

    /// Skip the running micro-break: refused outside `InMicroBreak`, with
    /// nothing changed; otherwise the suspended focus segment resumes with
    /// its leftover remaining time (a full one when none was suspended),
    /// the scheduler counts the skip and adapts, and a `PhaseChanged`
    /// event is emitted.
    pub fn skip_micro_break(&mut self, pipeline: &mut EnhancedEventManager) -> (r: Result<
        (),
        TimerError,
    >)
        requires
            old(self).wf(),
        ensures
            final(self).wf(),
            !(old(self).cycle_state is InMicroBreak) ==> r == Err::<(), TimerError>(
                TimerError::InvalidState,
            ) && *final(self) == *old(self) && *final(pipeline) == *old(pipeline),
            old(self).cycle_state is InMicroBreak ==> ({
                &&& r == Ok::<(), TimerError>(())
                &&& final(self).cycle_state is InFocusSession
                &&& final(self).state.status is Running
                &&& final(self).state.phase is Focus
                &&& final(self).state.pause_time is None
                &&& (old(self).suspended_focus matches Some(f) ==> {
                    &&& final(self).state.total_duration == f.total_duration
                    &&& final(self).state.remaining_duration == f.remaining_duration
                    &&& final(self).state.elapsed_duration == f.elapsed_duration
                    &&& final(self).state.session_id == f.session_id
                    &&& final(self).state.micro_break_count == f.micro_break_count
                })
                &&& (old(self).suspended_focus is None ==> {
                    &&& final(self).state.total_duration == old(
                        self,
                    ).settings.focus_duration_minutes * 60
                    &&& final(self).state.remaining_duration == final(self).state.total_duration
                    &&& final(self).state.elapsed_duration == 0
                })
                &&& final(self).suspended_focus is None
                &&& final(self).completed_focus_sessions == old(self).completed_focus_sessions
                &&& final(self).settings == old(self).settings
                &&& final(self).scheduler.skip_count == bump_u32(old(self).scheduler.skip_count)
                &&& final(self).scheduler.interval_adjustment_factor == spec_skip_factor(
                    old(self).scheduler.interval_adjustment_factor,
                )
                &&& final(self).scheduler.fatigue_level == spec_bump_fatigue(
                    old(self).scheduler.fatigue_level,
                )
                &&& final(self).scheduler.next_break_at is Some
                &&& final(self).state.next_micro_break_at == final(self).scheduler.next_break_at
                &&& spec_emitted(
                    *old(pipeline),
                    *final(pipeline),
                    TimerEvent::PhaseChanged {
                        from: SessionPhase::MicroBreak,
                        to: SessionPhase::Focus,
                    },
                    EventPriority::Normal,
                )
            }),
    {
        if !matches!(self.cycle_state, CycleState::InMicroBreak) {
            return Err(TimerError::InvalidState);
        }
        let now = sys::now_millis();
        let resumed = match self.suspended_focus {
            Some(f) => TimerState {
                status: TimerStatus::Running,
                phase: SessionPhase::Focus,
                start_time: Some(now),
                pause_time: None,
                ..f
            },
            None => {
                let mut fresh = TimerState::new_focus_session(
                    self.settings.focus_duration_minutes as u32,
                );
                fresh.start(now);
                fresh
            },
        };
        self.state = resumed;
        self.suspended_focus = None;
        self.cycle_state = CycleState::InFocusSession;
        self.scheduler.on_break_skipped(self.state.elapsed_duration);
        self.state.next_micro_break_at = self.scheduler.next_break_at();
        let _ = pipeline.emit_event(
            TimerEvent::PhaseChanged { from: SessionPhase::MicroBreak, to: SessionPhase::Focus },
            None,
        );
        Ok(())
    }

    /// Pause the running segment; refused as `NotRunning` otherwise. The
    /// remaining time is preserved.
    pub fn pause_timer(&mut self, pipeline: &mut EnhancedEventManager) -> (r: Result<
        (),
        TimerError,
    >)
        requires
            old(self).wf(),
        ensures
            final(self).wf(),
            !(old(self).state.status is Running) ==> r == Err::<(), TimerError>(
                TimerError::NotRunning,
            ) && *final(self) == *old(self) && *final(pipeline) == *old(pipeline),
            old(self).state.status is Running ==> ({
                &&& r == Ok::<(), TimerError>(())
                &&& final(self).state.status is Paused
                &&& final(self).state.pause_time is Some
                &&& final(self).state == (TimerState {
                    status: TimerStatus::Paused,
                    pause_time: final(self).state.pause_time,
                    ..old(self).state
                })
                &&& final(self).cycle_state == old(self).cycle_state
                &&& final(self).completed_focus_sessions == old(self).completed_focus_sessions
                &&& final(self).settings == old(self).settings
                &&& final(self).scheduler == old(self).scheduler
                &&& final(self).suspended_focus == old(self).suspended_focus
                &&& spec_emitted(
                    *old(pipeline),
                    *final(pipeline),
                    TimerEvent::Paused {
                        phase: old(self).state.phase,
                        remaining: old(self).state.remaining_duration,
                    },
                    EventPriority::Normal,
                )
            }),
    {
        if !self.state.is_running() {
            return Err(TimerError::NotRunning);
        }
        let now = sys::now_millis();
        self.state.pause(now);
        let phase = self.state.phase;
        let remaining = self.state.remaining_duration;
        let _ = pipeline.emit_event(TimerEvent::Paused { phase, remaining }, None);
        Ok(())
    }

    /// Resume the paused segment; refused as `NotRunning` otherwise.
    pub fn resume_timer(&mut self, pipeline: &mut EnhancedEventManager) -> (r: Result<
        (),
        TimerError,
    >)
        requires
            old(self).wf(),
        ensures
            final(self).wf(),
            !(old(self).state.status is Paused) ==> r == Err::<(), TimerError>(
                TimerError::NotRunning,
            ) && *final(self) == *old(self) && *final(pipeline) == *old(pipeline),
            old(self).state.status is Paused ==> ({
                &&& r == Ok::<(), TimerError>(())
                &&& final(self).state == (TimerState {
                    status: TimerStatus::Running,
                    pause_time: None,
                    ..old(self).state
                })
                &&& final(self).cycle_state == old(self).cycle_state
                &&& final(self).completed_focus_sessions == old(self).completed_focus_sessions
                &&& final(self).settings == old(self).settings
                &&& final(self).scheduler == old(self).scheduler
                &&& final(self).suspended_focus == old(self).suspended_focus
                &&& spec_emitted(
                    *old(pipeline),
                    *final(pipeline),
                    TimerEvent::Resumed {
                        phase: old(self).state.phase,
                        remaining: old(self).state.remaining_duration,
                    },
                    EventPriority::Normal,
                )
            }),
    {
        if !self.state.is_paused() {
            return Err(TimerError::NotRunning);
        }
        self.state.resume();
        let phase = self.state.phase;
        let remaining = self.state.remaining_duration;
        let _ = pipeline.emit_event(TimerEvent::Resumed { phase, remaining }, None);
        Ok(())
    }

    /// Reset the segment to a full idle one; the cycle state and the
    /// scheduler's adaptation are kept.
    pub fn reset_timer(&mut self, pipeline: &mut EnhancedEventManager) -> (r: Result<
        (),
        TimerError,
    >)
        requires
            old(self).wf(),
        ensures
            final(self).wf(),
            r == Ok::<(), TimerError>(()),
            final(self).state == (TimerState {
                status: TimerStatus::Idle,
                remaining_duration: old(self).state.total_duration,
                elapsed_duration: 0,
                start_time: None,
                pause_time: None,
                ..old(self).state
            }),
            final(self).cycle_state == old(self).cycle_state,
            final(self).completed_focus_sessions == old(self).completed_focus_sessions,
            final(self).settings == old(self).settings,
            final(self).scheduler == old(self).scheduler,
            final(self).suspended_focus == old(self).suspended_focus,
            spec_emitted(
                *old(pipeline),
                *final(pipeline),
                TimerEvent::Reset { phase: old(self).state.phase },
                EventPriority::Normal,
            ),
    {
        let phase = self.state.phase;
        self.state.reset();
        let _ = pipeline.emit_event(TimerEvent::Reset { phase }, None);
        Ok(())
    }

    /// One one-second step of the active segment, as the tick task
    /// performs it. A running segment with time left loses one second and
    /// emits a `Tick`; one with nothing left completes, performs its
    /// phase's transition (a completed focus session counts and folds back
    /// to waiting, a long break folds back to waiting, a micro-break hands
    /// the cycle back to the focus session) and emits `Completed`; any
    /// other segment is untouched. Returns whether ticking goes on.
    pub fn handle_tick(&mut self, pipeline: &mut EnhancedEventManager) -> (running: bool)
        requires
            old(self).wf(),
        ensures
            final(self).wf(),
            !(old(self).state.status is Running) ==> !running && *final(self) == *old(self)
                && *final(pipeline) == *old(pipeline),
            old(self).state.status is Running && old(self).state.remaining_duration > 0 ==> ({
                &&& running
                &&& final(self).state == old(self).state.spec_tick()
                &&& final(self).cycle_state == old(self).cycle_state
                &&& final(self).completed_focus_sessions == old(self).completed_focus_sessions
                &&& final(self).settings == old(self).settings
                &&& final(self).scheduler == old(self).scheduler
                &&& final(self).suspended_focus == old(self).suspended_focus
                &&& spec_emitted(
                    *old(pipeline),
                    *final(pipeline),
                    TimerEvent::Tick {
                        phase: old(self).state.phase,
                        remaining: (old(self).state.remaining_duration - 1) as u64,
                        elapsed: (old(self).state.elapsed_duration + 1) as u64,
                        progress: final(self).state.spec_progress_permille() as u64,
                    },
                    EventPriority::Normal,
                )
            }),
            old(self).state.status is Running && old(self).state.remaining_duration == 0 ==> ({
                &&& !running
                &&& final(self).state == (TimerState {
                    status: TimerStatus::Completed,
                    remaining_duration: 0,
                    elapsed_duration: old(self).state.total_duration,
                    ..old(self).state
                })
                &&& (old(self).state.phase is Focus ==> final(self).cycle_state is WaitingToStart
                    && final(self).completed_focus_sessions == bump_u32(
                    old(self).completed_focus_sessions,
                ))
                &&& (old(self).state.phase is LongBreak ==> final(self).cycle_state is WaitingToStart && final(self).completed_focus_sessions == old(self).completed_focus_sessions)
                &&& (old(self).state.phase is MicroBreak ==> final(self).cycle_state is InFocusSession && final(self).completed_focus_sessions == old(self).completed_focus_sessions)
                &&& final(self).settings == old(self).settings
                &&& final(self).scheduler == old(self).scheduler
                &&& final(self).suspended_focus == old(self).suspended_focus
                &&& spec_emitted(
                    *old(pipeline),
                    *final(pipeline),
                    TimerEvent::Completed {
                        phase: old(self).state.phase,
                        session_id: match old(self).state.session_id {
                            Some(id) => id,
                            None => 0,
                        },
                    },
                    EventPriority::Normal,
                )
            }),
    {
        if !self.state.is_running() {
            return false;
        }
        if self.state.remaining_duration > 0 {
            self.state.remaining_duration = self.state.remaining_duration - 1;
            self.state.elapsed_duration = self.state.elapsed_duration + 1;
            let progress = self.state.progress();
            let _ = pipeline.emit_event(
                TimerEvent::Tick {
                    phase: self.state.phase,
                    remaining: self.state.remaining_duration,
                    elapsed: self.state.elapsed_duration,
                    progress,
                },
                None,
            );
            true
        } else {
            let phase = self.state.phase;
            let session_id = match self.state.session_id {
                Some(id) => id,
                None => 0,
            };
            self.state.complete();
            match phase {
                SessionPhase::Focus => {
                    self.completed_focus_sessions = if self.completed_focus_sessions < u32::MAX {
                        self.completed_focus_sessions + 1
                    } else {
                        self.completed_focus_sessions
                    };
                    self.cycle_state = CycleState::WaitingToStart;
                },
                SessionPhase::LongBreak => {
                    self.cycle_state = CycleState::WaitingToStart;
                },
                SessionPhase::MicroBreak => {
                    self.cycle_state = CycleState::InFocusSession;
                },
            }
            let _ = pipeline.emit_event(TimerEvent::Completed { phase, session_id }, None);
            false
        }
    }

    /// One pass of the micro-break watcher: during a running focus session
    /// whose elapsed time has reached the scheduled offset, announce that a
    /// micro-break is due. The announcement leaves the cycle untouched;
    /// starting the break is the caller's decision.
    pub fn poll_micro_break(&self, pipeline: &mut EnhancedEventManager) -> (triggered: bool)
        requires
            self.wf(),
        ensures
            triggered == spec_micro_break_due(*self),
            triggered ==> spec_emitted(
                *old(pipeline),
                *final(pipeline),
                TimerEvent::MicroBreakTriggered {
                    count: bump_u32(self.state.micro_break_count),
                    duration: self.settings.micro_break_duration_seconds as u64,
                },
                EventPriority::Normal,
            ),
            !triggered ==> *final(pipeline) == *old(pipeline),
    {
        if !matches!(self.cycle_state, CycleState::InFocusSession) {
            return false;
        }
        if !self.state.is_running() {
            return false;
        }
        if let Some(next_break_at) = self.state.next_micro_break_at {
            if self.state.elapsed_duration >= next_break_at {
                let count = if self.state.micro_break_count < u32::MAX {
                    self.state.micro_break_count + 1
                } else {
                    self.state.micro_break_count
                };
                let duration = self.settings.micro_break_duration_seconds as u64;
                let _ = pipeline.emit_event(
                    TimerEvent::MicroBreakTriggered { count, duration },
                    None,
                );
                return true;
            }
        }
        false
    }
}

} // verus!
