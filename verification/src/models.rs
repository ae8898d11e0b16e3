//! Plain data types shared across the cycle: session kinds, user settings
//! and the inputs that create or update them.

use vstd::prelude::*;

use crate::sys;

verus! {

#[derive(Clone, Copy, Debug, PartialEq, Eq, Structural)]
pub enum SessionType {
    Focus,
    LongBreak,
    MicroBreak,
}

#[derive(Clone, Copy, Debug, PartialEq, Eq, Structural)]
pub enum Theme {
    Light,
    Dark,
    System,
}

#[derive(Clone, Copy, Debug, PartialEq, Eq, Structural)]
pub enum AudioType {
    FocusStart,
    FocusEnd,
    LongBreakStart,
    LongBreakEnd,
    MicroBreakStart,
}

/// One recorded session. Timestamps are in milliseconds since the Unix
/// epoch; the id is the session's 128-bit identifier.
#[derive(Clone, Copy, Debug)]
pub struct FocusSession {
    pub id: u128,
    pub start_time: i64,
    pub end_time: Option<i64>,
    pub duration_seconds: i32,
    pub session_type: SessionType,
    pub completed: bool,
    pub created_at: i64,
    pub updated_at: i64,
}

/// The input that creates one session record.
#[derive(Clone, Copy, Debug)]
pub struct CreateFocusSession {
    pub session_type: SessionType,
    pub duration_seconds: i32,
}

/// User-owned configuration, read at session start. Durations are in the
/// units their names say; timestamps in milliseconds since the Unix epoch.
#[derive(Clone, Debug)]
pub struct UserSettings {
    pub id: u128,
    pub theme: Theme,
    pub language: String,
    pub auto_start: bool,
    pub focus_duration_minutes: i32,
    pub long_break_duration_minutes: i32,
    pub micro_break_min_interval_minutes: i32,
    pub micro_break_max_interval_minutes: i32,
    pub micro_break_duration_seconds: i32,
    pub notifications_enabled: bool,
    pub created_at: i64,
    pub updated_at: i64,
}

/// Settings the cycle can run with: durations are non-negative and small
/// enough for the second-level arithmetic, and the micro-break interval is
/// a real interval.
pub open spec fn valid_settings(s: UserSettings) -> bool {
    &&& 0 <= s.focus_duration_minutes <= 1_000_000
    &&& 0 <= s.long_break_duration_minutes <= 1_000_000
    &&& 0 <= s.micro_break_min_interval_minutes
    &&& s.micro_break_min_interval_minutes <= s.micro_break_max_interval_minutes
    &&& s.micro_break_max_interval_minutes <= 1_000_000
    &&& 0 <= s.micro_break_duration_seconds <= 1_000_000
}

pub fn validate_settings(s: &UserSettings) -> (r: bool)
    ensures
        r == valid_settings(*s),
{
    0 <= s.focus_duration_minutes && s.focus_duration_minutes <= 1_000_000 && 0
        <= s.long_break_duration_minutes && s.long_break_duration_minutes <= 1_000_000 && 0
        <= s.micro_break_min_interval_minutes && s.micro_break_min_interval_minutes
        <= s.micro_break_max_interval_minutes && s.micro_break_max_interval_minutes <= 1_000_000
        && 0 <= s.micro_break_duration_seconds && s.micro_break_duration_seconds <= 1_000_000
}

impl Default for UserSettings {
    /// The stock configuration: a 90-minute focus session, a 20-minute
    /// long break, micro-breaks of 15 seconds every 3 to 5 minutes.
    fn default() -> (s: UserSettings)
        ensures
            valid_settings(s),
            s.theme is System,
            s.language@ == "zh-CN"@,
            !s.auto_start,
            s.focus_duration_minutes == 90,
            s.long_break_duration_minutes == 20,
            s.micro_break_min_interval_minutes == 3,
            s.micro_break_max_interval_minutes == 5,
            s.micro_break_duration_seconds == 15,
            s.notifications_enabled,
    {
        let now = sys::now_millis();
        UserSettings {
            id: sys::fresh_id(),
            theme: Theme::System,
            language: String::from_str("zh-CN"),
            auto_start: false,
            focus_duration_minutes: 90,
            long_break_duration_minutes: 20,
            micro_break_min_interval_minutes: 3,
            micro_break_max_interval_minutes: 5,
            micro_break_duration_seconds: 15,
            notifications_enabled: true,
            created_at: now,
            updated_at: now,
        }
    }
}

/// A partial settings change: fields left `None` keep their value.
#[derive(Clone, Debug)]
pub struct UpdateUserSettings {
    pub theme: Option<Theme>,
    pub language: Option<String>,
    pub auto_start: Option<bool>,
    pub focus_duration_minutes: Option<i32>,
    pub long_break_duration_minutes: Option<i32>,
    pub micro_break_min_interval_minutes: Option<i32>,
    pub micro_break_max_interval_minutes: Option<i32>,
    pub micro_break_duration_seconds: Option<i32>,
    pub notifications_enabled: Option<bool>,
}

} // verus!
