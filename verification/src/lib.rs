//! Work/rest cycle scheduling: session timers driven by one-second ticks, an
//! adaptive micro-break scheduler, and a prioritized, retrying event delivery
//! pipeline with bounded history and running statistics.

pub mod events;
pub mod long_break;
pub mod micro_break;
pub mod models;
pub mod timer_manager;
pub mod timer_state;

mod sys;
