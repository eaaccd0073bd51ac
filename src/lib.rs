//! A per-thread interval timer whose ticks arrive as a signal aimed at the
//! thread that created it.
//!
//! The library holds the timer's logic: the tick period computed from a
//! frequency, and the lifecycle of the kernel timer object (identify the
//! calling thread, create, arm, release). Each step of that lifecycle is a
//! transition from a state and an event to a new state and an action; the
//! caller performs the action against the operating system and reports back
//! what happened.
pub mod error;
pub mod interval;
pub mod lifecycle;
pub mod laws;

pub use error::TimerError;
pub use interval::{timer_interval, TimerInterval};
pub use lifecycle::{release_outcome, ThreadTimer, TimerAction, TimerEvent, TimerPhase, TimerState};
