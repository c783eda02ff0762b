//! A work/break interval scheduler ("pomodoro" timer).
//!
//! The engine alternates a work interval with short and long break
//! intervals, tracks remaining time across pause/resume cycles from
//! caller-supplied monotonic timestamps, and counts completed work
//! sessions to decide when a long break is due.

pub mod countdown;
pub mod engine;
pub mod laws;
pub mod status;

pub use engine::PomodoroTimer;
pub use engine::TimerCommand;
pub use engine::TimerMode;
pub use engine::TimerState;
