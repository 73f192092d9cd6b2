//! Timed work/break reminders: the notification model and its clock
//! arithmetic, the registry of running timers, the phases of one timer, and
//! the control protocol between a controlling process and the scheduler.

pub mod clock;
pub mod command;
pub mod configuration;
pub mod error;
pub mod ipc;
pub mod logging;
pub mod notification;
pub mod registry;
pub mod report;
pub mod scheduler;
pub mod store;
pub mod text;
pub mod wire;
