//! Idle-aware break reminders: the scheduling engine, the signal channel
//! between the idle source and the scheduler, the idle-source negotiation
//! rules and the break presentation logic.

pub mod config;
pub mod signal;
pub mod scheduler;
pub mod idle;
pub mod message;
pub mod presenter;
