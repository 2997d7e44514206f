//! Notifications about a task that was handed off to a chat platform.

pub mod delivery;
pub mod event;
pub mod message;
pub mod record;
pub mod scheduler;
pub mod settings;
