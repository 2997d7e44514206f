//! The client side of the background daemon that hosts terminal sessions.

pub mod bridge;
pub mod client;
pub mod launch;
pub mod protocol;
