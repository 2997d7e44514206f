//! The logic of a desktop manager for command line sessions.
//!
//! - [`ssh`]: hosts that are reached by SSH, and the agent on them, as the desktop sees
//!   them.
//! - [`ssh_agent`]: that agent.
//! - [`daemon`]: the client side of the daemon that hosts terminal sessions.
//! - [`handoff`]: notifications about a session that was handed off to a chat platform.
//! - [`text`], [`encoding`], [`json`] and [`ids`]: what these build on.
//!
//! Nothing here reads, writes, waits or looks at a clock. Where the work alternates
//! between that and decisions, the decisions are a function from what happened to what
//! to do next.
//!
//! Points in time and spans of time are nanoseconds, unless a name says otherwise.

pub mod daemon;
pub mod encoding;
pub mod handoff;
pub mod ids;
pub mod json;
pub mod ssh;
pub mod ssh_agent;
pub mod text;
