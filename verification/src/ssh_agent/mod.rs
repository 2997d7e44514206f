//! The agent that runs on the remote host.

use vstd::prelude::*;

pub mod command;
pub mod protocol;
pub mod report;

verus! {

/// The protocol version that the agent speaks.
pub const PROTOCOL_MAJOR: u16 = 1;

/// The revision of that version.
pub const PROTOCOL_MINOR: u16 = 0;

} // verus!
