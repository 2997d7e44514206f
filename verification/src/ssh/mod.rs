//! Connections to remote hosts.

pub mod auth;
pub mod connect;
pub mod connection;
pub mod files;
pub mod output;
pub mod password;
pub mod path;
pub mod probe;
