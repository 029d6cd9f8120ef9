//! SSH: connections, possibly through jump hosts, shell sessions on them, and
//! the local SSH agent.

pub mod agent;
pub mod config;
pub mod connection;
pub mod handle;
pub mod laws;
pub mod session;
