//! Decision logic of a terminal client: the cloud sync protocol and the life of
//! SSH connections and sessions.
//!
//! Everything here is free of I/O. Each operation that talks to a remote store,
//! an SSH server or an SSH agent is a *run*: a value that names the one action
//! it waits for (`action`) and turns the answer to it into the next run or the
//! outcome (`step`). A driver performs the actions.

pub mod cloud_sync;
pub mod error;
pub mod progress;
pub mod ssh;
pub mod text;
