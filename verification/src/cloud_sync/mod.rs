//! Cloud sync: snapshots of the configuration on a remote file store.
//!
//! Every revision is a snapshot file of its own, and one pointer file names the
//! revision that is the head. A single current snapshot file is what older
//! clients read and write.

pub mod laws;
pub mod migration;
pub mod outcomes;
pub mod protocol;
pub mod remote;
pub mod snapshot;
