//! Snapshots and the pointer that names one.

use vstd::prelude::*;

verus! {

/// A snapshot of the whole configuration.
///
/// The protocol reads the fields that identify a snapshot. The configuration
/// itself is carried in `body` and never looked at.
#[derive(Debug)]
pub struct PortableSnapshot {
    pub schema_version: u32,
    pub revision_id: String,
    pub device_id: String,
    pub created_at_ms: u64,
    pub payload_hash: String,
    pub app_version: String,
    pub body: Vec<u8>,
}

/// The content of the pointer file: which snapshot is the head.
#[derive(Debug)]
pub struct RemoteSyncPointer {
    pub schema_version: u32,
    pub revision_id: String,
    pub created_at_ms: u64,
    pub payload_hash: String,
    pub device_id: String,
    pub app_version: String,
}

/// Mathematical value of a [`PortableSnapshot`].
pub struct SnapshotModel {
    pub schema_version: u32,
    pub revision_id: Seq<char>,
    pub device_id: Seq<char>,
    pub created_at_ms: u64,
    pub payload_hash: Seq<char>,
    pub app_version: Seq<char>,
    pub body: Seq<u8>,
}

/// Mathematical value of a [`RemoteSyncPointer`].
pub struct PointerModel {
    pub schema_version: u32,
    pub revision_id: Seq<char>,
    pub created_at_ms: u64,
    pub payload_hash: Seq<char>,
    pub device_id: Seq<char>,
    pub app_version: Seq<char>,
}

impl View for PortableSnapshot {
    type V = SnapshotModel;

    open spec fn view(&self) -> SnapshotModel {
        SnapshotModel {
            schema_version: self.schema_version,
            revision_id: self.revision_id@,
            device_id: self.device_id@,
            created_at_ms: self.created_at_ms,
            payload_hash: self.payload_hash@,
            app_version: self.app_version@,
            body: self.body@,
        }
    }
}

impl View for RemoteSyncPointer {
    type V = PointerModel;

    open spec fn view(&self) -> PointerModel {
        PointerModel {
            schema_version: self.schema_version,
            revision_id: self.revision_id@,
            created_at_ms: self.created_at_ms,
            payload_hash: self.payload_hash@,
            device_id: self.device_id@,
            app_version: self.app_version@,
        }
    }
}

impl PortableSnapshot {
    /// A copy of the snapshot.
    pub fn copy(&self) -> (r: PortableSnapshot)
        ensures
            r@ == self@,
    {
        let body = self.body.clone();
        assert(body@ =~= self.body@);
        PortableSnapshot {
            schema_version: self.schema_version,
            revision_id: self.revision_id.clone(),
            device_id: self.device_id.clone(),
            created_at_ms: self.created_at_ms,
            payload_hash: self.payload_hash.clone(),
            app_version: self.app_version.clone(),
            body,
        }
    }
}

impl RemoteSyncPointer {
    /// A copy of the pointer.
    pub fn copy(&self) -> (r: RemoteSyncPointer)
        ensures
            r@ == self@,
    {
        RemoteSyncPointer {
            schema_version: self.schema_version,
            revision_id: self.revision_id.clone(),
            created_at_ms: self.created_at_ms,
            payload_hash: self.payload_hash.clone(),
            device_id: self.device_id.clone(),
            app_version: self.app_version.clone(),
        }
    }
}

/// The value of a snapshot holds everything that the snapshot holds.
pub proof fn law_snapshot_is_its_value(snapshot: PortableSnapshot)
    ensures
        snapshot@.schema_version == snapshot.schema_version,
        snapshot@.revision_id == snapshot.revision_id@,
        snapshot@.device_id == snapshot.device_id@,
        snapshot@.created_at_ms == snapshot.created_at_ms,
        snapshot@.payload_hash == snapshot.payload_hash@,
        snapshot@.app_version == snapshot.app_version@,
        snapshot@.body == snapshot.body@,
{
}

/// The value of a pointer holds everything that the pointer holds.
pub proof fn law_pointer_is_its_value(pointer: RemoteSyncPointer)
    ensures
        pointer@.schema_version == pointer.schema_version,
        pointer@.revision_id == pointer.revision_id@,
        pointer@.created_at_ms == pointer.created_at_ms,
        pointer@.payload_hash == pointer.payload_hash@,
        pointer@.device_id == pointer.device_id@,
        pointer@.app_version == pointer.app_version@,
{
}

} // verus!
