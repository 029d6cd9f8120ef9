//! Resolution of the head against what the remote really holds.
//!
//! A remote that an older client wrote may hold the head's snapshot only in the
//! current snapshot file. Such a snapshot is moved to the path of its revision.

use crate::cloud_sync::protocol;
use crate::cloud_sync::protocol::{
    commit_sync_pointer, pointer_from_snapshot, read_current_sync_snapshot_compat,
    read_snapshot_for_pointer, upload_sync_snapshot, validate_snapshot_against_pointer,
    verify_uploaded_sync_snapshot, CommitModel, CommitRun, CurrentReadModel, CurrentReadRun,
    PointerReadModel, PointerReadRun, StoreModel, StoreRun, SyncAction, SyncActionModel,
    SyncProgram, SyncReply, SyncReplyModel,
};
use crate::cloud_sync::remote;
use crate::cloud_sync::snapshot::{
    PointerModel, PortableSnapshot, RemoteSyncPointer, SnapshotModel,
};
use crate::error::{AppError, AppErrorModel, AppResult, CloudSyncError, CloudSyncErrorModel};
use crate::progress::Progress;
use vstd::prelude::*;

verus! {

/// What the remote holds for a pointer.
#[derive(Debug)]
pub enum RemoteSnapshotResolution {
    /// The snapshot at the path of its revision.
    Current(PortableSnapshot),
    /// The snapshot, which was found in the current snapshot file and moved.
    LegacyMigrated(PortableSnapshot),
    /// Only a current snapshot that the pointer does not agree with.
    Inconsistent { pointer: RemoteSyncPointer, recovery_candidate: PortableSnapshot },
}

/// Mathematical value of a [`RemoteSnapshotResolution`].
pub enum ResolutionModel {
    Current(SnapshotModel),
    LegacyMigrated(SnapshotModel),
    Inconsistent { pointer: PointerModel, recovery_candidate: SnapshotModel },
}

impl View for RemoteSnapshotResolution {
    type V = ResolutionModel;

    open spec fn view(&self) -> ResolutionModel {
        match *self {
            RemoteSnapshotResolution::Current(snapshot) => ResolutionModel::Current(snapshot@),
            RemoteSnapshotResolution::LegacyMigrated(snapshot) => ResolutionModel::LegacyMigrated(
                snapshot@,
            ),
            RemoteSnapshotResolution::Inconsistent { pointer, recovery_candidate } =>
                ResolutionModel::Inconsistent {
                    pointer: pointer@,
                    recovery_candidate: recovery_candidate@,
                },
        }
    }
}

// Moving a snapshot to the path of its revision.

/// The upload of a snapshot, and the check that it can be read for a pointer.
#[derive(Debug)]
pub enum MigrateRun {
    Uploading { remote_root: String, pointer: RemoteSyncPointer, store: StoreRun },
    Verifying(PointerReadRun),
}

/// Mathematical value of a [`MigrateRun`].
pub enum MigrateModel {
    Uploading { remote_root: Seq<char>, pointer: PointerModel, store: StoreModel },
    Verifying(PointerReadModel),
}

impl View for MigrateRun {
    type V = MigrateModel;

    open spec fn view(&self) -> MigrateModel {
        match *self {
            MigrateRun::Uploading { remote_root, pointer, store } => MigrateModel::Uploading {
                remote_root: remote_root@,
                pointer: pointer@,
                store: store@,
            },
            MigrateRun::Verifying(read) => MigrateModel::Verifying(read@),
        }
    }
}

impl SyncProgram for MigrateModel {
    type Outcome = Result<(), AppErrorModel>;

    open spec fn action(self) -> SyncActionModel {
        match self {
            MigrateModel::Uploading { store, .. } => store.action(),
            MigrateModel::Verifying(read) => read.action(),
        }
    }

    open spec fn step(self, reply: SyncReplyModel) -> Progress<
        MigrateModel,
        Result<(), AppErrorModel>,
    > {
        match self {
            MigrateModel::Uploading { remote_root, pointer, store } => match store.step(reply) {
                Progress::Pending(next) => Progress::Pending(
                    MigrateModel::Uploading { remote_root, pointer, store: next },
                ),
                Progress::Done(Ok(_)) => Progress::Pending(
                    MigrateModel::Verifying(PointerReadModel::Reading { remote_root, pointer }),
                ),
                Progress::Done(Err(error)) => Progress::Done(Err(error)),
            },
            MigrateModel::Verifying(read) => match read.step(reply) {
                Progress::Pending(next) => Progress::Pending(MigrateModel::Verifying(next)),
                Progress::Done(Ok(_)) => Progress::Done(Ok(())),
                Progress::Done(Err(error)) => Progress::Done(Err(error)),
            },
        }
    }
}

/// The upload of `snapshot` that begins a migration for `pointer`.
pub open spec fn migrate_start(
    remote_root: Seq<char>,
    pointer: PointerModel,
    snapshot: SnapshotModel,
) -> MigrateModel {
    MigrateModel::Uploading {
        remote_root,
        pointer,
        store: StoreModel::Encoding {
            path: remote::snapshot_path_model(remote_root, snapshot.revision_id),
            snapshot,
        },
    }
}

/// Starts to write `snapshot` to the path of its revision and to read it back
/// for `pointer`.
pub fn migrate_legacy_snapshot(
    remote_root: &str,
    pointer: &RemoteSyncPointer,
    snapshot: &PortableSnapshot,
) -> (r: MigrateRun)
    ensures
        r@ == migrate_start(remote_root@, pointer@, snapshot@),
{
    MigrateRun::Uploading {
        remote_root: remote_root.to_owned(),
        pointer: pointer.copy(),
        store: upload_sync_snapshot(remote_root, snapshot),
    }
}

impl MigrateRun {
    /// The action that the run waits for.
    pub fn action<'a>(&'a self) -> (r: SyncAction<'a>)
        ensures
            r@ == self@.action(),
    {
        match self {
            MigrateRun::Uploading { store, .. } => store.action(),
            MigrateRun::Verifying(read) => read.action(),
        }
    }

    /// What the reply makes of the run.
    pub fn step(self, reply: SyncReply) -> (r: Progress<MigrateRun, AppResult<()>>)
        ensures
            r@ == self@.step(reply@),
    {
        match self {
            MigrateRun::Uploading { remote_root, pointer, store } => match store.step(reply) {
                Progress::Pending(next) => Progress::Pending(
                    MigrateRun::Uploading { remote_root, pointer, store: next },
                ),
                Progress::Done(Ok(_)) => Progress::Pending(
                    MigrateRun::Verifying(
                        verify_uploaded_sync_snapshot(remote_root.as_str(), &pointer),
                    ),
                ),
                Progress::Done(Err(error)) => Progress::Done(Err(error)),
            },
            MigrateRun::Verifying(read) => match read.step(reply) {
                Progress::Pending(next) => Progress::Pending(MigrateRun::Verifying(next)),
                Progress::Done(Ok(_)) => Progress::Done(Ok(())),
                Progress::Done(Err(error)) => Progress::Done(Err(error)),
            },
        }
    }
}

// Resolution of a pointer.

/// The resolution of a pointer.
#[derive(Debug)]
#[allow(inconsistent_fields)]
pub enum ResolveRun {
    ReadingPointer { remote_root: String, pointer: RemoteSyncPointer, read: PointerReadRun },
    ReadingCurrent { remote_root: String, pointer: RemoteSyncPointer, read: CurrentReadRun },
    Migrating { current: PortableSnapshot, migrate: MigrateRun },
}

/// Mathematical value of a [`ResolveRun`].
#[allow(inconsistent_fields)]
pub enum ResolveModel {
    ReadingPointer { remote_root: Seq<char>, pointer: PointerModel, read: PointerReadModel },
    ReadingCurrent { remote_root: Seq<char>, pointer: PointerModel, read: CurrentReadModel },
    Migrating { current: SnapshotModel, migrate: MigrateModel },
}

impl View for ResolveRun {
    type V = ResolveModel;

    open spec fn view(&self) -> ResolveModel {
        match *self {
            ResolveRun::ReadingPointer { remote_root, pointer, read } =>
                ResolveModel::ReadingPointer {
                    remote_root: remote_root@,
                    pointer: pointer@,
                    read: read@,
                },
            ResolveRun::ReadingCurrent { remote_root, pointer, read } =>
                ResolveModel::ReadingCurrent {
                    remote_root: remote_root@,
                    pointer: pointer@,
                    read: read@,
                },
            ResolveRun::Migrating { current, migrate } => ResolveModel::Migrating {
                current: current@,
                migrate: migrate@,
            },
        }
    }
}

/// Whether an error says that a snapshot is missing.
pub open spec fn is_snapshot_missing(error: AppErrorModel) -> bool {
    error matches AppErrorModel::CloudSync(CloudSyncErrorModel::SnapshotMissing { .. })
}

impl SyncProgram for ResolveModel {
    type Outcome = Result<ResolutionModel, AppErrorModel>;

    open spec fn action(self) -> SyncActionModel {
        match self {
            ResolveModel::ReadingPointer { read, .. } => read.action(),
            ResolveModel::ReadingCurrent { read, .. } => read.action(),
            ResolveModel::Migrating { migrate, .. } => migrate.action(),
        }
    }

    open spec fn step(self, reply: SyncReplyModel) -> Progress<
        ResolveModel,
        Result<ResolutionModel, AppErrorModel>,
    > {
        match self {
            ResolveModel::ReadingPointer { remote_root, pointer, read } => match read.step(reply) {
                Progress::Pending(next) => Progress::Pending(
                    ResolveModel::ReadingPointer { remote_root, pointer, read: next },
                ),
                Progress::Done(Ok(snapshot)) => Progress::Done(
                    Ok(ResolutionModel::Current(snapshot)),
                ),
                Progress::Done(Err(error)) => if is_snapshot_missing(error) {
                    Progress::Pending(
                        ResolveModel::ReadingCurrent {
                            remote_root,
                            pointer,
                            read: CurrentReadModel::Reading { remote_root },
                        },
                    )
                } else {
                    Progress::Done(Err(error))
                },
            },
            ResolveModel::ReadingCurrent { remote_root, pointer, read } => match read.step(reply) {
                Progress::Pending(next) => Progress::Pending(
                    ResolveModel::ReadingCurrent { remote_root, pointer, read: next },
                ),
                Progress::Done(Ok(None)) => Progress::Done(
                    Err(protocol::snapshot_missing(pointer.revision_id)),
                ),
                Progress::Done(Ok(Some(current))) => if protocol::validation(
                    pointer,
                    current,
                ) is Ok {
                    Progress::Pending(
                        ResolveModel::Migrating {
                            current,
                            migrate: migrate_start(remote_root, pointer, current),
                        },
                    )
                } else {
                    Progress::Done(
                        Ok(
                            ResolutionModel::Inconsistent { pointer, recovery_candidate: current },
                        ),
                    )
                },
                Progress::Done(Err(error)) => Progress::Done(Err(error)),
            },
            ResolveModel::Migrating { current, migrate } => match migrate.step(reply) {
                Progress::Pending(next) => Progress::Pending(
                    ResolveModel::Migrating { current, migrate: next },
                ),
                Progress::Done(Ok(_)) => Progress::Done(
                    Ok(ResolutionModel::LegacyMigrated(current)),
                ),
                Progress::Done(Err(error)) => Progress::Done(Err(error)),
            },
        }
    }
}

/// The read that begins the resolution of `pointer`.
pub open spec fn resolve_start(remote_root: Seq<char>, pointer: PointerModel) -> ResolveModel {
    ResolveModel::ReadingPointer {
        remote_root,
        pointer,
        read: PointerReadModel::Reading { remote_root, pointer },
    }
}

/// Starts to find the snapshot that `pointer` names: at the path of its
/// revision, or else in the current snapshot file, from where it is moved if the
/// pointer agrees with it.
pub fn resolve_remote_snapshot(remote_root: &str, pointer: &RemoteSyncPointer) -> (r: ResolveRun)
    ensures
        r@ == resolve_start(remote_root@, pointer@),
{
    ResolveRun::ReadingPointer {
        remote_root: remote_root.to_owned(),
        pointer: pointer.copy(),
        read: read_snapshot_for_pointer(remote_root, pointer),
    }
}

impl ResolveRun {
    /// The action that the run waits for.
    pub fn action<'a>(&'a self) -> (r: SyncAction<'a>)
        ensures
            r@ == self@.action(),
    {
        match self {
            ResolveRun::ReadingPointer { read, .. } => read.action(),
            ResolveRun::ReadingCurrent { read, .. } => read.action(),
            ResolveRun::Migrating { migrate, .. } => migrate.action(),
        }
    }

    /// What the reply makes of the run.
    pub fn step(self, reply: SyncReply) -> (r: Progress<
        ResolveRun,
        AppResult<RemoteSnapshotResolution>,
    >)
        ensures
            r@ == self@.step(reply@),
    {
        match self {
            ResolveRun::ReadingPointer { remote_root, pointer, read } => match read.step(reply) {
                Progress::Pending(next) => Progress::Pending(
                    ResolveRun::ReadingPointer { remote_root, pointer, read: next },
                ),
                Progress::Done(Ok(snapshot)) => Progress::Done(
                    Ok(RemoteSnapshotResolution::Current(snapshot)),
                ),
                Progress::Done(Err(AppError::CloudSync(CloudSyncError::SnapshotMissing { .. }))) => {
                    let read = read_current_sync_snapshot_compat(remote_root.as_str());
                    Progress::Pending(ResolveRun::ReadingCurrent { remote_root, pointer, read })
                },
                Progress::Done(Err(error)) => Progress::Done(Err(error)),
            },
            ResolveRun::ReadingCurrent { remote_root, pointer, read } => match read.step(reply) {
                Progress::Pending(next) => Progress::Pending(
                    ResolveRun::ReadingCurrent { remote_root, pointer, read: next },
                ),
                Progress::Done(Ok(None)) => Progress::Done(
                    Err(
                        AppError::CloudSync(
                            CloudSyncError::SnapshotMissing { revision: pointer.revision_id },
                        ),
                    ),
                ),
                Progress::Done(Ok(Some(current))) => {
                    if validate_snapshot_against_pointer(&pointer, &current).is_ok() {
                        let migrate = migrate_legacy_snapshot(
                            remote_root.as_str(),
                            &pointer,
                            &current,
                        );
                        Progress::Pending(ResolveRun::Migrating { current, migrate })
                    } else {
                        Progress::Done(
                            Ok(
                                RemoteSnapshotResolution::Inconsistent {
                                    pointer,
                                    recovery_candidate: current,
                                },
                            ),
                        )
                    }
                },
                Progress::Done(Err(error)) => Progress::Done(Err(error)),
            },
            ResolveRun::Migrating { current, migrate } => match migrate.step(reply) {
                Progress::Pending(next) => Progress::Pending(
                    ResolveRun::Migrating { current, migrate: next },
                ),
                Progress::Done(Ok(_)) => Progress::Done(
                    Ok(RemoteSnapshotResolution::LegacyMigrated(current)),
                ),
                Progress::Done(Err(error)) => Progress::Done(Err(error)),
            },
        }
    }
}

// Recovery from the current snapshot.

/// The recovery of a remote from its current snapshot file.
#[derive(Debug)]
#[allow(inconsistent_fields)]
pub enum RecoverRun {
    ReadingCurrent { remote_root: String, read: CurrentReadRun },
    Uploading { remote_root: String, snapshot: PortableSnapshot, store: StoreRun },
    Verifying { remote_root: String, snapshot: PortableSnapshot, read: PointerReadRun },
    Committing { snapshot: PortableSnapshot, commit: CommitRun },
}

/// Mathematical value of a [`RecoverRun`].
#[allow(inconsistent_fields)]
pub enum RecoverModel {
    ReadingCurrent { remote_root: Seq<char>, read: CurrentReadModel },
    Uploading { remote_root: Seq<char>, snapshot: SnapshotModel, store: StoreModel },
    Verifying { remote_root: Seq<char>, snapshot: SnapshotModel, read: PointerReadModel },
    Committing { snapshot: SnapshotModel, commit: CommitModel },
}

impl View for RecoverRun {
    type V = RecoverModel;

    open spec fn view(&self) -> RecoverModel {
        match *self {
            RecoverRun::ReadingCurrent { remote_root, read } => RecoverModel::ReadingCurrent {
                remote_root: remote_root@,
                read: read@,
            },
            RecoverRun::Uploading { remote_root, snapshot, store } => RecoverModel::Uploading {
                remote_root: remote_root@,
                snapshot: snapshot@,
                store: store@,
            },
            RecoverRun::Verifying { remote_root, snapshot, read } => RecoverModel::Verifying {
                remote_root: remote_root@,
                snapshot: snapshot@,
                read: read@,
            },
            RecoverRun::Committing { snapshot, commit } => RecoverModel::Committing {
                snapshot: snapshot@,
                commit: commit@,
            },
        }
    }
}

impl SyncProgram for RecoverModel {
    type Outcome = Result<SnapshotModel, AppErrorModel>;

    open spec fn action(self) -> SyncActionModel {
        match self {
            RecoverModel::ReadingCurrent { read, .. } => read.action(),
            RecoverModel::Uploading { store, .. } => store.action(),
            RecoverModel::Verifying { read, .. } => read.action(),
            RecoverModel::Committing { commit, .. } => commit.action(),
        }
    }

    open spec fn step(self, reply: SyncReplyModel) -> Progress<
        RecoverModel,
        Result<SnapshotModel, AppErrorModel>,
    > {
        match self {
            RecoverModel::ReadingCurrent { remote_root, read } => match read.step(reply) {
                Progress::Pending(next) => Progress::Pending(
                    RecoverModel::ReadingCurrent { remote_root, read: next },
                ),
                Progress::Done(Ok(None)) => Progress::Done(
                    Err(
                        AppErrorModel::Config(
                            "No current cloud sync snapshot is available for recovery"@,
                        ),
                    ),
                ),
                Progress::Done(Ok(Some(snapshot))) => Progress::Pending(
                    RecoverModel::Uploading {
                        remote_root,
                        snapshot,
                        store: StoreModel::Encoding {
                            path: remote::snapshot_path_model(remote_root, snapshot.revision_id),
                            snapshot,
                        },
                    },
                ),
                Progress::Done(Err(error)) => Progress::Done(Err(error)),
            },
            RecoverModel::Uploading { remote_root, snapshot, store } => match store.step(reply) {
                Progress::Pending(next) => Progress::Pending(
                    RecoverModel::Uploading { remote_root, snapshot, store: next },
                ),
                Progress::Done(Ok(_)) => Progress::Pending(
                    RecoverModel::Verifying {
                        remote_root,
                        snapshot,
                        read: PointerReadModel::Reading {
                            remote_root,
                            pointer: protocol::pointer_of(snapshot),
                        },
                    },
                ),
                Progress::Done(Err(error)) => Progress::Done(Err(error)),
            },
            RecoverModel::Verifying { remote_root, snapshot, read } => match read.step(reply) {
                Progress::Pending(next) => Progress::Pending(
                    RecoverModel::Verifying { remote_root, snapshot, read: next },
                ),
                Progress::Done(Ok(_)) => Progress::Pending(
                    RecoverModel::Committing {
                        snapshot,
                        commit: CommitModel {
                            remote_root,
                            pointer: protocol::pointer_of(snapshot),
                        },
                    },
                ),
                Progress::Done(Err(error)) => Progress::Done(Err(error)),
            },
            RecoverModel::Committing { snapshot, commit } => match commit.step(reply) {
                Progress::Pending(next) => Progress::Pending(
                    RecoverModel::Committing { snapshot, commit: next },
                ),
                Progress::Done(Ok(_)) => Progress::Done(Ok(snapshot)),
                Progress::Done(Err(error)) => Progress::Done(Err(error)),
            },
        }
    }
}

/// The read that begins a recovery.
pub open spec fn recover_start(remote_root: Seq<char>) -> RecoverModel {
    RecoverModel::ReadingCurrent {
        remote_root,
        read: CurrentReadModel::Reading { remote_root },
    }
}

/// Starts to make the current snapshot the head: it is written to the path of
/// its revision, read back, and only then committed.
pub fn recover_current_remote_snapshot(remote_root: &str) -> (r: RecoverRun)
    ensures
        r@ == recover_start(remote_root@),
{
    RecoverRun::ReadingCurrent {
        remote_root: remote_root.to_owned(),
        read: read_current_sync_snapshot_compat(remote_root),
    }
}

impl RecoverRun {
    /// The action that the run waits for.
    pub fn action<'a>(&'a self) -> (r: SyncAction<'a>)
        ensures
            r@ == self@.action(),
    {
        match self {
            RecoverRun::ReadingCurrent { read, .. } => read.action(),
            RecoverRun::Uploading { store, .. } => store.action(),
            RecoverRun::Verifying { read, .. } => read.action(),
            RecoverRun::Committing { commit, .. } => commit.action(),
        }
    }

    /// What the reply makes of the run.
    pub fn step(self, reply: SyncReply) -> (r: Progress<RecoverRun, AppResult<PortableSnapshot>>)
        ensures
            r@ == self@.step(reply@),
    {
        match self {
            RecoverRun::ReadingCurrent { remote_root, read } => match read.step(reply) {
                Progress::Pending(next) => Progress::Pending(
                    RecoverRun::ReadingCurrent { remote_root, read: next },
                ),
                Progress::Done(Ok(None)) => Progress::Done(
                    Err(
                        AppError::Config(
                            "No current cloud sync snapshot is available for recovery".to_owned(),
                        ),
                    ),
                ),
                Progress::Done(Ok(Some(snapshot))) => {
                    let store = upload_sync_snapshot(remote_root.as_str(), &snapshot);
                    Progress::Pending(RecoverRun::Uploading { remote_root, snapshot, store })
                },
                Progress::Done(Err(error)) => Progress::Done(Err(error)),
            },
            RecoverRun::Uploading { remote_root, snapshot, store } => match store.step(reply) {
                Progress::Pending(next) => Progress::Pending(
                    RecoverRun::Uploading { remote_root, snapshot, store: next },
                ),
                Progress::Done(Ok(_)) => {
                    let pointer = pointer_from_snapshot(&snapshot);
                    let read = verify_uploaded_sync_snapshot(remote_root.as_str(), &pointer);
                    Progress::Pending(RecoverRun::Verifying { remote_root, snapshot, read })
                },
                Progress::Done(Err(error)) => Progress::Done(Err(error)),
            },
            RecoverRun::Verifying { remote_root, snapshot, read } => match read.step(reply) {
                Progress::Pending(next) => Progress::Pending(
                    RecoverRun::Verifying { remote_root, snapshot, read: next },
                ),
                Progress::Done(Ok(_)) => {
                    let pointer = pointer_from_snapshot(&snapshot);
                    let commit = commit_sync_pointer(remote_root.as_str(), &pointer);
                    Progress::Pending(RecoverRun::Committing { snapshot, commit })
                },
                Progress::Done(Err(error)) => Progress::Done(Err(error)),
            },
            RecoverRun::Committing { snapshot, commit } => match commit.step(reply) {
                Progress::Pending(next) => Progress::Pending(
                    RecoverRun::Committing { snapshot, commit: next },
                ),
                Progress::Done(Ok(_)) => Progress::Done(Ok(snapshot)),
                Progress::Done(Err(error)) => Progress::Done(Err(error)),
            },
        }
    }
}

} // verus!
