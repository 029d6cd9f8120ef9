//! What the sync operations do to a remote store, from start to outcome.
//!
//! [`World`] is a remote store together with the codec that the driver uses.
//! Each operation has a theorem that says, for every world, what its outcome is
//! and which world it leaves. The laws of the protocol follow.

use crate::cloud_sync::migration;
use crate::cloud_sync::migration::{
    MigrateModel, RecoverModel, ResolutionModel, ResolveModel,
};
use crate::cloud_sync::protocol;
use crate::cloud_sync::protocol::{
    CommitModel, CurrentReadModel, HeadCheckModel, PointerReadModel, StoreModel,
    SyncActionModel, SyncProgram, SyncReplyModel,
};
use crate::cloud_sync::remote;
use crate::cloud_sync::snapshot::{PointerModel, SnapshotModel};
use crate::error::{AppErrorModel, CloudSyncErrorModel};
use crate::progress::Progress;
use vstd::prelude::*;

verus! {

/// A remote store, and how the driver encodes and encrypts.
pub struct World {
    /// The content of each file.
    pub files: Map<Seq<char>, Seq<u8>>,
    /// The error of an action, for the actions that fail. A failed action
    /// leaves the store as it is.
    pub failure: spec_fn(SyncActionModel) -> Option<AppErrorModel>,
    pub encode: spec_fn(SnapshotModel) -> Seq<u8>,
    pub encrypt: spec_fn(Seq<u8>) -> Seq<u8>,
    pub decrypt: spec_fn(Seq<u8>) -> Seq<u8>,
    pub decode: spec_fn(Seq<u8>) -> SnapshotModel,
    pub encode_pointer: spec_fn(PointerModel) -> Seq<u8>,
    pub decode_pointer: spec_fn(Seq<u8>) -> PointerModel,
}

impl World {
    /// The world in which the file at `path` holds `bytes`.
    pub open spec fn with_file(self, path: Seq<char>, bytes: Seq<u8>) -> World {
        World { files: self.files.insert(path, bytes), ..self }
    }

    /// The content of the file at `path`.
    pub open spec fn file(self, path: Seq<char>) -> Option<Seq<u8>> {
        if self.files.contains_key(path) {
            Some(self.files[path])
        } else {
            None
        }
    }

    /// The world after an action, and the reply to it.
    pub open spec fn perform(self, action: SyncActionModel) -> (World, SyncReplyModel) {
        match (self.failure)(action) {
            Some(error) => (self, SyncReplyModel::Failed(error)),
            None => match action {
                SyncActionModel::Read { path } => (self, SyncReplyModel::File(self.file(path))),
                SyncActionModel::Write { path, bytes } => (
                    self.with_file(path, bytes),
                    SyncReplyModel::Written,
                ),
                SyncActionModel::Encode { snapshot } => (
                    self,
                    SyncReplyModel::Bytes((self.encode)(snapshot)),
                ),
                SyncActionModel::Encrypt { bytes } => (
                    self,
                    SyncReplyModel::Bytes((self.encrypt)(bytes)),
                ),
                SyncActionModel::Decrypt { bytes } => (
                    self,
                    SyncReplyModel::Bytes((self.decrypt)(bytes)),
                ),
                SyncActionModel::Decode { bytes } => (
                    self,
                    SyncReplyModel::Snapshot((self.decode)(bytes)),
                ),
                SyncActionModel::LoadPointer { path } => (
                    self,
                    SyncReplyModel::Pointer(
                        match self.file(path) {
                            Some(bytes) => Some((self.decode_pointer)(bytes)),
                            None => None,
                        },
                    ),
                ),
                SyncActionModel::WritePointer { path, pointer } => (
                    self.with_file(path, (self.encode_pointer)(pointer)),
                    SyncReplyModel::Written,
                ),
            },
        }
    }

    /// Whether an action succeeds.
    pub open spec fn succeeds(self, action: SyncActionModel) -> bool {
        (self.failure)(action) is None
    }

    /// The same files and codec, where `failure` says what fails.
    pub open spec fn failing(
        self,
        failure: spec_fn(SyncActionModel) -> Option<AppErrorModel>,
    ) -> World {
        World { failure, ..self }
    }

    /// The bytes that a snapshot becomes if it can be encoded and encrypted.
    pub open spec fn seal(self, snapshot: SnapshotModel) -> Seq<u8> {
        (self.encrypt)((self.encode)(snapshot))
    }

    /// Whether a snapshot can be encoded and encrypted.
    pub open spec fn seals(self, snapshot: SnapshotModel) -> bool {
        self.succeeds(SyncActionModel::Encode { snapshot }) && self.succeeds(
            SyncActionModel::Encrypt { bytes: (self.encode)(snapshot) },
        )
    }

    /// Whether the bytes that a snapshot becomes can be decrypted and decoded, and
    /// give the snapshot.
    pub open spec fn opens(self, snapshot: SnapshotModel) -> bool {
        let decrypted = (self.decrypt)(self.seal(snapshot));
        self.succeeds(SyncActionModel::Decrypt { bytes: self.seal(snapshot) }) && self.succeeds(
            SyncActionModel::Decode { bytes: decrypted },
        ) && (self.decode)(decrypted) == snapshot
    }

    /// Whether a snapshot can be written to `path`.
    pub open spec fn can_store(self, path: Seq<char>, snapshot: SnapshotModel) -> bool {
        self.seals(snapshot) && self.succeeds(
            SyncActionModel::Write { path, bytes: self.seal(snapshot) },
        )
    }

    /// Whether a snapshot can be read from `path`, if it was written there.
    pub open spec fn can_load(self, path: Seq<char>, snapshot: SnapshotModel) -> bool {
        self.succeeds(SyncActionModel::Read { path }) && self.opens(snapshot)
    }

    /// What a pointer file gives after the pointer was written to it.
    pub open spec fn reread(self, pointer: PointerModel) -> PointerModel {
        (self.decode_pointer)((self.encode_pointer)(pointer))
    }

    /// The content of a file, decrypted and decoded, or the error that this is
    /// reported as.
    pub open spec fn decoded(self, raw: Seq<u8>, revision: Seq<char>) -> Result<
        SnapshotModel,
        AppErrorModel,
    > {
        match (self.failure)(SyncActionModel::Decrypt { bytes: raw }) {
            Some(error) => Err(protocol::decoding_error(error, revision)),
            None => {
                let decrypted = (self.decrypt)(raw);
                match (self.failure)(SyncActionModel::Decode { bytes: decrypted }) {
                    Some(error) => Err(protocol::decoding_error(error, revision)),
                    None => Ok((self.decode)(decrypted)),
                }
            },
        }
    }

    /// What a read for `pointer` finds.
    pub open spec fn found(self, remote_root: Seq<char>, pointer: PointerModel) -> Result<
        SnapshotModel,
        AppErrorModel,
    > {
        let path = remote::snapshot_path_model(remote_root, pointer.revision_id);
        match (self.failure)(SyncActionModel::Read { path }) {
            Some(error) => Err(error),
            None => match self.file(path) {
                None => Err(protocol::snapshot_missing(pointer.revision_id)),
                Some(raw) => match self.decoded(raw, pointer.revision_id) {
                    Err(error) => Err(error),
                    Ok(snapshot) => match protocol::validation(pointer, snapshot) {
                        Err(error) => Err(error),
                        Ok(_) => Ok(snapshot),
                    },
                },
            },
        }
    }

    /// What the current snapshot file holds.
    pub open spec fn current(self, remote_root: Seq<char>) -> Result<
        Option<SnapshotModel>,
        AppErrorModel,
    > {
        let path = remote::current_path_model(remote_root);
        match (self.failure)(SyncActionModel::Read { path }) {
            Some(error) => Err(error),
            None => match self.file(path) {
                None => Ok(None),
                Some(raw) => match self.decoded(raw, "current"@) {
                    Err(error) => Err(error),
                    Ok(snapshot) => Ok(Some(snapshot)),
                },
            },
        }
    }

    /// What the pointer file holds.
    pub open spec fn head(self, remote_root: Seq<char>) -> Result<
        Option<PointerModel>,
        AppErrorModel,
    > {
        let path = remote::pointer_path_model(remote_root);
        match (self.failure)(SyncActionModel::LoadPointer { path }) {
            Some(error) => Err(error),
            None => match self.file(path) {
                None => Ok(None),
                Some(bytes) => Ok(Some((self.decode_pointer)(bytes))),
            },
        }
    }

    /// The outcome of the check that the head names the expected revision.
    pub open spec fn head_check(
        self,
        remote_root: Seq<char>,
        expected_revision: Option<Seq<char>>,
    ) -> Result<(), AppErrorModel> {
        match self.head(remote_root) {
            Err(error) => Err(error),
            Ok(actual) => if protocol::revision_of(actual) == expected_revision {
                Ok(())
            } else {
                Err(
                    AppErrorModel::CloudSync(
                        CloudSyncErrorModel::ConcurrentUpdate {
                            expected_revision,
                            actual_revision: protocol::revision_of(actual),
                        },
                    ),
                )
            },
        }
    }

    /// The bytes that a snapshot is stored as.
    pub open spec fn sealed(self, snapshot: SnapshotModel) -> Result<Seq<u8>, AppErrorModel> {
        match (self.failure)(SyncActionModel::Encode { snapshot }) {
            Some(error) => Err(error),
            None => {
                let encoded = (self.encode)(snapshot);
                match (self.failure)(SyncActionModel::Encrypt { bytes: encoded }) {
                    Some(error) => Err(error),
                    None => Ok((self.encrypt)(encoded)),
                }
            },
        }
    }

    /// The world after a snapshot was written to `path`, and the outcome.
    pub open spec fn stored(self, path: Seq<char>, snapshot: SnapshotModel) -> (
        World,
        Result<(), AppErrorModel>,
    ) {
        match self.sealed(snapshot) {
            Err(error) => (self, Err(error)),
            Ok(bytes) => match (self.failure)(SyncActionModel::Write { path, bytes }) {
                Some(error) => (self, Err(error)),
                None => (self.with_file(path, bytes), Ok(())),
            },
        }
    }

    /// The world after a snapshot was uploaded, and the outcome.
    pub open spec fn uploaded(self, remote_root: Seq<char>, snapshot: SnapshotModel) -> (
        World,
        Result<(), AppErrorModel>,
    ) {
        self.stored(remote::snapshot_path_model(remote_root, snapshot.revision_id), snapshot)
    }

    /// The world after a pointer was committed, and the outcome.
    pub open spec fn committed(self, remote_root: Seq<char>, pointer: PointerModel) -> (
        World,
        Result<(), AppErrorModel>,
    ) {
        let path = remote::pointer_path_model(remote_root);
        match (self.failure)(SyncActionModel::WritePointer { path, pointer }) {
            Some(error) => (self, Err(error)),
            None => (self.with_file(path, (self.encode_pointer)(pointer)), Ok(())),
        }
    }

    /// The world after a snapshot was uploaded and read back for a pointer, and
    /// the outcome.
    pub open spec fn migrated(
        self,
        remote_root: Seq<char>,
        pointer: PointerModel,
        snapshot: SnapshotModel,
    ) -> (World, Result<(), AppErrorModel>) {
        let (after, outcome) = self.uploaded(remote_root, snapshot);
        match outcome {
            Err(error) => (after, Err(error)),
            Ok(_) => match after.found(remote_root, pointer) {
                Err(error) => (after, Err(error)),
                Ok(_) => (after, Ok(())),
            },
        }
    }

    /// The world after a pointer was resolved, and the resolution.
    pub open spec fn resolved(self, remote_root: Seq<char>, pointer: PointerModel) -> (
        World,
        Result<ResolutionModel, AppErrorModel>,
    ) {
        match self.found(remote_root, pointer) {
            Ok(snapshot) => (self, Ok(ResolutionModel::Current(snapshot))),
            Err(error) => if !migration::is_snapshot_missing(error) {
                (self, Err(error))
            } else {
                match self.current(remote_root) {
                    Err(error) => (self, Err(error)),
                    Ok(None) => (self, Err(protocol::snapshot_missing(pointer.revision_id))),
                    Ok(Some(current)) => if protocol::validation(pointer, current) is Err {
                        (
                            self,
                            Ok(
                                ResolutionModel::Inconsistent {
                                    pointer,
                                    recovery_candidate: current,
                                },
                            ),
                        )
                    } else {
                        let (after, outcome) = self.migrated(remote_root, pointer, current);
                        match outcome {
                            Err(error) => (after, Err(error)),
                            Ok(_) => (after, Ok(ResolutionModel::LegacyMigrated(current))),
                        }
                    },
                }
            },
        }
    }

    /// The world after a recovery, and the snapshot that is the head then.
    pub open spec fn recovered(self, remote_root: Seq<char>) -> (
        World,
        Result<SnapshotModel, AppErrorModel>,
    ) {
        match self.current(remote_root) {
            Err(error) => (self, Err(error)),
            Ok(None) => (
                self,
                Err(
                    AppErrorModel::Config(
                        "No current cloud sync snapshot is available for recovery"@,
                    ),
                ),
            ),
            Ok(Some(snapshot)) => {
                let pointer = protocol::pointer_of(snapshot);
                let (after, outcome) = self.migrated(remote_root, pointer, snapshot);
                match outcome {
                    Err(error) => (after, Err(error)),
                    Ok(_) => {
                        let (last, outcome) = after.committed(remote_root, pointer);
                        match outcome {
                            Err(error) => (last, Err(error)),
                            Ok(_) => (last, Ok(snapshot)),
                        }
                    },
                }
            },
        }
    }
}

/// The world and the outcome after an operation that takes at most `limit`
/// actions has been driven to its end.
pub open spec fn drive<M: SyncProgram>(run: M, world: World, limit: nat) -> Option<
    (World, M::Outcome),
>
    decreases limit,
{
    if limit == 0 {
        None
    } else {
        let (after, reply) = world.perform(run.action());
        match run.step(reply) {
            Progress::Done(outcome) => Some((after, outcome)),
            Progress::Pending(next) => drive(next, after, (limit - 1) as nat),
        }
    }
}

/// A larger limit changes nothing about an operation that has come to its end.
proof fn lemma_drive_limit<M: SyncProgram>(run: M, world: World, limit: nat, larger: nat)
    requires
        limit <= larger,
        drive(run, world, limit) is Some,
    ensures
        drive(run, world, larger) == drive(run, world, limit),
    decreases limit,
{
    let (after, reply) = world.perform(run.action());
    match run.step(reply) {
        Progress::Done(_) => {},
        Progress::Pending(next) => {
            lemma_drive_limit(next, after, (limit - 1) as nat, (larger - 1) as nat);
        },
    }
}

/// A read for a pointer leaves the world as it is and gives what is found there.
pub proof fn theorem_read_snapshot_for_pointer(
    remote_root: Seq<char>,
    pointer: PointerModel,
    world: World,
)
    ensures
        drive(PointerReadModel::Reading { remote_root, pointer }, world, 3) == Some(
            (world, world.found(remote_root, pointer)),
        ),
{
    reveal_with_fuel(drive, 4);
}

/// A read of the current snapshot leaves the world as it is and gives what is
/// found there.
pub proof fn theorem_read_current_sync_snapshot_compat(remote_root: Seq<char>, world: World)
    ensures
        drive(CurrentReadModel::Reading { remote_root }, world, 3) == Some(
            (world, world.current(remote_root)),
        ),
{
    reveal_with_fuel(drive, 4);
}

/// The write of a snapshot to a path.
pub proof fn theorem_store(path: Seq<char>, snapshot: SnapshotModel, world: World)
    ensures
        drive(StoreModel::Encoding { path, snapshot }, world, 3) == Some(
            world.stored(path, snapshot),
        ),
{
    reveal_with_fuel(drive, 4);
}

/// The commit of a pointer.
pub proof fn theorem_commit_sync_pointer(
    remote_root: Seq<char>,
    pointer: PointerModel,
    world: World,
)
    ensures
        drive(CommitModel { remote_root, pointer }, world, 1) == Some(
            world.committed(remote_root, pointer),
        ),
{
    reveal_with_fuel(drive, 2);
}

/// The check of the head leaves the world as it is.
pub proof fn theorem_ensure_remote_head_unchanged(
    remote_root: Seq<char>,
    expected_revision: Option<Seq<char>>,
    world: World,
)
    ensures
        drive(HeadCheckModel { remote_root, expected_revision }, world, 1) == Some(
            (world, world.head_check(remote_root, expected_revision)),
        ),
{
    reveal_with_fuel(drive, 2);
}

// Operations made of others. Each lemma says how driving the whole is driving
// the part and then going on with its outcome.

proof fn lemma_drive_migrate_upload(
    remote_root: Seq<char>,
    pointer: PointerModel,
    store: StoreModel,
    world: World,
    limit: nat,
    more: nat,
)
    requires
        drive(store, world, limit) is Some,
    ensures
        ({
            let (after, outcome) = drive(store, world, limit)->0;
            let whole = drive(
                MigrateModel::Uploading { remote_root, pointer, store },
                world,
                limit + more,
            );
            let rest = drive(
                MigrateModel::Verifying(PointerReadModel::Reading { remote_root, pointer }),
                after,
                more,
            );
            match outcome {
                Err(error) => whole == Some((after, Err::<(), AppErrorModel>(error))),
                Ok(_) => rest is Some ==> whole == rest,
            }
        }),
    decreases limit,
{
    let (after, reply) = world.perform(store.action());
    match store.step(reply) {
        Progress::Done(Err(_)) => {},
        Progress::Done(Ok(_)) => {
            let verify = MigrateModel::Verifying(
                PointerReadModel::Reading { remote_root, pointer },
            );
            if drive(verify, after, more) is Some {
                lemma_drive_limit(verify, after, more, (limit + more - 1) as nat);
            }
        },
        Progress::Pending(next) => {
            lemma_drive_migrate_upload(
                remote_root,
                pointer,
                next,
                after,
                (limit - 1) as nat,
                more,
            );
        },
    }
}

proof fn lemma_drive_migrate_verify(read: PointerReadModel, world: World, limit: nat)
    requires
        drive(read, world, limit) is Some,
    ensures
        ({
            let (after, outcome) = drive(read, world, limit)->0;
            drive(MigrateModel::Verifying(read), world, limit) == Some(
                (
                    after,
                    match outcome {
                        Err(error) => Err::<(), AppErrorModel>(error),
                        Ok(_) => Ok(()),
                    },
                ),
            )
        }),
    decreases limit,
{
    let (after, reply) = world.perform(read.action());
    match read.step(reply) {
        Progress::Done(_) => {},
        Progress::Pending(next) => {
            lemma_drive_migrate_verify(next, after, (limit - 1) as nat);
        },
    }
}

/// The move of a snapshot to the path of its revision.
pub proof fn theorem_migrate_legacy_snapshot(
    remote_root: Seq<char>,
    pointer: PointerModel,
    snapshot: SnapshotModel,
    world: World,
)
    ensures
        drive(migration::migrate_start(remote_root, pointer, snapshot), world, 6) == Some(
            world.migrated(remote_root, pointer, snapshot),
        ),
{
    let path = remote::snapshot_path_model(remote_root, snapshot.revision_id);
    let store = StoreModel::Encoding { path, snapshot };
    theorem_store(path, snapshot, world);
    let after = world.stored(path, snapshot).0;
    theorem_read_snapshot_for_pointer(remote_root, pointer, after);
    lemma_drive_migrate_verify(PointerReadModel::Reading { remote_root, pointer }, after, 3);
    lemma_drive_migrate_upload(remote_root, pointer, store, world, 3, 3);
}

proof fn lemma_drive_resolve_pointer(
    remote_root: Seq<char>,
    pointer: PointerModel,
    read: PointerReadModel,
    world: World,
    limit: nat,
    more: nat,
)
    requires
        drive(read, world, limit) is Some,
    ensures
        ({
            let (after, outcome) = drive(read, world, limit)->0;
            let whole = drive(
                ResolveModel::ReadingPointer { remote_root, pointer, read },
                world,
                limit + more,
            );
            let rest = drive(
                ResolveModel::ReadingCurrent {
                    remote_root,
                    pointer,
                    read: CurrentReadModel::Reading { remote_root },
                },
                after,
                more,
            );
            match outcome {
                Ok(snapshot) => whole == Some(
                    (after, Ok::<_, AppErrorModel>(ResolutionModel::Current(snapshot))),
                ),
                Err(error) => if migration::is_snapshot_missing(error) {
                    rest is Some ==> whole == rest
                } else {
                    whole == Some((after, Err::<ResolutionModel, _>(error)))
                },
            }
        }),
    decreases limit,
{
    let (after, reply) = world.perform(read.action());
    match read.step(reply) {
        Progress::Done(Err(error)) => {
            let rest = ResolveModel::ReadingCurrent {
                remote_root,
                pointer,
                read: CurrentReadModel::Reading { remote_root },
            };
            if drive(rest, after, more) is Some {
                lemma_drive_limit(rest, after, more, (limit + more - 1) as nat);
            }
        },
        Progress::Done(Ok(_)) => {},
        Progress::Pending(next) => {
            lemma_drive_resolve_pointer(
                remote_root,
                pointer,
                next,
                after,
                (limit - 1) as nat,
                more,
            );
        },
    }
}

proof fn lemma_drive_resolve_migrate(
    current: SnapshotModel,
    migrate: MigrateModel,
    world: World,
    limit: nat,
)
    requires
        drive(migrate, world, limit) is Some,
    ensures
        ({
            let (after, outcome) = drive(migrate, world, limit)->0;
            drive(ResolveModel::Migrating { current, migrate }, world, limit) == Some(
                (
                    after,
                    match outcome {
                        Err(error) => Err::<ResolutionModel, AppErrorModel>(error),
                        Ok(_) => Ok(ResolutionModel::LegacyMigrated(current)),
                    },
                ),
            )
        }),
    decreases limit,
{
    let (after, reply) = world.perform(migrate.action());
    match migrate.step(reply) {
        Progress::Done(_) => {},
        Progress::Pending(next) => {
            lemma_drive_resolve_migrate(current, next, after, (limit - 1) as nat);
        },
    }
}

proof fn lemma_drive_resolve_current(
    remote_root: Seq<char>,
    pointer: PointerModel,
    read: CurrentReadModel,
    world: World,
    limit: nat,
    more: nat,
)
    requires
        drive(read, world, limit) is Some,
    ensures
        ({
            let (after, outcome) = drive(read, world, limit)->0;
            let whole = drive(
                ResolveModel::ReadingCurrent { remote_root, pointer, read },
                world,
                limit + more,
            );
            match outcome {
                Err(error) => whole == Some((after, Err::<ResolutionModel, _>(error))),
                Ok(None) => whole == Some(
                    (
                        after,
                        Err::<ResolutionModel, _>(
                            protocol::snapshot_missing(pointer.revision_id),
                        ),
                    ),
                ),
                Ok(Some(current)) => if protocol::validation(pointer, current) is Err {
                    whole == Some(
                        (
                            after,
                            Ok::<_, AppErrorModel>(
                                ResolutionModel::Inconsistent {
                                    pointer,
                                    recovery_candidate: current,
                                },
                            ),
                        ),
                    )
                } else {
                    let rest = drive(
                        ResolveModel::Migrating {
                            current,
                            migrate: migration::migrate_start(remote_root, pointer, current),
                        },
                        after,
                        more,
                    );
                    rest is Some ==> whole == rest
                },
            }
        }),
    decreases limit,
{
    let (after, reply) = world.perform(read.action());
    match read.step(reply) {
        Progress::Done(Ok(Some(current))) => {
            let rest = ResolveModel::Migrating {
                current,
                migrate: migration::migrate_start(remote_root, pointer, current),
            };
            if drive(rest, after, more) is Some {
                lemma_drive_limit(rest, after, more, (limit + more - 1) as nat);
            }
        },
        Progress::Done(_) => {},
        Progress::Pending(next) => {
            lemma_drive_resolve_current(
                remote_root,
                pointer,
                next,
                after,
                (limit - 1) as nat,
                more,
            );
        },
    }
}

/// The resolution of a pointer.
pub proof fn theorem_resolve_remote_snapshot(
    remote_root: Seq<char>,
    pointer: PointerModel,
    world: World,
)
    ensures
        drive(migration::resolve_start(remote_root, pointer), world, 12) == Some(
            world.resolved(remote_root, pointer),
        ),
{
    theorem_read_snapshot_for_pointer(remote_root, pointer, world);
    theorem_read_current_sync_snapshot_compat(remote_root, world);
    if let Ok(Some(current)) = world.current(remote_root) {
        theorem_migrate_legacy_snapshot(remote_root, pointer, current, world);
        lemma_drive_resolve_migrate(
            current,
            migration::migrate_start(remote_root, pointer, current),
            world,
            6,
        );
    }
    lemma_drive_resolve_current(
        remote_root,
        pointer,
        CurrentReadModel::Reading { remote_root },
        world,
        3,
        6,
    );
    lemma_drive_resolve_pointer(
        remote_root,
        pointer,
        PointerReadModel::Reading { remote_root, pointer },
        world,
        3,
        9,
    );
}

proof fn lemma_drive_recover_current(
    remote_root: Seq<char>,
    read: CurrentReadModel,
    world: World,
    limit: nat,
    more: nat,
)
    requires
        drive(read, world, limit) is Some,
    ensures
        ({
            let (after, outcome) = drive(read, world, limit)->0;
            let whole = drive(
                RecoverModel::ReadingCurrent { remote_root, read },
                world,
                limit + more,
            );
            match outcome {
                Err(error) => whole == Some((after, Err::<SnapshotModel, _>(error))),
                Ok(None) => whole == Some(
                    (
                        after,
                        Err::<SnapshotModel, _>(
                            AppErrorModel::Config(
                                "No current cloud sync snapshot is available for recovery"@,
                            ),
                        ),
                    ),
                ),
                Ok(Some(snapshot)) => {
                    let rest = drive(
                        RecoverModel::Uploading {
                            remote_root,
                            snapshot,
                            store: StoreModel::Encoding {
                                path: remote::snapshot_path_model(
                                    remote_root,
                                    snapshot.revision_id,
                                ),
                                snapshot,
                            },
                        },
                        after,
                        more,
                    );
                    rest is Some ==> whole == rest
                },
            }
        }),
    decreases limit,
{
    let (after, reply) = world.perform(read.action());
    match read.step(reply) {
        Progress::Done(Ok(Some(snapshot))) => {
            let rest = RecoverModel::Uploading {
                remote_root,
                snapshot,
                store: StoreModel::Encoding {
                    path: remote::snapshot_path_model(remote_root, snapshot.revision_id),
                    snapshot,
                },
            };
            if drive(rest, after, more) is Some {
                lemma_drive_limit(rest, after, more, (limit + more - 1) as nat);
            }
        },
        Progress::Done(_) => {},
        Progress::Pending(next) => {
            lemma_drive_recover_current(remote_root, next, after, (limit - 1) as nat, more);
        },
    }
}

proof fn lemma_drive_recover_upload(
    remote_root: Seq<char>,
    snapshot: SnapshotModel,
    store: StoreModel,
    world: World,
    limit: nat,
    more: nat,
)
    requires
        drive(store, world, limit) is Some,
    ensures
        ({
            let (after, outcome) = drive(store, world, limit)->0;
            let whole = drive(
                RecoverModel::Uploading { remote_root, snapshot, store },
                world,
                limit + more,
            );
            let rest = drive(
                RecoverModel::Verifying {
                    remote_root,
                    snapshot,
                    read: PointerReadModel::Reading {
                        remote_root,
                        pointer: protocol::pointer_of(snapshot),
                    },
                },
                after,
                more,
            );
            match outcome {
                Err(error) => whole == Some((after, Err::<SnapshotModel, _>(error))),
                Ok(_) => rest is Some ==> whole == rest,
            }
        }),
    decreases limit,
{
    let (after, reply) = world.perform(store.action());
    match store.step(reply) {
        Progress::Done(Ok(_)) => {
            let rest = RecoverModel::Verifying {
                remote_root,
                snapshot,
                read: PointerReadModel::Reading {
                    remote_root,
                    pointer: protocol::pointer_of(snapshot),
                },
            };
            if drive(rest, after, more) is Some {
                lemma_drive_limit(rest, after, more, (limit + more - 1) as nat);
            }
        },
        Progress::Done(_) => {},
        Progress::Pending(next) => {
            lemma_drive_recover_upload(
                remote_root,
                snapshot,
                next,
                after,
                (limit - 1) as nat,
                more,
            );
        },
    }
}

proof fn lemma_drive_recover_verify(
    remote_root: Seq<char>,
    snapshot: SnapshotModel,
    read: PointerReadModel,
    world: World,
    limit: nat,
)
    requires
        drive(read, world, limit) is Some,
    ensures
        ({
            let (after, outcome) = drive(read, world, limit)->0;
            let (last, commit) = after.committed(remote_root, protocol::pointer_of(snapshot));
            drive(RecoverModel::Verifying { remote_root, snapshot, read }, world, limit + 1)
                == Some(
                match outcome {
                    Err(error) => (after, Err::<SnapshotModel, AppErrorModel>(error)),
                    Ok(_) => match commit {
                        Err(error) => (last, Err(error)),
                        Ok(_) => (last, Ok(snapshot)),
                    },
                },
            )
        }),
    decreases limit,
{
    let (after, reply) = world.perform(read.action());
    match read.step(reply) {
        Progress::Done(Ok(_)) => {
            let rest = RecoverModel::Committing {
                snapshot,
                commit: CommitModel { remote_root, pointer: protocol::pointer_of(snapshot) },
            };
            assert(drive(rest, after, 1) is Some) by {
                reveal_with_fuel(drive, 2);
            }
            lemma_drive_limit(rest, after, 1, limit);
            reveal_with_fuel(drive, 2);
        },
        Progress::Done(Err(_)) => {},
        Progress::Pending(next) => {
            lemma_drive_recover_verify(remote_root, snapshot, next, after, (limit - 1) as nat);
        },
    }
}

/// The recovery from the current snapshot.
pub proof fn theorem_recover_current_remote_snapshot(remote_root: Seq<char>, world: World)
    ensures
        drive(migration::recover_start(remote_root), world, 10) == Some(
            world.recovered(remote_root),
        ),
{
    theorem_read_current_sync_snapshot_compat(remote_root, world);
    if let Ok(Some(snapshot)) = world.current(remote_root) {
        let path = remote::snapshot_path_model(remote_root, snapshot.revision_id);
        let pointer = protocol::pointer_of(snapshot);
        let after = world.stored(path, snapshot).0;
        theorem_store(path, snapshot, world);
        theorem_read_snapshot_for_pointer(remote_root, pointer, after);
        lemma_drive_recover_verify(
            remote_root,
            snapshot,
            PointerReadModel::Reading { remote_root, pointer },
            after,
            3,
        );
        lemma_drive_recover_upload(
            remote_root,
            snapshot,
            StoreModel::Encoding { path, snapshot },
            world,
            3,
            4,
        );
    }
    lemma_drive_recover_current(
        remote_root,
        CurrentReadModel::Reading { remote_root },
        world,
        3,
        7,
    );
}

// Laws.

/// A snapshot agrees with the pointer made from it.
pub proof fn law_pointer_agrees_with_its_snapshot(snapshot: SnapshotModel)
    ensures
        protocol::validation(protocol::pointer_of(snapshot), snapshot) is Ok,
{
}

/// A snapshot agrees with a pointer exactly if revision and payload hash are the
/// same.
pub proof fn law_validation_is_agreement(pointer: PointerModel, snapshot: SnapshotModel)
    ensures
        protocol::validation(pointer, snapshot) is Ok <==> snapshot.revision_id
            == pointer.revision_id && snapshot.payload_hash == pointer.payload_hash,
{
}

/// Whatever fails while a snapshot is decrypted or decoded, the error that is
/// reported is a cloud sync error.
pub proof fn law_decoding_fails_with_cloud_sync_error(
    world: World,
    raw: Seq<u8>,
    revision: Seq<char>,
)
    ensures
        world.decoded(raw, revision) matches Err(error) ==> error is CloudSync,
{
}

/// What was uploaded is read back, if the snapshot can be written and read.
/// `later` is what fails when it is read.
pub proof fn law_upload_then_read(
    world: World,
    later: spec_fn(SyncActionModel) -> Option<AppErrorModel>,
    remote_root: Seq<char>,
    snapshot: SnapshotModel,
)
    requires
        world.can_store(
            remote::snapshot_path_model(remote_root, snapshot.revision_id),
            snapshot,
        ),
        world.failing(later).can_load(
            remote::snapshot_path_model(remote_root, snapshot.revision_id),
            snapshot,
        ),
    ensures
        world.uploaded(remote_root, snapshot).1 is Ok,
        world.uploaded(remote_root, snapshot).0.failing(later).found(
            remote_root,
            protocol::pointer_of(snapshot),
        ) == Ok::<_, AppErrorModel>(snapshot),
{
}

/// What was written to the current snapshot file is read back, if the snapshot
/// can be written and read. `later` is what fails when it is read.
pub proof fn law_write_current_then_read(
    world: World,
    later: spec_fn(SyncActionModel) -> Option<AppErrorModel>,
    remote_root: Seq<char>,
    snapshot: SnapshotModel,
)
    requires
        world.can_store(remote::current_path_model(remote_root), snapshot),
        world.failing(later).can_load(remote::current_path_model(remote_root), snapshot),
    ensures
        world.stored(remote::current_path_model(remote_root), snapshot).1 is Ok,
        world.stored(remote::current_path_model(remote_root), snapshot).0.failing(later).current(
            remote_root,
        ) == Ok::<_, AppErrorModel>(Some(snapshot)),
{
}

/// An upload writes no file but the snapshot file of its revision.
pub proof fn law_upload_writes_one_file(
    world: World,
    remote_root: Seq<char>,
    snapshot: SnapshotModel,
    path: Seq<char>,
)
    requires
        path != remote::snapshot_path_model(remote_root, snapshot.revision_id),
    ensures
        world.uploaded(remote_root, snapshot).0.file(path) == world.file(path),
{
}

/// An upload, whether it succeeds or fails, leaves the head and the current
/// snapshot as they are.
pub proof fn law_upload_keeps_head(
    world: World,
    remote_root: Seq<char>,
    snapshot: SnapshotModel,
)
    ensures
        world.uploaded(remote_root, snapshot).0.head(remote_root) == world.head(remote_root),
        world.uploaded(remote_root, snapshot).0.current(remote_root) == world.current(
            remote_root,
        ),
{
    remote::lemma_special_paths_distinct(remote_root, snapshot.revision_id);
}

/// An upload that fails leaves the world as it is.
pub proof fn law_failed_upload_changes_nothing(
    world: World,
    remote_root: Seq<char>,
    snapshot: SnapshotModel,
)
    requires
        world.uploaded(remote_root, snapshot).1 is Err,
    ensures
        world.uploaded(remote_root, snapshot).0 == world,
{
}

/// The upload of one revision does not change what a read for another revision
/// finds.
pub proof fn law_upload_keeps_other_revisions(
    world: World,
    remote_root: Seq<char>,
    snapshot: SnapshotModel,
    pointer: PointerModel,
)
    requires
        pointer.revision_id != snapshot.revision_id,
    ensures
        world.uploaded(remote_root, snapshot).0.found(remote_root, pointer) == world.found(
            remote_root,
            pointer,
        ),
{
    remote::lemma_snapshot_paths_distinct(
        remote_root,
        pointer.revision_id,
        snapshot.revision_id,
    );
}

/// A commit, whether it succeeds or fails, changes no snapshot.
pub proof fn law_commit_keeps_snapshots(
    world: World,
    remote_root: Seq<char>,
    committed: PointerModel,
    pointer: PointerModel,
)
    ensures
        world.committed(remote_root, committed).0.found(remote_root, pointer) == world.found(
            remote_root,
            pointer,
        ),
        world.committed(remote_root, committed).0.current(remote_root) == world.current(
            remote_root,
        ),
{
    remote::lemma_special_paths_distinct(remote_root, pointer.revision_id);
}

/// A commit that fails leaves the world as it is.
pub proof fn law_failed_commit_changes_nothing(
    world: World,
    remote_root: Seq<char>,
    pointer: PointerModel,
)
    requires
        world.committed(remote_root, pointer).1 is Err,
    ensures
        world.committed(remote_root, pointer).0 == world,
{
}

/// After a commit that succeeds, the committed pointer is the head, as it is read
/// from the pointer file. The check of the head then succeeds for its revision
/// and reports a concurrent update to everyone who started from another one.
/// `later` is what fails when the head is read.
pub proof fn law_commit_then_head(
    world: World,
    later: spec_fn(SyncActionModel) -> Option<AppErrorModel>,
    remote_root: Seq<char>,
    pointer: PointerModel,
    expected_revision: Option<Seq<char>>,
)
    requires
        world.succeeds(
            SyncActionModel::WritePointer {
                path: remote::pointer_path_model(remote_root),
                pointer,
            },
        ),
        world.failing(later).succeeds(
            SyncActionModel::LoadPointer { path: remote::pointer_path_model(remote_root) },
        ),
    ensures
        world.committed(remote_root, pointer).1 is Ok,
        world.committed(remote_root, pointer).0.failing(later).head(remote_root) == Ok::<
            _,
            AppErrorModel,
        >(Some(world.reread(pointer))),
        world.reread(pointer).revision_id == pointer.revision_id ==> world.committed(
            remote_root,
            pointer,
        ).0.failing(later).head_check(remote_root, expected_revision) == if expected_revision
            == Some(pointer.revision_id) {
            Ok::<(), AppErrorModel>(())
        } else {
            Err(
                AppErrorModel::CloudSync(
                    CloudSyncErrorModel::ConcurrentUpdate {
                        expected_revision,
                        actual_revision: Some(pointer.revision_id),
                    },
                ),
            )
        },
{
}

/// An update uploads a snapshot and then commits its pointer. Wherever it fails,
/// the head is where it was, and whether it fails or not, every other revision can
/// be read as before. `later` is what fails from the commit on.
pub proof fn law_update_keeps_old_revisions(
    world: World,
    later: spec_fn(SyncActionModel) -> Option<AppErrorModel>,
    remote_root: Seq<char>,
    snapshot: SnapshotModel,
    pointer: PointerModel,
)
    requires
        pointer.revision_id != snapshot.revision_id,
    ensures
        ({
            let uploaded = world.uploaded(remote_root, snapshot).0.failing(later);
            let (updated, outcome) = uploaded.committed(
                remote_root,
                protocol::pointer_of(snapshot),
            );
            let before = world.failing(later);
            &&& uploaded.head(remote_root) == before.head(remote_root)
            &&& outcome is Err ==> updated.head(remote_root) == before.head(remote_root)
            &&& uploaded.found(remote_root, pointer) == before.found(remote_root, pointer)
            &&& updated.found(remote_root, pointer) == before.found(remote_root, pointer)
        }),
{
    let uploaded = world.uploaded(remote_root, snapshot).0.failing(later);
    remote::lemma_special_paths_distinct(remote_root, snapshot.revision_id);
    remote::lemma_special_paths_distinct(remote_root, pointer.revision_id);
    remote::lemma_snapshot_paths_distinct(
        remote_root,
        pointer.revision_id,
        snapshot.revision_id,
    );
    law_commit_keeps_snapshots(uploaded, remote_root, protocol::pointer_of(snapshot), pointer);
}

/// A resolution gives out a snapshot as the head's only if the pointer agrees
/// with it, and calls the remote inconsistent only if the pointer does not agree
/// with the current snapshot.
pub proof fn law_resolution_agrees_with_pointer(
    world: World,
    remote_root: Seq<char>,
    pointer: PointerModel,
)
    ensures
        match world.resolved(remote_root, pointer).1 {
            Ok(ResolutionModel::Current(snapshot)) => protocol::validation(
                pointer,
                snapshot,
            ) is Ok,
            Ok(ResolutionModel::LegacyMigrated(snapshot)) => protocol::validation(
                pointer,
                snapshot,
            ) is Ok,
            Ok(ResolutionModel::Inconsistent { pointer: reported, recovery_candidate }) => reported
                == pointer && protocol::validation(pointer, recovery_candidate) is Err,
            Err(_) => true,
        },
{
}

/// A resolution never moves the head nor touches the current snapshot.
pub proof fn law_resolution_keeps_head(
    world: World,
    remote_root: Seq<char>,
    pointer: PointerModel,
)
    ensures
        world.resolved(remote_root, pointer).0.head(remote_root) == world.head(remote_root),
        world.resolved(remote_root, pointer).0.current(remote_root) == world.current(remote_root),
{
    if let Ok(Some(current)) = world.current(remote_root) {
        law_upload_keeps_head(world, remote_root, current);
    }
}

/// A resolution changes the world only by moving the current snapshot to the
/// path of the pointer's revision.
pub proof fn law_resolution_changes_only_by_migration(
    world: World,
    remote_root: Seq<char>,
    pointer: PointerModel,
    path: Seq<char>,
)
    requires
        path != remote::snapshot_path_model(remote_root, pointer.revision_id),
    ensures
        world.resolved(remote_root, pointer).0.file(path) == world.file(path),
        world.resolved(remote_root, pointer).1 matches Ok(resolution) && !(
        resolution is LegacyMigrated) ==> world.resolved(remote_root, pointer).0 == world,
{
    if let Ok(Some(current)) = world.current(remote_root) {
        if protocol::validation(pointer, current) is Ok {
            law_upload_writes_one_file(world, remote_root, current, path);
        }
    }
}

/// A snapshot that was moved is found at the path of its revision from then on:
/// the next resolution takes it from there.
pub proof fn law_migration_happens_once(
    world: World,
    remote_root: Seq<char>,
    pointer: PointerModel,
)
    requires
        world.resolved(remote_root, pointer).1 matches Ok(ResolutionModel::LegacyMigrated(_)),
    ensures
        world.resolved(remote_root, pointer).0.resolved(remote_root, pointer).1 matches Ok(
            ResolutionModel::Current(_),
        ),
{
}

/// A head whose snapshot lies only in the current snapshot file is migrated, if
/// the snapshot can be written to the path of its revision and read from there,
/// and the next resolution gives the same snapshot.
pub proof fn law_legacy_snapshot_is_migrated(
    world: World,
    remote_root: Seq<char>,
    pointer: PointerModel,
    snapshot: SnapshotModel,
)
    requires
        world.file(remote::snapshot_path_model(remote_root, pointer.revision_id)) is None,
        world.can_store(
            remote::snapshot_path_model(remote_root, pointer.revision_id),
            snapshot,
        ),
        world.can_load(
            remote::snapshot_path_model(remote_root, pointer.revision_id),
            snapshot,
        ),
        world.current(remote_root) == Ok::<_, AppErrorModel>(Some(snapshot)),
        protocol::validation(pointer, snapshot) is Ok,
    ensures
        world.resolved(remote_root, pointer).1 == Ok::<_, AppErrorModel>(
            ResolutionModel::LegacyMigrated(snapshot),
        ),
        world.resolved(remote_root, pointer).0.resolved(remote_root, pointer).1 == Ok::<
            _,
            AppErrorModel,
        >(ResolutionModel::Current(snapshot)),
{
}

/// A recovery makes the current snapshot the head, if the snapshot can be written
/// to the path of its revision and read from there, and its pointer can be
/// written. The head then resolves to the snapshot, and is read as the pointer
/// file gives it.
pub proof fn law_recovery_makes_current_the_head(
    world: World,
    remote_root: Seq<char>,
    snapshot: SnapshotModel,
)
    requires
        world.current(remote_root) == Ok::<_, AppErrorModel>(Some(snapshot)),
        world.can_store(
            remote::snapshot_path_model(remote_root, snapshot.revision_id),
            snapshot,
        ),
        world.can_load(
            remote::snapshot_path_model(remote_root, snapshot.revision_id),
            snapshot,
        ),
        world.succeeds(
            SyncActionModel::WritePointer {
                path: remote::pointer_path_model(remote_root),
                pointer: protocol::pointer_of(snapshot),
            },
        ),
    ensures
        world.recovered(remote_root).1 == Ok::<_, AppErrorModel>(snapshot),
        world.succeeds(
            SyncActionModel::LoadPointer { path: remote::pointer_path_model(remote_root) },
        ) ==> world.recovered(remote_root).0.head(remote_root) == Ok::<_, AppErrorModel>(
            Some(world.reread(protocol::pointer_of(snapshot))),
        ),
        world.recovered(remote_root).0.resolved(remote_root, protocol::pointer_of(snapshot)).1
            == Ok::<_, AppErrorModel>(ResolutionModel::Current(snapshot)),
{
    let pointer = protocol::pointer_of(snapshot);
    law_upload_then_read(world, world.failure, remote_root, snapshot);
    let after = world.uploaded(remote_root, snapshot).0;
    assert(after.failing(world.failure) == after);
    law_commit_keeps_snapshots(after, remote_root, pointer, pointer);
}

/// A recovery moves the head only to a snapshot that can be read for it, and
/// leaves the head where it is if it fails.
pub proof fn law_recovery_commits_last(world: World, remote_root: Seq<char>)
    ensures
        match world.recovered(remote_root).1 {
            Ok(snapshot) => world.recovered(remote_root).0.found(
                remote_root,
                protocol::pointer_of(snapshot),
            ) is Ok,
            Err(_) => world.recovered(remote_root).0.head(remote_root) == world.head(remote_root),
        },
{
    if let Ok(Some(snapshot)) = world.current(remote_root) {
        let pointer = protocol::pointer_of(snapshot);
        law_upload_keeps_head(world, remote_root, snapshot);
        let after = world.uploaded(remote_root, snapshot).0;
        law_commit_keeps_snapshots(after, remote_root, pointer, pointer);
    }
}

// Laws of the runs themselves, whatever the driver replies.

/// The path that a write of a snapshot goes to.
pub open spec fn store_path(run: StoreModel) -> Seq<char> {
    match run {
        StoreModel::Encoding { path, .. } => path,
        StoreModel::Encrypting { path, .. } => path,
        StoreModel::Writing { path, .. } => path,
    }
}

/// Whatever is replied, the write of a snapshot writes to its path or not at
/// all, and never commits.
pub proof fn law_store_writes_only_its_path(run: StoreModel, reply: SyncReplyModel)
    ensures
        run.action() matches SyncActionModel::Write { path, .. } ==> path == store_path(run),
        !(run.action() is WritePointer),
        run.step(reply) matches Progress::Pending(next) ==> store_path(next) == store_path(run),
{
}

/// The pointer that a snapshot is read for.
pub open spec fn read_pointer(run: PointerReadModel) -> PointerModel {
    match run {
        PointerReadModel::Reading { pointer, .. } => pointer,
        PointerReadModel::Decoding { pointer, .. } => pointer,
    }
}

/// Whatever is replied, a read for a pointer gives no snapshot that the pointer
/// does not agree with, and writes nothing.
pub proof fn law_read_agrees_with_pointer(run: PointerReadModel, reply: SyncReplyModel)
    ensures
        !(run.action() is Write) && !(run.action() is WritePointer),
        match run.step(reply) {
            Progress::Pending(next) => read_pointer(next) == read_pointer(run),
            Progress::Done(Ok(snapshot)) => protocol::validation(
                read_pointer(run),
                snapshot,
            ) is Ok,
            Progress::Done(Err(_)) => true,
        },
{
}

/// Whether a run is a resolution of `pointer` below `remote_root`.
pub open spec fn resolves(run: ResolveModel, remote_root: Seq<char>, pointer: PointerModel) -> bool {
    match run {
        ResolveModel::ReadingPointer { remote_root: root, pointer: named, read } => root
            == remote_root && named == pointer && read_pointer(read) == pointer,
        ResolveModel::ReadingCurrent { remote_root: root, pointer: named, .. } => root
            == remote_root && named == pointer,
        ResolveModel::Migrating { current, migrate } => protocol::validation(pointer, current) is Ok
            && match migrate {
            MigrateModel::Uploading { remote_root: root, pointer: named, store } => root
                == remote_root && named == pointer && store_path(store)
                == remote::snapshot_path_model(remote_root, pointer.revision_id),
            MigrateModel::Verifying(read) => read_pointer(read) == pointer,
        },
    }
}

/// Whatever is replied, a resolution never commits, writes nothing but the
/// snapshot file of the pointer's revision, gives out a snapshot as the head's
/// only if the pointer agrees with it, and calls the remote inconsistent only
/// with a snapshot that the pointer does not agree with.
pub proof fn law_resolution_is_safe(
    run: ResolveModel,
    remote_root: Seq<char>,
    pointer: PointerModel,
    reply: SyncReplyModel,
)
    ensures
        resolves(migration::resolve_start(remote_root, pointer), remote_root, pointer),
        !(run.action() is WritePointer),
        resolves(run, remote_root, pointer) ==> (run.action() matches SyncActionModel::Write {
            path,
            ..
        } ==> path == remote::snapshot_path_model(remote_root, pointer.revision_id)),
        resolves(run, remote_root, pointer) ==> match run.step(reply) {
            Progress::Pending(next) => resolves(next, remote_root, pointer),
            Progress::Done(Ok(ResolutionModel::Current(snapshot))) => protocol::validation(
                pointer,
                snapshot,
            ) is Ok,
            Progress::Done(Ok(ResolutionModel::LegacyMigrated(snapshot))) => protocol::validation(
                pointer,
                snapshot,
            ) is Ok,
            Progress::Done(Ok(ResolutionModel::Inconsistent { pointer: named, recovery_candidate })) =>
                named == pointer && protocol::validation(pointer, recovery_candidate) is Err,
            Progress::Done(Err(_)) => true,
        },
{
}

/// Whether a run is a recovery below `remote_root`.
pub open spec fn recovers(run: RecoverModel, remote_root: Seq<char>) -> bool {
    match run {
        RecoverModel::ReadingCurrent { remote_root: root, .. } => root == remote_root,
        RecoverModel::Uploading { remote_root: root, snapshot, store } => root == remote_root
            && store_path(store) == remote::snapshot_path_model(remote_root, snapshot.revision_id),
        RecoverModel::Verifying { remote_root: root, snapshot, read } => root == remote_root
            && read_pointer(read) == protocol::pointer_of(snapshot),
        RecoverModel::Committing { snapshot, commit } => commit == (CommitModel {
            remote_root,
            pointer: protocol::pointer_of(snapshot),
        }),
    }
}

/// Whatever is replied, a recovery comes to its commit only by a read that gave
/// back a snapshot that the committed pointer agrees with. It commits the pointer
/// of the snapshot that it gives out, and writes nothing else but that snapshot's
/// file.
pub proof fn law_recovery_is_safe(run: RecoverModel, remote_root: Seq<char>, reply: SyncReplyModel)
    ensures
        recovers(migration::recover_start(remote_root), remote_root),
        recovers(run, remote_root) ==> (run.action() matches SyncActionModel::Write { path, .. } ==> (
        run matches RecoverModel::Uploading { snapshot, .. } && path
            == remote::snapshot_path_model(remote_root, snapshot.revision_id))),
        recovers(run, remote_root) ==> (run.action() matches SyncActionModel::WritePointer {
            path,
            pointer,
        } ==> (run matches RecoverModel::Committing { snapshot, .. } && path
            == remote::pointer_path_model(remote_root) && pointer == protocol::pointer_of(
            snapshot,
        ))),
        recovers(run, remote_root) ==> match run.step(reply) {
            Progress::Pending(next) => recovers(next, remote_root) && (next is Committing && !(
            run is Committing) ==> (run matches RecoverModel::Verifying { read, .. } && read.step(
                reply,
            ) matches Progress::Done(Ok(_)))),
            Progress::Done(Ok(snapshot)) => run matches RecoverModel::Committing {
                snapshot: committed,
                ..
            } && snapshot == committed,
            Progress::Done(Err(_)) => true,
        },
{
}

} // verus!
