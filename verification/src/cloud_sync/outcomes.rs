//! What each sync operation does, reply by reply and from start to outcome.
//!
//! The first laws hold whatever is replied. They say, for each action that an
//! operation waits for and each reply to it, what the operation does next and
//! what it ends with. The second laws say what an operation leaves on a remote
//! store and what its outcome is, in terms of the files, of what fails, and of
//! the outcomes of the operations that it is made of.

use crate::cloud_sync::laws;
use crate::cloud_sync::laws::World;
use crate::cloud_sync::migration;
use crate::cloud_sync::migration::{
    MigrateModel, RecoverModel, RemoteSnapshotResolution, ResolutionModel, ResolveModel,
};
use crate::cloud_sync::protocol;
use crate::cloud_sync::protocol::{
    CommitModel, CurrentReadModel, CurrentReadRun, DecodeModel, HeadCheckModel, PointerReadModel,
    StoreModel, SyncAction, SyncActionModel, SyncProgram, SyncReply, SyncReplyModel,
};
use crate::cloud_sync::remote;
use crate::cloud_sync::snapshot::{PointerModel, PortableSnapshot, SnapshotModel};
use crate::error::{AppErrorModel, AppResult, CloudSyncErrorModel};
use crate::progress::Progress;
use vstd::prelude::*;

verus! {

// Values.

/// The value of an action says what is to be done, and with what.
pub proof fn law_action_is_its_value<'a>(action: SyncAction<'a>)
    ensures
        match action {
            SyncAction::Read { path } => action@ matches SyncActionModel::Read { path: value }
                && value == path@,
            SyncAction::Write { path, bytes } => action@ matches SyncActionModel::Write {
                path: to,
                bytes: content,
            } && to == path@ && content == bytes@,
            SyncAction::Encode { snapshot } => action@ matches SyncActionModel::Encode {
                snapshot: value,
            } && value == snapshot@,
            SyncAction::Encrypt { bytes } => action@ matches SyncActionModel::Encrypt {
                bytes: value,
            } && value == bytes@,
            SyncAction::Decrypt { bytes } => action@ matches SyncActionModel::Decrypt {
                bytes: value,
            } && value == bytes@,
            SyncAction::Decode { bytes } => action@ matches SyncActionModel::Decode { bytes: value }
                && value == bytes@,
            SyncAction::LoadPointer { path } => action@ matches SyncActionModel::LoadPointer {
                path: value,
            } && value == path@,
            SyncAction::WritePointer { path, pointer } => action@ matches
                SyncActionModel::WritePointer { path: to, pointer: value } && to == path@ && value
                == pointer@,
        },
{
}

/// The value of a reply says what was replied.
pub proof fn law_reply_is_its_value(reply: SyncReply)
    ensures
        match reply {
            SyncReply::Failed(error) => reply@ matches SyncReplyModel::Failed(value) && value
                == error@,
            SyncReply::File(Some(bytes)) => reply@ matches SyncReplyModel::File(Some(value))
                && value == bytes@,
            SyncReply::File(None) => reply@ matches SyncReplyModel::File(None),
            SyncReply::Bytes(bytes) => reply@ matches SyncReplyModel::Bytes(value) && value
                == bytes@,
            SyncReply::Snapshot(snapshot) => reply@ matches SyncReplyModel::Snapshot(value) && value
                == snapshot@,
            SyncReply::Pointer(Some(pointer)) => reply@ matches SyncReplyModel::Pointer(Some(value))
                && value == pointer@,
            SyncReply::Pointer(None) => reply@ matches SyncReplyModel::Pointer(None),
            SyncReply::Written => reply@ is Written,
        },
{
}

/// The value of a resolution says which it is, and of what.
pub proof fn law_resolution_is_its_value(resolution: RemoteSnapshotResolution)
    ensures
        match resolution {
            RemoteSnapshotResolution::Current(snapshot) => resolution@ matches
                ResolutionModel::Current(value) && value == snapshot@,
            RemoteSnapshotResolution::LegacyMigrated(snapshot) => resolution@ matches
                ResolutionModel::LegacyMigrated(value) && value == snapshot@,
            RemoteSnapshotResolution::Inconsistent { pointer, recovery_candidate } => resolution@
                matches ResolutionModel::Inconsistent {
                pointer: named,
                recovery_candidate: candidate,
            } && named == pointer@ && candidate == recovery_candidate@,
        },
{
}

/// The value of a read of the current snapshot says whether it goes on, and
/// whether there is a snapshot.
pub proof fn law_current_read_is_its_value(
    progress: Progress<CurrentReadRun, AppResult<Option<PortableSnapshot>>>,
)
    ensures
        match progress {
            Progress::Pending(run) => protocol::current_read_progress(progress) matches
                Progress::Pending(value) && value == run@,
            Progress::Done(Ok(Some(snapshot))) => protocol::current_read_progress(progress) matches
                Progress::Done(Ok(Some(value))) && value == snapshot@,
            Progress::Done(Ok(None)) => protocol::current_read_progress(progress) matches
                Progress::Done(Ok(None)),
            Progress::Done(Err(error)) => protocol::current_read_progress(progress) matches
                Progress::Done(Err(value)) && value == error@,
        },
{
}

/// A pointer says of its snapshot which revision it is, when, where and by which
/// version it was made, and what its payload is.
pub proof fn law_pointer_identifies_its_snapshot(snapshot: SnapshotModel)
    ensures
        protocol::pointer_of(snapshot).schema_version == remote::REMOTE_SYNC_POINTER_SCHEMA_VERSION,
        protocol::pointer_of(snapshot).revision_id == snapshot.revision_id,
        protocol::pointer_of(snapshot).created_at_ms == snapshot.created_at_ms,
        protocol::pointer_of(snapshot).payload_hash == snapshot.payload_hash,
        protocol::pointer_of(snapshot).device_id == snapshot.device_id,
        protocol::pointer_of(snapshot).app_version == snapshot.app_version,
{
}

/// A snapshot that does not fit a pointer is refused: for its revision, if that is
/// another one, and otherwise for its payload. The error names both sides.
pub proof fn law_validation_names_the_mismatch(pointer: PointerModel, snapshot: SnapshotModel)
    ensures
        snapshot.revision_id != pointer.revision_id ==> (protocol::validation(
            pointer,
            snapshot,
        ) matches Err(
            AppErrorModel::CloudSync(
                CloudSyncErrorModel::RevisionMismatch { pointer_revision, snapshot_revision },
            ),
        ) && pointer_revision == pointer.revision_id && snapshot_revision == snapshot.revision_id),
        snapshot.revision_id == pointer.revision_id && snapshot.payload_hash
            != pointer.payload_hash ==> (protocol::validation(pointer, snapshot) matches Err(
            AppErrorModel::CloudSync(CloudSyncErrorModel::HashMismatch { expected, actual }),
        ) && expected == pointer.payload_hash && actual == snapshot.payload_hash),
        snapshot.revision_id == pointer.revision_id && snapshot.payload_hash
            == pointer.payload_hash ==> protocol::validation(pointer, snapshot) is Ok,
{
}

// Reply by reply.

/// Whether a reply answers an action.
pub open spec fn answers(reply: SyncReplyModel, action: SyncActionModel) -> bool {
    match reply {
        SyncReplyModel::Failed(_) => true,
        SyncReplyModel::File(_) => action is Read,
        SyncReplyModel::Bytes(_) => action is Encode || action is Encrypt || action is Decrypt,
        SyncReplyModel::Snapshot(_) => action is Decode,
        SyncReplyModel::Pointer(_) => action is LoadPointer,
        SyncReplyModel::Written => action is Write || action is WritePointer,
    }
}

/// A reply that does not answer the action of an operation changes nothing about
/// the operation.
pub proof fn law_other_replies_change_nothing(
    reply: SyncReplyModel,
    decode: DecodeModel,
    current: CurrentReadModel,
    read: PointerReadModel,
    store: StoreModel,
    commit: CommitModel,
    check: HeadCheckModel,
    migrate: MigrateModel,
    resolve: ResolveModel,
    recover: RecoverModel,
)
    ensures
        !answers(reply, decode.action()) ==> (decode.step(reply) matches Progress::Pending(next)
            && next == decode),
        !answers(reply, current.action()) ==> (current.step(reply) matches Progress::Pending(next)
            && next == current),
        !answers(reply, read.action()) ==> (read.step(reply) matches Progress::Pending(next) && next
            == read),
        !answers(reply, store.action()) ==> (store.step(reply) matches Progress::Pending(next)
            && next == store),
        !answers(reply, commit.action()) ==> (commit.step(reply) matches Progress::Pending(next)
            && next == commit),
        !answers(reply, check.action()) ==> (check.step(reply) matches Progress::Pending(next)
            && next == check),
        !answers(reply, migrate.action()) ==> (migrate.step(reply) matches Progress::Pending(next)
            && next == migrate),
        !answers(reply, resolve.action()) ==> (resolve.step(reply) matches Progress::Pending(next)
            && next == resolve),
        !answers(reply, recover.action()) ==> (recover.step(reply) matches Progress::Pending(next)
            && next == recover),
{
}

/// The revision that a decoding names in errors.
pub open spec fn decode_revision(run: DecodeModel) -> Seq<char> {
    match run {
        DecodeModel::Decrypting { revision, .. } => revision,
        DecodeModel::Decoding { revision, .. } => revision,
    }
}

/// A decoding decrypts the content, then decodes what came of it, and ends with
/// what came of that. A failure of either ends it: with the error, if it is a
/// cloud sync error, and otherwise with the error that the revision is corrupted.
pub proof fn law_decoding_reply_by_reply(
    run: DecodeModel,
    reply: SyncReplyModel,
    raw: Seq<u8>,
    revision: Seq<char>,
)
    ensures
        protocol::decode_start(raw, revision).action() == (SyncActionModel::Decrypt { bytes: raw }),
        decode_revision(protocol::decode_start(raw, revision)) == revision,
        match (run.action(), reply) {
            (_, SyncReplyModel::Failed(AppErrorModel::CloudSync(error))) => run.step(reply) matches
                Progress::Done(Err(AppErrorModel::CloudSync(reported))) && reported == error,
            (_, SyncReplyModel::Failed(_)) => run.step(reply) matches Progress::Done(
                Err(AppErrorModel::CloudSync(CloudSyncErrorModel::CorruptedSnapshot { revision: named })),
            ) && named == decode_revision(run),
            (SyncActionModel::Decrypt { .. }, SyncReplyModel::Bytes(bytes)) => run.step(reply)
                matches Progress::Pending(next) && next.action() == (SyncActionModel::Decode {
                bytes,
            }) && decode_revision(next) == decode_revision(run),
            (SyncActionModel::Decode { .. }, SyncReplyModel::Snapshot(snapshot)) => run.step(reply)
                matches Progress::Done(Ok(decoded)) && decoded == snapshot,
            _ => run.step(reply) matches Progress::Pending(next) && next == run,
        },
{
}

/// Whether a read of the current snapshot names it in errors as it should.
pub open spec fn reads_current(run: CurrentReadModel) -> bool {
    run matches CurrentReadModel::Decoding(decode) ==> decode_revision(decode) == "current"@
}

/// A read of the current snapshot reads the current snapshot file, then decrypts
/// its content, then decodes that, and ends with the snapshot. Without a file it
/// ends without a snapshot. A failed read ends it with the error, and a failed
/// decryption or decoding as a decoding of "current" does.
pub proof fn law_current_read_reply_by_reply(
    run: CurrentReadModel,
    reply: SyncReplyModel,
    remote_root: Seq<char>,
)
    requires
        reads_current(run),
    ensures
        protocol::current_read_start(remote_root).action() == (SyncActionModel::Read {
            path: remote_root + "/current.redb"@,
        }),
        reads_current(protocol::current_read_start(remote_root)),
        run.step(reply) matches Progress::Pending(next) ==> reads_current(next),
        match (run.action(), reply) {
            (SyncActionModel::Read { .. }, SyncReplyModel::Failed(error)) => run.step(reply) matches
                Progress::Done(Err(reported)) && reported == error,
            (SyncActionModel::Read { .. }, SyncReplyModel::File(None)) => run.step(reply) matches
                Progress::Done(Ok(None)),
            (SyncActionModel::Read { .. }, SyncReplyModel::File(Some(raw))) => run.step(reply)
                matches Progress::Pending(next) && next.action() == (SyncActionModel::Decrypt {
                bytes: raw,
            }),
            (_, SyncReplyModel::Failed(AppErrorModel::CloudSync(error))) => run.step(reply) matches
                Progress::Done(Err(AppErrorModel::CloudSync(reported))) && reported == error,
            (_, SyncReplyModel::Failed(_)) => run.step(reply) matches Progress::Done(
                Err(AppErrorModel::CloudSync(CloudSyncErrorModel::CorruptedSnapshot { revision })),
            ) && revision == "current"@,
            (SyncActionModel::Decrypt { .. }, SyncReplyModel::Bytes(bytes)) => run.step(reply)
                matches Progress::Pending(next) && next.action() == (SyncActionModel::Decode {
                bytes,
            }),
            (SyncActionModel::Decode { .. }, SyncReplyModel::Snapshot(snapshot)) => run.step(reply)
                matches Progress::Done(Ok(Some(found))) && found == snapshot,
            _ => run.step(reply) matches Progress::Pending(next) && next == run,
        },
{
    remote::law_remote_layout(remote_root, Seq::empty());
}

/// Whether a run is a read for `pointer`, and names its revision in errors.
pub open spec fn reads_for(run: PointerReadModel, pointer: PointerModel) -> bool {
    match run {
        PointerReadModel::Reading { pointer: named, .. } => named == pointer,
        PointerReadModel::Decoding { pointer: named, decode } => named == pointer
            && decode_revision(decode) == pointer.revision_id,
    }
}

/// A read for a pointer reads the snapshot file of its revision, then decrypts its
/// content, then decodes that, and ends with the snapshot if it has the revision
/// and the payload hash of the pointer. Without a file it ends with the error that
/// the revision is missing. A failed read ends it with the error, a failed
/// decryption or decoding as a decoding of the revision does, and a snapshot that
/// does not fit with the mismatch.
pub proof fn law_pointer_read_reply_by_reply(
    run: PointerReadModel,
    reply: SyncReplyModel,
    remote_root: Seq<char>,
    pointer: PointerModel,
)
    requires
        reads_for(run, pointer),
    ensures
        protocol::pointer_read_start(remote_root, pointer).action() == (SyncActionModel::Read {
            path: remote_root + "/snapshots/"@ + pointer.revision_id + ".redb"@,
        }),
        reads_for(protocol::pointer_read_start(remote_root, pointer), pointer),
        run.step(reply) matches Progress::Pending(next) ==> reads_for(next, pointer),
        match (run.action(), reply) {
            (SyncActionModel::Read { .. }, SyncReplyModel::Failed(error)) => run.step(reply) matches
                Progress::Done(Err(reported)) && reported == error,
            (SyncActionModel::Read { .. }, SyncReplyModel::File(None)) => run.step(reply) matches
                Progress::Done(
                Err(AppErrorModel::CloudSync(CloudSyncErrorModel::SnapshotMissing { revision })),
            ) && revision == pointer.revision_id,
            (SyncActionModel::Read { .. }, SyncReplyModel::File(Some(raw))) => run.step(reply)
                matches Progress::Pending(next) && next.action() == (SyncActionModel::Decrypt {
                bytes: raw,
            }),
            (_, SyncReplyModel::Failed(AppErrorModel::CloudSync(error))) => run.step(reply) matches
                Progress::Done(Err(AppErrorModel::CloudSync(reported))) && reported == error,
            (_, SyncReplyModel::Failed(_)) => run.step(reply) matches Progress::Done(
                Err(AppErrorModel::CloudSync(CloudSyncErrorModel::CorruptedSnapshot { revision })),
            ) && revision == pointer.revision_id,
            (SyncActionModel::Decrypt { .. }, SyncReplyModel::Bytes(bytes)) => run.step(reply)
                matches Progress::Pending(next) && next.action() == (SyncActionModel::Decode {
                bytes,
            }),
            (SyncActionModel::Decode { .. }, SyncReplyModel::Snapshot(snapshot)) => if
                snapshot.revision_id != pointer.revision_id {
                run.step(reply) matches Progress::Done(
                    Err(
                        AppErrorModel::CloudSync(
                            CloudSyncErrorModel::RevisionMismatch {
                                pointer_revision,
                                snapshot_revision,
                            },
                        ),
                    ),
                ) && pointer_revision == pointer.revision_id && snapshot_revision
                    == snapshot.revision_id
            } else if snapshot.payload_hash != pointer.payload_hash {
                run.step(reply) matches Progress::Done(
                    Err(
                        AppErrorModel::CloudSync(
                            CloudSyncErrorModel::HashMismatch { expected, actual },
                        ),
                    ),
                ) && expected == pointer.payload_hash && actual == snapshot.payload_hash
            } else {
                run.step(reply) matches Progress::Done(Ok(found)) && found == snapshot
            },
            _ => run.step(reply) matches Progress::Pending(next) && next == run,
        },
{
    remote::law_remote_layout(remote_root, pointer.revision_id);
}

/// A store encodes the snapshot, then encrypts what came of it, then writes what
/// came of that to its path, and succeeds only when that was written. Any failure
/// ends it with the error. An upload goes to the snapshot file of the snapshot's
/// revision, and a store of the current snapshot to the current snapshot file.
pub proof fn law_store_reply_by_reply(
    run: StoreModel,
    reply: SyncReplyModel,
    remote_root: Seq<char>,
    snapshot: SnapshotModel,
)
    ensures
        protocol::upload_start(remote_root, snapshot).action() == (SyncActionModel::Encode {
            snapshot,
        }),
        laws::store_path(protocol::upload_start(remote_root, snapshot)) == remote_root
            + "/snapshots/"@ + snapshot.revision_id + ".redb"@,
        protocol::current_store_start(remote_root, snapshot).action() == (SyncActionModel::Encode {
            snapshot,
        }),
        laws::store_path(protocol::current_store_start(remote_root, snapshot)) == remote_root
            + "/current.redb"@,
        run.step(reply) matches Progress::Pending(next) ==> laws::store_path(next)
            == laws::store_path(run),
        run.action() matches SyncActionModel::Write { path, .. } ==> path == laws::store_path(run),
        match (run.action(), reply) {
            (_, SyncReplyModel::Failed(error)) => run.step(reply) matches Progress::Done(
                Err(reported),
            ) && reported == error,
            (SyncActionModel::Encode { .. }, SyncReplyModel::Bytes(bytes)) => run.step(reply)
                matches Progress::Pending(next) && next.action() == (SyncActionModel::Encrypt {
                bytes,
            }),
            (SyncActionModel::Encrypt { .. }, SyncReplyModel::Bytes(bytes)) => run.step(reply)
                matches Progress::Pending(next) && next.action() == (SyncActionModel::Write {
                path: laws::store_path(run),
                bytes,
            }),
            (SyncActionModel::Write { .. }, SyncReplyModel::Written) => run.step(reply) matches
                Progress::Done(Ok(_)),
            _ => run.step(reply) matches Progress::Pending(next) && next == run,
        },
{
    remote::law_remote_layout(remote_root, snapshot.revision_id);
}

/// A commit writes the pointer to the pointer file, succeeds when that was
/// written, and fails with the error of the write.
pub proof fn law_commit_reply_by_reply(
    reply: SyncReplyModel,
    remote_root: Seq<char>,
    pointer: PointerModel,
)
    ensures
        ({
            let run = protocol::commit_start(remote_root, pointer);
            &&& run.action() == (SyncActionModel::WritePointer {
                path: remote_root + "/latest.redb"@,
                pointer,
            })
            &&& match reply {
                SyncReplyModel::Failed(error) => run.step(reply) matches Progress::Done(
                    Err(reported),
                ) && reported == error,
                SyncReplyModel::Written => run.step(reply) matches Progress::Done(Ok(_)),
                _ => run.step(reply) matches Progress::Pending(next) && next == run,
            }
        }),
{
    remote::law_remote_layout(remote_root, Seq::empty());
}

/// The check of the head loads the pointer file. It succeeds if the head has the
/// revision that is expected, or if there is no head and none is expected. It
/// reports a concurrent update, with both revisions, in every other case, and
/// fails with the error of the load.
pub proof fn law_head_check_reply_by_reply(
    reply: SyncReplyModel,
    remote_root: Seq<char>,
    expected: Option<PointerModel>,
)
    ensures
        ({
            let run = protocol::head_check_start(remote_root, expected);
            &&& run.action() == (SyncActionModel::LoadPointer {
                path: remote_root + "/latest.redb"@,
            })
            &&& match reply {
                SyncReplyModel::Failed(error) => run.step(reply) matches Progress::Done(
                    Err(reported),
                ) && reported == error,
                SyncReplyModel::Pointer(actual) => match (expected, actual) {
                    (None, None) => run.step(reply) matches Progress::Done(Ok(_)),
                    (Some(base), Some(head)) => if base.revision_id == head.revision_id {
                        run.step(reply) matches Progress::Done(Ok(_))
                    } else {
                        run.step(reply) matches Progress::Done(
                            Err(
                                AppErrorModel::CloudSync(
                                    CloudSyncErrorModel::ConcurrentUpdate {
                                        expected_revision,
                                        actual_revision,
                                    },
                                ),
                            ),
                        ) && expected_revision == Some(base.revision_id) && actual_revision == Some(
                            head.revision_id,
                        )
                    },
                    (None, Some(head)) => run.step(reply) matches Progress::Done(
                        Err(
                            AppErrorModel::CloudSync(
                                CloudSyncErrorModel::ConcurrentUpdate {
                                    expected_revision,
                                    actual_revision,
                                },
                            ),
                        ),
                    ) && expected_revision is None && actual_revision == Some(head.revision_id),
                    (Some(base), None) => run.step(reply) matches Progress::Done(
                        Err(
                            AppErrorModel::CloudSync(
                                CloudSyncErrorModel::ConcurrentUpdate {
                                    expected_revision,
                                    actual_revision,
                                },
                            ),
                        ),
                    ) && expected_revision == Some(base.revision_id) && actual_revision is None,
                },
                _ => run.step(reply) matches Progress::Pending(next) && next == run,
            }
        }),
{
    remote::law_remote_layout(remote_root, Seq::empty());
}

/// A migration is an upload of its snapshot, followed, if that succeeds, by a read
/// for its pointer. It does what the one does and then what the other does, fails
/// with the error of either, and succeeds only if the read does.
pub proof fn law_migration_is_upload_and_read(
    run: MigrateModel,
    reply: SyncReplyModel,
    remote_root: Seq<char>,
    pointer: PointerModel,
    snapshot: SnapshotModel,
)
    ensures
        migration::migrate_start(remote_root, pointer, snapshot) matches MigrateModel::Uploading {
            remote_root: root,
            pointer: named,
            store,
        } && root == remote_root && named == pointer && store == protocol::upload_start(
            remote_root,
            snapshot,
        ),
        match run {
            MigrateModel::Uploading { remote_root: root, pointer: named, store } => run.action()
                == store.action() && match store.step(reply) {
                Progress::Pending(after) => run.step(reply) matches Progress::Pending(
                    MigrateModel::Uploading { remote_root: root_after, pointer: still, store: next },
                ) && next == after && root_after == root && still == named,
                Progress::Done(Ok(_)) => run.step(reply) matches Progress::Pending(
                    MigrateModel::Verifying(read),
                ) && read == protocol::pointer_read_start(root, named),
                Progress::Done(Err(error)) => run.step(reply) matches Progress::Done(Err(reported))
                    && reported == error,
            },
            MigrateModel::Verifying(read) => run.action() == read.action() && match read.step(
                reply,
            ) {
                Progress::Pending(after) => run.step(reply) matches Progress::Pending(
                    MigrateModel::Verifying(next),
                ) && next == after,
                Progress::Done(Ok(_)) => run.step(reply) matches Progress::Done(Ok(_)),
                Progress::Done(Err(error)) => run.step(reply) matches Progress::Done(Err(reported))
                    && reported == error,
            },
        },
{
}

/// A resolution is a read for its pointer. If that finds a snapshot, the snapshot
/// is current. If the snapshot is missing, and only then, the current snapshot is
/// read. If there is none, the revision is missing. If it has the revision and the
/// payload hash of the pointer, it is migrated, and is the legacy snapshot if that
/// succeeds. Otherwise the remote is inconsistent. Any other error ends it.
pub proof fn law_resolution_is_read_and_migration(
    run: ResolveModel,
    reply: SyncReplyModel,
    remote_root: Seq<char>,
    pointer: PointerModel,
)
    ensures
        migration::resolve_start(remote_root, pointer) matches ResolveModel::ReadingPointer {
            remote_root: root,
            pointer: named,
            read,
        } && root == remote_root && named == pointer && read == protocol::pointer_read_start(
            remote_root,
            pointer,
        ),
        match run {
            ResolveModel::ReadingPointer { remote_root: root, pointer: named, read } => run.action()
                == read.action() && match read.step(reply) {
                Progress::Pending(after) => run.step(reply) matches Progress::Pending(
                    ResolveModel::ReadingPointer {
                        remote_root: root_after,
                        pointer: still,
                        read: next,
                    },
                ) && next == after && root_after == root && still == named,
                Progress::Done(Ok(snapshot)) => run.step(reply) matches Progress::Done(
                    Ok(ResolutionModel::Current(found)),
                ) && found == snapshot,
                Progress::Done(
                    Err(AppErrorModel::CloudSync(CloudSyncErrorModel::SnapshotMissing { .. })),
                ) => run.step(reply) matches Progress::Pending(
                    ResolveModel::ReadingCurrent {
                        remote_root: root_after,
                        pointer: still,
                        read: next,
                    },
                ) && next == protocol::current_read_start(root) && root_after == root && still
                    == named,
                Progress::Done(Err(error)) => run.step(reply) matches Progress::Done(Err(reported))
                    && reported == error,
            },
            ResolveModel::ReadingCurrent { remote_root: root, pointer: named, read } => run.action()
                == read.action() && match read.step(reply) {
                Progress::Pending(after) => run.step(reply) matches Progress::Pending(
                    ResolveModel::ReadingCurrent {
                        remote_root: root_after,
                        pointer: still,
                        read: next,
                    },
                ) && next == after && root_after == root && still == named,
                Progress::Done(Ok(None)) => run.step(reply) matches Progress::Done(
                    Err(AppErrorModel::CloudSync(CloudSyncErrorModel::SnapshotMissing { revision })),
                ) && revision == named.revision_id,
                Progress::Done(Ok(Some(snapshot))) => if snapshot.revision_id == named.revision_id
                    && snapshot.payload_hash == named.payload_hash {
                    run.step(reply) matches Progress::Pending(
                        ResolveModel::Migrating { current, migrate },
                    ) && current == snapshot && migrate == migration::migrate_start(
                        root,
                        named,
                        snapshot,
                    )
                } else {
                    run.step(reply) matches Progress::Done(
                        Ok(
                            ResolutionModel::Inconsistent { pointer: reported, recovery_candidate },
                        ),
                    ) && reported == named && recovery_candidate == snapshot
                },
                Progress::Done(Err(error)) => run.step(reply) matches Progress::Done(Err(reported))
                    && reported == error,
            },
            ResolveModel::Migrating { current, migrate } => run.action() == migrate.action()
                && match migrate.step(reply) {
                Progress::Pending(after) => run.step(reply) matches Progress::Pending(
                    ResolveModel::Migrating { current: still, migrate: next },
                ) && next == after && still == current,
                Progress::Done(Ok(_)) => run.step(reply) matches Progress::Done(
                    Ok(ResolutionModel::LegacyMigrated(found)),
                ) && found == current,
                Progress::Done(Err(error)) => run.step(reply) matches Progress::Done(Err(reported))
                    && reported == error,
            },
        },
{
}

/// A recovery reads the current snapshot, uploads it, reads it back for its own
/// pointer, and only then commits that pointer. It ends with the snapshot that it
/// read first. Without a current snapshot it is refused, and the error of any part
/// ends it.
pub proof fn law_recovery_is_read_upload_read_commit(
    run: RecoverModel,
    reply: SyncReplyModel,
    remote_root: Seq<char>,
)
    ensures
        migration::recover_start(remote_root) matches RecoverModel::ReadingCurrent {
            remote_root: root,
            read,
        } && root == remote_root && read == protocol::current_read_start(remote_root),
        match run {
            RecoverModel::ReadingCurrent { remote_root: root, read } => run.action()
                == read.action() && match read.step(reply) {
                Progress::Pending(after) => run.step(reply) matches Progress::Pending(
                    RecoverModel::ReadingCurrent { remote_root: root_after, read: next },
                ) && next == after && root_after == root,
                Progress::Done(Ok(None)) => run.step(reply) matches Progress::Done(
                    Err(AppErrorModel::Config(text)),
                ) && text == "No current cloud sync snapshot is available for recovery"@,
                Progress::Done(Ok(Some(found))) => run.step(reply) matches Progress::Pending(
                    RecoverModel::Uploading { remote_root: root_after, snapshot, store },
                ) && root_after == root && snapshot == found && store == protocol::upload_start(
                    root,
                    found,
                ),
                Progress::Done(Err(error)) => run.step(reply) matches Progress::Done(Err(reported))
                    && reported == error,
            },
            RecoverModel::Uploading { remote_root: root, snapshot, store } => run.action()
                == store.action() && match store.step(reply) {
                Progress::Pending(after) => run.step(reply) matches Progress::Pending(
                    RecoverModel::Uploading { remote_root: root_after, snapshot: still, store: next },
                ) && next == after && root_after == root && still == snapshot,
                Progress::Done(Ok(_)) => run.step(reply) matches Progress::Pending(
                    RecoverModel::Verifying { remote_root: root_after, snapshot: still, read },
                ) && root_after == root && still == snapshot && read
                    == protocol::pointer_read_start(root, protocol::pointer_of(snapshot)),
                Progress::Done(Err(error)) => run.step(reply) matches Progress::Done(Err(reported))
                    && reported == error,
            },
            RecoverModel::Verifying { remote_root: root, snapshot, read } => run.action()
                == read.action() && match read.step(reply) {
                Progress::Pending(after) => run.step(reply) matches Progress::Pending(
                    RecoverModel::Verifying { remote_root: root_after, snapshot: still, read: next },
                ) && next == after && root_after == root && still == snapshot,
                Progress::Done(Ok(_)) => run.step(reply) matches Progress::Pending(
                    RecoverModel::Committing { snapshot: still, commit },
                ) && still == snapshot && commit == protocol::commit_start(
                    root,
                    protocol::pointer_of(snapshot),
                ),
                Progress::Done(Err(error)) => run.step(reply) matches Progress::Done(Err(reported))
                    && reported == error,
            },
            RecoverModel::Committing { snapshot, commit } => run.action() == commit.action()
                && match commit.step(reply) {
                Progress::Pending(after) => run.step(reply) matches Progress::Pending(
                    RecoverModel::Committing { snapshot: still, commit: next },
                ) && next == after && still == snapshot,
                Progress::Done(Ok(_)) => run.step(reply) matches Progress::Done(Ok(recovered))
                    && recovered == snapshot,
                Progress::Done(Err(error)) => run.step(reply) matches Progress::Done(Err(reported))
                    && reported == error,
            },
        },
{
}

// From start to outcome.

/// An upload succeeds exactly if encoding, encrypting and writing do, and then the
/// snapshot file of the revision holds the encrypted encoding of the snapshot and
/// no other file has changed. Otherwise it ends with the first error, and no file
/// has changed.
pub proof fn law_upload_outcome(world: World, remote_root: Seq<char>, snapshot: SnapshotModel)
    ensures
        ({
            let path = remote_root + "/snapshots/"@ + snapshot.revision_id + ".redb"@;
            let encoded = (world.encode)(snapshot);
            let bytes = (world.encrypt)(encoded);
            laws::drive(protocol::upload_start(remote_root, snapshot), world, 3) matches Some(
                (after, outcome),
            ) && (match (world.failure)(SyncActionModel::Encode { snapshot }) {
                Some(error) => after.files == world.files && (outcome matches Err(reported)
                    && reported == error),
                None => match (world.failure)(SyncActionModel::Encrypt { bytes: encoded }) {
                    Some(error) => after.files == world.files && (outcome matches Err(reported)
                        && reported == error),
                    None => match (world.failure)(SyncActionModel::Write { path, bytes }) {
                        Some(error) => after.files == world.files && (outcome matches Err(reported)
                            && reported == error),
                        None => after.files == world.files.insert(path, bytes) && outcome is Ok,
                    },
                },
            })
        }),
{
    reveal_with_fuel(laws::drive, 4);
    remote::law_remote_layout(remote_root, snapshot.revision_id);
}

/// The same of a store of the current snapshot, which goes to the current snapshot
/// file.
pub proof fn law_write_current_outcome(
    world: World,
    remote_root: Seq<char>,
    snapshot: SnapshotModel,
)
    ensures
        ({
            let path = remote_root + "/current.redb"@;
            let encoded = (world.encode)(snapshot);
            let bytes = (world.encrypt)(encoded);
            laws::drive(protocol::current_store_start(remote_root, snapshot), world, 3) matches Some(
                (after, outcome),
            ) && (match (world.failure)(SyncActionModel::Encode { snapshot }) {
                Some(error) => after.files == world.files && (outcome matches Err(reported)
                    && reported == error),
                None => match (world.failure)(SyncActionModel::Encrypt { bytes: encoded }) {
                    Some(error) => after.files == world.files && (outcome matches Err(reported)
                        && reported == error),
                    None => match (world.failure)(SyncActionModel::Write { path, bytes }) {
                        Some(error) => after.files == world.files && (outcome matches Err(reported)
                            && reported == error),
                        None => after.files == world.files.insert(path, bytes) && outcome is Ok,
                    },
                },
            })
        }),
{
    reveal_with_fuel(laws::drive, 4);
    remote::law_remote_layout(remote_root, snapshot.revision_id);
}

/// A store that ends with success has written the encrypted encoding of the
/// snapshot to its path, however many actions it is given.
pub proof fn law_store_succeeds_only_if_written(
    world: World,
    path: Seq<char>,
    snapshot: SnapshotModel,
    limit: nat,
)
    ensures
        laws::drive(StoreModel::Encoding { path, snapshot }, world, limit) matches Some(
            (after, Ok(_)),
        ) ==> after.files == world.files.insert(
            path,
            (world.encrypt)((world.encode)(snapshot)),
        ),
        laws::drive(StoreModel::Encoding { path, snapshot }, world, limit) matches Some(
            (after, Err(_)),
        ) ==> after.files == world.files,
{
    reveal_with_fuel(laws::drive, 4);
}

/// A read for a pointer changes no file. It finds what the snapshot file of the
/// revision gives when it is decrypted and decoded, if that has the revision and
/// the payload hash of the pointer.
pub proof fn law_read_outcome(world: World, remote_root: Seq<char>, pointer: PointerModel)
    ensures
        ({
            let path = remote_root + "/snapshots/"@ + pointer.revision_id + ".redb"@;
            let raw = world.files[path];
            let decrypted = (world.decrypt)(raw);
            let snapshot = (world.decode)(decrypted);
            laws::drive(protocol::pointer_read_start(remote_root, pointer), world, 3) matches Some(
                (after, outcome),
            ) && after == world && (match (world.failure)(SyncActionModel::Read { path }) {
                Some(error) => outcome matches Err(reported) && reported == error,
                None => if !world.files.contains_key(path) {
                    outcome matches Err(
                        AppErrorModel::CloudSync(CloudSyncErrorModel::SnapshotMissing { revision }),
                    ) && revision == pointer.revision_id
                } else {
                    outcome matches Ok(found) <==> (world.failure)(
                        SyncActionModel::Decrypt { bytes: raw },
                    ) is None && (world.failure)(SyncActionModel::Decode { bytes: decrypted }) is None
                        && snapshot.revision_id == pointer.revision_id && snapshot.payload_hash
                        == pointer.payload_hash
                },
            }) && (outcome matches Ok(found) ==> found == snapshot)
        }),
{
    reveal_with_fuel(laws::drive, 4);
    remote::law_remote_layout(remote_root, pointer.revision_id);
}

/// A read of the current snapshot changes no file. It finds what the current
/// snapshot file gives when it is decrypted and decoded, and nothing if there is
/// no such file.
pub proof fn law_read_current_outcome(world: World, remote_root: Seq<char>)
    ensures
        ({
            let path = remote_root + "/current.redb"@;
            let raw = world.files[path];
            let decrypted = (world.decrypt)(raw);
            laws::drive(protocol::current_read_start(remote_root), world, 3) matches Some(
                (after, outcome),
            ) && after == world && (match (world.failure)(SyncActionModel::Read { path }) {
                Some(error) => outcome matches Err(reported) && reported == error,
                None => if !world.files.contains_key(path) {
                    outcome matches Ok(None)
                } else {
                    outcome is Ok <==> (world.failure)(SyncActionModel::Decrypt { bytes: raw })
                        is None && (world.failure)(SyncActionModel::Decode { bytes: decrypted })
                        is None
                },
            }) && (outcome matches Ok(Some(found)) ==> found == (world.decode)(decrypted)) && (
            outcome matches Ok(None) ==> !world.files.contains_key(path))
        }),
{
    reveal_with_fuel(laws::drive, 4);
    remote::law_remote_layout(remote_root, Seq::empty());
}

/// A commit succeeds exactly if the pointer file is written, and then that file
/// holds the pointer and no other file has changed. Otherwise it ends with the
/// error, and no file has changed.
pub proof fn law_commit_outcome(world: World, remote_root: Seq<char>, pointer: PointerModel)
    ensures
        ({
            let path = remote_root + "/latest.redb"@;
            laws::drive(protocol::commit_start(remote_root, pointer), world, 1) matches Some(
                (after, outcome),
            ) && (match (world.failure)(SyncActionModel::WritePointer { path, pointer }) {
                Some(error) => after.files == world.files && (outcome matches Err(reported)
                    && reported == error),
                None => after.files == world.files.insert(path, (world.encode_pointer)(pointer))
                    && outcome is Ok,
            })
        }),
{
    reveal_with_fuel(laws::drive, 2);
    remote::law_remote_layout(remote_root, Seq::empty());
}

/// The check of the head changes no file. It succeeds exactly if the pointer file
/// can be loaded and names the revision that is expected, or is missing and none
/// is expected.
pub proof fn law_head_check_outcome(
    world: World,
    remote_root: Seq<char>,
    expected: Option<PointerModel>,
)
    ensures
        ({
            let path = remote_root + "/latest.redb"@;
            laws::drive(protocol::head_check_start(remote_root, expected), world, 1) matches Some(
                (after, outcome),
            ) && after == world && (match (world.failure)(SyncActionModel::LoadPointer { path }) {
                Some(error) => outcome matches Err(reported) && reported == error,
                None => outcome is Ok <==> (match expected {
                    Some(base) => world.files.contains_key(path) && (world.decode_pointer)(
                        world.files[path],
                    ).revision_id == base.revision_id,
                    None => !world.files.contains_key(path),
                }),
            })
        }),
{
    reveal_with_fuel(laws::drive, 2);
    remote::law_remote_layout(remote_root, Seq::empty());
}

/// A migration leaves what its upload leaves. It succeeds exactly if the upload
/// does and the snapshot can then be read for the pointer, and otherwise ends with
/// the error of the one or the other.
pub proof fn law_migration_outcome(
    world: World,
    remote_root: Seq<char>,
    pointer: PointerModel,
    snapshot: SnapshotModel,
)
    ensures
        laws::drive(migration::migrate_start(remote_root, pointer, snapshot), world, 6) matches Some(
            (after, outcome),
        ) && laws::drive(protocol::upload_start(remote_root, snapshot), world, 3) matches Some(
            (uploaded, upload),
        ) && laws::drive(protocol::pointer_read_start(remote_root, pointer), uploaded, 3) matches Some(
            (_, read),
        ) && after == uploaded && (match (upload, read) {
            (Err(error), _) => outcome matches Err(reported) && reported == error,
            (Ok(_), Err(error)) => outcome matches Err(reported) && reported == error,
            (Ok(_), Ok(_)) => outcome is Ok,
        }),
{
    let path = remote::snapshot_path_model(remote_root, snapshot.revision_id);
    laws::theorem_migrate_legacy_snapshot(remote_root, pointer, snapshot, world);
    laws::theorem_store(path, snapshot, world);
    laws::theorem_read_snapshot_for_pointer(
        remote_root,
        pointer,
        world.stored(path, snapshot).0,
    );
}

/// A resolution gives the snapshot that a read for the pointer finds. If that
/// reports that it is missing, the resolution gives what a read of the current
/// snapshot finds: migrated, if it has the revision and the payload hash of the
/// pointer, and as the candidate for a recovery otherwise. It leaves the files as
/// they are, but for a migration. Every other error is its error.
pub proof fn law_resolution_outcome(world: World, remote_root: Seq<char>, pointer: PointerModel)
    ensures
        laws::drive(migration::resolve_start(remote_root, pointer), world, 12) matches Some(
            (after, outcome),
        ) && laws::drive(protocol::pointer_read_start(remote_root, pointer), world, 3) matches Some(
            (_, read),
        ) && laws::drive(protocol::current_read_start(remote_root), world, 3) matches Some(
            (_, current),
        ) && (match read {
            Ok(snapshot) => after == world && (outcome matches Ok(ResolutionModel::Current(found))
                && found == snapshot),
            Err(AppErrorModel::CloudSync(CloudSyncErrorModel::SnapshotMissing { .. })) => match
                current {
                Err(error) => after == world && (outcome matches Err(reported) && reported
                    == error),
                Ok(None) => after == world && (outcome matches Err(
                    AppErrorModel::CloudSync(CloudSyncErrorModel::SnapshotMissing { revision }),
                ) && revision == pointer.revision_id),
                Ok(Some(candidate)) => if candidate.revision_id == pointer.revision_id
                    && candidate.payload_hash == pointer.payload_hash {
                    laws::drive(
                        migration::migrate_start(remote_root, pointer, candidate),
                        world,
                        6,
                    ) matches Some((migrated, migrate)) && after == migrated && (match migrate {
                        Ok(_) => outcome matches Ok(ResolutionModel::LegacyMigrated(found)) && found
                            == candidate,
                        Err(error) => outcome matches Err(reported) && reported == error,
                    })
                } else {
                    after == world && (outcome matches Ok(
                        ResolutionModel::Inconsistent { pointer: named, recovery_candidate },
                    ) && named == pointer && recovery_candidate == candidate)
                },
            },
            Err(error) => after == world && (outcome matches Err(reported) && reported == error),
        }),
{
    laws::theorem_resolve_remote_snapshot(remote_root, pointer, world);
    laws::theorem_read_snapshot_for_pointer(remote_root, pointer, world);
    laws::theorem_read_current_sync_snapshot_compat(remote_root, world);
    if let Ok(Some(candidate)) = world.current(remote_root) {
        laws::theorem_migrate_legacy_snapshot(remote_root, pointer, candidate, world);
    }
}

/// A recovery gives the current snapshot, after it was uploaded, could be read for
/// its own pointer, and that pointer was committed, and leaves what the commit
/// leaves. Without a current snapshot it is refused. The error of any part is its
/// error, and then no later part has been done.
pub proof fn law_recovery_outcome(world: World, remote_root: Seq<char>)
    ensures
        laws::drive(migration::recover_start(remote_root), world, 10) matches Some((after, outcome))
            && laws::drive(protocol::current_read_start(remote_root), world, 3) matches Some(
            (_, current),
        ) && (match current {
            Err(error) => after == world && (outcome matches Err(reported) && reported == error),
            Ok(None) => after == world && (outcome matches Err(AppErrorModel::Config(text)) && text
                == "No current cloud sync snapshot is available for recovery"@),
            Ok(Some(snapshot)) => laws::drive(
                migration::migrate_start(remote_root, protocol::pointer_of(snapshot), snapshot),
                world,
                6,
            ) matches Some((migrated, migrate)) && laws::drive(
                protocol::commit_start(remote_root, protocol::pointer_of(snapshot)),
                migrated,
                1,
            ) matches Some((committed, commit)) && (match (migrate, commit) {
                (Err(error), _) => after == migrated && (outcome matches Err(reported) && reported
                    == error),
                (Ok(_), Err(error)) => after == committed && (outcome matches Err(reported)
                    && reported == error),
                (Ok(_), Ok(_)) => after == committed && (outcome matches Ok(found) && found
                    == snapshot),
            }),
        }),
{
    laws::theorem_recover_current_remote_snapshot(remote_root, world);
    laws::theorem_read_current_sync_snapshot_compat(remote_root, world);
    if let Ok(Some(snapshot)) = world.current(remote_root) {
        let pointer = protocol::pointer_of(snapshot);
        laws::theorem_migrate_legacy_snapshot(remote_root, pointer, snapshot, world);
        laws::theorem_commit_sync_pointer(
            remote_root,
            pointer,
            world.migrated(remote_root, pointer, snapshot).0,
        );
    }
}

} // verus!
