//! The operations of the sync protocol.
//!
//! A snapshot is encoded and encrypted before it is written, and decrypted and
//! decoded after it is read. A commit is the write of the pointer file.

use crate::cloud_sync::remote;
use crate::cloud_sync::remote::REMOTE_SYNC_POINTER_SCHEMA_VERSION;
use crate::cloud_sync::snapshot::{
    PointerModel, PortableSnapshot, RemoteSyncPointer, SnapshotModel,
};
use crate::error;
use crate::error::{AppError, AppErrorModel, AppResult, CloudSyncError, CloudSyncErrorModel};
use crate::progress::Progress;
use crate::text::{same_label, same_text};
use vstd::prelude::*;

verus! {

/// What a run asks its driver to do.
#[derive(Debug)]
pub enum SyncAction<'a> {
    /// Read the file at `path`, if there is one.
    Read { path: String },
    /// Write the file at `path`.
    Write { path: String, bytes: &'a Vec<u8> },
    /// Encode a snapshot as bytes.
    Encode { snapshot: &'a PortableSnapshot },
    /// Encrypt an encoded snapshot.
    Encrypt { bytes: &'a Vec<u8> },
    /// Decrypt the content of a snapshot file.
    Decrypt { bytes: &'a Vec<u8> },
    /// Decode a decrypted snapshot.
    Decode { bytes: &'a Vec<u8> },
    /// Read the pointer file at `path`, if there is one.
    LoadPointer { path: String },
    /// Write the pointer file at `path`.
    WritePointer { path: String, pointer: &'a RemoteSyncPointer },
}

/// What a driver answers.
#[derive(Debug)]
pub enum SyncReply {
    /// The action failed. This answers every action.
    Failed(AppError),
    /// Answer to `Read`: the content, or that there is no such file.
    File(Option<Vec<u8>>),
    /// Answer to `Encode`, `Encrypt` and `Decrypt`.
    Bytes(Vec<u8>),
    /// Answer to `Decode`.
    Snapshot(PortableSnapshot),
    /// Answer to `LoadPointer`: the pointer, or that there is no such file.
    Pointer(Option<RemoteSyncPointer>),
    /// Answer to `Write` and `WritePointer`.
    Written,
}

/// Mathematical value of a [`SyncAction`].
pub enum SyncActionModel {
    Read { path: Seq<char> },
    Write { path: Seq<char>, bytes: Seq<u8> },
    Encode { snapshot: SnapshotModel },
    Encrypt { bytes: Seq<u8> },
    Decrypt { bytes: Seq<u8> },
    Decode { bytes: Seq<u8> },
    LoadPointer { path: Seq<char> },
    WritePointer { path: Seq<char>, pointer: PointerModel },
}

/// Mathematical value of a [`SyncReply`].
pub enum SyncReplyModel {
    Failed(AppErrorModel),
    File(Option<Seq<u8>>),
    Bytes(Seq<u8>),
    Snapshot(SnapshotModel),
    Pointer(Option<PointerModel>),
    Written,
}

impl<'a> View for SyncAction<'a> {
    type V = SyncActionModel;

    open spec fn view(&self) -> SyncActionModel {
        match *self {
            SyncAction::Read { path } => SyncActionModel::Read { path: path@ },
            SyncAction::Write { path, bytes } => SyncActionModel::Write {
                path: path@,
                bytes: bytes@,
            },
            SyncAction::Encode { snapshot } => SyncActionModel::Encode { snapshot: snapshot@ },
            SyncAction::Encrypt { bytes } => SyncActionModel::Encrypt { bytes: bytes@ },
            SyncAction::Decrypt { bytes } => SyncActionModel::Decrypt { bytes: bytes@ },
            SyncAction::Decode { bytes } => SyncActionModel::Decode { bytes: bytes@ },
            SyncAction::LoadPointer { path } => SyncActionModel::LoadPointer { path: path@ },
            SyncAction::WritePointer { path, pointer } => SyncActionModel::WritePointer {
                path: path@,
                pointer: pointer@,
            },
        }
    }
}

/// The value of an optional pointer.
pub open spec fn pointer_option(pointer: Option<RemoteSyncPointer>) -> Option<PointerModel> {
    match pointer {
        Some(p) => Some(p@),
        None => None,
    }
}

/// The value of an optional snapshot.
pub open spec fn snapshot_option(snapshot: Option<PortableSnapshot>) -> Option<SnapshotModel> {
    match snapshot {
        Some(s) => Some(s@),
        None => None,
    }
}

impl View for SyncReply {
    type V = SyncReplyModel;

    open spec fn view(&self) -> SyncReplyModel {
        match *self {
            SyncReply::Failed(error) => SyncReplyModel::Failed(error@),
            SyncReply::File(Some(bytes)) => SyncReplyModel::File(Some(bytes@)),
            SyncReply::File(None) => SyncReplyModel::File(None),
            SyncReply::Bytes(bytes) => SyncReplyModel::Bytes(bytes@),
            SyncReply::Snapshot(snapshot) => SyncReplyModel::Snapshot(snapshot@),
            SyncReply::Pointer(pointer) => SyncReplyModel::Pointer(pointer_option(pointer)),
            SyncReply::Written => SyncReplyModel::Written,
        }
    }
}

/// A sync operation as a mathematical object: the action it waits for, and what
/// a reply makes of it. A reply that does not answer the action changes nothing.
pub trait SyncProgram: Sized {
    type Outcome;

    spec fn action(self) -> SyncActionModel;

    spec fn step(self, reply: SyncReplyModel) -> Progress<Self, Self::Outcome>;
}

// Names, pointers and their check against snapshots.

/// File, below the remote root, of the snapshot of `revision`.
pub fn sync_snapshot_file(revision: &str) -> (r: String)
    ensures
        r@ == remote::snapshot_file_model(revision@),
{
    remote::legacy_sync_snapshot_file(revision)
}

/// Path of the snapshot of `revision`.
pub fn sync_snapshot_path(remote_root: &str, revision: &str) -> (r: String)
    ensures
        r@ == remote::snapshot_path_model(remote_root@, revision@),
{
    let file = sync_snapshot_file(revision);
    remote::remote_path(remote_root, file.as_str())
}

/// The pointer that names `snapshot`.
pub open spec fn pointer_of(snapshot: SnapshotModel) -> PointerModel {
    PointerModel {
        schema_version: REMOTE_SYNC_POINTER_SCHEMA_VERSION,
        revision_id: snapshot.revision_id,
        created_at_ms: snapshot.created_at_ms,
        payload_hash: snapshot.payload_hash,
        device_id: snapshot.device_id,
        app_version: snapshot.app_version,
    }
}

/// The pointer that names `snapshot`.
pub fn pointer_from_snapshot(snapshot: &PortableSnapshot) -> (r: RemoteSyncPointer)
    ensures
        r@ == pointer_of(snapshot@),
{
    RemoteSyncPointer {
        schema_version: REMOTE_SYNC_POINTER_SCHEMA_VERSION,
        revision_id: snapshot.revision_id.clone(),
        created_at_ms: snapshot.created_at_ms,
        payload_hash: snapshot.payload_hash.clone(),
        device_id: snapshot.device_id.clone(),
        app_version: snapshot.app_version.clone(),
    }
}

/// The check of a snapshot against the pointer that led to it: the revisions
/// are compared first, then the payload hashes.
pub open spec fn validation(pointer: PointerModel, snapshot: SnapshotModel) -> Result<
    (),
    AppErrorModel,
> {
    if snapshot.revision_id != pointer.revision_id {
        Err(
            AppErrorModel::CloudSync(
                CloudSyncErrorModel::RevisionMismatch {
                    pointer_revision: pointer.revision_id,
                    snapshot_revision: snapshot.revision_id,
                },
            ),
        )
    } else if snapshot.payload_hash != pointer.payload_hash {
        Err(
            AppErrorModel::CloudSync(
                CloudSyncErrorModel::HashMismatch {
                    expected: pointer.payload_hash,
                    actual: snapshot.payload_hash,
                },
            ),
        )
    } else {
        Ok(())
    }
}

/// Checks a snapshot against the pointer that led to it.
pub fn validate_snapshot_against_pointer(
    pointer: &RemoteSyncPointer,
    snapshot: &PortableSnapshot,
) -> (r: AppResult<()>)
    ensures
        error::result_model(r) == validation(pointer@, snapshot@),
{
    if !same_text(&snapshot.revision_id, &pointer.revision_id) {
        return Err(
            AppError::CloudSync(
                CloudSyncError::RevisionMismatch {
                    pointer_revision: pointer.revision_id.clone(),
                    snapshot_revision: snapshot.revision_id.clone(),
                },
            ),
        );
    }
    if !same_text(&snapshot.payload_hash, &pointer.payload_hash) {
        return Err(
            AppError::CloudSync(
                CloudSyncError::HashMismatch {
                    expected: pointer.payload_hash.clone(),
                    actual: snapshot.payload_hash.clone(),
                },
            ),
        );
    }
    Ok(())
}

/// The error that says that there is no snapshot of `revision`.
pub open spec fn snapshot_missing(revision: Seq<char>) -> AppErrorModel {
    AppErrorModel::CloudSync(CloudSyncErrorModel::SnapshotMissing { revision })
}

// Decoding of a snapshot file.

/// What a failure to decrypt or decode the snapshot of `revision` is reported
/// as: a cloud sync error as it is, any other error as a corrupted snapshot.
pub open spec fn decoding_error(error: AppErrorModel, revision: Seq<char>) -> AppErrorModel {
    match error {
        AppErrorModel::CloudSync(_) => error,
        _ => AppErrorModel::CloudSync(CloudSyncErrorModel::CorruptedSnapshot { revision }),
    }
}

fn reported_decoding_error(error: AppError, revision: &String) -> (r: AppError)
    ensures
        r@ == decoding_error(error@, revision@),
{
    match error {
        AppError::CloudSync(inner) => AppError::CloudSync(inner),
        _ => AppError::CloudSync(CloudSyncError::CorruptedSnapshot { revision: revision.clone() }),
    }
}

/// The decoding of the content of a snapshot file. `revision` names the
/// snapshot in errors.
#[derive(Debug)]
pub enum DecodeRun {
    Decrypting { revision: String, raw: Vec<u8> },
    Decoding { revision: String, decrypted: Vec<u8> },
}

/// Mathematical value of a [`DecodeRun`].
pub enum DecodeModel {
    Decrypting { revision: Seq<char>, raw: Seq<u8> },
    Decoding { revision: Seq<char>, decrypted: Seq<u8> },
}

impl View for DecodeRun {
    type V = DecodeModel;

    open spec fn view(&self) -> DecodeModel {
        match *self {
            DecodeRun::Decrypting { revision, raw } => DecodeModel::Decrypting {
                revision: revision@,
                raw: raw@,
            },
            DecodeRun::Decoding { revision, decrypted } => DecodeModel::Decoding {
                revision: revision@,
                decrypted: decrypted@,
            },
        }
    }
}

impl SyncProgram for DecodeModel {
    type Outcome = Result<SnapshotModel, AppErrorModel>;

    open spec fn action(self) -> SyncActionModel {
        match self {
            DecodeModel::Decrypting { raw, .. } => SyncActionModel::Decrypt { bytes: raw },
            DecodeModel::Decoding { decrypted, .. } => SyncActionModel::Decode { bytes: decrypted },
        }
    }

    open spec fn step(self, reply: SyncReplyModel) -> Progress<
        DecodeModel,
        Result<SnapshotModel, AppErrorModel>,
    > {
        match (self, reply) {
            (DecodeModel::Decrypting { revision, .. }, SyncReplyModel::Failed(error)) =>
                Progress::Done(Err(decoding_error(error, revision))),
            (DecodeModel::Decrypting { revision, .. }, SyncReplyModel::Bytes(decrypted)) =>
                Progress::Pending(DecodeModel::Decoding { revision, decrypted }),
            (DecodeModel::Decoding { revision, .. }, SyncReplyModel::Failed(error)) =>
                Progress::Done(Err(decoding_error(error, revision))),
            (DecodeModel::Decoding { .. }, SyncReplyModel::Snapshot(snapshot)) => Progress::Done(
                Ok(snapshot),
            ),
            _ => Progress::Pending(self),
        }
    }
}

/// The decoding of the content of a snapshot file that has done nothing yet.
pub open spec fn decode_start(raw: Seq<u8>, revision: Seq<char>) -> DecodeModel {
    DecodeModel::Decrypting { revision, raw }
}

/// Starts to decode `raw`, the content of the snapshot file of `revision`.
pub fn decode_remote_sync_snapshot(raw: Vec<u8>, revision: &str) -> (r: DecodeRun)
    ensures
        r@ == (DecodeModel::Decrypting { revision: revision@, raw: raw@ }),
        r@ == decode_start(raw@, revision@),
{
    DecodeRun::Decrypting { revision: revision.to_owned(), raw }
}

impl DecodeRun {
    /// The action that the run waits for.
    pub fn action<'a>(&'a self) -> (r: SyncAction<'a>)
        ensures
            r@ == self@.action(),
    {
        match self {
            DecodeRun::Decrypting { raw, .. } => SyncAction::Decrypt { bytes: raw },
            DecodeRun::Decoding { decrypted, .. } => SyncAction::Decode { bytes: decrypted },
        }
    }

    /// What the reply makes of the run.
    pub fn step(self, reply: SyncReply) -> (r: Progress<DecodeRun, AppResult<PortableSnapshot>>)
        ensures
            r@ == self@.step(reply@),
    {
        match (self, reply) {
            (DecodeRun::Decrypting { revision, .. }, SyncReply::Failed(error)) => Progress::Done(
                Err(reported_decoding_error(error, &revision)),
            ),
            (DecodeRun::Decrypting { revision, .. }, SyncReply::Bytes(decrypted)) =>
                Progress::Pending(DecodeRun::Decoding { revision, decrypted }),
            (DecodeRun::Decoding { revision, .. }, SyncReply::Failed(error)) => Progress::Done(
                Err(reported_decoding_error(error, &revision)),
            ),
            (DecodeRun::Decoding { .. }, SyncReply::Snapshot(snapshot)) => Progress::Done(
                Ok(snapshot),
            ),
            (run, _) => Progress::Pending(run),
        }
    }
}

// Reading of snapshots.

/// The reading of the current snapshot file.
#[derive(Debug)]
pub enum CurrentReadRun {
    Reading { remote_root: String },
    Decoding(DecodeRun),
}

/// Mathematical value of a [`CurrentReadRun`].
pub enum CurrentReadModel {
    Reading { remote_root: Seq<char> },
    Decoding(DecodeModel),
}

impl View for CurrentReadRun {
    type V = CurrentReadModel;

    open spec fn view(&self) -> CurrentReadModel {
        match *self {
            CurrentReadRun::Reading { remote_root } => CurrentReadModel::Reading {
                remote_root: remote_root@,
            },
            CurrentReadRun::Decoding(decode) => CurrentReadModel::Decoding(decode@),
        }
    }
}

impl SyncProgram for CurrentReadModel {
    type Outcome = Result<Option<SnapshotModel>, AppErrorModel>;

    open spec fn action(self) -> SyncActionModel {
        match self {
            CurrentReadModel::Reading { remote_root } => SyncActionModel::Read {
                path: remote::current_path_model(remote_root),
            },
            CurrentReadModel::Decoding(decode) => decode.action(),
        }
    }

    open spec fn step(self, reply: SyncReplyModel) -> Progress<
        CurrentReadModel,
        Result<Option<SnapshotModel>, AppErrorModel>,
    > {
        match self {
            CurrentReadModel::Reading { .. } => match reply {
                SyncReplyModel::Failed(error) => Progress::Done(Err(error)),
                SyncReplyModel::File(None) => Progress::Done(Ok(None)),
                SyncReplyModel::File(Some(raw)) => Progress::Pending(
                    CurrentReadModel::Decoding(
                        DecodeModel::Decrypting { revision: "current"@, raw },
                    ),
                ),
                _ => Progress::Pending(self),
            },
            CurrentReadModel::Decoding(decode) => match decode.step(reply) {
                Progress::Pending(next) => Progress::Pending(CurrentReadModel::Decoding(next)),
                Progress::Done(Ok(snapshot)) => Progress::Done(Ok(Some(snapshot))),
                Progress::Done(Err(error)) => Progress::Done(Err(error)),
            },
        }
    }
}

/// Mathematical value of what a reply has made of a [`CurrentReadRun`].
pub open spec fn current_read_progress(
    progress: Progress<CurrentReadRun, AppResult<Option<PortableSnapshot>>>,
) -> Progress<CurrentReadModel, Result<Option<SnapshotModel>, AppErrorModel>> {
    match progress {
        Progress::Pending(run) => Progress::Pending(run@),
        Progress::Done(Ok(snapshot)) => Progress::Done(Ok(snapshot_option(snapshot))),
        Progress::Done(Err(error)) => Progress::Done(Err(error@)),
    }
}

/// The reading of the current snapshot file that has done nothing yet.
pub open spec fn current_read_start(remote_root: Seq<char>) -> CurrentReadModel {
    CurrentReadModel::Reading { remote_root }
}

/// Starts to read the current snapshot file. The outcome is `None` where there
/// is no such file.
pub fn read_current_sync_snapshot_compat(remote_root: &str) -> (r: CurrentReadRun)
    ensures
        r@ == (CurrentReadModel::Reading { remote_root: remote_root@ }),
        r@ == current_read_start(remote_root@),
{
    CurrentReadRun::Reading { remote_root: remote_root.to_owned() }
}

impl CurrentReadRun {
    /// The action that the run waits for.
    pub fn action<'a>(&'a self) -> (r: SyncAction<'a>)
        ensures
            r@ == self@.action(),
    {
        match self {
            CurrentReadRun::Reading { remote_root } => SyncAction::Read {
                path: remote::sync_current_path(remote_root.as_str()),
            },
            CurrentReadRun::Decoding(decode) => decode.action(),
        }
    }

    /// What the reply makes of the run.
    pub fn step(self, reply: SyncReply) -> (r: Progress<
        CurrentReadRun,
        AppResult<Option<PortableSnapshot>>,
    >)
        ensures
            current_read_progress(r) == self@.step(reply@),
    {
        match self {
            CurrentReadRun::Reading { remote_root } => match reply {
                SyncReply::Failed(error) => Progress::Done(Err(error)),
                SyncReply::File(None) => Progress::Done(Ok(None)),
                SyncReply::File(Some(raw)) => Progress::Pending(
                    CurrentReadRun::Decoding(decode_remote_sync_snapshot(raw, "current")),
                ),
                _ => Progress::Pending(CurrentReadRun::Reading { remote_root }),
            },
            CurrentReadRun::Decoding(decode) => match decode.step(reply) {
                Progress::Pending(next) => Progress::Pending(CurrentReadRun::Decoding(next)),
                Progress::Done(Ok(snapshot)) => Progress::Done(Ok(Some(snapshot))),
                Progress::Done(Err(error)) => Progress::Done(Err(error)),
            },
        }
    }
}

/// The reading of the snapshot that a pointer names.
#[derive(Debug)]
pub enum PointerReadRun {
    Reading { remote_root: String, pointer: RemoteSyncPointer },
    Decoding { pointer: RemoteSyncPointer, decode: DecodeRun },
}

/// Mathematical value of a [`PointerReadRun`].
pub enum PointerReadModel {
    Reading { remote_root: Seq<char>, pointer: PointerModel },
    Decoding { pointer: PointerModel, decode: DecodeModel },
}

impl View for PointerReadRun {
    type V = PointerReadModel;

    open spec fn view(&self) -> PointerReadModel {
        match *self {
            PointerReadRun::Reading { remote_root, pointer } => PointerReadModel::Reading {
                remote_root: remote_root@,
                pointer: pointer@,
            },
            PointerReadRun::Decoding { pointer, decode } => PointerReadModel::Decoding {
                pointer: pointer@,
                decode: decode@,
            },
        }
    }
}

impl SyncProgram for PointerReadModel {
    type Outcome = Result<SnapshotModel, AppErrorModel>;

    open spec fn action(self) -> SyncActionModel {
        match self {
            PointerReadModel::Reading { remote_root, pointer } => SyncActionModel::Read {
                path: remote::snapshot_path_model(remote_root, pointer.revision_id),
            },
            PointerReadModel::Decoding { decode, .. } => decode.action(),
        }
    }

    open spec fn step(self, reply: SyncReplyModel) -> Progress<
        PointerReadModel,
        Result<SnapshotModel, AppErrorModel>,
    > {
        match self {
            PointerReadModel::Reading { pointer, .. } => match reply {
                SyncReplyModel::Failed(error) => Progress::Done(Err(error)),
                SyncReplyModel::File(None) => Progress::Done(
                    Err(snapshot_missing(pointer.revision_id)),
                ),
                SyncReplyModel::File(Some(raw)) => Progress::Pending(
                    PointerReadModel::Decoding {
                        pointer,
                        decode: DecodeModel::Decrypting { revision: pointer.revision_id, raw },
                    },
                ),
                _ => Progress::Pending(self),
            },
            PointerReadModel::Decoding { pointer, decode } => match decode.step(reply) {
                Progress::Pending(next) => Progress::Pending(
                    PointerReadModel::Decoding { pointer, decode: next },
                ),
                Progress::Done(Ok(snapshot)) => match validation(pointer, snapshot) {
                    Ok(_) => Progress::Done(Ok(snapshot)),
                    Err(error) => Progress::Done(Err(error)),
                },
                Progress::Done(Err(error)) => Progress::Done(Err(error)),
            },
        }
    }
}

/// The reading of the snapshot that a pointer names that has done nothing yet.
pub open spec fn pointer_read_start(remote_root: Seq<char>, pointer: PointerModel) -> PointerReadModel {
    PointerReadModel::Reading { remote_root, pointer }
}

/// Starts to read the snapshot that `pointer` names. The outcome is a snapshot
/// that the pointer agrees with.
pub fn read_snapshot_for_pointer(remote_root: &str, pointer: &RemoteSyncPointer) -> (r:
    PointerReadRun)
    ensures
        r@ == (PointerReadModel::Reading { remote_root: remote_root@, pointer: pointer@ }),
        r@ == pointer_read_start(remote_root@, pointer@),
{
    PointerReadRun::Reading { remote_root: remote_root.to_owned(), pointer: pointer.copy() }
}

/// Starts to check that the snapshot that `pointer` names has arrived: it is
/// read back.
pub fn verify_uploaded_sync_snapshot(remote_root: &str, pointer: &RemoteSyncPointer) -> (r:
    PointerReadRun)
    ensures
        r@ == (PointerReadModel::Reading { remote_root: remote_root@, pointer: pointer@ }),
        r@ == pointer_read_start(remote_root@, pointer@),
{
    read_snapshot_for_pointer(remote_root, pointer)
}

impl PointerReadRun {
    /// The action that the run waits for.
    pub fn action<'a>(&'a self) -> (r: SyncAction<'a>)
        ensures
            r@ == self@.action(),
    {
        match self {
            PointerReadRun::Reading { remote_root, pointer } => SyncAction::Read {
                path: sync_snapshot_path(remote_root.as_str(), pointer.revision_id.as_str()),
            },
            PointerReadRun::Decoding { decode, .. } => decode.action(),
        }
    }

    /// What the reply makes of the run.
    pub fn step(self, reply: SyncReply) -> (r: Progress<
        PointerReadRun,
        AppResult<PortableSnapshot>,
    >)
        ensures
            r@ == self@.step(reply@),
    {
        match self {
            PointerReadRun::Reading { remote_root, pointer } => match reply {
                SyncReply::Failed(error) => Progress::Done(Err(error)),
                SyncReply::File(None) => Progress::Done(
                    Err(
                        AppError::CloudSync(
                            CloudSyncError::SnapshotMissing { revision: pointer.revision_id },
                        ),
                    ),
                ),
                SyncReply::File(Some(raw)) => {
                    let decode = decode_remote_sync_snapshot(raw, pointer.revision_id.as_str());
                    Progress::Pending(PointerReadRun::Decoding { pointer, decode })
                },
                _ => Progress::Pending(PointerReadRun::Reading { remote_root, pointer }),
            },
            PointerReadRun::Decoding { pointer, decode } => match decode.step(reply) {
                Progress::Pending(next) => Progress::Pending(
                    PointerReadRun::Decoding { pointer, decode: next },
                ),
                Progress::Done(Ok(snapshot)) => match validate_snapshot_against_pointer(
                    &pointer,
                    &snapshot,
                ) {
                    Ok(_) => Progress::Done(Ok(snapshot)),
                    Err(error) => Progress::Done(Err(error)),
                },
                Progress::Done(Err(error)) => Progress::Done(Err(error)),
            },
        }
    }
}

// Writing of snapshots.

/// The writing of a snapshot to the file at `path`.
#[derive(Debug)]
pub enum StoreRun {
    Encoding { path: String, snapshot: PortableSnapshot },
    Encrypting { path: String, encoded: Vec<u8> },
    Writing { path: String, encrypted: Vec<u8> },
}

/// Mathematical value of a [`StoreRun`].
pub enum StoreModel {
    Encoding { path: Seq<char>, snapshot: SnapshotModel },
    Encrypting { path: Seq<char>, encoded: Seq<u8> },
    Writing { path: Seq<char>, encrypted: Seq<u8> },
}

impl View for StoreRun {
    type V = StoreModel;

    open spec fn view(&self) -> StoreModel {
        match *self {
            StoreRun::Encoding { path, snapshot } => StoreModel::Encoding {
                path: path@,
                snapshot: snapshot@,
            },
            StoreRun::Encrypting { path, encoded } => StoreModel::Encrypting {
                path: path@,
                encoded: encoded@,
            },
            StoreRun::Writing { path, encrypted } => StoreModel::Writing {
                path: path@,
                encrypted: encrypted@,
            },
        }
    }
}

impl SyncProgram for StoreModel {
    type Outcome = Result<(), AppErrorModel>;

    open spec fn action(self) -> SyncActionModel {
        match self {
            StoreModel::Encoding { snapshot, .. } => SyncActionModel::Encode { snapshot },
            StoreModel::Encrypting { encoded, .. } => SyncActionModel::Encrypt { bytes: encoded },
            StoreModel::Writing { path, encrypted } => SyncActionModel::Write {
                path,
                bytes: encrypted,
            },
        }
    }

    open spec fn step(self, reply: SyncReplyModel) -> Progress<
        StoreModel,
        Result<(), AppErrorModel>,
    > {
        match (self, reply) {
            (_, SyncReplyModel::Failed(error)) => Progress::Done(Err(error)),
            (StoreModel::Encoding { path, .. }, SyncReplyModel::Bytes(encoded)) =>
                Progress::Pending(StoreModel::Encrypting { path, encoded }),
            (StoreModel::Encrypting { path, .. }, SyncReplyModel::Bytes(encrypted)) =>
                Progress::Pending(StoreModel::Writing { path, encrypted }),
            (StoreModel::Writing { .. }, SyncReplyModel::Written) => Progress::Done(Ok(())),
            _ => Progress::Pending(self),
        }
    }
}

/// The writing of a snapshot to the snapshot file of its revision that has done
/// nothing yet.
pub open spec fn upload_start(remote_root: Seq<char>, snapshot: SnapshotModel) -> StoreModel {
    StoreModel::Encoding {
        path: remote::snapshot_path_model(remote_root, snapshot.revision_id),
        snapshot,
    }
}

/// The writing of a snapshot to the current snapshot file that has done nothing
/// yet.
pub open spec fn current_store_start(remote_root: Seq<char>, snapshot: SnapshotModel) -> StoreModel {
    StoreModel::Encoding { path: remote::current_path_model(remote_root), snapshot }
}

/// Starts to write `snapshot` to the snapshot file of its revision.
pub fn upload_sync_snapshot(remote_root: &str, snapshot: &PortableSnapshot) -> (r: StoreRun)
    ensures
        r@ == (StoreModel::Encoding {
            path: remote::snapshot_path_model(remote_root@, snapshot.revision_id@),
            snapshot: snapshot@,
        }),
        r@ == upload_start(remote_root@, snapshot@),
{
    StoreRun::Encoding {
        path: sync_snapshot_path(remote_root, snapshot.revision_id.as_str()),
        snapshot: snapshot.copy(),
    }
}

/// Starts to write `snapshot` to the current snapshot file.
pub fn write_current_sync_snapshot_compat(remote_root: &str, snapshot: &PortableSnapshot) -> (r:
    StoreRun)
    ensures
        r@ == (StoreModel::Encoding {
            path: remote::current_path_model(remote_root@),
            snapshot: snapshot@,
        }),
        r@ == current_store_start(remote_root@, snapshot@),
{
    StoreRun::Encoding {
        path: remote::sync_current_path(remote_root),
        snapshot: snapshot.copy(),
    }
}

impl StoreRun {
    /// The action that the run waits for.
    pub fn action<'a>(&'a self) -> (r: SyncAction<'a>)
        ensures
            r@ == self@.action(),
    {
        match self {
            StoreRun::Encoding { snapshot, .. } => SyncAction::Encode { snapshot },
            StoreRun::Encrypting { encoded, .. } => SyncAction::Encrypt { bytes: encoded },
            StoreRun::Writing { path, encrypted } => SyncAction::Write {
                path: path.clone(),
                bytes: encrypted,
            },
        }
    }

    /// What the reply makes of the run.
    pub fn step(self, reply: SyncReply) -> (r: Progress<StoreRun, AppResult<()>>)
        ensures
            r@ == self@.step(reply@),
    {
        match (self, reply) {
            (_, SyncReply::Failed(error)) => Progress::Done(Err(error)),
            (StoreRun::Encoding { path, .. }, SyncReply::Bytes(encoded)) => Progress::Pending(
                StoreRun::Encrypting { path, encoded },
            ),
            (StoreRun::Encrypting { path, .. }, SyncReply::Bytes(encrypted)) => Progress::Pending(
                StoreRun::Writing { path, encrypted },
            ),
            (StoreRun::Writing { .. }, SyncReply::Written) => Progress::Done(Ok(())),
            (run, _) => Progress::Pending(run),
        }
    }
}

// The head.

/// The commit of a pointer: the write of the pointer file.
#[derive(Debug)]
pub struct CommitRun {
    pub remote_root: String,
    pub pointer: RemoteSyncPointer,
}

/// Mathematical value of a [`CommitRun`].
pub struct CommitModel {
    pub remote_root: Seq<char>,
    pub pointer: PointerModel,
}

impl View for CommitRun {
    type V = CommitModel;

    open spec fn view(&self) -> CommitModel {
        CommitModel { remote_root: self.remote_root@, pointer: self.pointer@ }
    }
}

impl SyncProgram for CommitModel {
    type Outcome = Result<(), AppErrorModel>;

    open spec fn action(self) -> SyncActionModel {
        SyncActionModel::WritePointer {
            path: remote::pointer_path_model(self.remote_root),
            pointer: self.pointer,
        }
    }

    open spec fn step(self, reply: SyncReplyModel) -> Progress<
        CommitModel,
        Result<(), AppErrorModel>,
    > {
        match reply {
            SyncReplyModel::Failed(error) => Progress::Done(Err(error)),
            SyncReplyModel::Written => Progress::Done(Ok(())),
            _ => Progress::Pending(self),
        }
    }
}

/// The commit of a pointer that has done nothing yet.
pub open spec fn commit_start(remote_root: Seq<char>, pointer: PointerModel) -> CommitModel {
    CommitModel { remote_root, pointer }
}

/// Starts to make `pointer` the head.
pub fn commit_sync_pointer(remote_root: &str, pointer: &RemoteSyncPointer) -> (r: CommitRun)
    ensures
        r@ == (CommitModel { remote_root: remote_root@, pointer: pointer@ }),
        r@ == commit_start(remote_root@, pointer@),
{
    CommitRun { remote_root: remote_root.to_owned(), pointer: pointer.copy() }
}

impl CommitRun {
    /// The action that the run waits for.
    pub fn action<'a>(&'a self) -> (r: SyncAction<'a>)
        ensures
            r@ == self@.action(),
    {
        SyncAction::WritePointer {
            path: remote::sync_pointer_path(self.remote_root.as_str()),
            pointer: &self.pointer,
        }
    }

    /// What the reply makes of the run.
    pub fn step(self, reply: SyncReply) -> (r: Progress<CommitRun, AppResult<()>>)
        ensures
            r@ == self@.step(reply@),
    {
        match reply {
            SyncReply::Failed(error) => Progress::Done(Err(error)),
            SyncReply::Written => Progress::Done(Ok(())),
            _ => Progress::Pending(self),
        }
    }
}

/// The check that the head is still the revision that an update started from.
#[derive(Debug)]
pub struct HeadCheckRun {
    pub remote_root: String,
    pub expected_revision: Option<String>,
}

/// Mathematical value of a [`HeadCheckRun`].
pub struct HeadCheckModel {
    pub remote_root: Seq<char>,
    pub expected_revision: Option<Seq<char>>,
}

/// The revision that an optional pointer names.
pub open spec fn revision_of(pointer: Option<PointerModel>) -> Option<Seq<char>> {
    match pointer {
        Some(p) => Some(p.revision_id),
        None => None,
    }
}

impl View for HeadCheckRun {
    type V = HeadCheckModel;

    open spec fn view(&self) -> HeadCheckModel {
        HeadCheckModel {
            remote_root: self.remote_root@,
            expected_revision: self.expected_revision.deep_view(),
        }
    }
}

impl SyncProgram for HeadCheckModel {
    type Outcome = Result<(), AppErrorModel>;

    open spec fn action(self) -> SyncActionModel {
        SyncActionModel::LoadPointer { path: remote::pointer_path_model(self.remote_root) }
    }

    open spec fn step(self, reply: SyncReplyModel) -> Progress<
        HeadCheckModel,
        Result<(), AppErrorModel>,
    > {
        match reply {
            SyncReplyModel::Failed(error) => Progress::Done(Err(error)),
            SyncReplyModel::Pointer(actual) => if self.expected_revision == revision_of(actual) {
                Progress::Done(Ok(()))
            } else {
                Progress::Done(
                    Err(
                        AppErrorModel::CloudSync(
                            CloudSyncErrorModel::ConcurrentUpdate {
                                expected_revision: self.expected_revision,
                                actual_revision: revision_of(actual),
                            },
                        ),
                    ),
                )
            },
            _ => Progress::Pending(self),
        }
    }
}

/// The check of the head that has done nothing yet. `expected` is the pointer that
/// an update started from, if there was one.
pub open spec fn head_check_start(
    remote_root: Seq<char>,
    expected: Option<PointerModel>,
) -> HeadCheckModel {
    HeadCheckModel { remote_root, expected_revision: revision_of(expected) }
}

/// Starts to check that the head is still what `expected` names, or that there
/// still is no head.
pub fn ensure_remote_head_unchanged(
    remote_root: &str,
    expected: Option<&RemoteSyncPointer>,
) -> (r: HeadCheckRun)
    ensures
        r@ == (HeadCheckModel {
            remote_root: remote_root@,
            expected_revision: match expected {
                Some(pointer) => Some(pointer.revision_id@),
                None => None,
            },
        }),
        r@ == head_check_start(
            remote_root@,
            match expected {
                Some(pointer) => Some(pointer@),
                None => None,
            },
        ),
{
    let expected_revision = match expected {
        Some(pointer) => Some(pointer.revision_id.clone()),
        None => None,
    };
    HeadCheckRun { remote_root: remote_root.to_owned(), expected_revision }
}

impl HeadCheckRun {
    /// The action that the run waits for.
    pub fn action<'a>(&'a self) -> (r: SyncAction<'a>)
        ensures
            r@ == self@.action(),
    {
        SyncAction::LoadPointer { path: remote::sync_pointer_path(self.remote_root.as_str()) }
    }

    /// What the reply makes of the run.
    pub fn step(self, reply: SyncReply) -> (r: Progress<HeadCheckRun, AppResult<()>>)
        ensures
            r@ == self@.step(reply@),
    {
        match reply {
            SyncReply::Failed(error) => Progress::Done(Err(error)),
            SyncReply::Pointer(actual) => {
                let actual_revision = match actual {
                    Some(pointer) => Some(pointer.revision_id),
                    None => None,
                };
                if same_label(&self.expected_revision, &actual_revision) {
                    Progress::Done(Ok(()))
                } else {
                    Progress::Done(
                        Err(
                            AppError::CloudSync(
                                CloudSyncError::ConcurrentUpdate {
                                    expected_revision: self.expected_revision,
                                    actual_revision,
                                },
                            ),
                        ),
                    )
                }
            },
            _ => Progress::Pending(self),
        }
    }
}

} // verus!
