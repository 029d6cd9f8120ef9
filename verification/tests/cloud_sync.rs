//! The sync protocol against a remote store in memory.

use nyaterm::cloud_sync::migration::{
    migrate_legacy_snapshot, recover_current_remote_snapshot, resolve_remote_snapshot, MigrateRun,
    RecoverRun, RemoteSnapshotResolution, ResolveRun,
};
use nyaterm::cloud_sync::protocol::{
    commit_sync_pointer, decode_remote_sync_snapshot, ensure_remote_head_unchanged,
    pointer_from_snapshot, read_current_sync_snapshot_compat, read_snapshot_for_pointer,
    sync_snapshot_file, sync_snapshot_path, upload_sync_snapshot,
    validate_snapshot_against_pointer, verify_uploaded_sync_snapshot,
    write_current_sync_snapshot_compat, CommitRun, CurrentReadRun, DecodeRun, HeadCheckRun,
    PointerReadRun, StoreRun, SyncAction, SyncReply,
};
use nyaterm::cloud_sync::remote::{
    remote_path, sync_current_path, sync_pointer_path, REMOTE_SYNC_POINTER_SCHEMA_VERSION,
    SYNC_CURRENT_FILE, SYNC_POINTER_FILE,
};
use nyaterm::cloud_sync::snapshot::{PortableSnapshot, RemoteSyncPointer};
use nyaterm::error::{AppError, AppResult, CloudSyncError};
use nyaterm::progress::Progress;
use std::collections::HashMap;

trait Run: Sized {
    type Outcome;
    fn pending(&self) -> SyncAction<'_>;
    fn answer(self, reply: SyncReply) -> Progress<Self, Self::Outcome>;
}

impl Run for DecodeRun {
    type Outcome = AppResult<PortableSnapshot>;
    fn pending(&self) -> SyncAction<'_> {
        self.action()
    }
    fn answer(self, reply: SyncReply) -> Progress<Self, Self::Outcome> {
        self.step(reply)
    }
}

impl Run for CurrentReadRun {
    type Outcome = AppResult<Option<PortableSnapshot>>;
    fn pending(&self) -> SyncAction<'_> {
        self.action()
    }
    fn answer(self, reply: SyncReply) -> Progress<Self, Self::Outcome> {
        self.step(reply)
    }
}

impl Run for PointerReadRun {
    type Outcome = AppResult<PortableSnapshot>;
    fn pending(&self) -> SyncAction<'_> {
        self.action()
    }
    fn answer(self, reply: SyncReply) -> Progress<Self, Self::Outcome> {
        self.step(reply)
    }
}

impl Run for StoreRun {
    type Outcome = AppResult<()>;
    fn pending(&self) -> SyncAction<'_> {
        self.action()
    }
    fn answer(self, reply: SyncReply) -> Progress<Self, Self::Outcome> {
        self.step(reply)
    }
}

impl Run for CommitRun {
    type Outcome = AppResult<()>;
    fn pending(&self) -> SyncAction<'_> {
        self.action()
    }
    fn answer(self, reply: SyncReply) -> Progress<Self, Self::Outcome> {
        self.step(reply)
    }
}

impl Run for HeadCheckRun {
    type Outcome = AppResult<()>;
    fn pending(&self) -> SyncAction<'_> {
        self.action()
    }
    fn answer(self, reply: SyncReply) -> Progress<Self, Self::Outcome> {
        self.step(reply)
    }
}

impl Run for MigrateRun {
    type Outcome = AppResult<()>;
    fn pending(&self) -> SyncAction<'_> {
        self.action()
    }
    fn answer(self, reply: SyncReply) -> Progress<Self, Self::Outcome> {
        self.step(reply)
    }
}

impl Run for ResolveRun {
    type Outcome = AppResult<RemoteSnapshotResolution>;
    fn pending(&self) -> SyncAction<'_> {
        self.action()
    }
    fn answer(self, reply: SyncReply) -> Progress<Self, Self::Outcome> {
        self.step(reply)
    }
}

impl Run for RecoverRun {
    type Outcome = AppResult<PortableSnapshot>;
    fn pending(&self) -> SyncAction<'_> {
        self.action()
    }
    fn answer(self, reply: SyncReply) -> Progress<Self, Self::Outcome> {
        self.step(reply)
    }
}

/// A remote store in memory, and a toy codec.
#[derive(Default)]
struct Memory {
    files: HashMap<String, Vec<u8>>,
    failing_write: Option<String>,
    failing_read: Option<String>,
    writes: Vec<String>,
}

fn put(output: &mut Vec<u8>, field: &[u8]) {
    output.extend_from_slice(&(field.len() as u32).to_be_bytes());
    output.extend_from_slice(field);
}

fn take(input: &mut &[u8]) -> Option<Vec<u8>> {
    if input.len() < 4 {
        return None;
    }
    let length = u32::from_be_bytes([input[0], input[1], input[2], input[3]]) as usize;
    let rest = &input[4..];
    if rest.len() < length {
        return None;
    }
    let field = rest[..length].to_vec();
    *input = &rest[length..];
    Some(field)
}

fn text(field: Vec<u8>) -> Option<String> {
    String::from_utf8(field).ok()
}

fn number(field: Vec<u8>) -> Option<u64> {
    Some(u64::from_be_bytes(field.try_into().ok()?))
}

fn encode(snapshot: &PortableSnapshot) -> Vec<u8> {
    let mut output = Vec::new();
    put(&mut output, &(snapshot.schema_version as u64).to_be_bytes());
    put(&mut output, snapshot.revision_id.as_bytes());
    put(&mut output, snapshot.device_id.as_bytes());
    put(&mut output, &snapshot.created_at_ms.to_be_bytes());
    put(&mut output, snapshot.payload_hash.as_bytes());
    put(&mut output, snapshot.app_version.as_bytes());
    put(&mut output, &snapshot.body);
    output
}

fn decode(mut input: &[u8]) -> Option<PortableSnapshot> {
    Some(PortableSnapshot {
        schema_version: number(take(&mut input)?)? as u32,
        revision_id: text(take(&mut input)?)?,
        device_id: text(take(&mut input)?)?,
        created_at_ms: number(take(&mut input)?)?,
        payload_hash: text(take(&mut input)?)?,
        app_version: text(take(&mut input)?)?,
        body: take(&mut input)?,
    })
}

fn encode_pointer(pointer: &RemoteSyncPointer) -> Vec<u8> {
    let mut output = Vec::new();
    put(&mut output, &(pointer.schema_version as u64).to_be_bytes());
    put(&mut output, pointer.revision_id.as_bytes());
    put(&mut output, &pointer.created_at_ms.to_be_bytes());
    put(&mut output, pointer.payload_hash.as_bytes());
    put(&mut output, pointer.device_id.as_bytes());
    put(&mut output, pointer.app_version.as_bytes());
    output
}

fn decode_pointer(mut input: &[u8]) -> Option<RemoteSyncPointer> {
    Some(RemoteSyncPointer {
        schema_version: number(take(&mut input)?)? as u32,
        revision_id: text(take(&mut input)?)?,
        created_at_ms: number(take(&mut input)?)?,
        payload_hash: text(take(&mut input)?)?,
        device_id: text(take(&mut input)?)?,
        app_version: text(take(&mut input)?)?,
    })
}

fn encrypt(bytes: &[u8]) -> Vec<u8> {
    let mut output = vec![0x4e];
    output.extend(bytes.iter().map(|byte| byte ^ 0x5a));
    output
}

fn decrypt(bytes: &[u8]) -> Option<Vec<u8>> {
    match bytes.split_first() {
        Some((0x4e, rest)) => Some(rest.iter().map(|byte| byte ^ 0x5a).collect()),
        _ => None,
    }
}

impl Memory {
    fn fail_next_write_containing(&mut self, part: &str) {
        self.failing_write = Some(part.to_string());
    }

    fn write(&mut self, path: &str, bytes: Vec<u8>) -> SyncReply {
        if let Some(part) = &self.failing_write {
            if path.contains(part.as_str()) {
                self.failing_write = None;
                return SyncReply::Failed(AppError::Other("write failed".to_string()));
            }
        }
        self.writes.push(path.to_string());
        self.files.insert(path.to_string(), bytes);
        SyncReply::Written
    }

    fn perform(&mut self, action: SyncAction<'_>) -> SyncReply {
        let broken = || SyncReply::Failed(AppError::Other("broken".to_string()));
        match action {
            SyncAction::Read { path } => {
                if let Some(part) = &self.failing_read {
                    if path.contains(part.as_str()) {
                        return SyncReply::Failed(AppError::Other("read failed".to_string()));
                    }
                }
                SyncReply::File(self.files.get(&path).cloned())
            }
            SyncAction::Write { path, bytes } => self.write(&path, bytes.clone()),
            SyncAction::Encode { snapshot } => SyncReply::Bytes(encode(snapshot)),
            SyncAction::Encrypt { bytes } => SyncReply::Bytes(encrypt(bytes)),
            SyncAction::Decrypt { bytes } => match decrypt(bytes) {
                Some(bytes) => SyncReply::Bytes(bytes),
                None => broken(),
            },
            SyncAction::Decode { bytes } => match decode(bytes) {
                Some(snapshot) => SyncReply::Snapshot(snapshot),
                None => broken(),
            },
            SyncAction::LoadPointer { path } => match self.files.get(&path) {
                None => SyncReply::Pointer(None),
                Some(bytes) => match decode_pointer(bytes) {
                    Some(pointer) => SyncReply::Pointer(Some(pointer)),
                    None => broken(),
                },
            },
            SyncAction::WritePointer { path, pointer } => {
                let bytes = encode_pointer(pointer);
                self.write(&path, bytes)
            }
        }
    }

    fn drive<R: Run>(&mut self, mut run: R) -> R::Outcome {
        loop {
            let reply = self.perform(run.pending());
            match run.answer(reply) {
                Progress::Pending(next) => run = next,
                Progress::Done(outcome) => return outcome,
            }
        }
    }

    fn latest(&self) -> Option<RemoteSyncPointer> {
        let bytes = self.files.get(&sync_pointer_path("nyaterm"))?;
        decode_pointer(bytes)
    }

    fn upload(&mut self, snapshot: &PortableSnapshot) -> AppResult<()> {
        self.drive(upload_sync_snapshot("nyaterm", snapshot))
    }

    fn commit(&mut self, pointer: &RemoteSyncPointer) -> AppResult<()> {
        self.drive(commit_sync_pointer("nyaterm", pointer))
    }

    fn write_committed_snapshot(&mut self, revision_id: &str) -> RemoteSyncPointer {
        let snapshot = sample_snapshot(revision_id, 1);
        let pointer = pointer_from_snapshot(&snapshot);
        self.upload(&snapshot).expect("upload snapshot");
        self.commit(&pointer).expect("commit pointer");
        pointer
    }
}

fn sample_snapshot(revision_id: &str, created_at_ms: u64) -> PortableSnapshot {
    PortableSnapshot {
        schema_version: 3,
        revision_id: revision_id.to_string(),
        device_id: "device".to_string(),
        created_at_ms,
        payload_hash: format!("hash of {} at {}", revision_id, created_at_ms),
        app_version: "test".to_string(),
        body: b"settings".to_vec(),
    }
}

fn is_missing(error: &AppError, expected: &str) -> bool {
    matches!(
        error,
        AppError::CloudSync(CloudSyncError::SnapshotMissing { revision }) if revision == expected
    )
}

fn is_corrupted(error: &AppError, expected: &str) -> bool {
    matches!(
        error,
        AppError::CloudSync(CloudSyncError::CorruptedSnapshot { revision }) if revision == expected
    )
}

#[test]
fn snapshot_upload_failure_leaves_latest_unchanged() {
    let mut memory = Memory::default();
    let old_pointer = memory.write_committed_snapshot("r1");
    memory.fail_next_write_containing("snapshots/r2");

    let new_snapshot = sample_snapshot("r2", 2);
    let result = memory.upload(&new_snapshot);

    assert!(result.is_err());
    let latest = memory.latest().expect("latest");
    assert_eq!(latest.revision_id, old_pointer.revision_id);
}

#[test]
fn pointer_write_failure_keeps_old_revision_readable() {
    let mut memory = Memory::default();
    let old_pointer = memory.write_committed_snapshot("r1");
    let new_snapshot = sample_snapshot("r2", 2);
    let new_pointer = pointer_from_snapshot(&new_snapshot);

    memory.upload(&new_snapshot).expect("upload new snapshot");
    memory.fail_next_write_containing("latest.redb");
    let result = memory.commit(&new_pointer);

    assert!(result.is_err());
    let old_snapshot = memory
        .drive(read_snapshot_for_pointer("nyaterm", &old_pointer))
        .expect("old snapshot readable");
    assert_eq!(old_snapshot.revision_id, "r1");
}

#[test]
fn current_pointer_mismatch_returns_inconsistent_resolution() {
    let mut memory = Memory::default();
    let pointer = pointer_from_snapshot(&sample_snapshot("r1", 1));
    memory.commit(&pointer).expect("commit pointer");
    memory
        .drive(write_current_sync_snapshot_compat("nyaterm", &sample_snapshot("r2", 2)))
        .expect("write current");

    let resolution = memory
        .drive(resolve_remote_snapshot("nyaterm", &pointer))
        .expect("resolve remote");

    match resolution {
        RemoteSnapshotResolution::Inconsistent { pointer, recovery_candidate } => {
            assert_eq!(pointer.revision_id, "r1");
            assert_eq!(recovery_candidate.revision_id, "r2");
        }
        _ => panic!("expected inconsistent remote"),
    }
}

#[test]
fn new_protocol_reads_latest_snapshot() {
    let mut memory = Memory::default();
    let pointer = memory.write_committed_snapshot("r2");

    let snapshot = memory
        .drive(read_snapshot_for_pointer("nyaterm", &pointer))
        .expect("read snapshot");

    assert_eq!(snapshot.revision_id, "r2");
}

#[test]
fn legacy_current_is_migrated_to_snapshot_path() {
    let mut memory = Memory::default();
    let snapshot = sample_snapshot("r1", 1);
    let pointer = pointer_from_snapshot(&snapshot);
    memory.commit(&pointer).expect("commit pointer");
    memory
        .drive(write_current_sync_snapshot_compat("nyaterm", &snapshot))
        .expect("write current");

    let resolution = memory
        .drive(resolve_remote_snapshot("nyaterm", &pointer))
        .expect("resolve legacy");

    assert!(matches!(resolution, RemoteSnapshotResolution::LegacyMigrated(_)));
    assert!(memory.files.contains_key(&remote_path("nyaterm", &sync_snapshot_file("r1"))));
}

#[test]
fn concurrent_update_is_detected_before_pointer_commit() {
    let mut memory = Memory::default();
    let base_pointer = memory.write_committed_snapshot("r1");
    let next_pointer = pointer_from_snapshot(&sample_snapshot("r2", 2));
    memory.commit(&next_pointer).expect("commit competing pointer");

    let result = memory.drive(ensure_remote_head_unchanged("nyaterm", Some(&base_pointer)));

    assert!(matches!(
        result,
        Err(AppError::CloudSync(CloudSyncError::ConcurrentUpdate { .. }))
    ));
    let latest = memory.latest().expect("latest");
    assert_eq!(latest.revision_id, "r2");
}

#[test]
fn pointer_snapshot_hash_mismatch_is_rejected() {
    let snapshot = sample_snapshot("r1", 1);
    let mut pointer = pointer_from_snapshot(&snapshot);
    pointer.payload_hash = "wrong".to_string();

    let result = validate_snapshot_against_pointer(&pointer, &snapshot);

    assert!(matches!(
        result,
        Err(AppError::CloudSync(CloudSyncError::HashMismatch { .. }))
    ));
}

#[test]
fn mismatches_name_both_sides_and_revisions_come_first() {
    let snapshot = sample_snapshot("r1", 1);
    let mut pointer = pointer_from_snapshot(&snapshot);
    assert!(validate_snapshot_against_pointer(&pointer, &snapshot).is_ok());

    pointer.payload_hash = "wrong".to_string();
    match validate_snapshot_against_pointer(&pointer, &snapshot) {
        Err(AppError::CloudSync(CloudSyncError::HashMismatch { expected, actual })) => {
            assert_eq!(expected, "wrong");
            assert_eq!(actual, "hash of r1 at 1");
        }
        other => panic!("unexpected {:?}", other),
    }

    pointer.revision_id = "r9".to_string();
    match validate_snapshot_against_pointer(&pointer, &snapshot) {
        Err(AppError::CloudSync(CloudSyncError::RevisionMismatch {
            pointer_revision,
            snapshot_revision,
        })) => {
            assert_eq!(pointer_revision, "r9");
            assert_eq!(snapshot_revision, "r1");
        }
        other => panic!("unexpected {:?}", other),
    }
}

#[test]
fn pointer_takes_over_what_identifies_the_snapshot() {
    let pointer = pointer_from_snapshot(&sample_snapshot("r7", 42));
    assert_eq!(pointer.schema_version, REMOTE_SYNC_POINTER_SCHEMA_VERSION);
    assert_eq!(pointer.revision_id, "r7");
    assert_eq!(pointer.created_at_ms, 42);
    assert_eq!(pointer.payload_hash, "hash of r7 at 42");
    assert_eq!(pointer.device_id, "device");
    assert_eq!(pointer.app_version, "test");
}

#[test]
fn paths_lie_below_the_root_and_do_not_collide() {
    assert_eq!(sync_snapshot_file("r2"), "snapshots/r2.redb");
    assert_eq!(sync_snapshot_path("nyaterm", "r2"), "nyaterm/snapshots/r2.redb");
    assert_eq!(remote_path("a/b", "c"), "a/b/c");
    assert_eq!(sync_pointer_path("nyaterm"), format!("nyaterm/{}", SYNC_POINTER_FILE));
    assert_eq!(sync_current_path("nyaterm"), format!("nyaterm/{}", SYNC_CURRENT_FILE));
    assert_ne!(sync_snapshot_path("nyaterm", "r1"), sync_snapshot_path("nyaterm", "r2"));
    assert_ne!(sync_pointer_path("nyaterm"), sync_current_path("nyaterm"));
}

#[test]
fn upload_writes_one_file_and_is_read_back_whole() {
    let mut memory = Memory::default();
    let mut snapshot = sample_snapshot("r1", 1);
    snapshot.body = vec![0, 255, 7];
    memory.upload(&snapshot).expect("upload");
    assert_eq!(memory.writes, vec!["nyaterm/snapshots/r1.redb".to_string()]);

    let pointer = pointer_from_snapshot(&snapshot);
    let read = memory
        .drive(verify_uploaded_sync_snapshot("nyaterm", &pointer))
        .expect("read back");
    assert_eq!(read.body, vec![0, 255, 7]);
    assert_eq!(read.schema_version, 3);
    assert_eq!(read.payload_hash, "hash of r1 at 1");
    assert!(memory.latest().is_none());
}

#[test]
fn stored_snapshot_is_encoded_and_encrypted() {
    let mut memory = Memory::default();
    let snapshot = sample_snapshot("r1", 1);
    memory.upload(&snapshot).expect("upload");
    assert_eq!(memory.files["nyaterm/snapshots/r1.redb"], encrypt(&encode(&snapshot)));
}

#[test]
fn missing_snapshot_is_reported_with_its_revision() {
    let mut memory = Memory::default();
    let pointer = pointer_from_snapshot(&sample_snapshot("r5", 1));
    let error = memory
        .drive(read_snapshot_for_pointer("nyaterm", &pointer))
        .expect_err("nothing there");
    assert!(is_missing(&error, "r5"));

    let error = memory
        .drive(resolve_remote_snapshot("nyaterm", &pointer))
        .expect_err("nothing there");
    assert!(is_missing(&error, "r5"));
}

#[test]
fn read_refuses_a_snapshot_that_does_not_fit_the_pointer() {
    let mut memory = Memory::default();
    let pointer = pointer_from_snapshot(&sample_snapshot("r1", 1));
    let path = "nyaterm/snapshots/r1.redb".to_string();
    memory.files.insert(path.clone(), encrypt(&encode(&sample_snapshot("r2", 1))));
    let error = memory
        .drive(read_snapshot_for_pointer("nyaterm", &pointer))
        .expect_err("another revision");
    assert!(matches!(error, AppError::CloudSync(CloudSyncError::RevisionMismatch { .. })));

    memory.files.insert(path, encrypt(&encode(&sample_snapshot("r1", 2))));
    let error = memory
        .drive(resolve_remote_snapshot("nyaterm", &pointer))
        .expect_err("another payload");
    assert!(matches!(error, AppError::CloudSync(CloudSyncError::HashMismatch { .. })));
}

#[test]
fn corrupted_files_are_reported_with_their_revision() {
    let mut memory = Memory::default();
    let pointer = pointer_from_snapshot(&sample_snapshot("r1", 1));
    memory.files.insert("nyaterm/snapshots/r1.redb".to_string(), vec![1, 2, 3]);
    let error = memory
        .drive(read_snapshot_for_pointer("nyaterm", &pointer))
        .expect_err("not decryptable");
    assert!(is_corrupted(&error, "r1"));

    memory.files.insert("nyaterm/snapshots/r1.redb".to_string(), encrypt(b"junk"));
    let error = memory
        .drive(resolve_remote_snapshot("nyaterm", &pointer))
        .expect_err("not decodable");
    assert!(is_corrupted(&error, "r1"));

    memory.files.insert("nyaterm/current.redb".to_string(), encrypt(b"junk"));
    let error = memory
        .drive(read_current_sync_snapshot_compat("nyaterm"))
        .expect_err("not decodable");
    assert!(is_corrupted(&error, "current"));
}

#[test]
fn cloud_sync_errors_of_the_codec_are_kept() {
    let run = decode_remote_sync_snapshot(vec![1], "r1");
    let inner = CloudSyncError::Other("password required".to_string());
    match run.step(SyncReply::Failed(AppError::CloudSync(inner))) {
        Progress::Done(Err(AppError::CloudSync(CloudSyncError::Other(text)))) => {
            assert_eq!(text, "password required");
        }
        other => panic!("unexpected {:?}", other),
    }

    let run = decode_remote_sync_snapshot(vec![1], "r1");
    match run.step(SyncReply::Failed(AppError::Auth("no key".to_string()))) {
        Progress::Done(Err(error)) => assert!(is_corrupted(&error, "r1")),
        other => panic!("unexpected {:?}", other),
    }
}

#[test]
fn decoding_decrypts_before_it_decodes() {
    let run = decode_remote_sync_snapshot(vec![9, 8], "r1");
    assert!(matches!(run.action(), SyncAction::Decrypt { bytes } if *bytes == vec![9, 8]));
    let run = match run.step(SyncReply::Bytes(vec![7])) {
        Progress::Pending(run) => run,
        other => panic!("unexpected {:?}", other),
    };
    assert!(matches!(run.action(), SyncAction::Decode { bytes } if *bytes == vec![7]));
    match run.step(SyncReply::Snapshot(sample_snapshot("r1", 1))) {
        Progress::Done(Ok(snapshot)) => assert_eq!(snapshot.revision_id, "r1"),
        other => panic!("unexpected {:?}", other),
    }
}

#[test]
fn replies_that_answer_nothing_are_ignored() {
    let pointer = pointer_from_snapshot(&sample_snapshot("r1", 1));
    let run = read_snapshot_for_pointer("nyaterm", &pointer);
    let run = match run.step(SyncReply::Written) {
        Progress::Pending(run) => run,
        other => panic!("unexpected {:?}", other),
    };
    assert!(matches!(
        run.action(),
        SyncAction::Read { path } if path == "nyaterm/snapshots/r1.redb"
    ));
}

#[test]
fn current_snapshot_is_optional() {
    let mut memory = Memory::default();
    let none = memory
        .drive(read_current_sync_snapshot_compat("nyaterm"))
        .expect("read current");
    assert!(none.is_none());

    memory
        .drive(write_current_sync_snapshot_compat("nyaterm", &sample_snapshot("r3", 3)))
        .expect("write current");
    assert_eq!(memory.writes, vec!["nyaterm/current.redb".to_string()]);
    let some = memory
        .drive(read_current_sync_snapshot_compat("nyaterm"))
        .expect("read current");
    assert_eq!(some.expect("current").revision_id, "r3");
}

#[test]
fn read_errors_are_not_taken_for_missing_snapshots() {
    let mut memory = Memory::default();
    let snapshot = sample_snapshot("r1", 1);
    let pointer = pointer_from_snapshot(&snapshot);
    memory
        .drive(write_current_sync_snapshot_compat("nyaterm", &snapshot))
        .expect("write current");
    memory.failing_read = Some("snapshots/".to_string());

    let error = memory
        .drive(resolve_remote_snapshot("nyaterm", &pointer))
        .expect_err("read fails");
    assert!(matches!(error, AppError::Other(text) if text == "read failed"));
}

#[test]
fn migrated_snapshot_resolves_as_current_from_then_on() {
    let mut memory = Memory::default();
    let snapshot = sample_snapshot("r1", 1);
    let pointer = pointer_from_snapshot(&snapshot);
    memory
        .drive(write_current_sync_snapshot_compat("nyaterm", &snapshot))
        .expect("write current");

    let first = memory.drive(resolve_remote_snapshot("nyaterm", &pointer)).expect("first");
    assert!(matches!(first, RemoteSnapshotResolution::LegacyMigrated(s) if s.revision_id == "r1"));
    let second = memory.drive(resolve_remote_snapshot("nyaterm", &pointer)).expect("second");
    assert!(matches!(second, RemoteSnapshotResolution::Current(s) if s.revision_id == "r1"));
    assert!(memory.latest().is_none());
}

#[test]
fn migration_fails_if_the_snapshot_does_not_fit_the_pointer() {
    let mut memory = Memory::default();
    let snapshot = sample_snapshot("r1", 1);
    let mut pointer = pointer_from_snapshot(&snapshot);
    pointer.payload_hash = "wrong".to_string();
    let error = memory
        .drive(migrate_legacy_snapshot("nyaterm", &pointer, &snapshot))
        .expect_err("hash differs");
    assert!(matches!(error, AppError::CloudSync(CloudSyncError::HashMismatch { .. })));

    memory
        .drive(migrate_legacy_snapshot("nyaterm", &pointer_from_snapshot(&snapshot), &snapshot))
        .expect("migrate");
}

#[test]
fn failed_migration_is_an_error_of_the_resolution() {
    let mut memory = Memory::default();
    let snapshot = sample_snapshot("r1", 1);
    memory
        .drive(write_current_sync_snapshot_compat("nyaterm", &snapshot))
        .expect("write current");
    memory.fail_next_write_containing("snapshots/r1");
    let error = memory
        .drive(resolve_remote_snapshot("nyaterm", &pointer_from_snapshot(&snapshot)))
        .expect_err("write fails");
    assert!(matches!(error, AppError::Other(text) if text == "write failed"));
    assert!(!memory.files.contains_key("nyaterm/snapshots/r1.redb"));
}

#[test]
fn recovery_makes_the_current_snapshot_the_head() {
    let mut memory = Memory::default();
    memory.write_committed_snapshot("r1");
    memory
        .drive(write_current_sync_snapshot_compat("nyaterm", &sample_snapshot("r2", 2)))
        .expect("write current");
    memory.writes.clear();

    let recovered = memory
        .drive(recover_current_remote_snapshot("nyaterm"))
        .expect("recover");

    assert_eq!(recovered.revision_id, "r2");
    assert_eq!(
        memory.writes,
        vec!["nyaterm/snapshots/r2.redb".to_string(), "nyaterm/latest.redb".to_string()]
    );
    let latest = memory.latest().expect("latest");
    assert_eq!(latest.revision_id, "r2");
    let resolution = memory.drive(resolve_remote_snapshot("nyaterm", &latest)).expect("resolve");
    assert!(matches!(resolution, RemoteSnapshotResolution::Current(_)));
}

#[test]
fn recovery_without_current_snapshot_is_refused() {
    let mut memory = Memory::default();
    let error = memory
        .drive(recover_current_remote_snapshot("nyaterm"))
        .expect_err("nothing to recover from");
    assert!(matches!(
        error,
        AppError::Config(text)
            if text == "No current cloud sync snapshot is available for recovery"
    ));
}

#[test]
fn failed_recovery_keeps_the_head() {
    let mut memory = Memory::default();
    memory.write_committed_snapshot("r1");
    memory
        .drive(write_current_sync_snapshot_compat("nyaterm", &sample_snapshot("r2", 2)))
        .expect("write current");
    memory.fail_next_write_containing("snapshots/r2");
    assert!(memory.drive(recover_current_remote_snapshot("nyaterm")).is_err());
    assert_eq!(memory.latest().expect("latest").revision_id, "r1");

    memory.fail_next_write_containing("latest.redb");
    assert!(memory.drive(recover_current_remote_snapshot("nyaterm")).is_err());
    assert_eq!(memory.latest().expect("latest").revision_id, "r1");
}

#[test]
fn head_check_compares_revisions() {
    let mut memory = Memory::default();
    memory
        .drive(ensure_remote_head_unchanged("nyaterm", None))
        .expect("no head expected, no head there");
    let pointer = memory.write_committed_snapshot("r1");
    memory
        .drive(ensure_remote_head_unchanged("nyaterm", Some(&pointer)))
        .expect("head is r1");

    match memory.drive(ensure_remote_head_unchanged("nyaterm", None)) {
        Err(AppError::CloudSync(CloudSyncError::ConcurrentUpdate {
            expected_revision,
            actual_revision,
        })) => {
            assert_eq!(expected_revision, None);
            assert_eq!(actual_revision, Some("r1".to_string()));
        }
        other => panic!("unexpected {:?}", other),
    }
}
