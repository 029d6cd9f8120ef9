//! Errors that the runs report.

use vstd::prelude::*;

verus! {

/// What can be wrong with the state of a cloud sync remote.
#[derive(Debug)]
pub enum CloudSyncError {
    /// No snapshot file exists for a revision.
    SnapshotMissing { revision: String },
    /// The snapshot of a revision cannot be decrypted or decoded.
    CorruptedSnapshot { revision: String },
    /// A snapshot carries another revision than the pointer that led to it.
    RevisionMismatch { pointer_revision: String, snapshot_revision: String },
    /// A snapshot carries another payload hash than the pointer that led to it.
    HashMismatch { expected: String, actual: String },
    /// The remote head is not the revision that the caller started from.
    ConcurrentUpdate { expected_revision: Option<String>, actual_revision: Option<String> },
    /// Any other cloud sync failure, as its text.
    Other(String),
}

/// An error of any operation in this crate.
#[derive(Debug)]
pub enum AppError {
    Auth(String),
    Config(String),
    Channel(String),
    Cancelled(String),
    SessionNotFound(String),
    CloudSync(CloudSyncError),
    /// Any other failure of the driver, as its text.
    Other(String),
}

pub type AppResult<T> = Result<T, AppError>;

/// Mathematical value of a [`CloudSyncError`].
pub enum CloudSyncErrorModel {
    SnapshotMissing { revision: Seq<char> },
    CorruptedSnapshot { revision: Seq<char> },
    RevisionMismatch { pointer_revision: Seq<char>, snapshot_revision: Seq<char> },
    HashMismatch { expected: Seq<char>, actual: Seq<char> },
    ConcurrentUpdate { expected_revision: Option<Seq<char>>, actual_revision: Option<Seq<char>> },
    Other(Seq<char>),
}

/// Mathematical value of an [`AppError`].
pub enum AppErrorModel {
    Auth(Seq<char>),
    Config(Seq<char>),
    Channel(Seq<char>),
    Cancelled(Seq<char>),
    SessionNotFound(Seq<char>),
    CloudSync(CloudSyncErrorModel),
    Other(Seq<char>),
}

impl View for CloudSyncError {
    type V = CloudSyncErrorModel;

    open spec fn view(&self) -> CloudSyncErrorModel {
        match *self {
            CloudSyncError::SnapshotMissing { revision } => CloudSyncErrorModel::SnapshotMissing {
                revision: revision@,
            },
            CloudSyncError::CorruptedSnapshot { revision } => CloudSyncErrorModel::CorruptedSnapshot {
                revision: revision@,
            },
            CloudSyncError::RevisionMismatch { pointer_revision, snapshot_revision } =>
                CloudSyncErrorModel::RevisionMismatch {
                    pointer_revision: pointer_revision@,
                    snapshot_revision: snapshot_revision@,
                },
            CloudSyncError::HashMismatch { expected, actual } => CloudSyncErrorModel::HashMismatch {
                expected: expected@,
                actual: actual@,
            },
            CloudSyncError::ConcurrentUpdate { expected_revision, actual_revision } =>
                CloudSyncErrorModel::ConcurrentUpdate {
                    expected_revision: expected_revision.deep_view(),
                    actual_revision: actual_revision.deep_view(),
                },
            CloudSyncError::Other(text) => CloudSyncErrorModel::Other(text@),
        }
    }
}

impl View for AppError {
    type V = AppErrorModel;

    open spec fn view(&self) -> AppErrorModel {
        match *self {
            AppError::Auth(text) => AppErrorModel::Auth(text@),
            AppError::Config(text) => AppErrorModel::Config(text@),
            AppError::Channel(text) => AppErrorModel::Channel(text@),
            AppError::Cancelled(text) => AppErrorModel::Cancelled(text@),
            AppError::SessionNotFound(text) => AppErrorModel::SessionNotFound(text@),
            AppError::CloudSync(error) => AppErrorModel::CloudSync(error@),
            AppError::Other(text) => AppErrorModel::Other(text@),
        }
    }
}

/// The mathematical value of a result: its error by its model, its value as it is.
pub open spec fn result_model<T>(result: AppResult<T>) -> Result<T, AppErrorModel> {
    match result {
        Ok(value) => Ok(value),
        Err(error) => Err(error@),
    }
}

/// The value of an error says which error it is, and its text.
pub proof fn law_error_is_its_value(error: AppError)
    ensures
        match error {
            AppError::Auth(text) => error@ matches AppErrorModel::Auth(value) && value == text@,
            AppError::Config(text) => error@ matches AppErrorModel::Config(value) && value == text@,
            AppError::Channel(text) => error@ matches AppErrorModel::Channel(value) && value
                == text@,
            AppError::Cancelled(text) => error@ matches AppErrorModel::Cancelled(value) && value
                == text@,
            AppError::SessionNotFound(text) => error@ matches AppErrorModel::SessionNotFound(value)
                && value == text@,
            AppError::CloudSync(inner) => error@ matches AppErrorModel::CloudSync(value) && value
                == inner@,
            AppError::Other(text) => error@ matches AppErrorModel::Other(value) && value == text@,
        },
{
}

/// The value of a cloud sync error says which error it is, and what it is about.
pub proof fn law_cloud_sync_error_is_its_value(error: CloudSyncError)
    ensures
        match error {
            CloudSyncError::SnapshotMissing { revision } => error@ matches
                CloudSyncErrorModel::SnapshotMissing { revision: value } && value == revision@,
            CloudSyncError::CorruptedSnapshot { revision } => error@ matches
                CloudSyncErrorModel::CorruptedSnapshot { revision: value } && value == revision@,
            CloudSyncError::RevisionMismatch { pointer_revision, snapshot_revision } => error@
                matches CloudSyncErrorModel::RevisionMismatch {
                pointer_revision: of_pointer,
                snapshot_revision: of_snapshot,
            } && of_pointer == pointer_revision@ && of_snapshot == snapshot_revision@,
            CloudSyncError::HashMismatch { expected, actual } => error@ matches
                CloudSyncErrorModel::HashMismatch { expected: wanted, actual: found } && wanted
                == expected@ && found == actual@,
            CloudSyncError::ConcurrentUpdate { expected_revision, actual_revision } => error@
                matches CloudSyncErrorModel::ConcurrentUpdate {
                expected_revision: wanted,
                actual_revision: found,
            } && wanted == expected_revision.deep_view() && found == actual_revision.deep_view(),
            CloudSyncError::Other(text) => error@ matches CloudSyncErrorModel::Other(value) && value
                == text@,
        },
{
}

/// The value of a result says whether it is a success, and then is the same
/// success, and otherwise has the value of the error.
pub proof fn law_result_is_its_value<T>(result: AppResult<T>)
    ensures
        match result {
            Ok(value) => result_model(result) matches Ok(same) && same == value,
            Err(error) => result_model(result) matches Err(value) && value == error@,
        },
{
}

} // verus!
