//! Where things lie on the remote store.

use crate::text::join3;
use vstd::prelude::*;

verus! {

/// Format version that is written into pointer files.
pub const REMOTE_SYNC_POINTER_SCHEMA_VERSION: u32 = 1;

/// The file, below the remote root, that names the head revision.
pub const SYNC_POINTER_FILE: &'static str = "latest.redb";

/// The single snapshot file that older clients use.
pub const SYNC_CURRENT_FILE: &'static str = "current.redb";

/// Path of `file` below `remote_root`.
pub open spec fn remote_path_model(remote_root: Seq<char>, file: Seq<char>) -> Seq<char> {
    remote_root + "/"@ + file
}

/// File, below the remote root, of the snapshot of `revision`.
pub open spec fn snapshot_file_model(revision: Seq<char>) -> Seq<char> {
    "snapshots/"@ + revision + ".redb"@
}

/// Path of the snapshot of `revision`.
pub open spec fn snapshot_path_model(remote_root: Seq<char>, revision: Seq<char>) -> Seq<char> {
    remote_path_model(remote_root, snapshot_file_model(revision))
}

/// Path of the pointer file.
pub open spec fn pointer_path_model(remote_root: Seq<char>) -> Seq<char> {
    remote_path_model(remote_root, SYNC_POINTER_FILE@)
}

/// Path of the current snapshot file.
pub open spec fn current_path_model(remote_root: Seq<char>) -> Seq<char> {
    remote_path_model(remote_root, SYNC_CURRENT_FILE@)
}

/// Path of `file` below `remote_root`.
pub fn remote_path(remote_root: &str, file: &str) -> (r: String)
    ensures
        r@ == remote_path_model(remote_root@, file@),
{
    join3(remote_root, "/", file)
}

/// File, below the remote root, of the snapshot of `revision`.
pub fn legacy_sync_snapshot_file(revision: &str) -> (r: String)
    ensures
        r@ == snapshot_file_model(revision@),
{
    join3("snapshots/", revision, ".redb")
}

/// Path of the pointer file.
pub fn sync_pointer_path(remote_root: &str) -> (r: String)
    ensures
        r@ == pointer_path_model(remote_root@),
{
    remote_path(remote_root, SYNC_POINTER_FILE)
}

/// Path of the current snapshot file.
pub fn sync_current_path(remote_root: &str) -> (r: String)
    ensures
        r@ == current_path_model(remote_root@),
{
    remote_path(remote_root, SYNC_CURRENT_FILE)
}

/// Below one root, two files have the same path only if they are the same file.
pub proof fn lemma_remote_path_injective(
    remote_root: Seq<char>,
    first: Seq<char>,
    second: Seq<char>,
)
    requires
        remote_path_model(remote_root, first) == remote_path_model(remote_root, second),
    ensures
        first == second,
{
    let prefix = remote_root + "/"@;
    let n = prefix.len() as int;
    assert(first == (prefix + first).skip(n));
    assert(second == (prefix + second).skip(n));
}

/// The snapshots of two different revisions lie at different paths.
pub proof fn lemma_snapshot_paths_distinct(
    remote_root: Seq<char>,
    first: Seq<char>,
    second: Seq<char>,
)
    requires
        first != second,
    ensures
        snapshot_path_model(remote_root, first) != snapshot_path_model(remote_root, second),
{
    if snapshot_path_model(remote_root, first) == snapshot_path_model(remote_root, second) {
        lemma_remote_path_injective(
            remote_root,
            snapshot_file_model(first),
            snapshot_file_model(second),
        );
        let head = "snapshots/"@.len() as int;
        assert(snapshot_file_model(first).len() == snapshot_file_model(second).len());
        assert(first == snapshot_file_model(first).subrange(head, head + first.len()));
        assert(second == snapshot_file_model(second).subrange(head, head + second.len()));
    }
}

/// No snapshot lies at the path of the pointer file or of the current snapshot
/// file, and these two paths differ.
pub proof fn lemma_special_paths_distinct(remote_root: Seq<char>, revision: Seq<char>)
    ensures
        snapshot_path_model(remote_root, revision) != pointer_path_model(remote_root),
        snapshot_path_model(remote_root, revision) != current_path_model(remote_root),
        pointer_path_model(remote_root) != current_path_model(remote_root),
{
    reveal_strlit("snapshots/");
    reveal_strlit("latest.redb");
    reveal_strlit("current.redb");
    assert(snapshot_file_model(revision)[0] == 's');
    assert(SYNC_POINTER_FILE@[0] == 'l');
    assert(SYNC_CURRENT_FILE@[0] == 'c');
    if snapshot_path_model(remote_root, revision) == pointer_path_model(remote_root) {
        lemma_remote_path_injective(
            remote_root,
            snapshot_file_model(revision),
            SYNC_POINTER_FILE@,
        );
    }
    if snapshot_path_model(remote_root, revision) == current_path_model(remote_root) {
        lemma_remote_path_injective(
            remote_root,
            snapshot_file_model(revision),
            SYNC_CURRENT_FILE@,
        );
    }
    if pointer_path_model(remote_root) == current_path_model(remote_root) {
        lemma_remote_path_injective(remote_root, SYNC_POINTER_FILE@, SYNC_CURRENT_FILE@);
    }
}

/// The layout of a remote: one snapshot file for each revision, the pointer file,
/// and the current snapshot file, all below the root.
pub proof fn law_remote_layout(remote_root: Seq<char>, revision: Seq<char>)
    ensures
        snapshot_file_model(revision) == "snapshots/"@ + revision + ".redb"@,
        snapshot_path_model(remote_root, revision) == remote_root + "/snapshots/"@ + revision
            + ".redb"@,
        pointer_path_model(remote_root) == remote_root + "/latest.redb"@,
        current_path_model(remote_root) == remote_root + "/current.redb"@,
{
    reveal_strlit("/");
    reveal_strlit("snapshots/");
    reveal_strlit("/snapshots/");
    reveal_strlit(".redb");
    reveal_strlit("latest.redb");
    reveal_strlit("/latest.redb");
    reveal_strlit("current.redb");
    reveal_strlit("/current.redb");
    assert("/"@ + "snapshots/"@ =~= "/snapshots/"@);
    assert("/"@ + "latest.redb"@ =~= "/latest.redb"@);
    assert("/"@ + "current.redb"@ =~= "/current.redb"@);
    assert(snapshot_path_model(remote_root, revision) =~= remote_root + ("/"@ + "snapshots/"@)
        + revision + ".redb"@);
    assert(pointer_path_model(remote_root) =~= remote_root + ("/"@ + "latest.redb"@));
    assert(current_path_model(remote_root) =~= remote_root + ("/"@ + "current.redb"@));
}

} // verus!
