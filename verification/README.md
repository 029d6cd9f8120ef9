# nyaterm

The decisions behind NyaTerm's cloud sync and SSH sessions, verified with Verus.

Nothing in the library waits, reads or writes. Every operation is a *run*: it
names the next action, and a reply to the action makes it the next run or ends
it with an outcome. A driver performs the actions.

- `src/cloud_sync/` is the sync protocol: snapshots, the pointer that names the
  head, migration of legacy remotes, and recovery. `laws.rs` says what whole
  operations do to a remote store.
- `src/ssh/` is SSH: chains of jump hosts, connections with and without a shell,
  multiplexed sessions, and the choice of a local agent.
- `src/text.rs`, `src/error.rs` and `src/progress.rs` are what the others share.
- `app/` holds the drivers: streams to agents, remote stores, SSH connections.

The one assumption about outside code is the shape of a random UUID, which is
used as the identifier of a session (`new_session_id` in `src/ssh/session.rs`).
