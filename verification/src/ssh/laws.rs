//! What the creation of a session does, from what it was asked for to its
//! outcome.
//!
//! The laws of success say which actions a session takes, in which order and
//! with what in them, if everything succeeds. The other laws hold whatever is
//! replied.

use crate::error::{AppErrorModel, AppResult};
use crate::progress::Progress;
use crate::ssh::config;
use crate::ssh::config::{SshConfig, SshProfile};
use crate::ssh::connection;
use crate::ssh::connection::{
    ConnectAction, ConnectModel, ConnectReply, ConnectReplyModel, ConnectedChain,
};
use crate::ssh::session;
use crate::ssh::session::{
    AiExecutionProfile, IoPlan, SessionAction, SessionConnection, SessionContext, SessionInfo,
    SessionModel, SessionReply, SessionRun, SessionType, ShellRequest, SourceHandle, SourceSession,
    StageModel,
};
use vstd::prelude::*;

verus! {

/// What a driver finds for whom everything succeeds.
pub struct Findings {
    /// The cookie that X11 forwarding was prepared with.
    pub fake_cookie_hex: String,
    /// Whether a script was injected into the shell.
    pub injection_active: bool,
    /// Whether there is a tunnel manager.
    pub tunnel_manager: bool,
}

/// The reply of a driver for whom an action succeeds.
pub open spec fn success_of(action: SessionAction, findings: Findings) -> SessionReply {
    match action {
        SessionAction::PrepareX11 { .. } => SessionReply::X11Prepared {
            fake_cookie_hex: findings.fake_cookie_hex,
        },
        SessionAction::Connect(_) => SessionReply::Connect(ConnectReply::Done),
        SessionAction::OpenShell { .. } => SessionReply::ShellOpened {
            injection_active: findings.injection_active,
        },
        SessionAction::FindTunnelManager => SessionReply::TunnelManager {
            present: findings.tunnel_manager,
        },
        _ => SessionReply::Done,
    }
}

/// The actions that a session takes if everything succeeds, up to `limit`.
pub open spec fn actions(run: SessionModel, findings: Findings, limit: nat) -> Seq<SessionAction>
    decreases limit,
{
    if limit == 0 {
        Seq::empty()
    } else {
        match run.step(success_of(run.action(), findings)) {
            Progress::Pending(next) => seq![run.action()] + actions(
                next,
                findings,
                (limit - 1) as nat,
            ),
            Progress::Done(_) => seq![run.action()],
        }
    }
}

/// The outcome of a session if everything succeeds and it takes at most `limit`
/// actions.
pub open spec fn outcome(run: SessionModel, findings: Findings, limit: nat) -> Option<
    Result<Seq<char>, AppErrorModel>,
>
    decreases limit,
{
    if limit == 0 {
        None
    } else {
        match run.step(success_of(run.action(), findings)) {
            Progress::Pending(next) => outcome(next, findings, (limit - 1) as nat),
            Progress::Done(result) => Some(result),
        }
    }
}

/// A session at a stage of its own context.
pub open spec fn at_stage(context: SessionContext, stage: StageModel) -> SessionModel {
    SessionModel { context, stage }
}

// Success.

proof fn lemma_last_actions(
    context: SessionContext,
    connection: SessionConnection,
    findings: Findings,
    limit: nat,
)
    requires
        limit >= 3,
    ensures
        ({
            let run = at_stage(context, context.stage_after_ready(connection));
            &&& outcome(run, findings, limit) matches Some(Ok(id)) && id == context.session_id@
            &&& actions(run, findings, limit) == (match context.connection_id {
                Some(connection_id) => if context.multiplexed {
                    Seq::empty()
                } else if findings.tunnel_manager {
                    seq![
                        SessionAction::FindTunnelManager,
                        SessionAction::OpenTunnels { connection_id },
                    ]
                } else {
                    seq![SessionAction::FindTunnelManager]
                },
                None => Seq::empty(),
            }) + seq![
                SessionAction::StartIo {
                    plan: IoPlan {
                        session_id: context.session_id,
                        connection_id: context.connection_id,
                        post_login: context.config.post_login,
                        startup_command: context.startup_command,
                        backspace_mode: context.config.backspace_mode,
                        encoding: context.config.encoding,
                    },
                    connection,
                },
            ]
        }),
{
    reveal_with_fuel(actions, 4);
    reveal_with_fuel(outcome, 4);
    let run = at_stage(context, context.stage_after_ready(connection));
    match context.connection_id {
        Some(connection_id) => if context.multiplexed {
        } else if findings.tunnel_manager {
            assert(actions(run, findings, limit) =~= seq![
                SessionAction::FindTunnelManager,
                SessionAction::OpenTunnels { connection_id },
            ] + seq![at_stage(context, StageModel::StartingIo { connection }).action()]);
        } else {
        },
        None => {},
    }
}

/// An action that succeeds is followed by the actions of the run that it leads to.
proof fn lemma_goes_on(run: SessionModel, next: SessionModel, findings: Findings, limit: nat)
    requires
        limit > 0,
        run.step(success_of(run.action(), findings)) == Progress::<
            _,
            Result<Seq<char>, AppErrorModel>,
        >::Pending(next),
    ensures
        actions(run, findings, limit) == seq![run.action()] + actions(
            next,
            findings,
            (limit - 1) as nat,
        ),
        outcome(run, findings, limit) == outcome(next, findings, (limit - 1) as nat),
{
}

proof fn lemma_registering_actions(
    context: SessionContext,
    connection: SessionConnection,
    injection_active: bool,
    findings: Findings,
    limit: nat,
)
    requires
        limit >= 5,
    ensures
        ({
            let run = at_stage(context, StageModel::Registering { connection, injection_active });
            let last = at_stage(context, context.stage_after_ready(connection));
            let ready = at_stage(
                context,
                StageModel::NotifyingReady { connection, injection_active },
            );
            let rest = (limit - if context.has_ready_hook { 2int } else { 1 }) as nat;
            &&& outcome(run, findings, limit) == outcome(last, findings, rest)
            &&& actions(run, findings, limit) == seq![run.action()] + (if context.has_ready_hook {
                seq![ready.action()]
            } else {
                Seq::empty()
            }) + actions(last, findings, rest)
        }),
{
    let run = at_stage(context, StageModel::Registering { connection, injection_active });
    let last = at_stage(context, context.stage_after_ready(connection));
    let ready = at_stage(context, StageModel::NotifyingReady { connection, injection_active });
    if context.has_ready_hook {
        lemma_goes_on(run, ready, findings, limit);
        lemma_goes_on(ready, last, findings, (limit - 1) as nat);
        let tail = actions(last, findings, (limit - 2) as nat);
        assert(seq![run.action()] + (seq![ready.action()] + tail) =~= seq![run.action()]
            + seq![ready.action()] + tail);
    } else {
        lemma_goes_on(run, last, findings, limit);
        let none = Seq::<SessionAction>::empty();
        let tail = actions(last, findings, (limit - 1) as nat);
        assert(seq![run.action()] + tail =~= seq![run.action()] + none + tail);
    }
}

proof fn lemma_shell_actions(
    context: SessionContext,
    connection: SessionConnection,
    x11_cookie: Option<String>,
    findings: Findings,
    limit: nat,
)
    requires
        limit >= 8,
    ensures
        ({
            let injection_active = findings.injection_active;
            let run = at_stage(context, StageModel::Authenticated { connection, x11_cookie });
            let opening = at_stage(context, StageModel::OpeningShell { connection, x11_cookie });
            let forwarder = at_stage(
                context,
                StageModel::StartingX11Forwarder { connection, injection_active },
            );
            let registering = at_stage(
                context,
                StageModel::Registering { connection, injection_active },
            );
            let x11 = context.config.x11_forwarding && !context.multiplexed;
            let rest = (limit - if x11 { 3int } else { 2 }) as nat;
            &&& outcome(run, findings, limit) == outcome(registering, findings, rest)
            &&& actions(run, findings, limit) == seq![run.action(), opening.action()] + (if x11 {
                seq![forwarder.action()]
            } else {
                Seq::empty()
            }) + actions(registering, findings, rest)
        }),
{
    let injection_active = findings.injection_active;
    let run = at_stage(context, StageModel::Authenticated { connection, x11_cookie });
    let opening = at_stage(context, StageModel::OpeningShell { connection, x11_cookie });
    let forwarder = at_stage(
        context,
        StageModel::StartingX11Forwarder { connection, injection_active },
    );
    let registering = at_stage(context, StageModel::Registering { connection, injection_active });
    lemma_goes_on(run, opening, findings, limit);
    if context.config.x11_forwarding && !context.multiplexed {
        lemma_goes_on(opening, forwarder, findings, (limit - 1) as nat);
        lemma_goes_on(forwarder, registering, findings, (limit - 2) as nat);
        let tail = actions(registering, findings, (limit - 3) as nat);
        assert(seq![run.action()] + (seq![opening.action()] + (seq![forwarder.action()] + tail))
            =~= seq![run.action(), opening.action()] + seq![forwarder.action()] + tail);
    } else {
        lemma_goes_on(opening, registering, findings, (limit - 1) as nat);
        let none = Seq::<SessionAction>::empty();
        let tail = actions(registering, findings, (limit - 2) as nat);
        assert(seq![run.action()] + (seq![opening.action()] + tail) =~= seq![
            run.action(),
            opening.action(),
        ] + none + tail);
    }
}

proof fn lemma_join(
    a: Seq<SessionAction>,
    b: Seq<SessionAction>,
    c: Seq<SessionAction>,
    d: Seq<SessionAction>,
    e: Seq<SessionAction>,
    f: Seq<SessionAction>,
)
    ensures
        a + b + (c + d + (e + f)) == a + b + c + d + e + f,
{
    assert(a + b + (c + d + (e + f)) =~= a + b + c + d + e + f);
}

/// What a session does once it has its connection, if everything succeeds. It
/// opens a shell on that connection, with the X11 cookie that was prepared. If X11
/// is forwarded on a connection of its own, it then starts the forwarder. It is
/// registered with its configuration and connection, and its creator is told of
/// the same session, if it wants to be. A session with a saved connection of its
/// own then has the tunnels of that connection opened, if there is a tunnel
/// manager. At last its I/O is started, with what the configuration and the
/// creator asked for. The outcome is its identifier. All of this is the same for
/// a multiplexed session, but for the forwarder and the tunnels.
#[verifier::rlimit(60)]
#[verifier::spinoff_prover]
pub proof fn law_session_with_a_connection_succeeds(
    context: SessionContext,
    connection: SessionConnection,
    x11_cookie: Option<String>,
    findings: Findings,
    limit: nat,
)
    requires
        limit >= 8,
    ensures
        ({
            let run = at_stage(context, StageModel::Authenticated { connection, x11_cookie });
            let network_device = context.config.ssh_profile == SshProfile::NetworkDevice;
            let info = SessionInfo {
                id: context.session_id,
                name: context.config.name,
                session_type: SessionType::SSH,
                connection_id: context.connection_id,
                connected: true,
                owner_window_label: context.owner_window_label,
                ai_execution_profile: AiExecutionProfile::Posix,
                injection_active: findings.injection_active,
                remote_file_browser_enabled: context.config.sftp.enabled && !network_device,
                remote_stats_enabled: !network_device,
                ssh_profile: Some(context.config.ssh_profile),
            };
            &&& outcome(run, findings, limit) matches Some(Ok(id)) && id == context.session_id@
            &&& actions(run, findings, limit) == seq![
                SessionAction::MarkAuthenticated,
                SessionAction::OpenShell {
                    connection,
                    request: ShellRequest {
                        session_id: context.session_id,
                        x11_cookie,
                        agent_forwarding: context.config.agent_forwarding,
                        terminal_type: context.config.terminal_type,
                        remote_file_browser_enabled: context.config.sftp.enabled && !network_device,
                        network_device_profile: network_device,
                        cwd_follow_mode: context.cwd_follow_mode,
                        shell_detection_timeout_ms: context.config.sftp.shell_detection_timeout_ms,
                    },
                },
            ] + (if context.config.x11_forwarding && !context.multiplexed {
                seq![SessionAction::StartX11Forwarder { session_id: context.session_id }]
            } else {
                Seq::empty()
            }) + seq![SessionAction::Register { info, config: context.config, connection }] + (if
                context.has_ready_hook {
                seq![SessionAction::NotifyReady(info)]
            } else {
                Seq::empty()
            }) + (match context.connection_id {
                Some(connection_id) => if context.multiplexed {
                    Seq::empty()
                } else if findings.tunnel_manager {
                    seq![
                        SessionAction::FindTunnelManager,
                        SessionAction::OpenTunnels { connection_id },
                    ]
                } else {
                    seq![SessionAction::FindTunnelManager]
                },
                None => Seq::empty(),
            }) + seq![
                SessionAction::StartIo {
                    plan: IoPlan {
                        session_id: context.session_id,
                        connection_id: context.connection_id,
                        post_login: context.config.post_login,
                        startup_command: context.startup_command,
                        backspace_mode: context.config.backspace_mode,
                        encoding: context.config.encoding,
                    },
                    connection,
                },
            ]
        }),
{
    let injection_active = findings.injection_active;
    let x11 = context.config.x11_forwarding && !context.multiplexed;
    let rest = (limit - if x11 {
        3int
    } else {
        2
    }) as nat;
    let rest_last = (rest - if context.has_ready_hook {
        2int
    } else {
        1
    }) as nat;
    let opening = seq![
        SessionAction::MarkAuthenticated,
        at_stage(context, StageModel::OpeningShell { connection, x11_cookie }).action(),
    ];
    let forwarding = if x11 {
        seq![SessionAction::StartX11Forwarder { session_id: context.session_id }]
    } else {
        Seq::empty()
    };
    let registering = seq![
        at_stage(context, StageModel::Registering { connection, injection_active }).action(),
    ];
    let notifying = if context.has_ready_hook {
        seq![
            at_stage(context, StageModel::NotifyingReady { connection, injection_active }).action(),
        ]
    } else {
        Seq::empty()
    };
    let tunnels = match context.connection_id {
        Some(connection_id) => if context.multiplexed {
            Seq::empty()
        } else if findings.tunnel_manager {
            seq![
                SessionAction::FindTunnelManager,
                SessionAction::OpenTunnels { connection_id },
            ]
        } else {
            seq![SessionAction::FindTunnelManager]
        },
        None => Seq::empty(),
    };
    let io = seq![at_stage(context, StageModel::StartingIo { connection }).action()];
    let first = at_stage(context, StageModel::Authenticated { connection, x11_cookie });
    let second = at_stage(context, StageModel::Registering { connection, injection_active });
    let third = at_stage(context, context.stage_after_ready(connection));
    assert(actions(first, findings, limit) == opening + forwarding + actions(
        second,
        findings,
        rest,
    ) && outcome(first, findings, limit) == outcome(second, findings, rest)) by {
        lemma_shell_actions(context, connection, x11_cookie, findings, limit);
    }
    assert(actions(second, findings, rest) == registering + notifying + actions(
        third,
        findings,
        rest_last,
    ) && outcome(second, findings, rest) == outcome(third, findings, rest_last)) by {
        lemma_registering_actions(context, connection, injection_active, findings, rest);
    }
    assert(actions(third, findings, rest_last) == tunnels + io) by {
        lemma_last_actions(context, connection, findings, rest_last);
    }
    assert(outcome(third, findings, rest_last) matches Some(Ok(id)) && id == context.session_id@)
        by {
        lemma_last_actions(context, connection, findings, rest_last);
    }
    lemma_join(opening, forwarding, registering, notifying, tunnels, io);
}

proof fn lemma_connecting_actions(
    context: SessionContext,
    connect: ConnectModel,
    x11_cookie: Option<String>,
    findings: Findings,
    limit: nat,
)
    requires
        connect.at < connect.script.len(),
        limit >= connect.script.len() - connect.at,
    ensures
        ({
            let run = at_stage(context, StageModel::Connecting { connect, x11_cookie });
            let left = (connect.script.len() - connect.at) as nat;
            let authenticated = at_stage(
                context,
                StageModel::Authenticated {
                    connection: SessionConnection::Own(ConnectedChain { target: connect.target }),
                    x11_cookie,
                },
            );
            &&& outcome(run, findings, limit) == outcome(
                authenticated,
                findings,
                (limit - left) as nat,
            )
            &&& actions(run, findings, limit) == Seq::new(
                left,
                |k: int| SessionAction::Connect(connect.script[connect.at + k]),
            ) + actions(authenticated, findings, (limit - left) as nat)
        }),
    decreases connect.script.len() - connect.at,
{
    let run = at_stage(context, StageModel::Connecting { connect, x11_cookie });
    let left = (connect.script.len() - connect.at) as nat;
    let authenticated = at_stage(
        context,
        StageModel::Authenticated {
            connection: SessionConnection::Own(ConnectedChain { target: connect.target }),
            x11_cookie,
        },
    );
    let tail = actions(authenticated, findings, (limit - left) as nat);
    let all = Seq::new(left, |k: int| SessionAction::Connect(connect.script[connect.at + k]));
    connection::law_connect_reply_is_its_value(ConnectReply::Done);
    assert(ConnectReply::Done@ == ConnectReplyModel::Done);
    if connect.at + 1 == connect.script.len() {
        lemma_goes_on(run, authenticated, findings, limit);
        assert(seq![run.action()] + tail =~= all + tail);
    } else {
        let next = ConnectModel { at: connect.at + 1, ..connect };
        let after = at_stage(context, StageModel::Connecting { connect: next, x11_cookie });
        lemma_goes_on(run, after, findings, limit);
        lemma_connecting_actions(context, next, x11_cookie, findings, (limit - 1) as nat);
        let others = Seq::new(
            (left - 1) as nat,
            |k: int| SessionAction::Connect(next.script[next.at + k]),
        );
        assert(seq![run.action()] + (others + tail) =~= all + tail);
    }
}

/// What a new session does until it has its connection, if everything succeeds.
/// The label of its owner is on every host of its configuration. If the
/// configuration asks for X11 forwarding, it first prepares that for the
/// configured display, and remembers the cookie. It then does what a connection
/// to the configuration does that forwards the agent if it is asked to and that
/// records diagnostics, in the same order. It goes on as a session with that
/// connection, to its target, does.
pub proof fn law_new_session_connects_first(
    session_id: String,
    config: SshConfig,
    connection_id: Option<String>,
    owner_window_label: Option<String>,
    cancellable: bool,
    startup_command: Option<String>,
    has_ready_hook: bool,
    cwd_follow_mode: String,
    findings: Findings,
    limit: nat,
)
    requires
        config::hops(config).len() <= usize::MAX,
        limit >= 4 * config::hops(config).len(),
    ensures
        ({
            let run = session::session_start(
                session_id,
                config,
                connection_id,
                owner_window_label,
                cancellable,
                startup_command,
                has_ready_hook,
                cwd_follow_mode,
            );
            let context = SessionContext {
                session_id,
                config: config::labelled(config, owner_window_label),
                connection_id,
                owner_window_label,
                cwd_follow_mode,
                startup_command,
                has_ready_hook,
                cancellable,
                multiplexed: false,
            };
            let first = ConnectModel::start(
                context.config,
                connection::connection_options(context.config, false, false, true, true),
            );
            let connecting = (4 * config::hops(config).len() - 1) as nat;
            let before: nat = if config.x11_forwarding {
                connecting + 1
            } else {
                connecting
            };
            let connected = at_stage(
                context,
                StageModel::Authenticated {
                    connection: SessionConnection::Own(
                        ConnectedChain { target: (config::hops(config).len() - 1) as usize },
                    ),
                    x11_cookie: if config.x11_forwarding {
                        Some(findings.fake_cookie_hex)
                    } else {
                        None
                    },
                },
            );
            &&& run.context == context
            &&& outcome(run, findings, limit) == outcome(
                connected,
                findings,
                (limit - before) as nat,
            )
            &&& actions(run, findings, limit) == (if config.x11_forwarding {
                seq![SessionAction::PrepareX11 { display: config.x11_display }]
            } else {
                Seq::empty()
            }) + Seq::new(
                connecting,
                |k: int|
                    SessionAction::Connect(
                        (connection::after_successes(first, k as nat)->Pending_0).action(),
                    ),
            ) + actions(connected, findings, (limit - before) as nat)
        }),
{
    let run = session::session_start(
        session_id,
        config,
        connection_id,
        owner_window_label,
        cancellable,
        startup_command,
        has_ready_hook,
        cwd_follow_mode,
    );
    let context = run.context;
    let options = connection::connection_options(context.config, false, false, true, true);
    let first = ConnectModel::start(context.config, options);
    config::law_label_reaches_every_hop(config, owner_window_label);
    config::law_label_changes_nothing_else(config, owner_window_label);
    connection::lemma_chain_script_len(context.config, options);
    let connecting = (4 * config::hops(config).len() - 1) as nat;
    let x11_cookie = if config.x11_forwarding {
        Some(findings.fake_cookie_hex)
    } else {
        None
    };
    let at = at_stage(context, StageModel::Connecting { connect: first, x11_cookie });
    let steps = Seq::new(
        connecting,
        |k: int|
            SessionAction::Connect(
                (connection::after_successes(first, k as nat)->Pending_0).action(),
            ),
    );
    let scripted = Seq::new(
        connecting,
        |k: int| SessionAction::Connect(first.script[first.at + k]),
    );
    assert(steps =~= scripted) by {
        assert forall|k: int| 0 <= k < connecting implies steps[k] == scripted[k] by {
            connection::law_connection_succeeds(context.config, options, k as nat);
        }
    }
    let none = Seq::<SessionAction>::empty();
    if config.x11_forwarding {
        lemma_goes_on(run, at, findings, limit);
        lemma_connecting_actions(context, first, x11_cookie, findings, (limit - 1) as nat);
        let tail = actions(
            at_stage(
                context,
                StageModel::Authenticated {
                    connection: SessionConnection::Own(ConnectedChain { target: first.target }),
                    x11_cookie,
                },
            ),
            findings,
            (limit - 1 - connecting) as nat,
        );
        assert(seq![run.action()] + (steps + tail) =~= seq![run.action()] + steps + tail);
    } else {
        lemma_connecting_actions(context, first, x11_cookie, findings, limit);
        assert(steps =~= none + steps);
    }
}

/// What a session on the connection of another one does. The source must be there,
/// be a session over SSH, and have a configuration and a connection of SSH, which
/// is checked in this order. A session without X11 forwarding then goes on, with
/// the configuration, the saved connection and the owner of its source, as a
/// session with the connection of its source does. It cannot be cancelled. A
/// session with X11 forwarding is a new session with the saved connection and the
/// owner of its source, and takes a saved connection.
pub proof fn law_multiplexed_session_is_the_sources(
    session_id: String,
    source_session_id: Seq<char>,
    source: Option<SourceSession>,
    startup_command: Option<String>,
    has_ready_hook: bool,
    cwd_follow_mode: String,
)
    ensures
        ({
            let result = session::multiplexed_start(
                session_id,
                source_session_id,
                source,
                startup_command,
                has_ready_hook,
                cwd_follow_mode,
            );
            match source {
                None => result matches Err(AppErrorModel::SessionNotFound(text)) && text
                    == "Session '"@ + source_session_id + "' not found"@,
                Some(source) => if source.session_type != SessionType::SSH {
                    result matches Err(AppErrorModel::Config(text)) && text
                        == "Source session is not an SSH session"@
                } else if source.ssh_config is None {
                    result matches Err(AppErrorModel::Config(text)) && text
                        == "Failed to get SSH config"@
                } else if source.ssh_handle == SourceHandle::Absent {
                    result matches Err(AppErrorModel::Config(text)) && text
                        == "Source session has no SSH handle"@
                } else if source.ssh_handle == SourceHandle::Foreign {
                    result matches Err(AppErrorModel::Config(text)) && text
                        == "Failed to get SSH handle"@
                } else {
                    let config = source.ssh_config->0;
                    if !config.x11_forwarding {
                        result matches Ok(run) && run == at_stage(
                            SessionContext {
                                session_id,
                                config,
                                connection_id: config.connection_id,
                                owner_window_label: source.owner_window_label,
                                cwd_follow_mode,
                                startup_command,
                                has_ready_hook,
                                cancellable: false,
                                multiplexed: true,
                            },
                            StageModel::Authenticated {
                                connection: SessionConnection::Source,
                                x11_cookie: None,
                            },
                        )
                    } else if config.connection_id is None {
                        result matches Err(AppErrorModel::Config(text)) && text
                            == "X11 forwarding requires a saved SSH connection"@
                    } else {
                        result matches Ok(run) && run == session::session_start(
                            session_id,
                            config,
                            config.connection_id,
                            source.owner_window_label,
                            false,
                            startup_command,
                            has_ready_hook,
                            cwd_follow_mode,
                        )
                    }
                },
            }
        }),
{
}

/// A session that was started has the value of its run, and one that was not the
/// value of its error.
pub proof fn law_started_is_its_value(result: AppResult<SessionRun>)
    ensures
        match result {
            Ok(run) => session::started(result) matches Ok(value) && value == run@ && value.context
                == run.context,
            Err(error) => session::started(result) matches Err(value) && value == error@,
        },
{
}

// Whatever is replied.

/// The X11 cookie that a session at a stage remembers.
pub open spec fn cookie_at(stage: StageModel) -> Option<Option<String>> {
    match stage {
        StageModel::Connecting { x11_cookie, .. } => Some(x11_cookie),
        StageModel::Authenticated { x11_cookie, .. } => Some(x11_cookie),
        StageModel::OpeningShell { x11_cookie, .. } => Some(x11_cookie),
        _ => None,
    }
}

/// The connection that a session at a stage has.
pub open spec fn connection_at(stage: StageModel) -> Option<SessionConnection> {
    match stage {
        StageModel::Authenticated { connection, .. } => Some(connection),
        StageModel::OpeningShell { connection, .. } => Some(connection),
        StageModel::StartingX11Forwarder { connection, .. } => Some(connection),
        StageModel::Registering { connection, .. } => Some(connection),
        StageModel::NotifyingReady { connection, .. } => Some(connection),
        StageModel::FindingTunnelManager { connection, .. } => Some(connection),
        StageModel::OpeningTunnels { connection, .. } => Some(connection),
        StageModel::StartingIo { connection } => Some(connection),
        _ => None,
    }
}

/// Whether a session at a stage has a script in its shell.
pub open spec fn injection_at(stage: StageModel) -> Option<bool> {
    match stage {
        StageModel::StartingX11Forwarder { injection_active, .. } => Some(injection_active),
        StageModel::Registering { injection_active, .. } => Some(injection_active),
        StageModel::NotifyingReady { injection_active, .. } => Some(injection_active),
        _ => None,
    }
}

/// Whatever is replied, a session keeps what it was asked for, and what it has
/// found on its way: the cookie, also while it connects anew, the connection, and
/// whether a script is in the shell. The cookie is the one that was prepared, the
/// connection the one that was made, and the script is there if the reply to the
/// shell said so.
pub proof fn law_session_remembers(run: SessionModel, reply: SessionReply)
    ensures
        run.step(reply) matches Progress::Pending(next) ==> {
            &&& next.context == run.context
            &&& cookie_at(run.stage) is Some && cookie_at(next.stage) is Some ==> cookie_at(
                next.stage,
            ) == cookie_at(run.stage)
            &&& connection_at(run.stage) is Some ==> connection_at(next.stage) == connection_at(
                run.stage,
            )
            &&& injection_at(run.stage) is Some && injection_at(next.stage) is Some
                ==> injection_at(next.stage) == injection_at(run.stage)
            &&& cookie_at(run.stage) is None && cookie_at(next.stage) is Some ==> (reply matches
                SessionReply::X11Prepared { fake_cookie_hex } && cookie_at(next.stage) == Some(
                Some(fake_cookie_hex),
            ))
            &&& connection_at(run.stage) is None && connection_at(next.stage) is Some ==> (
            run.stage matches StageModel::Connecting { connect, .. } && connection_at(next.stage)
                == Some(SessionConnection::Own(ConnectedChain { target: connect.target })))
            &&& injection_at(run.stage) is None && injection_at(next.stage) is Some ==> (reply
                matches SessionReply::ShellOpened { injection_active } && injection_at(next.stage)
                == Some(injection_active))
        },
{
    if let SessionReply::Connect(answer) = reply {
        if let StageModel::Connecting { connect, .. } = run.stage {
            connection::law_reconnection_starts_over(connect, answer@);
        }
    }
}

/// What goes wrong with a session is what is reported. An error of the connection
/// ends it, unless it is the one that asks for a new connection: then the chain is
/// connected from the beginning. A refused channel ends it with the reason, and a
/// shell that was not opened with the error. A cancellation ends it if it can be
/// cancelled and is not yet registered, and changes nothing otherwise. A reply
/// that does not answer the action changes nothing, and a success is never an
/// error.
pub proof fn law_session_ends_with_the_first_error(run: SessionModel, reply: SessionReply)
    ensures
        match (run.action(), reply) {
            (action, SessionReply::Cancelled) => if run.context.cancellable && !(
            action is NotifyReady) && !(action is FindTunnelManager) && !(action is OpenTunnels)
                && !(action is StartIo) {
                run.step(reply) matches Progress::Done(Err(AppErrorModel::Cancelled(text))) && text
                    == "Session creation cancelled"@
            } else {
                run.step(reply) matches Progress::Pending(next) && next == run
            },
            (
                SessionAction::Connect(_),
                SessionReply::Connect(ConnectReply::Failed(error)),
            ) => if error@ matches AppErrorModel::Auth(text) && text == "ssh-agent-auth-retry"@ {
                run.stage matches StageModel::Connecting { connect, .. } && run.step(
                    reply,
                ) matches Progress::Pending(next) && next.stage matches StageModel::Connecting {
                    connect: again,
                    ..
                } && again.at == 0 && again.script == connect.script && again.target
                    == connect.target
            } else {
                run.step(reply) matches Progress::Done(Err(reported)) && reported == error@
            },
            (
                SessionAction::Connect(ConnectAction::OpenJumpChannel { .. }),
                SessionReply::Connect(ConnectReply::Refused(reason)),
            ) => run.step(reply) matches Progress::Done(Err(AppErrorModel::Channel(text))) && text
                == "Failed to open ProxyJump channel: "@ + reason@,
            (SessionAction::OpenShell { .. }, SessionReply::ShellFailed(error)) => run.step(
                reply,
            ) matches Progress::Done(Err(reported)) && reported == error@,
            (SessionAction::PrepareX11 { .. }, SessionReply::X11Prepared { .. }) => run.step(
                reply,
            ) is Pending,
            (SessionAction::Connect(_), SessionReply::Connect(ConnectReply::Done)) => run.step(
                reply,
            ) is Pending,
            (SessionAction::OpenShell { .. }, SessionReply::ShellOpened { .. }) => run.step(
                reply,
            ) is Pending,
            (SessionAction::FindTunnelManager, SessionReply::TunnelManager { .. }) => run.step(
                reply,
            ) is Pending,
            (SessionAction::StartIo { .. }, SessionReply::Done) => run.step(reply) matches
                Progress::Done(Ok(session_id)) && session_id == run.context.session_id@,
            (SessionAction::MarkAuthenticated, SessionReply::Done) => run.step(reply) is Pending,
            (SessionAction::StartX11Forwarder { .. }, SessionReply::Done) => run.step(
                reply,
            ) is Pending,
            (SessionAction::Register { .. }, SessionReply::Done) => run.step(reply) is Pending,
            (SessionAction::NotifyReady(_), SessionReply::Done) => run.step(reply) is Pending,
            (SessionAction::OpenTunnels { .. }, SessionReply::Done) => run.step(reply) is Pending,
            _ => run.step(reply) matches Progress::Pending(next) && next == run,
        },
{
    if let SessionReply::Connect(answer) = reply {
        connection::law_connect_reply_is_its_value(answer);
        if let StageModel::Connecting { connect, .. } = run.stage {
            connection::law_reconnection_starts_over(connect, answer@);
        }
    }
}

/// A connection that has to be made anew is made just as the first time: from the
/// retry on, a session does what it does from its first connection on.
pub proof fn law_reconnecting_session_does_the_same(
    context: SessionContext,
    connect: ConnectModel,
    x11_cookie: Option<String>,
    reply: SessionReply,
)
    requires
        connect.script == context.connect_start().script,
        connect.target == context.connect_start().target,
        reply matches SessionReply::Connect(ConnectReply::Failed(error)) && error@ matches
            AppErrorModel::Auth(text) && text == "ssh-agent-auth-retry"@,
    ensures
        at_stage(context, StageModel::Connecting { connect, x11_cookie }).step(reply) matches
            Progress::Pending(next) && next == at_stage(
            context,
            StageModel::Connecting {
                connect: ConnectModel::start(
                    context.config,
                    connection::connection_options(context.config, false, false, true, true),
                ),
                x11_cookie,
            },
        ),
{
    if let SessionReply::Connect(answer) = reply {
        connection::law_connect_reply_is_its_value(answer);
        connection::law_reconnection_starts_over(connect, answer@);
    }
}

/// What a session asks for at any stage of its own. X11 is prepared for the
/// configured display and the forwarder started under the session's identifier.
/// The shell, the registration, the notice to the creator, the tunnels and the
/// I/O carry what the configuration and the creator asked for, for a multiplexed
/// session as for a new one.
pub proof fn law_session_asks_for_what_it_was_asked_for(run: SessionModel)
    ensures
        match run.action() {
            SessionAction::PrepareX11 { display } => display == run.context.config.x11_display,
            SessionAction::StartX11Forwarder { session_id } => session_id == run.context.session_id,
            SessionAction::OpenShell { request, .. } => {
                &&& request.session_id == run.context.session_id
                &&& request.agent_forwarding == run.context.config.agent_forwarding
                &&& request.terminal_type == run.context.config.terminal_type
                &&& request.network_device_profile == (run.context.config.ssh_profile
                    == SshProfile::NetworkDevice)
                &&& request.remote_file_browser_enabled == (run.context.config.sftp.enabled
                    && run.context.config.ssh_profile != SshProfile::NetworkDevice)
                &&& request.cwd_follow_mode == run.context.cwd_follow_mode
                &&& request.shell_detection_timeout_ms
                    == run.context.config.sftp.shell_detection_timeout_ms
                &&& cookie_at(run.stage) == Some(request.x11_cookie)
            },
            SessionAction::Register { info, config, .. } => {
                &&& config == run.context.config
                &&& info.id == run.context.session_id
                &&& info.name == run.context.config.name
                &&& info.session_type == SessionType::SSH
                &&& info.connection_id == run.context.connection_id
                &&& info.connected
                &&& info.owner_window_label == run.context.owner_window_label
                &&& info.ai_execution_profile == AiExecutionProfile::Posix
                &&& injection_at(run.stage) == Some(info.injection_active)
                &&& info.remote_file_browser_enabled == (run.context.config.sftp.enabled
                    && run.context.config.ssh_profile != SshProfile::NetworkDevice)
                &&& info.remote_stats_enabled == (run.context.config.ssh_profile
                    != SshProfile::NetworkDevice)
                &&& info.ssh_profile == Some(run.context.config.ssh_profile)
            },
            SessionAction::NotifyReady(info) => {
                &&& info.id == run.context.session_id
                &&& info.name == run.context.config.name
                &&& info.session_type == SessionType::SSH
                &&& info.connection_id == run.context.connection_id
                &&& info.connected
                &&& info.owner_window_label == run.context.owner_window_label
                &&& info.ai_execution_profile == AiExecutionProfile::Posix
                &&& injection_at(run.stage) == Some(info.injection_active)
                &&& info.remote_file_browser_enabled == (run.context.config.sftp.enabled
                    && run.context.config.ssh_profile != SshProfile::NetworkDevice)
                &&& info.remote_stats_enabled == (run.context.config.ssh_profile
                    != SshProfile::NetworkDevice)
                &&& info.ssh_profile == Some(run.context.config.ssh_profile)
            },
            SessionAction::OpenTunnels { connection_id } => session::session_valid(run)
                ==> run.context.connection_id == Some(connection_id),
            SessionAction::StartIo { plan, .. } => {
                &&& plan.session_id == run.context.session_id
                &&& plan.connection_id == run.context.connection_id
                &&& plan.post_login == run.context.config.post_login
                &&& plan.startup_command == run.context.startup_command
                &&& plan.backspace_mode == run.context.config.backspace_mode
                &&& plan.encoding == run.context.config.encoding
            },
            _ => true,
        },
{
}

} // verus!
