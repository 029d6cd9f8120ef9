//! Connections and sessions.

use nyaterm::error::AppError;
use nyaterm::progress::Progress;
use nyaterm::ssh::config::{
    hop_config, set_owner_window_label, SftpSettings, SshAgentEndpoint, SshAuth, SshConfig,
    SshProfile,
};
use nyaterm::ssh::connection::{
    create_authenticated_connection, create_authenticated_connection_with_notifications,
    is_agent_auth_retry, should_attach_agent_forwarding, ConnectAction, ConnectReply, ConnectRun,
    ConnectedChain, HandlerPlan, SSH_AGENT_AUTH_RETRY,
};
use nyaterm::ssh::handle::{
    create_ssh_handle, create_ssh_handle_for_tunnel, HandleAction, HandleReply, HandleRun,
};
use nyaterm::ssh::session::{
    create_multiplexed_ssh_session, create_multiplexed_ssh_session_with_id, create_ssh_session,
    create_ssh_session_with_id, resolve_runtime_capabilities, AiExecutionProfile, SessionAction,
    SessionConnection, SessionReply, SessionRun, SessionType, SourceHandle, SourceSession,
};

#[test]
fn agent_forwarding_requires_both_global_and_connection_flags() {
    assert!(!should_attach_agent_forwarding(false, false));
    assert!(!should_attach_agent_forwarding(false, true));
    assert!(!should_attach_agent_forwarding(true, false));
    assert!(should_attach_agent_forwarding(true, true));
}

#[test]
fn agent_retry_error_is_the_only_error_reconstructed() {
    assert!(is_agent_auth_retry(&AppError::Auth(
        SSH_AGENT_AUTH_RETRY.to_string()
    )));
    assert!(!is_agent_auth_retry(&AppError::Auth(
        "other-auth-error".to_string()
    )));
    assert!(!is_agent_auth_retry(&AppError::Cancelled(
        SSH_AGENT_AUTH_RETRY.to_string()
    )));
}

fn test_config(profile: SshProfile) -> SshConfig {
    SshConfig {
        connection_id: None,
        owner_window_label: None,
        name: "test".to_string(),
        host: "example.com".to_string(),
        port: 22,
        username: "root".to_string(),
        auth: SshAuth::NoAuth,
        backspace_mode: "del".to_string(),
        x11_forwarding: false,
        x11_display: String::new(),
        agent_endpoint: SshAgentEndpoint::Auto,
        agent_forwarding: false,
        proxy: None,
        proxy_jump: None,
        post_login: None,
        ssh_algorithms: None,
        ssh_profile: profile,
        terminal_type: "xterm-256color".to_string(),
        sftp: SftpSettings {
            enabled: true,
            cwd_follow_mode: "auto".to_string(),
            shell_detection_timeout_ms: 1500,
        },
        encoding: "UTF-8".to_string(),
    }
}

#[test]
fn network_device_runtime_capabilities_disable_linux_only_features() {
    let config = test_config(SshProfile::NetworkDevice);

    let capabilities = resolve_runtime_capabilities(&config);

    assert!(!capabilities.remote_file_browser_enabled);
    assert!(!capabilities.remote_stats_enabled);
    assert!(capabilities.network_device_profile);
}

#[test]
fn standard_runtime_capabilities_preserve_sftp_file_browser_choice() {
    let mut enabled = test_config(SshProfile::Standard);
    enabled.sftp.enabled = true;
    let mut disabled = test_config(SshProfile::Standard);
    disabled.sftp.enabled = false;

    assert!(resolve_runtime_capabilities(&enabled).remote_file_browser_enabled);
    assert!(!resolve_runtime_capabilities(&disabled).remote_file_browser_enabled);
    assert!(resolve_runtime_capabilities(&enabled).remote_stats_enabled);
}

/// A target that is reached through `inner`, which is reached through `outer`.
fn chain() -> SshConfig {
    let mut outer = test_config(SshProfile::Standard);
    outer.host = "outer".to_string();
    outer.port = 2201;
    outer.agent_forwarding = true;
    outer.x11_forwarding = true;
    let mut inner = test_config(SshProfile::Standard);
    inner.host = "inner".to_string();
    inner.port = 2202;
    inner.proxy_jump = Some(Box::new(outer));
    let mut target = test_config(SshProfile::Standard);
    target.host = "target".to_string();
    target.port = 2203;
    target.agent_forwarding = true;
    target.agent_endpoint = SshAgentEndpoint::Pageant;
    target.proxy_jump = Some(Box::new(inner));
    target
}

fn connect_to_end(mut run: ConnectRun) -> (Vec<ConnectAction>, ConnectedChain) {
    let mut actions = Vec::new();
    loop {
        actions.push(run.action().copy());
        match run.step(ConnectReply::Done) {
            Progress::Pending(next) => run = next,
            Progress::Done(outcome) => return (actions, outcome.expect("connected")),
        }
    }
}

fn handler(action: &ConnectAction) -> &HandlerPlan {
    match action {
        ConnectAction::ConnectDirect { handler, .. } => handler,
        ConnectAction::ConnectThroughJump { handler, .. } => handler,
        other => panic!("unexpected {:?}", other),
    }
}

#[test]
fn owner_window_label_reaches_every_hop() {
    let mut config = chain();
    set_owner_window_label(&mut config, Some("main".to_string()));
    for hop in 0..3 {
        let host = hop_config(&config, hop).expect("hop");
        assert_eq!(host.owner_window_label, Some("main".to_string()));
    }
    assert_eq!(config.host, "target");
    set_owner_window_label(&mut config, None);
    assert_eq!(hop_config(&config, 0).expect("hop").owner_window_label, None);
}

#[test]
fn hops_are_numbered_from_the_first_jump_host() {
    let config = chain();
    assert_eq!(hop_config(&config, 0).expect("hop").host, "outer");
    assert_eq!(hop_config(&config, 1).expect("hop").host, "inner");
    assert_eq!(hop_config(&config, 2).expect("hop").host, "target");
    assert!(hop_config(&config, 3).is_none());
}

#[test]
fn direct_connection_is_built_connected_and_authenticated() {
    let config = test_config(SshProfile::Standard);
    let (actions, connected) = connect_to_end(create_authenticated_connection(&config, true));
    assert_eq!(actions.len(), 3);
    assert!(matches!(actions[0], ConnectAction::BuildClientConfig { hop: 0 }));
    assert!(matches!(&actions[1], ConnectAction::ConnectDirect { hop: 0, .. }));
    let plan = handler(&actions[1]);
    assert_eq!(plan.host, "example.com");
    assert_eq!(plan.port, 22);
    assert!(plan.agent_endpoint.is_none());
    assert!(matches!(
        actions[2],
        ConnectAction::Authenticate {
            hop: 0,
            invalid_credentials: "Authentication failed: invalid credentials",
            key_rejected: "Authentication failed: key rejected",
        }
    ));
    assert_eq!(connected, ConnectedChain { target: 0 });
    assert!(connected.jumps().is_empty());
}

#[test]
fn chain_is_connected_host_by_host() {
    let config = chain();
    let run = create_authenticated_connection_with_notifications(&config, true, true, true, true);
    let (actions, connected) = connect_to_end(run);
    assert_eq!(actions.len(), 11);
    assert!(matches!(actions[0], ConnectAction::BuildClientConfig { hop: 0 }));
    assert!(matches!(actions[1], ConnectAction::ConnectDirect { hop: 0, .. }));
    assert!(matches!(actions[2], ConnectAction::Authenticate { hop: 0, .. }));
    assert!(matches!(
        &actions[3],
        ConnectAction::OpenJumpChannel {
            jump: 0,
            host,
            port: 2202,
            originator: "127.0.0.1",
            originator_port: 0,
        } if host == "inner"
    ));
    assert!(matches!(actions[4], ConnectAction::BuildClientConfig { hop: 1 }));
    assert!(matches!(actions[5], ConnectAction::ConnectThroughJump { hop: 1, .. }));
    assert!(matches!(actions[6], ConnectAction::Authenticate { hop: 1, .. }));
    assert!(matches!(
        &actions[7],
        ConnectAction::OpenJumpChannel { jump: 1, host, port: 2203, .. } if host == "target"
    ));
    assert!(matches!(actions[8], ConnectAction::BuildClientConfig { hop: 2 }));
    assert!(matches!(actions[9], ConnectAction::ConnectThroughJump { hop: 2, .. }));
    assert!(matches!(actions[10], ConnectAction::Authenticate { hop: 2, .. }));
    assert_eq!(connected.target, 2);
    assert_eq!(connected.jumps(), vec![0, 1]);

    for jump in [&actions[1], &actions[5]] {
        let plan = handler(jump);
        assert!(!plan.x11 && !plan.disconnect && !plan.remote_forward && !plan.diagnostics);
        assert!(plan.agent_endpoint.is_none());
    }
    let plan = handler(&actions[9]);
    assert!(!plan.x11 && plan.disconnect && plan.remote_forward && plan.diagnostics);
    assert!(matches!(plan.agent_endpoint, Some(SshAgentEndpoint::Pageant)));
}

#[test]
fn refused_jump_channel_is_a_channel_error() {
    let mut run = create_authenticated_connection(&chain(), false);
    for _ in 0..3 {
        run = match run.step(ConnectReply::Done) {
            Progress::Pending(next) => next,
            other => panic!("unexpected {:?}", other),
        };
    }
    match run.step(ConnectReply::Refused("prohibited".to_string())) {
        Progress::Done(Err(AppError::Channel(text))) => {
            assert_eq!(text, "Failed to open ProxyJump channel: prohibited");
        }
        other => panic!("unexpected {:?}", other),
    }
}

#[test]
fn retry_error_connects_anew_and_any_other_error_ends() {
    let mut run = create_authenticated_connection(&chain(), false);
    for _ in 0..6 {
        run = match run.step_retrying(ConnectReply::Done) {
            Progress::Pending(next) => next,
            other => panic!("unexpected {:?}", other),
        };
    }
    assert!(matches!(run.action(), ConnectAction::Authenticate { hop: 1, .. }));
    let retry = AppError::Auth(SSH_AGENT_AUTH_RETRY.to_string());
    let run = match run.step_retrying(ConnectReply::Failed(retry)) {
        Progress::Pending(next) => next,
        other => panic!("unexpected {:?}", other),
    };
    assert!(matches!(run.action(), ConnectAction::BuildClientConfig { hop: 0 }));
    match run.step_retrying(ConnectReply::Failed(AppError::Auth("denied".to_string()))) {
        Progress::Done(Err(AppError::Auth(text))) => assert_eq!(text, "denied"),
        other => panic!("unexpected {:?}", other),
    }
}

fn handle_next(run: HandleRun, reply: HandleReply) -> HandleRun {
    match run.step(reply) {
        Progress::Pending(run) => run,
        other => panic!("unexpected {:?}", other),
    }
}

#[test]
fn handle_loads_its_configuration_and_connects_without_the_agent() {
    let mut config = test_config(SshProfile::Standard);
    config.agent_forwarding = true;
    let run = create_ssh_handle("saved");
    assert!(matches!(
        run.action(),
        HandleAction::LoadConfig { connection_id } if connection_id == "saved"
    ));
    let run = handle_next(run, HandleReply::Loaded(config));
    assert!(matches!(
        run.action(),
        HandleAction::Connect(ConnectAction::BuildClientConfig { hop: 0 })
    ));
    let run = handle_next(run, HandleReply::Connect(ConnectReply::Done));
    match run.action() {
        HandleAction::Connect(action) => {
            let plan = handler(&action);
            assert!(plan.agent_endpoint.is_none());
            assert!(!plan.disconnect && !plan.remote_forward && !plan.diagnostics);
        }
        other => panic!("unexpected {:?}", other),
    }
    let run = handle_next(run, HandleReply::Connect(ConnectReply::Done));
    let retry = AppError::Auth(SSH_AGENT_AUTH_RETRY.to_string());
    let run = handle_next(run, HandleReply::Connect(ConnectReply::Failed(retry)));
    let run = handle_next(run, HandleReply::Connect(ConnectReply::Done));
    let run = handle_next(run, HandleReply::Connect(ConnectReply::Done));
    assert!(matches!(
        run.step(HandleReply::Connect(ConnectReply::Done)),
        Progress::Done(Ok(ConnectedChain { target: 0 }))
    ));
}

#[test]
fn tunnel_handle_reports_disconnects() {
    for remote_forward in [false, true] {
        let run = create_ssh_handle_for_tunnel("saved", remote_forward);
        let run = handle_next(run, HandleReply::Loaded(test_config(SshProfile::Standard)));
        let run = handle_next(run, HandleReply::Connect(ConnectReply::Done));
        match run.action() {
            HandleAction::Connect(action) => {
                let plan = handler(&action);
                assert!(plan.disconnect);
                assert_eq!(plan.remote_forward, remote_forward);
            }
            other => panic!("unexpected {:?}", other),
        }
    }
}

#[test]
fn handle_of_an_unknown_connection_fails() {
    let run = create_ssh_handle("unknown");
    match run.step(HandleReply::LoadFailed(AppError::Config("unknown".to_string()))) {
        Progress::Done(Err(AppError::Config(text))) => assert_eq!(text, "unknown"),
        other => panic!("unexpected {:?}", other),
    }
}

fn session_next(run: SessionRun, reply: SessionReply) -> SessionRun {
    match run.step(reply) {
        Progress::Pending(run) => run,
        other => panic!("unexpected {:?}", other),
    }
}

fn text(value: &str) -> Option<String> {
    Some(value.to_string())
}

fn label(action: &SessionAction) -> &'static str {
    match action {
        SessionAction::PrepareX11 { .. } => "x11",
        SessionAction::Connect(_) => "connect",
        SessionAction::MarkAuthenticated => "authenticated",
        SessionAction::OpenShell { .. } => "shell",
        SessionAction::StartX11Forwarder { .. } => "forwarder",
        SessionAction::Register { .. } => "register",
        SessionAction::NotifyReady(_) => "ready",
        SessionAction::FindTunnelManager => "manager",
        SessionAction::OpenTunnels { .. } => "tunnels",
        SessionAction::StartIo { .. } => "io",
    }
}

/// Drives a session with nothing but successes. Gives the actions and the
/// outcome.
fn session_to_end(mut run: SessionRun, present: bool) -> (Vec<SessionAction>, String) {
    let mut actions = Vec::new();
    loop {
        let action = run.action();
        let reply = match &action {
            SessionAction::FindTunnelManager => SessionReply::TunnelManager { present },
            other => success_of(other),
        };
        actions.push(action);
        match run.step(reply) {
            Progress::Pending(next) => run = next,
            Progress::Done(outcome) => return (actions, outcome.expect("session")),
        }
    }
}

fn labels(actions: &[SessionAction]) -> Vec<&'static str> {
    actions.iter().map(label).collect()
}

fn session(config: SshConfig, connection_id: Option<String>, hook: bool) -> SessionRun {
    create_ssh_session_with_id(
        "id-1".to_string(),
        config,
        connection_id,
        text("main"),
        true,
        text("uptime"),
        hook,
        "osc7".to_string(),
    )
}

#[test]
fn session_connects_opens_a_shell_registers_and_starts_io() {
    let mut config = test_config(SshProfile::Standard);
    config.agent_forwarding = true;
    config.post_login = text("menu");
    let (actions, outcome) = session_to_end(session(config, None, false), true);
    assert_eq!(outcome, "id-1");
    assert_eq!(
        labels(&actions),
        vec!["connect", "connect", "connect", "authenticated", "shell", "register", "io"]
    );
    match &actions[1] {
        SessionAction::Connect(action) => {
            let plan = handler(action);
            assert_eq!(plan.owner_window_label, text("main"));
            assert!(matches!(plan.agent_endpoint, Some(SshAgentEndpoint::Auto)));
            assert!(plan.diagnostics && !plan.disconnect && !plan.remote_forward && !plan.x11);
        }
        other => panic!("unexpected {:?}", other),
    }
    match &actions[4] {
        SessionAction::OpenShell { connection, request: shell } => {
            assert_eq!(*connection, SessionConnection::Own(ConnectedChain { target: 0 }));
            assert_eq!(shell.session_id, "id-1");
            assert_eq!(shell.x11_cookie, None);
            assert!(shell.agent_forwarding);
            assert_eq!(shell.terminal_type, "xterm-256color");
            assert!(shell.remote_file_browser_enabled);
            assert!(!shell.network_device_profile);
            assert_eq!(shell.cwd_follow_mode, "osc7");
            assert_eq!(shell.shell_detection_timeout_ms, 1500);
        }
        other => panic!("unexpected {:?}", other),
    }
    match &actions[5] {
        SessionAction::Register { info, config, connection } => {
            assert_eq!(*connection, SessionConnection::Own(ConnectedChain { target: 0 }));
            assert_eq!(config.host, "example.com");
            assert_eq!(config.owner_window_label, text("main"));
            assert_eq!(config.post_login, text("menu"));
            assert_eq!(info.id, "id-1");
            assert_eq!(info.name, "test");
            assert_eq!(info.session_type, SessionType::SSH);
            assert_eq!(info.connection_id, None);
            assert!(info.connected);
            assert_eq!(info.owner_window_label, text("main"));
            assert_eq!(info.ai_execution_profile, AiExecutionProfile::Posix);
            assert!(info.injection_active);
            assert!(info.remote_file_browser_enabled);
            assert!(info.remote_stats_enabled);
            assert_eq!(info.ssh_profile, Some(SshProfile::Standard));
        }
        other => panic!("unexpected {:?}", other),
    }
    match &actions[6] {
        SessionAction::StartIo { plan: io, connection } => {
            assert_eq!(*connection, SessionConnection::Own(ConnectedChain { target: 0 }));
            assert_eq!(io.session_id, "id-1");
            assert_eq!(io.connection_id, None);
            assert_eq!(io.post_login, text("menu"));
            assert_eq!(io.startup_command, text("uptime"));
            assert_eq!(io.backspace_mode, "del");
            assert_eq!(io.encoding, "UTF-8");
        }
        other => panic!("unexpected {:?}", other),
    }
}

#[test]
fn session_with_everything_passes_through_every_stage() {
    let mut config = test_config(SshProfile::NetworkDevice);
    config.x11_forwarding = true;
    config.x11_display = ":0".to_string();
    let (actions, _) = session_to_end(session(config, text("saved"), true), true);
    assert_eq!(
        labels(&actions),
        vec![
            "x11", "connect", "connect", "connect", "authenticated", "shell", "forwarder",
            "register", "ready", "manager", "tunnels", "io",
        ]
    );
    assert!(matches!(&actions[0], SessionAction::PrepareX11 { display } if display == ":0"));
    match &actions[5] {
        SessionAction::OpenShell { request: shell, .. } => {
            assert_eq!(shell.x11_cookie, text("c00c1e"));
            assert!(!shell.remote_file_browser_enabled);
            assert!(shell.network_device_profile);
        }
        other => panic!("unexpected {:?}", other),
    }
    assert!(matches!(
        &actions[10],
        SessionAction::OpenTunnels { connection_id } if connection_id == "saved"
    ));
}

#[test]
fn tunnels_need_a_manager() {
    let config = test_config(SshProfile::Standard);
    let (actions, _) = session_to_end(session(config, text("saved"), false), false);
    assert_eq!(
        labels(&actions),
        vec!["connect", "connect", "connect", "authenticated", "shell", "register", "manager", "io"]
    );
}

#[test]
fn session_without_a_shell_is_not_registered() {
    let mut run = session(test_config(SshProfile::Standard), None, false);
    for _ in 0..3 {
        run = session_next(run, SessionReply::Connect(ConnectReply::Done));
    }
    let run = session_next(run, SessionReply::Done);
    match run.step(SessionReply::ShellFailed(AppError::Channel("no pty".to_string()))) {
        Progress::Done(Err(AppError::Channel(text))) => assert_eq!(text, "no pty"),
        other => panic!("unexpected {:?}", other),
    }
}

#[test]
fn session_reconnects_on_the_retry_error_only() {
    let run = session(test_config(SshProfile::Standard), None, false);
    let run = session_next(run, SessionReply::Connect(ConnectReply::Done));
    let retry = AppError::Auth(SSH_AGENT_AUTH_RETRY.to_string());
    let run = session_next(run, SessionReply::Connect(ConnectReply::Failed(retry)));
    assert!(matches!(
        run.action(),
        SessionAction::Connect(ConnectAction::BuildClientConfig { hop: 0 })
    ));
    let other = AppError::Config("no route".to_string());
    assert!(matches!(
        run.step(SessionReply::Connect(ConnectReply::Failed(other))),
        Progress::Done(Err(AppError::Config(_)))
    ));
}

#[test]
fn shell_is_opened_on_the_target_of_the_chain() {
    let (actions, _) = session_to_end(session(chain(), None, false), true);
    let target = SessionConnection::Own(ConnectedChain { target: 2 });
    let mut seen = 0;
    for action in &actions {
        match action {
            SessionAction::OpenShell { connection, .. } => assert_eq!(*connection, target),
            SessionAction::StartIo { connection, .. } => assert_eq!(*connection, target),
            SessionAction::Register { connection, config, .. } => {
                assert_eq!(*connection, target);
                for (hop, host) in ["outer", "inner", "target"].iter().enumerate() {
                    let hop = hop_config(config, hop).expect("hop");
                    assert_eq!(hop.host, *host);
                    assert_eq!(hop.owner_window_label, text("main"));
                }
            }
            _ => continue,
        }
        seen += 1;
    }
    assert_eq!(seen, 3);
}

fn success_of(action: &SessionAction) -> SessionReply {
    match action {
        SessionAction::PrepareX11 { .. } => {
            SessionReply::X11Prepared { fake_cookie_hex: "c00c1e".to_string() }
        }
        SessionAction::Connect(_) => SessionReply::Connect(ConnectReply::Done),
        SessionAction::OpenShell { .. } => SessionReply::ShellOpened { injection_active: true },
        SessionAction::FindTunnelManager => SessionReply::TunnelManager { present: true },
        _ => SessionReply::Done,
    }
}

/// A session of that many successes, with everything that a session can have.
fn session_after(successes: usize, cancellable: bool) -> SessionRun {
    let mut config = test_config(SshProfile::Standard);
    config.x11_forwarding = true;
    let mut run = create_ssh_session_with_id(
        "id-1".to_string(),
        config,
        text("saved"),
        None,
        cancellable,
        None,
        true,
        "off".to_string(),
    );
    for _ in 0..successes {
        let reply = success_of(&run.action());
        run = session_next(run, reply);
    }
    run
}

#[test]
fn cancellation_ends_a_cancellable_session_until_it_is_registered() {
    let before = [
        "x11", "connect", "connect", "connect", "authenticated", "shell", "forwarder", "register",
    ];
    for (successes, stage) in before.iter().enumerate() {
        let run = session_after(successes, true);
        assert_eq!(label(&run.action()), *stage);
        match run.step(SessionReply::Cancelled) {
            Progress::Done(Err(AppError::Cancelled(text))) => {
                assert_eq!(text, "Session creation cancelled");
            }
            other => panic!("unexpected {:?}", other),
        }
    }
}

#[test]
fn registered_session_is_created_in_spite_of_a_cancellation() {
    for (at, stage) in ["ready", "manager", "tunnels", "io"].iter().enumerate() {
        let run = session_next(session_after(8 + at, true), SessionReply::Cancelled);
        assert_eq!(label(&run.action()), *stage);
        let (_, outcome) = session_to_end(run, true);
        assert_eq!(outcome, "id-1");
    }
}

#[test]
fn session_that_cannot_be_cancelled_goes_on() {
    for successes in 0..12 {
        let run = session_after(successes, false);
        let stage = label(&run.action());
        let run = session_next(run, SessionReply::Cancelled);
        assert_eq!(label(&run.action()), stage);
        let (_, outcome) = session_to_end(run, true);
        assert_eq!(outcome, "id-1");
    }
}

fn assert_random_uuid(id: &str) {
    assert_eq!(id.len(), 36);
    for (at, c) in id.chars().enumerate() {
        match at {
            8 | 13 | 18 | 23 => assert_eq!(c, '-'),
            14 => assert_eq!(c, '4'),
            19 => assert!("89ab".contains(c)),
            _ => assert!("0123456789abcdef".contains(c)),
        }
    }
}

#[test]
fn session_identifiers_are_random_uuids() {
    let mut ids = Vec::new();
    for _ in 0..100 {
        let run = create_ssh_session(
            test_config(SshProfile::Standard),
            None,
            None,
            false,
            None,
            false,
            "off".to_string(),
        );
        assert_random_uuid(&run.context.session_id);
        ids.push(run.context.session_id);
    }
    ids.sort();
    ids.dedup();
    assert_eq!(ids.len(), 100);
}

fn source(config: Option<SshConfig>, handle: SourceHandle) -> Option<SourceSession> {
    Some(SourceSession {
        session_type: SessionType::SSH,
        ssh_config: config,
        ssh_handle: handle,
        owner_window_label: text("main"),
    })
}

fn multiplex_error(source: Option<SourceSession>) -> AppError {
    create_multiplexed_ssh_session("s1", source, None, false, "off".to_string())
        .expect_err("cannot be multiplexed")
}

fn assert_config_error(error: AppError, expected: &str) {
    match error {
        AppError::Config(text) => assert_eq!(text, expected),
        other => panic!("unexpected {:?}", other),
    }
}

#[test]
fn source_sessions_that_do_not_fit_are_refused() {
    match multiplex_error(None) {
        AppError::SessionNotFound(text) => assert_eq!(text, "Session 's1' not found"),
        other => panic!("unexpected {:?}", other),
    }
    let config = || Some(test_config(SshProfile::Standard));
    let mut other = source(config(), SourceHandle::Connected);
    if let Some(session) = other.as_mut() {
        session.session_type = SessionType::Other;
    }
    assert_config_error(multiplex_error(other), "Source session is not an SSH session");
    assert_config_error(
        multiplex_error(source(None, SourceHandle::Absent)),
        "Failed to get SSH config",
    );
    assert_config_error(
        multiplex_error(source(config(), SourceHandle::Absent)),
        "Source session has no SSH handle",
    );
    assert_config_error(
        multiplex_error(source(config(), SourceHandle::Foreign)),
        "Failed to get SSH handle",
    );
    let mut x11 = test_config(SshProfile::Standard);
    x11.x11_forwarding = true;
    assert_config_error(
        multiplex_error(source(Some(x11), SourceHandle::Connected)),
        "X11 forwarding requires a saved SSH connection",
    );
}

#[test]
fn multiplexed_session_opens_its_shell_at_once() {
    let mut config = test_config(SshProfile::Standard);
    config.connection_id = text("saved");
    let run = create_multiplexed_ssh_session_with_id(
        "id-2".to_string(),
        "s1",
        source(Some(config), SourceHandle::Connected),
        text("uptime"),
        true,
        "off".to_string(),
    )
    .expect("multiplexed");
    let (actions, outcome) = session_to_end(run, true);
    assert_eq!(outcome, "id-2");
    assert_eq!(labels(&actions), vec!["authenticated", "shell", "register", "ready", "io"]);
    assert!(matches!(
        actions[1],
        SessionAction::OpenShell { connection: SessionConnection::Source, .. }
    ));
    match &actions[2] {
        SessionAction::Register { info, config, connection } => {
            assert_eq!(*connection, SessionConnection::Source);
            assert_eq!(config.connection_id, text("saved"));
            assert_eq!(info.connection_id, text("saved"));
            assert_eq!(info.owner_window_label, text("main"));
        }
        other => panic!("unexpected {:?}", other),
    }
    match &actions[4] {
        SessionAction::StartIo { plan: io, connection } => {
            assert_eq!(*connection, SessionConnection::Source);
            assert_eq!(io.connection_id, text("saved"));
            assert_eq!(io.startup_command, text("uptime"));
        }
        other => panic!("unexpected {:?}", other),
    }
}

#[test]
fn multiplexed_session_with_x11_gets_its_own_connection() {
    let mut config = test_config(SshProfile::Standard);
    config.connection_id = text("saved");
    config.x11_forwarding = true;
    let run = create_multiplexed_ssh_session(
        "s1",
        source(Some(config), SourceHandle::Connected),
        None,
        false,
        "off".to_string(),
    )
    .expect("own connection");
    assert_random_uuid(&run.context.session_id);
    let (actions, _) = session_to_end(run, true);
    assert_eq!(
        labels(&actions),
        vec![
            "x11", "connect", "connect", "connect", "authenticated", "shell", "forwarder",
            "register", "manager", "tunnels", "io",
        ]
    );
}
