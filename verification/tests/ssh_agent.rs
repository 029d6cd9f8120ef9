//! Which agent is connected to, and what is reported instead.

use nyaterm::error::AppError;
use nyaterm::progress::Progress;
use nyaterm::ssh::agent::{
    connect_agent_stream, normalize_environment_variable, AgentAction, AgentReply, AgentRun,
    Platform, AGENT_CONNECT_TIMEOUT_SECS, WINDOWS_OPENSSH_AGENT_PIPE,
};
use nyaterm::ssh::config::SshAgentEndpoint;

fn start(platform: Platform, endpoint: SshAgentEndpoint) -> AgentRun {
    connect_agent_stream(platform, &endpoint).expect("can be connected to")
}

fn refused(platform: Platform, endpoint: SshAgentEndpoint) -> String {
    match connect_agent_stream(platform, &endpoint) {
        Err(AppError::Config(text)) => text,
        other => panic!("unexpected {:?}", other),
    }
}

fn next(run: AgentRun, reply: AgentReply) -> AgentRun {
    match run.step(reply) {
        Progress::Pending(run) => run,
        other => panic!("unexpected {:?}", other),
    }
}

fn auth_error(run: AgentRun, reply: AgentReply) -> String {
    match run.step(reply) {
        Progress::Done(Err(AppError::Auth(text))) => text,
        other => panic!("unexpected {:?}", other),
    }
}

fn failed(reason: &str) -> AgentReply {
    AgentReply::Failed { reason: reason.to_string() }
}

fn environment(variable: &str) -> SshAgentEndpoint {
    SshAgentEndpoint::Environment { variable: variable.to_string() }
}

fn socket(path: &str) -> SshAgentEndpoint {
    SshAgentEndpoint::UnixSocket { path: path.to_string() }
}

#[test]
fn normalizes_agent_environment_variable_prefix() {
    assert_eq!(
        normalize_environment_variable("$SSH_AUTH_SOCK").unwrap(),
        "SSH_AUTH_SOCK"
    );
    assert_eq!(
        normalize_environment_variable(" SSH_DEFAULT_SOCK ").unwrap(),
        "SSH_DEFAULT_SOCK"
    );
}

#[test]
fn rejects_empty_agent_environment_variable() {
    assert!(normalize_environment_variable("$").is_err());
    assert!(normalize_environment_variable(" ").is_err());
}

#[test]
fn normalization_agrees_with_its_three_steps() {
    for value in ["$ $X ", "  $$A", "A$", "$\tB\n", "$$", "", "\u{3000}$C"] {
        let expected = value.trim().trim_start_matches('$').trim();
        match normalize_environment_variable(value) {
            Ok(variable) => assert_eq!(variable, expected),
            Err(AppError::Config(text)) => {
                assert_eq!(expected, "");
                assert_eq!(text, "SSH Agent environment variable must not be empty");
            }
            Err(other) => panic!("unexpected {:?}", other),
        }
    }
}

#[test]
fn automatic_choice_on_unix_uses_the_usual_variable() {
    let run = start(Platform::Unix, SshAgentEndpoint::Auto);
    assert!(matches!(run.action(), AgentAction::LookUp { variable: "SSH_AUTH_SOCK" }));
    let run = next(run, AgentReply::Variable { set: true });
    assert!(matches!(run.action(), AgentAction::ConnectVariable { variable: "SSH_AUTH_SOCK" }));
    assert!(matches!(run.step(AgentReply::Connected), Progress::Done(Ok(()))));

    let run = start(Platform::Unix, SshAgentEndpoint::Auto);
    assert_eq!(
        auth_error(run, AgentReply::Variable { set: false }),
        "SSH_AUTH_SOCK is not set; no SSH Agent is available"
    );
}

#[test]
fn chosen_variable_is_looked_up_by_its_normalized_name() {
    let run = start(Platform::Unix, environment(" $MY_SOCK "));
    assert!(matches!(run.action(), AgentAction::LookUp { variable: "MY_SOCK" }));
    assert_eq!(
        auth_error(run, AgentReply::Variable { set: false }),
        "SSH Agent environment variable 'MY_SOCK' is not set"
    );
}

#[test]
fn socket_path_is_used_as_it_is() {
    let run = start(Platform::Unix, socket(" /tmp/agent "));
    assert!(matches!(run.action(), AgentAction::ConnectSocket { path: " /tmp/agent " }));
    assert_eq!(auth_error(run, AgentReply::TimedOut), "SSH Agent connection timed out");

    let run = start(Platform::Unix, socket("/tmp/agent"));
    assert_eq!(
        auth_error(run, failed("connection refused")),
        "SSH Agent connection failed: connection refused"
    );
}

#[test]
fn empty_names_and_paths_are_refused() {
    assert_eq!(
        refused(Platform::Unix, environment("$")),
        "SSH Agent environment variable must not be empty"
    );
    assert_eq!(
        refused(Platform::Unix, socket(" \t")),
        "SSH Agent Unix socket path must not be empty"
    );
}

#[test]
fn endpoints_are_refused_on_the_wrong_platform() {
    for platform in [Platform::Windows, Platform::Other] {
        assert_eq!(
            refused(platform, environment("")),
            "Environment variable SSH Agent is only supported on macOS and Linux"
        );
        assert_eq!(
            refused(platform, socket("")),
            "Unix socket SSH Agent is only supported on macOS and Linux"
        );
    }
    for platform in [Platform::Unix, Platform::Other] {
        assert_eq!(
            refused(platform, SshAgentEndpoint::Pageant),
            "Pageant SSH Agent is only supported on Windows"
        );
        assert_eq!(
            refused(platform, SshAgentEndpoint::WindowsOpenSsh),
            "Windows OpenSSH Agent is only supported on Windows"
        );
    }
    assert_eq!(
        refused(Platform::Other, SshAgentEndpoint::Auto),
        "SSH Agent is not supported on this platform"
    );
}

#[test]
fn automatic_choice_on_windows_tries_both_agents() {
    let run = start(Platform::Windows, SshAgentEndpoint::Auto);
    assert!(matches!(
        run.action(),
        AgentAction::ConnectPipe { pipe: r"\\.\pipe\openssh-ssh-agent" }
    ));
    let run = next(run, AgentReply::TimedOut);
    assert!(matches!(run.action(), AgentAction::ConnectPageant));
    assert_eq!(
        auth_error(run, failed("not running")),
        "Windows SSH Agent is unavailable (OpenSSH: Windows OpenSSH Agent connection timed out; \
         Pageant: Pageant connection failed: not running)"
    );

    let run = start(Platform::Windows, SshAgentEndpoint::Auto);
    let run = next(run, failed("no pipe"));
    assert!(matches!(run.step(AgentReply::Connected), Progress::Done(Ok(()))));
}

#[test]
fn chosen_windows_agent_is_not_replaced() {
    let run = start(Platform::Windows, SshAgentEndpoint::WindowsOpenSsh);
    assert_eq!(
        auth_error(run, failed("no pipe")),
        "Windows OpenSSH Agent connection failed: no pipe"
    );
    let run = start(Platform::Windows, SshAgentEndpoint::Pageant);
    assert_eq!(auth_error(run, AgentReply::TimedOut), "Pageant connection timed out");
}

#[test]
fn replies_out_of_turn_are_ignored() {
    let run = start(Platform::Unix, SshAgentEndpoint::Auto);
    let run = next(run, AgentReply::Connected);
    assert!(matches!(run.action(), AgentAction::LookUp { .. }));
    let run = next(run, AgentReply::Variable { set: true });
    let run = next(run, AgentReply::Variable { set: false });
    assert!(matches!(run.action(), AgentAction::ConnectVariable { .. }));
}

#[test]
fn constants_of_the_agents() {
    assert_eq!(AGENT_CONNECT_TIMEOUT_SECS, 3);
    assert_eq!(WINDOWS_OPENSSH_AGENT_PIPE, r"\\.\pipe\openssh-ssh-agent");
}
