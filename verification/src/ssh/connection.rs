//! Authenticated connections, possibly through a chain of jump hosts.
//!
//! The hosts of a chain are numbered in the order in which they are connected
//! to: host 0 is reached directly, every other host through a channel on the
//! host before it, and the last host is the target.

use crate::error::{AppError, AppErrorModel, AppResult};
use crate::progress::Progress;
use crate::ssh::config;
use crate::ssh::config::{SshAgentEndpoint, SshConfig};
use crate::text::{copy_label, join, same_text};
use vstd::prelude::*;

verus! {

/// The text of the authentication error that asks for a new connection.
pub const SSH_AGENT_AUTH_RETRY: &'static str = "ssh-agent-auth-retry";

/// What is reported if the credentials of a host are refused.
pub const INVALID_CREDENTIALS: &'static str = "Authentication failed: invalid credentials";

/// What is reported if the key for a host is refused.
pub const KEY_REJECTED: &'static str = "Authentication failed: key rejected";

/// The address that a channel through a jump host claims to come from.
pub const ORIGINATOR_ADDRESS: &'static str = "127.0.0.1";

/// What the handler of the target connection is equipped with.
#[derive(Debug, Clone, Copy)]
pub struct ConnectOptions {
    /// X11 channels are handed on.
    pub x11: bool,
    /// A disconnect is reported.
    pub disconnect: bool,
    /// Remotely forwarded channels are handed on.
    pub remote_forward: bool,
    /// Agent forwarding is allowed, if the connection asks for it.
    pub agent_forwarding: bool,
    /// Diagnostics are recorded.
    pub diagnostics: bool,
}

/// How the handler of one host's connection is set up.
#[derive(Debug)]
pub struct HandlerPlan {
    pub host: String,
    pub port: u16,
    pub owner_window_label: Option<String>,
    pub x11: bool,
    pub disconnect: bool,
    pub remote_forward: bool,
    /// The agent to forward, where one is forwarded.
    pub agent_endpoint: Option<SshAgentEndpoint>,
    pub diagnostics: bool,
}

/// One thing to do on the way to an authenticated connection.
#[derive(Debug)]
pub enum ConnectAction {
    /// Open a direct TCP/IP channel on host `jump`.
    OpenJumpChannel {
        jump: usize,
        host: String,
        port: u32,
        originator: &'static str,
        originator_port: u32,
    },
    /// Build the protocol configuration for host `hop`.
    BuildClientConfig { hop: usize },
    /// Connect to host `hop`, through its proxy if it has one.
    ConnectDirect { hop: usize, handler: HandlerPlan },
    /// Connect to host `hop` over the channel that was opened last.
    ConnectThroughJump { hop: usize, handler: HandlerPlan },
    /// Authenticate at host `hop`.
    Authenticate { hop: usize, invalid_credentials: &'static str, key_rejected: &'static str },
}

/// What a driver answers.
#[derive(Debug)]
pub enum ConnectReply {
    /// The action has succeeded.
    Done,
    /// The action has failed.
    Failed(AppError),
    /// The channel was not opened, for the reason given.
    Refused(String),
}

/// A chain of authenticated connections. The hosts before `target` are its
/// jump hosts, in the order in which they were connected to.
#[derive(Debug, Clone, Copy, PartialEq, Eq, Structural)]
pub struct ConnectedChain {
    pub target: usize,
}

/// Mathematical value of a [`ConnectReply`].
pub enum ConnectReplyModel {
    Done,
    Failed(AppErrorModel),
    Refused(Seq<char>),
}

impl View for ConnectReply {
    type V = ConnectReplyModel;

    open spec fn view(&self) -> ConnectReplyModel {
        match *self {
            ConnectReply::Done => ConnectReplyModel::Done,
            ConnectReply::Failed(error) => ConnectReplyModel::Failed(error@),
            ConnectReply::Refused(reason) => ConnectReplyModel::Refused(reason@),
        }
    }
}

impl View for ConnectedChain {
    type V = ConnectedChain;

    open spec fn view(&self) -> ConnectedChain {
        *self
    }
}

impl ConnectedChain {
    /// The jump hosts, in the order in which they were connected to.
    pub fn jumps(&self) -> (r: Vec<usize>)
        ensures
            r@ == Seq::new(self.target as nat, |i: int| i as usize),
    {
        let mut jumps: Vec<usize> = Vec::new();
        let mut next: usize = 0;
        while next < self.target
            invariant
                next <= self.target,
                jumps@ == Seq::new(next as nat, |i: int| i as usize),
            decreases self.target - next,
        {
            jumps.push(next);
            next = next + 1;
            assert(jumps@ =~= Seq::new(next as nat, |i: int| i as usize));
        }
        jumps
    }
}

impl HandlerPlan {
    /// A copy of the plan.
    pub fn copy(&self) -> (r: HandlerPlan)
        ensures
            r == *self,
    {
        HandlerPlan {
            host: self.host.clone(),
            port: self.port,
            owner_window_label: copy_label(&self.owner_window_label),
            x11: self.x11,
            disconnect: self.disconnect,
            remote_forward: self.remote_forward,
            agent_endpoint: match &self.agent_endpoint {
                Some(endpoint) => Some(endpoint.copy()),
                None => None,
            },
            diagnostics: self.diagnostics,
        }
    }
}

impl ConnectAction {
    /// A copy of the action.
    pub fn copy(&self) -> (r: ConnectAction)
        ensures
            r == *self,
    {
        match self {
            ConnectAction::OpenJumpChannel { jump, host, port, originator, originator_port } =>
                ConnectAction::OpenJumpChannel {
                    jump: *jump,
                    host: host.clone(),
                    port: *port,
                    originator: *originator,
                    originator_port: *originator_port,
                },
            ConnectAction::BuildClientConfig { hop } => ConnectAction::BuildClientConfig {
                hop: *hop,
            },
            ConnectAction::ConnectDirect { hop, handler } => ConnectAction::ConnectDirect {
                hop: *hop,
                handler: handler.copy(),
            },
            ConnectAction::ConnectThroughJump { hop, handler } =>
                ConnectAction::ConnectThroughJump { hop: *hop, handler: handler.copy() },
            ConnectAction::Authenticate { hop, invalid_credentials, key_rejected } =>
                ConnectAction::Authenticate {
                    hop: *hop,
                    invalid_credentials: *invalid_credentials,
                    key_rejected: *key_rejected,
                },
        }
    }
}

// What is done at each host.

/// A jump host's handler has nothing but the host to check.
pub open spec fn jump_options() -> ConnectOptions {
    ConnectOptions {
        x11: false,
        disconnect: false,
        remote_forward: false,
        agent_forwarding: false,
        diagnostics: false,
    }
}

/// Agent forwarding is attached only where it is enabled both in general and
/// for the connection.
pub fn should_attach_agent_forwarding(global_enabled: bool, connection_enabled: bool) -> (r: bool)
    ensures
        r == (global_enabled && connection_enabled),
{
    global_enabled && connection_enabled
}

/// The handler for a host.
pub open spec fn handler_plan(config: SshConfig, options: ConnectOptions) -> HandlerPlan {
    HandlerPlan {
        host: config.host,
        port: config.port,
        owner_window_label: config.owner_window_label,
        x11: options.x11,
        disconnect: options.disconnect,
        remote_forward: options.remote_forward,
        agent_endpoint: if options.agent_forwarding && config.agent_forwarding {
            Some(config.agent_endpoint)
        } else {
            None
        },
        diagnostics: options.diagnostics,
    }
}

fn plan_handler(config: &SshConfig, options: ConnectOptions) -> (r: HandlerPlan)
    ensures
        r == handler_plan(*config, options),
{
    let agent_endpoint = if should_attach_agent_forwarding(
        options.agent_forwarding,
        config.agent_forwarding,
    ) {
        Some(config.agent_endpoint.copy())
    } else {
        None
    };
    HandlerPlan {
        host: config.host.clone(),
        port: config.port,
        owner_window_label: copy_label(&config.owner_window_label),
        x11: options.x11,
        disconnect: options.disconnect,
        remote_forward: options.remote_forward,
        agent_endpoint,
        diagnostics: options.diagnostics,
    }
}

/// The authentication at a host.
pub open spec fn authenticate(hop: usize) -> ConnectAction {
    ConnectAction::Authenticate {
        hop,
        invalid_credentials: INVALID_CREDENTIALS,
        key_rejected: KEY_REJECTED,
    }
}

/// The channel to a host through the host before it.
pub open spec fn jump_channel(config: SshConfig, hop: usize) -> ConnectAction {
    ConnectAction::OpenJumpChannel {
        jump: (hop - 1) as usize,
        host: config.host,
        port: config.port as u32,
        originator: ORIGINATOR_ADDRESS,
        originator_port: 0,
    }
}

/// All that is done to connect to the target, if nothing fails: first the chain
/// up to the jump host, then the target itself.
pub open spec fn chain_script(config: SshConfig, options: ConnectOptions) -> Seq<ConnectAction>
    decreases config,
{
    match config.proxy_jump {
        Some(jump) => {
            let hop = config::hops(*jump).len() as usize;
            chain_script(*jump, jump_options()) + seq![
                jump_channel(config, hop),
                ConnectAction::BuildClientConfig { hop },
                ConnectAction::ConnectThroughJump { hop, handler: handler_plan(config, options) },
                authenticate(hop),
            ]
        },
        None => seq![
            ConnectAction::BuildClientConfig { hop: 0 },
            ConnectAction::ConnectDirect { hop: 0, handler: handler_plan(config, options) },
            authenticate(0),
        ],
    }
}

/// Four actions for every host, but no channel for the first.
pub proof fn lemma_chain_script_len(config: SshConfig, options: ConnectOptions)
    ensures
        chain_script(config, options).len() == 4 * config::hops(config).len() - 1,
        config::hops(config).len() > 0,
    decreases config,
{
    match config.proxy_jump {
        Some(jump) => {
            lemma_chain_script_len(*jump, jump_options());
        },
        None => {},
    }
}

/// What is done at each host: a channel to it is opened on the host before it,
/// its protocol configuration is built, it is connected to, and the user is
/// authenticated, before anything is done about the next host. Only the target's
/// handler gets the options of the connection.
pub proof fn law_chain_script_layout(config: SshConfig, options: ConnectOptions, hop: int)
    requires
        0 <= hop < config::hops(config).len() <= usize::MAX,
    ensures
        chain_script(config, options).len() == 4 * config::hops(config).len() - 1,
        hop > 0 ==> chain_script(config, options)[4 * hop - 1] == jump_channel(
            config::hops(config)[hop],
            hop as usize,
        ),
        chain_script(config, options)[4 * hop] == (ConnectAction::BuildClientConfig {
            hop: hop as usize,
        }),
        chain_script(config, options)[4 * hop + 1] == ({
            let handler = handler_plan(
                config::hops(config)[hop],
                if hop == config::hops(config).len() - 1 {
                    options
                } else {
                    jump_options()
                },
            );
            if hop == 0 {
                ConnectAction::ConnectDirect { hop: 0, handler }
            } else {
                ConnectAction::ConnectThroughJump { hop: hop as usize, handler }
            }
        }),
        chain_script(config, options)[4 * hop + 2] == authenticate(hop as usize),
    decreases config,
{
    lemma_chain_script_len(config, options);
    match config.proxy_jump {
        Some(jump) => {
            lemma_chain_script_len(*jump, jump_options());
            let before = config::hops(*jump).len();
            if hop < before {
                law_chain_script_layout(*jump, jump_options(), hop);
            }
        },
        None => {},
    }
}

/// Forwarding an agent takes both the general and the connection's consent, and
/// no jump host ever gets the agent.
pub proof fn law_agent_is_forwarded_only_to_the_target(
    config: SshConfig,
    options: ConnectOptions,
    hop: int,
)
    requires
        0 <= hop < config::hops(config).len() <= usize::MAX,
    ensures
        (match chain_script(config, options)[4 * hop + 1] {
            ConnectAction::ConnectDirect { handler, .. } => handler.agent_endpoint,
            ConnectAction::ConnectThroughJump { handler, .. } => handler.agent_endpoint,
            _ => None,
        }) is Some <==> hop == config::hops(config).len() - 1 && options.agent_forwarding
            && config.agent_forwarding,
{
    law_chain_script_layout(config, options, hop);
    assert(config::hops(config).last() == config);
}

fn build_script(config: &SshConfig, options: ConnectOptions) -> (r: Vec<ConnectAction>)
    ensures
        r@ == chain_script(*config, options),
    decreases config,
{
    match &config.proxy_jump {
        Some(jump) => {
            let jump_options = ConnectOptions {
                x11: false,
                disconnect: false,
                remote_forward: false,
                agent_forwarding: false,
                diagnostics: false,
            };
            let mut script = build_script(jump, jump_options);
            proof {
                lemma_chain_script_len(**jump, jump_options);
            }
            let last: usize = script.len() / 4;
            let hop: usize = last + 1;
            script.push(
                ConnectAction::OpenJumpChannel {
                    jump: last,
                    host: config.host.clone(),
                    port: config.port as u32,
                    originator: ORIGINATOR_ADDRESS,
                    originator_port: 0,
                },
            );
            script.push(ConnectAction::BuildClientConfig { hop });
            script.push(
                ConnectAction::ConnectThroughJump { hop, handler: plan_handler(config, options) },
            );
            script.push(
                ConnectAction::Authenticate {
                    hop,
                    invalid_credentials: INVALID_CREDENTIALS,
                    key_rejected: KEY_REJECTED,
                },
            );
            assert(script@ =~= chain_script(*config, options));
            script
        },
        None => {
            let mut script: Vec<ConnectAction> = Vec::new();
            script.push(ConnectAction::BuildClientConfig { hop: 0 });
            script.push(
                ConnectAction::ConnectDirect { hop: 0, handler: plan_handler(config, options) },
            );
            script.push(
                ConnectAction::Authenticate {
                    hop: 0,
                    invalid_credentials: INVALID_CREDENTIALS,
                    key_rejected: KEY_REJECTED,
                },
            );
            assert(script@ =~= chain_script(*config, options));
            script
        },
    }
}

// A run through the script.

/// The establishment of a connection: a script, and how far it has been
/// carried out.
#[derive(Debug)]
pub struct ConnectRun {
    script: Vec<ConnectAction>,
    at: usize,
    target: usize,
}

/// Mathematical value of a [`ConnectRun`].
pub struct ConnectModel {
    pub script: Seq<ConnectAction>,
    pub at: nat,
    pub target: usize,
}

impl View for ConnectRun {
    type V = ConnectModel;

    closed spec fn view(&self) -> ConnectModel {
        ConnectModel { script: self.script@, at: self.at as nat, target: self.target }
    }
}

/// Whether an error asks for a new connection.
pub open spec fn asks_for_retry(error: AppErrorModel) -> bool {
    error == AppErrorModel::Auth(SSH_AGENT_AUTH_RETRY@)
}

/// Whether an error asks for a new connection.
pub fn is_agent_auth_retry(error: &AppError) -> (r: bool)
    ensures
        r == asks_for_retry(error@),
{
    match error {
        AppError::Auth(message) => {
            let retry = SSH_AGENT_AUTH_RETRY.to_owned();
            same_text(message, &retry)
        },
        _ => false,
    }
}

impl ConnectModel {
    /// The run that has done nothing yet.
    pub open spec fn start(config: SshConfig, options: ConnectOptions) -> ConnectModel {
        ConnectModel {
            script: chain_script(config, options),
            at: 0,
            target: (config::hops(config).len() - 1) as usize,
        }
    }

    /// The action that the run waits for.
    pub open spec fn action(self) -> ConnectAction {
        self.script[self.at as int]
    }

    /// What a reply makes of the run. A success leads to the next action of the
    /// script, and after the last one to the connection. Any failure ends the
    /// run.
    pub open spec fn step(self, reply: ConnectReplyModel) -> Progress<
        ConnectModel,
        Result<ConnectedChain, AppErrorModel>,
    > {
        match reply {
            ConnectReplyModel::Done => if self.at + 1 == self.script.len() {
                Progress::Done(Ok(ConnectedChain { target: self.target }))
            } else {
                Progress::Pending(ConnectModel { at: self.at + 1, ..self })
            },
            ConnectReplyModel::Failed(error) => Progress::Done(Err(error)),
            ConnectReplyModel::Refused(reason) => if self.action() is OpenJumpChannel {
                Progress::Done(
                    Err(AppErrorModel::Channel("Failed to open ProxyJump channel: "@ + reason)),
                )
            } else {
                Progress::Pending(self)
            },
        }
    }

    /// The same, but an error that asks for a new connection starts the script
    /// over.
    pub open spec fn step_retrying(self, reply: ConnectReplyModel) -> Progress<
        ConnectModel,
        Result<ConnectedChain, AppErrorModel>,
    > {
        match self.step(reply) {
            Progress::Done(Err(error)) => if asks_for_retry(error) {
                Progress::Pending(ConnectModel { at: 0, ..self })
            } else {
                Progress::Done(Err(error))
            },
            progress => progress,
        }
    }
}

/// Starts to connect to the target of `config` through its jump hosts.
pub fn connect_authenticated_chain(config: &SshConfig, options: ConnectOptions) -> (r: ConnectRun)
    ensures
        r@ == ConnectModel::start(*config, options),
{
    let script = build_script(config, options);
    proof {
        lemma_chain_script_len(*config, options);
    }
    let target: usize = script.len() / 4;
    ConnectRun { script, at: 0, target }
}

/// The options of a connection.
pub open spec fn connection_options(
    config: SshConfig,
    disconnect: bool,
    remote_forward: bool,
    enable_agent_forwarding: bool,
    diagnostics: bool,
) -> ConnectOptions {
    ConnectOptions {
        x11: config.x11_forwarding,
        disconnect,
        remote_forward,
        agent_forwarding: enable_agent_forwarding,
        diagnostics,
    }
}

/// Starts to connect to the target of `config`. X11 channels are handed on if
/// the configuration asks for X11 forwarding.
pub fn create_authenticated_connection_with_notifications(
    config: &SshConfig,
    disconnect: bool,
    remote_forward: bool,
    enable_agent_forwarding: bool,
    diagnostics: bool,
) -> (r: ConnectRun)
    ensures
        r@ == ConnectModel::start(
            *config,
            connection_options(
                *config,
                disconnect,
                remote_forward,
                enable_agent_forwarding,
                diagnostics,
            ),
        ),
{
    let options = ConnectOptions {
        x11: config.x11_forwarding,
        disconnect,
        remote_forward,
        agent_forwarding: enable_agent_forwarding,
        diagnostics,
    };
    connect_authenticated_chain(config, options)
}

/// Starts to connect to the target of `config`, with no notifications.
pub fn create_authenticated_connection(config: &SshConfig, enable_agent_forwarding: bool) -> (r:
    ConnectRun)
    ensures
        r@ == ConnectModel::start(
            *config,
            connection_options(*config, false, false, enable_agent_forwarding, false),
        ),
{
    create_authenticated_connection_with_notifications(
        config,
        false,
        false,
        enable_agent_forwarding,
        false,
    )
}

impl ConnectRun {
    #[verifier::type_invariant]
    spec fn valid(self) -> bool {
        self.at < self.script@.len()
    }

    /// The action that the run waits for.
    pub fn action(&self) -> (r: &ConnectAction)
        ensures
            *r == self@.action(),
    {
        proof {
            use_type_invariant(self);
        }
        &self.script[self.at]
    }

    /// What the reply makes of the run.
    pub fn step(self, reply: ConnectReply) -> (r: Progress<ConnectRun, AppResult<ConnectedChain>>)
        ensures
            r@ == self@.step(reply@),
    {
        proof {
            use_type_invariant(&self);
        }
        match reply {
            ConnectReply::Done => {
                if self.at == self.script.len() - 1 {
                    Progress::Done(Ok(ConnectedChain { target: self.target }))
                } else {
                    Progress::Pending(
                        ConnectRun { script: self.script, at: self.at + 1, target: self.target },
                    )
                }
            },
            ConnectReply::Failed(error) => Progress::Done(Err(error)),
            ConnectReply::Refused(reason) => {
                let opening = match self.action() {
                    ConnectAction::OpenJumpChannel { .. } => true,
                    _ => false,
                };
                if opening {
                    Progress::Done(
                        Err(
                            AppError::Channel(
                                join("Failed to open ProxyJump channel: ", reason.as_str()),
                            ),
                        ),
                    )
                } else {
                    Progress::Pending(self)
                }
            },
        }
    }

    /// What the reply makes of the run, if an error that asks for a new
    /// connection starts it over.
    pub fn step_retrying(self, reply: ConnectReply) -> (r: Progress<
        ConnectRun,
        AppResult<ConnectedChain>,
    >)
        ensures
            r@ == self@.step_retrying(reply@),
    {
        proof {
            use_type_invariant(&self);
        }
        let retry = match &reply {
            ConnectReply::Failed(error) => is_agent_auth_retry(error),
            _ => false,
        };
        if retry {
            Progress::Pending(ConnectRun { script: self.script, at: 0, target: self.target })
        } else {
            self.step(reply)
        }
    }
}

/// An error ends a connection attempt for good unless it is the one that asks
/// for a new connection, and then everything is connected anew.
pub proof fn law_only_retry_error_reconnects(run: ConnectModel, reply: ConnectReplyModel)
    ensures
        run.step(reply) matches Progress::Done(Err(error)) ==> run.step_retrying(reply) == (
        if error == AppErrorModel::Auth(SSH_AGENT_AUTH_RETRY@) {
            Progress::Pending(ConnectModel { at: 0, ..run })
        } else {
            Progress::Done(Err::<ConnectedChain, _>(error))
        }),
        !(run.step(reply) matches Progress::Done(Err(_))) ==> run.step_retrying(reply) == run.step(
            reply,
        ),
{
}

/// The run after `count` successes in a row.
pub open spec fn after_successes(run: ConnectModel, count: nat) -> Progress<
    ConnectModel,
    Result<ConnectedChain, AppErrorModel>,
>
    decreases count,
{
    if count == 0 {
        Progress::Pending(run)
    } else {
        match after_successes(run, (count - 1) as nat) {
            Progress::Pending(next) => next.step(ConnectReplyModel::Done),
            done => done,
        }
    }
}

proof fn lemma_after_successes(run: ConnectModel, count: nat)
    requires
        run.at + count < run.script.len(),
    ensures
        after_successes(run, count) == Progress::<
            _,
            Result<ConnectedChain, AppErrorModel>,
        >::Pending(ConnectModel { at: run.at + count, ..run }),
    decreases count,
{
    if count > 0 {
        lemma_after_successes(run, (count - 1) as nat);
    }
}

/// If every action succeeds, the script is carried out in its order, and after
/// its last action there is a connection to the target with every other host of
/// the chain as a jump host.
pub proof fn law_connection_succeeds(config: SshConfig, options: ConnectOptions, count: nat)
    requires
        count <= chain_script(config, options).len(),
    ensures
        after_successes(ConnectModel::start(config, options), count) == (if count
            < chain_script(config, options).len() {
            Progress::Pending(
                ConnectModel { at: count, ..ConnectModel::start(config, options) },
            )
        } else {
            Progress::Done(
                Ok::<_, AppErrorModel>(
                    ConnectedChain { target: (config::hops(config).len() - 1) as usize },
                ),
            )
        }),
{
    lemma_chain_script_len(config, options);
    let run = ConnectModel::start(config, options);
    if count < chain_script(config, options).len() {
        lemma_after_successes(run, count);
    } else {
        lemma_after_successes(run, (count - 1) as nat);
    }
}

/// The only error that asks for a new connection is an authentication error with
/// the one text.
pub proof fn law_retry_is_asked_for_by_one_error(error: AppErrorModel)
    ensures
        asks_for_retry(error) <==> (error matches AppErrorModel::Auth(text) && text
            == "ssh-agent-auth-retry"@),
{
}

/// The action of a connection after `count` successes in a row.
proof fn lemma_action_after_successes(config: SshConfig, options: ConnectOptions, count: nat)
    requires
        count < chain_script(config, options).len(),
    ensures
        after_successes(ConnectModel::start(config, options), count) matches Progress::Pending(next)
            && next.action() == chain_script(config, options)[count as int],
{
    law_connection_succeeds(config, options, count);
}

/// What is done at the host `hop` of a connection besides connecting to it, by
/// the successes that come before it. A host other than the first is reached by a
/// channel that the host before it opens to its address and port. The protocol
/// configuration is built before the host is connected to, and the user is
/// authenticated after that.
pub proof fn law_connection_does_at_each_host(
    config: SshConfig,
    options: ConnectOptions,
    hop: int,
)
    requires
        0 <= hop < config::hops(config).len() <= usize::MAX,
    ensures
        hop > 0 ==> (after_successes(
            ConnectModel::start(config, options),
            (4 * hop - 1) as nat,
        ) matches Progress::Pending(opening) && opening.action() matches
            ConnectAction::OpenJumpChannel {
            jump,
            host,
            port,
            originator,
            originator_port,
        } && jump == hop - 1 && host == config::hops(config)[hop].host && port == config::hops(
            config,
        )[hop].port && originator@ == "127.0.0.1"@ && originator_port == 0),
        after_successes(
            ConnectModel::start(config, options),
            (4 * hop) as nat,
        ) matches Progress::Pending(building) && building.action() matches
            ConnectAction::BuildClientConfig { hop: at } && at == hop,
        after_successes(
            ConnectModel::start(config, options),
            (4 * hop + 2) as nat,
        ) matches Progress::Pending(authenticating) && authenticating.action() matches
            ConnectAction::Authenticate { hop: at, invalid_credentials, key_rejected } && at == hop
            && invalid_credentials@ == "Authentication failed: invalid credentials"@
            && key_rejected@ == "Authentication failed: key rejected"@,
{
    law_chain_script_layout(config, options, hop);
    if hop > 0 {
        lemma_action_after_successes(config, options, (4 * hop - 1) as nat);
    }
    lemma_action_after_successes(config, options, (4 * hop) as nat);
    lemma_action_after_successes(config, options, (4 * hop + 2) as nat);
}

/// How the host `hop` of a connection is connected to: the first host directly,
/// every other host over the channel to it. The target's handler hands on X11
/// channels exactly if the configuration asks for X11 forwarding, has an agent to
/// forward exactly if both the caller and the configuration ask for it, and
/// reports disconnects, hands on remote forwards and records diagnostics exactly
/// if the caller asked for it. A jump host's handler does none of these. Every
/// handler has the address, port and owner of its own host.
pub proof fn law_connection_equips_only_the_target(
    config: SshConfig,
    disconnect: bool,
    remote_forward: bool,
    enable_agent_forwarding: bool,
    diagnostics: bool,
    hop: int,
)
    requires
        0 <= hop < config::hops(config).len() <= usize::MAX,
    ensures
        after_successes(
            ConnectModel::start(
                config,
                connection_options(
                    config,
                    disconnect,
                    remote_forward,
                    enable_agent_forwarding,
                    diagnostics,
                ),
            ),
            (4 * hop + 1) as nat,
        ) matches Progress::Pending(connecting) && (match connecting.action() {
            ConnectAction::ConnectDirect { hop: at, handler } => {
                let host = config::hops(config)[hop];
                let is_target = hop == config::hops(config).len() - 1;
                &&& hop == 0
                &&& at == 0
                &&& handler.host == host.host
                &&& handler.port == host.port
                &&& handler.owner_window_label == host.owner_window_label
                &&& handler.x11 == (is_target && config.x11_forwarding)
                &&& handler.disconnect == (is_target && disconnect)
                &&& handler.remote_forward == (is_target && remote_forward)
                &&& handler.diagnostics == (is_target && diagnostics)
                &&& handler.agent_endpoint == if is_target && enable_agent_forwarding
                    && config.agent_forwarding {
                    Some(config.agent_endpoint)
                } else {
                    None
                }
            },
            ConnectAction::ConnectThroughJump { hop: at, handler } => {
                let host = config::hops(config)[hop];
                let is_target = hop == config::hops(config).len() - 1;
                &&& hop > 0
                &&& at == hop
                &&& handler.host == host.host
                &&& handler.port == host.port
                &&& handler.owner_window_label == host.owner_window_label
                &&& handler.x11 == (is_target && config.x11_forwarding)
                &&& handler.disconnect == (is_target && disconnect)
                &&& handler.remote_forward == (is_target && remote_forward)
                &&& handler.diagnostics == (is_target && diagnostics)
                &&& handler.agent_endpoint == if is_target && enable_agent_forwarding
                    && config.agent_forwarding {
                    Some(config.agent_endpoint)
                } else {
                    None
                }
            },
            _ => false,
        }),
{
    let options = connection_options(
        config,
        disconnect,
        remote_forward,
        enable_agent_forwarding,
        diagnostics,
    );
    law_chain_script_layout(config, options, hop);
    config::law_hops_follow_the_jump_hosts(config, 0);
    lemma_action_after_successes(config, options, (4 * hop + 1) as nat);
}

/// A connection is there after four successes for every host but the first, and
/// three for the first. Its target is the last host of the chain.
pub proof fn law_connection_ends_at_the_target(config: SshConfig, options: ConnectOptions)
    requires
        config::hops(config).len() <= usize::MAX,
    ensures
        after_successes(
            ConnectModel::start(config, options),
            (4 * config::hops(config).len() - 1) as nat,
        ) matches Progress::Done(Ok(chain)) && chain.target == config::hops(config).len() - 1,
{
    lemma_chain_script_len(config, options);
    law_connection_succeeds(config, options, (4 * config::hops(config).len() - 1) as nat);
}

/// What a reply does to a connection, whatever the connection waits for. A
/// failure ends it with that error. A refusal ends it if a channel was to be
/// opened, with the reason, and is no answer otherwise. A success goes on, and
/// changes neither what is to be done nor the target.
pub proof fn law_connection_ends_with_the_first_error(run: ConnectModel, reply: ConnectReplyModel)
    ensures
        match reply {
            ConnectReplyModel::Failed(error) => run.step(reply) matches Progress::Done(Err(reported))
                && reported == error,
            ConnectReplyModel::Refused(reason) => if run.action() is OpenJumpChannel {
                run.step(reply) matches Progress::Done(Err(AppErrorModel::Channel(text))) && text
                    == "Failed to open ProxyJump channel: "@ + reason
            } else {
                run.step(reply) matches Progress::Pending(next) && next == run
            },
            ConnectReplyModel::Done => match run.step(reply) {
                Progress::Pending(next) => next.script == run.script && next.target == run.target
                    && next.at == run.at + 1,
                Progress::Done(Ok(chain)) => chain.target == run.target && run.at + 1
                    == run.script.len(),
                Progress::Done(Err(_)) => false,
            },
        },
{
}

/// The same for a connection that is made anew if it is asked for: only the one
/// authentication error does so, and then nothing of the connection is kept and
/// the same is done from the beginning.
pub proof fn law_reconnection_starts_over(run: ConnectModel, reply: ConnectReplyModel)
    ensures
        match reply {
            ConnectReplyModel::Failed(AppErrorModel::Auth(text)) => if text
                == "ssh-agent-auth-retry"@ {
                run.step_retrying(reply) matches Progress::Pending(next) && next.at == 0
                    && next.script == run.script && next.target == run.target
            } else {
                run.step_retrying(reply) matches Progress::Done(Err(AppErrorModel::Auth(reported)))
                    && reported == text
            },
            ConnectReplyModel::Failed(error) => run.step_retrying(reply) matches Progress::Done(
                Err(reported),
            ) && reported == error,
            ConnectReplyModel::Refused(reason) => if run.action() is OpenJumpChannel {
                run.step_retrying(reply) matches Progress::Done(Err(AppErrorModel::Channel(text)))
                    && text == "Failed to open ProxyJump channel: "@ + reason
            } else {
                run.step_retrying(reply) matches Progress::Pending(next) && next == run
            },
            ConnectReplyModel::Done => match run.step_retrying(reply) {
                Progress::Pending(next) => next.script == run.script && next.target == run.target
                    && next.at == run.at + 1,
                Progress::Done(Ok(chain)) => chain.target == run.target && run.at + 1
                    == run.script.len(),
                Progress::Done(Err(_)) => false,
            },
        },
{
}

/// The value of a reply is the reply.
pub proof fn law_connect_reply_is_its_value(reply: ConnectReply)
    ensures
        match reply {
            ConnectReply::Done => reply@ is Done,
            ConnectReply::Failed(error) => reply@ matches ConnectReplyModel::Failed(value) && value
                == error@,
            ConnectReply::Refused(reason) => reply@ matches ConnectReplyModel::Refused(value)
                && value == reason@,
        },
{
}

/// The value of a chain is the chain.
pub proof fn law_chain_is_its_value(chain: ConnectedChain)
    ensures
        chain@.target == chain.target,
{
}

} // verus!
