//! Connections without a shell, which tunnels use.

use crate::error::{AppError, AppErrorModel, AppResult};
use crate::progress::Progress;
use crate::ssh::config;
use crate::ssh::config::SshConfig;
use crate::ssh::connection;
use crate::ssh::connection::{
    create_authenticated_connection_with_notifications, ConnectAction, ConnectModel, ConnectReply,
    ConnectReplyModel, ConnectRun, ConnectedChain,
};
use vstd::prelude::*;

verus! {

/// What a run asks its driver to do.
#[derive(Debug)]
pub enum HandleAction {
    /// Load the configuration of a saved connection.
    LoadConfig { connection_id: String },
    /// Go on with the connection.
    Connect(ConnectAction),
}

/// What a driver answers.
#[derive(Debug)]
pub enum HandleReply {
    /// Answer to `LoadConfig`: the configuration.
    Loaded(SshConfig),
    /// Answer to `LoadConfig`: why there is none.
    LoadFailed(AppError),
    /// Answer to `Connect`.
    Connect(ConnectReply),
}

/// The creation of an authenticated connection to a saved host.
#[derive(Debug)]
pub enum HandleRun {
    Loading { connection_id: String, disconnect: bool, remote_forward: bool },
    Connecting { config: SshConfig, connect: ConnectRun },
}

/// Mathematical value of a [`HandleRun`].
pub enum HandleModel {
    Loading { connection_id: String, disconnect: bool, remote_forward: bool },
    Connecting { config: SshConfig, connect: ConnectModel },
}

impl View for HandleRun {
    type V = HandleModel;

    open spec fn view(&self) -> HandleModel {
        match *self {
            HandleRun::Loading { connection_id, disconnect, remote_forward } =>
                HandleModel::Loading { connection_id, disconnect, remote_forward },
            HandleRun::Connecting { config, connect } => HandleModel::Connecting {
                config,
                connect: connect@,
            },
        }
    }
}

impl HandleModel {
    /// The action that the run waits for.
    pub open spec fn action(self) -> HandleAction {
        match self {
            HandleModel::Loading { connection_id, .. } => HandleAction::LoadConfig {
                connection_id,
            },
            HandleModel::Connecting { connect, .. } => HandleAction::Connect(connect.action()),
        }
    }

    /// What a reply makes of the run. A reply that does not answer the action
    /// changes nothing. The agent is never forwarded, and an authentication that
    /// asks for a new connection gets one.
    pub open spec fn step(self, reply: HandleReply) -> Progress<
        HandleModel,
        Result<ConnectedChain, AppErrorModel>,
    > {
        match (self, reply) {
            (
                HandleModel::Loading { disconnect, remote_forward, .. },
                HandleReply::Loaded(config),
            ) => Progress::Pending(
                HandleModel::Connecting {
                    config,
                    connect: ConnectModel::start(
                        config,
                        connection::connection_options(
                            config,
                            disconnect,
                            remote_forward,
                            false,
                            false,
                        ),
                    ),
                },
            ),
            (HandleModel::Loading { .. }, HandleReply::LoadFailed(error)) => Progress::Done(
                Err(error@),
            ),
            (HandleModel::Connecting { config, connect }, HandleReply::Connect(answer)) =>
                match connect.step_retrying(answer@) {
                    Progress::Pending(next) => Progress::Pending(
                        HandleModel::Connecting { config, connect: next },
                    ),
                    Progress::Done(outcome) => Progress::Done(outcome),
                },
            _ => Progress::Pending(self),
        }
    }
}

/// Starts to connect to a saved host.
pub fn create_ssh_handle(connection_id: &str) -> (r: HandleRun)
    ensures
        r matches HandleRun::Loading { connection_id: id, disconnect, remote_forward } && id@
            == connection_id@ && !disconnect && !remote_forward,
        r@ matches HandleModel::Loading { connection_id: id, disconnect, remote_forward } && id@
            == connection_id@ && !disconnect && !remote_forward,
{
    HandleRun::Loading {
        connection_id: connection_id.to_owned(),
        disconnect: false,
        remote_forward: false,
    }
}

/// Starts to connect to a saved host for a tunnel. Disconnects are reported, and
/// remotely forwarded channels are handed on if there is someone to take them.
pub fn create_ssh_handle_for_tunnel(connection_id: &str, remote_forward: bool) -> (r: HandleRun)
    ensures
        r matches HandleRun::Loading { connection_id: id, disconnect, remote_forward: forward }
            && id@ == connection_id@ && disconnect && forward == remote_forward,
        r@ matches HandleModel::Loading { connection_id: id, disconnect, remote_forward: forward }
            && id@ == connection_id@ && disconnect && forward == remote_forward,
{
    HandleRun::Loading {
        connection_id: connection_id.to_owned(),
        disconnect: true,
        remote_forward,
    }
}

impl HandleRun {
    /// The action that the run waits for.
    pub fn action(&self) -> (r: HandleAction)
        ensures
            r == self@.action(),
    {
        match self {
            HandleRun::Loading { connection_id, .. } => HandleAction::LoadConfig {
                connection_id: connection_id.clone(),
            },
            HandleRun::Connecting { connect, .. } => HandleAction::Connect(connect.action().copy()),
        }
    }

    /// What the reply makes of the run.
    pub fn step(self, reply: HandleReply) -> (r: Progress<HandleRun, AppResult<ConnectedChain>>)
        ensures
            r@ == self@.step(reply),
    {
        match (self, reply) {
            (
                HandleRun::Loading { disconnect, remote_forward, .. },
                HandleReply::Loaded(config),
            ) => {
                let connect = create_authenticated_connection_with_notifications(
                    &config,
                    disconnect,
                    remote_forward,
                    false,
                    false,
                );
                Progress::Pending(HandleRun::Connecting { config, connect })
            },
            (HandleRun::Loading { .. }, HandleReply::LoadFailed(error)) => Progress::Done(
                Err(error),
            ),
            (HandleRun::Connecting { config, connect }, HandleReply::Connect(answer)) =>
                match connect.step_retrying(answer) {
                    Progress::Pending(next) => Progress::Pending(
                        HandleRun::Connecting { config, connect: next },
                    ),
                    Progress::Done(outcome) => Progress::Done(outcome),
                },
            (run, _) => Progress::Pending(run),
        }
    }
}

// Laws.

/// A connection without a shell never forwards the agent to any host.
pub proof fn law_handle_never_forwards_the_agent(
    run: HandleModel,
    config: SshConfig,
    hop: int,
)
    requires
        run is Loading,
        0 <= hop < config::hops(config).len() <= usize::MAX,
    ensures
        run.step(HandleReply::Loaded(config)) matches Progress::Pending(
            HandleModel::Connecting { connect, .. },
        ) && (match connect.script[4 * hop + 1] {
            ConnectAction::ConnectDirect { handler, .. } => handler.agent_endpoint is None,
            ConnectAction::ConnectThroughJump { handler, .. } => handler.agent_endpoint is None,
            _ => false,
        }),
{
    if let HandleModel::Loading { disconnect, remote_forward, .. } = run {
        let options = connection::connection_options(
            config,
            disconnect,
            remote_forward,
            false,
            false,
        );
        connection::law_chain_script_layout(config, options, hop);
        connection::law_agent_is_forwarded_only_to_the_target(config, options, hop);
    }
}

/// A failure to load the configuration ends the run with that error, and so does
/// a failure to connect, unless the error asks for a new connection: then the
/// same chain is connected anew.
pub proof fn law_handle_reconnects_only_if_asked(run: HandleModel, error: AppError)
    ensures
        run is Loading ==> run.step(HandleReply::LoadFailed(error)) == Progress::<
            HandleModel,
            _,
        >::Done(Err::<ConnectedChain, _>(error@)),
        run matches HandleModel::Connecting { config, connect } ==> run.step(
            HandleReply::Connect(ConnectReply::Failed(error)),
        ) == if connection::asks_for_retry(error@) {
            Progress::Pending(
                HandleModel::Connecting { config, connect: ConnectModel { at: 0, ..connect } },
            )
        } else {
            Progress::Done(Err::<ConnectedChain, _>(error@))
        },
{
    assert(ConnectReply::Failed(error)@ == ConnectReplyModel::Failed(error@));
}

/// The run after `count` actions of its connection have succeeded in a row.
pub open spec fn after_connect_successes(run: HandleModel, count: nat) -> Progress<
    HandleModel,
    Result<ConnectedChain, AppErrorModel>,
>
    decreases count,
{
    if count == 0 {
        Progress::Pending(run)
    } else {
        match after_connect_successes(run, (count - 1) as nat) {
            Progress::Pending(next) => next.step(HandleReply::Connect(ConnectReply::Done)),
            done => done,
        }
    }
}

proof fn lemma_handle_follows_its_connection(
    config: SshConfig,
    connect: ConnectModel,
    count: nat,
)
    ensures
        after_connect_successes(HandleModel::Connecting { config, connect }, count) == match
            connection::after_successes(connect, count) {
            Progress::Pending(next) => Progress::Pending(
                HandleModel::Connecting { config, connect: next },
            ),
            Progress::Done(outcome) => Progress::Done(outcome),
        },
    decreases count,
{
    assert(ConnectReply::Done@ == ConnectReplyModel::Done);
    if count > 0 {
        lemma_handle_follows_its_connection(config, connect, (count - 1) as nat);
        if let Progress::Pending(next) = connection::after_successes(connect, (count - 1) as nat) {
            connection::law_connection_ends_with_the_first_error(next, ConnectReplyModel::Done);
        }
    }
}

/// What becomes of a handle. It loads the configuration of its connection, and
/// then does what a connection to the target of that configuration does, in the
/// same order, with X11 as the configuration says, disconnects and remote
/// forwards as the caller said, and neither agent nor diagnostics. If everything
/// succeeds, its target is the target of the loaded configuration, and every
/// other host of the chain is a jump host.
pub proof fn law_handle_connects_to_the_loaded_target(
    connection_id: String,
    disconnect: bool,
    remote_forward: bool,
    config: SshConfig,
    count: nat,
)
    requires
        config::hops(config).len() <= usize::MAX,
    ensures
        ({
            let loading = HandleModel::Loading { connection_id, disconnect, remote_forward };
            let connection = ConnectModel::start(
                config,
                connection::connection_options(config, disconnect, remote_forward, false, false),
            );
            let all = (4 * config::hops(config).len() - 1) as nat;
            &&& loading.action() == (HandleAction::LoadConfig { connection_id })
            &&& loading.step(HandleReply::Loaded(config)) matches Progress::Pending(first) && (count
                < all ==> (after_connect_successes(first, count) matches Progress::Pending(next)
                && next.action() matches HandleAction::Connect(action)
                && connection::after_successes(connection, count) matches Progress::Pending(
                expected,
            ) && action == expected.action())) && (after_connect_successes(
                first,
                all,
            ) matches Progress::Done(Ok(chain)) && chain.target == config::hops(config).len() - 1)
        }),
{
    let options = connection::connection_options(config, disconnect, remote_forward, false, false);
    let connection = ConnectModel::start(config, options);
    let all = (4 * config::hops(config).len() - 1) as nat;
    connection::lemma_chain_script_len(config, options);
    connection::law_connection_ends_at_the_target(config, options);
    lemma_handle_follows_its_connection(config, connection, all);
    lemma_handle_follows_its_connection(config, connection, count);
    if count < all {
        connection::law_connection_succeeds(config, options, count);
    }
}

/// The handler of a handle's target: X11 channels are handed on if the loaded
/// configuration asks for X11 forwarding, disconnects are reported and remote
/// forwards handed on if the caller said so, and no agent is forwarded.
pub proof fn law_handle_equips_its_target(
    connection_id: String,
    disconnect: bool,
    remote_forward: bool,
    config: SshConfig,
)
    requires
        config::hops(config).len() <= usize::MAX,
    ensures
        ({
            let loading = HandleModel::Loading { connection_id, disconnect, remote_forward };
            loading.step(HandleReply::Loaded(config)) matches Progress::Pending(first)
                && after_connect_successes(
                first,
                (4 * config::hops(config).len() - 3) as nat,
            ) matches Progress::Pending(next) && (match next.action() {
                HandleAction::Connect(ConnectAction::ConnectDirect { handler, .. }) => handler.host
                    == config.host && handler.port == config.port && handler.x11
                    == config.x11_forwarding && handler.disconnect == disconnect
                    && handler.remote_forward == remote_forward && handler.agent_endpoint is None
                    && !handler.diagnostics,
                HandleAction::Connect(ConnectAction::ConnectThroughJump { handler, .. }) =>
                    handler.host == config.host && handler.port == config.port && handler.x11
                        == config.x11_forwarding && handler.disconnect == disconnect
                        && handler.remote_forward == remote_forward
                        && handler.agent_endpoint is None && !handler.diagnostics,
                _ => false,
            })
        }),
{
    config::law_hops_follow_the_jump_hosts(config, 0);
    let last = config::hops(config).len() - 1;
    law_handle_connects_to_the_loaded_target(
        connection_id,
        disconnect,
        remote_forward,
        config,
        (4 * last + 1) as nat,
    );
    connection::law_connection_equips_only_the_target(
        config,
        disconnect,
        remote_forward,
        false,
        false,
        last,
    );
}

/// What goes wrong with a handle is what is reported. An error of the
/// configuration ends it. An error of the connection ends it, unless it is the
/// one that asks for a new connection: then the chain is connected from the
/// beginning. A refused channel ends it with the reason. A reply that does not
/// answer the action changes nothing.
pub proof fn law_handle_ends_with_the_first_error(
    run: HandleModel,
    reply: HandleReply,
)
    ensures
        match (run.action(), reply) {
            (HandleAction::LoadConfig { .. }, HandleReply::LoadFailed(error)) => run.step(
                reply,
            ) matches Progress::Done(Err(reported)) && reported == error@,
            (HandleAction::LoadConfig { .. }, HandleReply::Loaded(config)) => run.step(
                reply,
            ) matches Progress::Pending(HandleModel::Connecting { config: loaded, .. }) && loaded
                == config,
            (
                HandleAction::Connect(_),
                HandleReply::Connect(ConnectReply::Failed(error)),
            ) => if error@ matches AppErrorModel::Auth(text) && text == "ssh-agent-auth-retry"@ {
                run matches HandleModel::Connecting { config, connect } && run.step(
                    reply,
                ) matches Progress::Pending(
                    HandleModel::Connecting { config: kept, connect: next },
                ) && kept == config && next.at == 0 && next.script == connect.script && next.target
                    == connect.target
            } else {
                run.step(reply) matches Progress::Done(Err(reported)) && reported == error@
            },
            (
                HandleAction::Connect(ConnectAction::OpenJumpChannel { .. }),
                HandleReply::Connect(ConnectReply::Refused(reason)),
            ) => run.step(reply) matches Progress::Done(Err(AppErrorModel::Channel(text))) && text
                == "Failed to open ProxyJump channel: "@ + reason@,
            (HandleAction::Connect(_), HandleReply::Connect(ConnectReply::Done)) => !(run.step(
                reply,
            ) matches Progress::Done(Err(_))),
            _ => run.step(reply) matches Progress::Pending(next) && next == run,
        },
{
    if let HandleReply::Connect(answer) = reply {
        connection::law_connect_reply_is_its_value(answer);
        if let HandleModel::Connecting { connect, .. } = run {
            connection::law_reconnection_starts_over(connect, answer@);
        }
    }
}

/// The value of a handle says how far it is, and with what.
pub proof fn law_handle_is_its_value(run: HandleRun)
    ensures
        match run {
            HandleRun::Loading { connection_id, disconnect, remote_forward } => run@ matches
                HandleModel::Loading {
                connection_id: id,
                disconnect: reported,
                remote_forward: forwarded,
            } && id == connection_id && reported == disconnect && forwarded == remote_forward,
            HandleRun::Connecting { config, connect } => run@ matches HandleModel::Connecting {
                config: loaded,
                connect: value,
            } && loaded == config && value == connect@,
        },
{
}

} // verus!
