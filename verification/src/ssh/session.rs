//! Shell sessions over SSH.
//!
//! A new session connects, opens a shell, registers itself, and starts its I/O.
//! A multiplexed session opens its shell on the connection of another session.

use crate::error;
use crate::error::{AppError, AppErrorModel, AppResult};
use crate::progress::Progress;
use crate::ssh::config;
use crate::ssh::config::{set_owner_window_label, SshConfig, SshProfile};
use crate::ssh::connection;
use crate::ssh::connection::{
    create_authenticated_connection_with_notifications, ConnectAction, ConnectModel, ConnectReply,
    ConnectReplyModel, ConnectRun, ConnectedChain,
};
use crate::text::{copy_label, join3};
use vstd::prelude::*;

verus! {

// Session identifiers.

/// Whether `c` is a hexadecimal digit in lower case.
pub open spec fn lower_hex(c: char) -> bool {
    '0' <= c <= '9' || 'a' <= c <= 'f'
}

/// Whether `s` is a random (version 4) UUID in the hyphenated form, in lower case.
pub open spec fn is_random_uuid(s: Seq<char>) -> bool {
    &&& s.len() == 36
    &&& forall|i: int|
        0 <= i < 36 ==> if i == 8 || i == 13 || i == 18 || i == 23 {
            #[trigger] s[i] == '-'
        } else {
            lower_hex(s[i])
        }
    &&& s[14] == '4'
    &&& s[19] == '8' || s[19] == '9' || s[19] == 'a' || s[19] == 'b'
}

/// A fresh session identifier, from `uuid::Uuid::new_v4` by its `Display`.
///
/// The contract claims the shape of what is returned: 32 hexadecimal digits in
/// lower case, in groups of 8, 4, 4, 4 and 12 with hyphens between them, with
/// the version and variant digits of a random UUID. The other digits are random,
/// so nothing is said of them; that no two identifiers are equal is likely, and
/// not claimed. Nor is anything said of a system that has no random bytes to
/// give: `new_v4` does not return there.
#[verifier::external_body]
fn new_session_id() -> (r: String)
    ensures
        is_random_uuid(r@),
{
    uuid::Uuid::new_v4().to_string()
}

// What a session can do.

/// Which features a session offers.
#[derive(Debug, Clone, Copy, PartialEq, Eq, Structural)]
pub struct SshRuntimeCapabilities {
    pub remote_file_browser_enabled: bool,
    pub remote_stats_enabled: bool,
    pub network_device_profile: bool,
}

/// A network device offers neither files nor statistics. Any other host offers
/// statistics, and files as the configuration says.
pub open spec fn capabilities(config: SshConfig) -> SshRuntimeCapabilities {
    let network_device = config.ssh_profile == SshProfile::NetworkDevice;
    SshRuntimeCapabilities {
        remote_file_browser_enabled: config.sftp.enabled && !network_device,
        remote_stats_enabled: !network_device,
        network_device_profile: network_device,
    }
}

/// The features of a session with the host.
pub fn resolve_runtime_capabilities(config: &SshConfig) -> (r: SshRuntimeCapabilities)
    ensures
        r == capabilities(*config),
{
    let network_device_profile = config.ssh_profile == SshProfile::NetworkDevice;
    SshRuntimeCapabilities {
        remote_file_browser_enabled: config.sftp.enabled && !network_device_profile,
        remote_stats_enabled: !network_device_profile,
        network_device_profile,
    }
}

// Sessions.

/// What kind of session it is.
#[derive(Debug, Clone, Copy, PartialEq, Eq, Structural)]
pub enum SessionType {
    SSH,
    /// Anything but a session over SSH.
    Other,
}

/// How an assistant runs commands in a session.
#[derive(Debug, Clone, Copy, PartialEq, Eq, Structural)]
pub enum AiExecutionProfile {
    Posix,
}

/// What is known of a session to everyone.
#[derive(Debug)]
pub struct SessionInfo {
    pub id: String,
    pub name: String,
    pub session_type: SessionType,
    pub connection_id: Option<String>,
    pub connected: bool,
    pub owner_window_label: Option<String>,
    pub ai_execution_profile: AiExecutionProfile,
    pub injection_active: bool,
    pub remote_file_browser_enabled: bool,
    pub remote_stats_enabled: bool,
    pub ssh_profile: Option<SshProfile>,
}

/// The shell that a session asks for.
#[derive(Debug)]
pub struct ShellRequest {
    pub session_id: String,
    /// The cookie that stands for the X server's, where X11 is forwarded.
    pub x11_cookie: Option<String>,
    pub agent_forwarding: bool,
    pub terminal_type: String,
    pub remote_file_browser_enabled: bool,
    pub network_device_profile: bool,
    pub cwd_follow_mode: String,
    pub shell_detection_timeout_ms: u64,
}

/// What the I/O of a session is started with.
#[derive(Debug)]
pub struct IoPlan {
    pub session_id: String,
    pub connection_id: Option<String>,
    pub post_login: Option<String>,
    pub startup_command: Option<String>,
    pub backspace_mode: String,
    pub encoding: String,
}

/// The connection that a session uses.
#[derive(Debug, Clone, Copy, PartialEq, Eq, Structural)]
pub enum SessionConnection {
    /// The chain that was connected for the session.
    Own(ConnectedChain),
    /// The connection of the session that it is multiplexed on.
    Source,
}

/// What a run asks its driver to do.
#[derive(Debug)]
pub enum SessionAction {
    /// Prepare X11 forwarding to a display.
    PrepareX11 { display: String },
    /// Go on with the connection.
    Connect(ConnectAction),
    /// Record in the diagnostics that the session is authenticated.
    MarkAuthenticated,
    /// Open a shell on the target of the connection.
    OpenShell { connection: SessionConnection, request: ShellRequest },
    /// Start to forward the X11 channels of the session.
    StartX11Forwarder { session_id: String },
    /// Add the session to the registry, with its configuration and connection.
    Register { info: SessionInfo, config: SshConfig, connection: SessionConnection },
    /// Tell the creator of the session that it is ready.
    NotifyReady(SessionInfo),
    /// See whether there is a tunnel manager.
    FindTunnelManager,
    /// Have the tunnel manager open the tunnels of a saved connection.
    OpenTunnels { connection_id: String },
    /// Start the I/O of the session on its shell and connection.
    StartIo { plan: IoPlan, connection: SessionConnection },
}

/// What a driver answers.
#[derive(Debug)]
pub enum SessionReply {
    /// Answer to every action that cannot fail and gives nothing back.
    Done,
    /// Answer to `PrepareX11`.
    X11Prepared { fake_cookie_hex: String },
    /// Answer to `Connect`.
    Connect(ConnectReply),
    /// Answer to `OpenShell`: the shell is there, with a script injected or not.
    ShellOpened { injection_active: bool },
    /// Answer to `OpenShell`: there is no shell.
    ShellFailed(AppError),
    /// Answer to `FindTunnelManager`.
    TunnelManager { present: bool },
    /// The creator of the session does not want it any more. This can come
    /// instead of any answer up to that to `Register`. A session that is
    /// registered is not given up.
    Cancelled,
}

/// What does not change while a session is created.
#[derive(Debug)]
pub struct SessionContext {
    pub session_id: String,
    pub config: SshConfig,
    pub connection_id: Option<String>,
    pub owner_window_label: Option<String>,
    /// How the file browser follows the shell's working directory, by name.
    pub cwd_follow_mode: String,
    pub startup_command: Option<String>,
    /// Whether the creator wants to be told that the session is ready.
    pub has_ready_hook: bool,
    /// Whether the creator can cancel.
    pub cancellable: bool,
    /// Whether the session uses the connection of another one.
    pub multiplexed: bool,
}

/// How far a session is.
#[derive(Debug)]
pub enum SessionStage {
    PreparingX11,
    Connecting { connect: ConnectRun, x11_cookie: Option<String> },
    Authenticated { connection: SessionConnection, x11_cookie: Option<String> },
    OpeningShell { connection: SessionConnection, x11_cookie: Option<String> },
    StartingX11Forwarder { connection: SessionConnection, injection_active: bool },
    Registering { connection: SessionConnection, injection_active: bool },
    NotifyingReady { connection: SessionConnection, injection_active: bool },
    FindingTunnelManager { connection: SessionConnection, connection_id: String },
    OpeningTunnels { connection: SessionConnection, connection_id: String },
    StartingIo { connection: SessionConnection },
}

/// The creation of a session.
#[derive(Debug)]
pub struct SessionRun {
    pub context: SessionContext,
    pub stage: SessionStage,
}

/// Mathematical value of a [`SessionStage`].
pub enum StageModel {
    PreparingX11,
    Connecting { connect: ConnectModel, x11_cookie: Option<String> },
    Authenticated { connection: SessionConnection, x11_cookie: Option<String> },
    OpeningShell { connection: SessionConnection, x11_cookie: Option<String> },
    StartingX11Forwarder { connection: SessionConnection, injection_active: bool },
    Registering { connection: SessionConnection, injection_active: bool },
    NotifyingReady { connection: SessionConnection, injection_active: bool },
    FindingTunnelManager { connection: SessionConnection, connection_id: String },
    OpeningTunnels { connection: SessionConnection, connection_id: String },
    StartingIo { connection: SessionConnection },
}

/// Mathematical value of a [`SessionRun`].
pub struct SessionModel {
    pub context: SessionContext,
    pub stage: StageModel,
}

impl View for SessionStage {
    type V = StageModel;

    open spec fn view(&self) -> StageModel {
        match *self {
            SessionStage::PreparingX11 => StageModel::PreparingX11,
            SessionStage::Connecting { connect, x11_cookie } => StageModel::Connecting {
                connect: connect@,
                x11_cookie,
            },
            SessionStage::Authenticated { connection, x11_cookie } => StageModel::Authenticated {
                connection,
                x11_cookie,
            },
            SessionStage::OpeningShell { connection, x11_cookie } => StageModel::OpeningShell {
                connection,
                x11_cookie,
            },
            SessionStage::StartingX11Forwarder { connection, injection_active } =>
                StageModel::StartingX11Forwarder { connection, injection_active },
            SessionStage::Registering { connection, injection_active } => StageModel::Registering {
                connection,
                injection_active,
            },
            SessionStage::NotifyingReady { connection, injection_active } =>
                StageModel::NotifyingReady { connection, injection_active },
            SessionStage::FindingTunnelManager { connection, connection_id } =>
                StageModel::FindingTunnelManager { connection, connection_id },
            SessionStage::OpeningTunnels { connection, connection_id } =>
                StageModel::OpeningTunnels { connection, connection_id },
            SessionStage::StartingIo { connection } => StageModel::StartingIo { connection },
        }
    }
}

/// Whether a session at the stage is in the registry.
pub open spec fn is_registered(stage: StageModel) -> bool {
    stage is NotifyingReady || stage is FindingTunnelManager || stage is OpeningTunnels
        || stage is StartingIo
}

impl SessionStage {
    fn registered(&self) -> (r: bool)
        ensures
            r == is_registered(self@),
    {
        match self {
            SessionStage::NotifyingReady { .. } => true,
            SessionStage::FindingTunnelManager { .. } => true,
            SessionStage::OpeningTunnels { .. } => true,
            SessionStage::StartingIo { .. } => true,
            _ => false,
        }
    }
}

impl View for SessionRun {
    type V = SessionModel;

    open spec fn view(&self) -> SessionModel {
        SessionModel { context: self.context, stage: self.stage@ }
    }
}

/// What is known of the session to everyone.
pub open spec fn session_info_model(context: SessionContext, injection_active: bool) -> SessionInfo {
    SessionInfo {
        id: context.session_id,
        name: context.config.name,
        session_type: SessionType::SSH,
        connection_id: context.connection_id,
        connected: true,
        owner_window_label: context.owner_window_label,
        ai_execution_profile: AiExecutionProfile::Posix,
        injection_active,
        remote_file_browser_enabled: capabilities(context.config).remote_file_browser_enabled,
        remote_stats_enabled: capabilities(context.config).remote_stats_enabled,
        ssh_profile: Some(context.config.ssh_profile),
    }
}

/// The shell that the session asks for.
pub open spec fn shell_request_model(
    context: SessionContext,
    x11_cookie: Option<String>,
) -> ShellRequest {
    ShellRequest {
        session_id: context.session_id,
        x11_cookie,
        agent_forwarding: context.config.agent_forwarding,
        terminal_type: context.config.terminal_type,
        remote_file_browser_enabled: capabilities(context.config).remote_file_browser_enabled,
        network_device_profile: capabilities(context.config).network_device_profile,
        cwd_follow_mode: context.cwd_follow_mode,
        shell_detection_timeout_ms: context.config.sftp.shell_detection_timeout_ms,
    }
}

/// What the I/O of the session is started with.
pub open spec fn io_plan_model(context: SessionContext) -> IoPlan {
    IoPlan {
        session_id: context.session_id,
        connection_id: context.connection_id,
        post_login: context.config.post_login,
        startup_command: context.startup_command,
        backspace_mode: context.config.backspace_mode,
        encoding: context.config.encoding,
    }
}

impl SessionContext {
    fn session_info(&self, injection_active: bool) -> (r: SessionInfo)
        ensures
            r == session_info_model(*self, injection_active),
    {
        let capabilities = resolve_runtime_capabilities(&self.config);
        SessionInfo {
            id: self.session_id.clone(),
            name: self.config.name.clone(),
            session_type: SessionType::SSH,
            connection_id: copy_label(&self.connection_id),
            connected: true,
            owner_window_label: copy_label(&self.owner_window_label),
            ai_execution_profile: AiExecutionProfile::Posix,
            injection_active,
            remote_file_browser_enabled: capabilities.remote_file_browser_enabled,
            remote_stats_enabled: capabilities.remote_stats_enabled,
            ssh_profile: Some(self.config.ssh_profile),
        }
    }

    fn shell_request(&self, x11_cookie: &Option<String>) -> (r: ShellRequest)
        ensures
            r == shell_request_model(*self, *x11_cookie),
    {
        let capabilities = resolve_runtime_capabilities(&self.config);
        ShellRequest {
            session_id: self.session_id.clone(),
            x11_cookie: copy_label(x11_cookie),
            agent_forwarding: self.config.agent_forwarding,
            terminal_type: self.config.terminal_type.clone(),
            remote_file_browser_enabled: capabilities.remote_file_browser_enabled,
            network_device_profile: capabilities.network_device_profile,
            cwd_follow_mode: self.cwd_follow_mode.clone(),
            shell_detection_timeout_ms: self.config.sftp.shell_detection_timeout_ms,
        }
    }

    fn io_plan(&self) -> (r: IoPlan)
        ensures
            r == io_plan_model(*self),
    {
        IoPlan {
            session_id: self.session_id.clone(),
            connection_id: copy_label(&self.connection_id),
            post_login: copy_label(&self.config.post_login),
            startup_command: copy_label(&self.startup_command),
            backspace_mode: self.config.backspace_mode.clone(),
            encoding: self.config.encoding.clone(),
        }
    }

    /// The stage after everyone knows that the session is ready: the tunnels of
    /// a saved connection, unless the session is multiplexed, or the I/O.
    pub open spec fn stage_after_ready(self, connection: SessionConnection) -> StageModel {
        match self.connection_id {
            Some(connection_id) => if self.multiplexed {
                StageModel::StartingIo { connection }
            } else {
                StageModel::FindingTunnelManager { connection, connection_id }
            },
            None => StageModel::StartingIo { connection },
        }
    }

    fn next_after_ready(&self, connection: SessionConnection) -> (r: SessionStage)
        ensures
            r@ == self.stage_after_ready(connection),
    {
        match &self.connection_id {
            Some(connection_id) => if self.multiplexed {
                SessionStage::StartingIo { connection }
            } else {
                SessionStage::FindingTunnelManager {
                    connection,
                    connection_id: connection_id.clone(),
                }
            },
            None => SessionStage::StartingIo { connection },
        }
    }

    /// The beginning of the session's own connection.
    pub open spec fn connect_start(self) -> ConnectModel {
        ConnectModel::start(
            self.config,
            connection::connection_options(self.config, false, false, true, true),
        )
    }

    fn connect(&self) -> (r: ConnectRun)
        ensures
            r@ == self.connect_start(),
    {
        create_authenticated_connection_with_notifications(&self.config, false, false, true, true)
    }
}

impl SessionModel {
    /// The action that the run waits for.
    pub open spec fn action(self) -> SessionAction {
        match self.stage {
            StageModel::PreparingX11 => SessionAction::PrepareX11 {
                display: self.context.config.x11_display,
            },
            StageModel::Connecting { connect, .. } => SessionAction::Connect(connect.action()),
            StageModel::Authenticated { .. } => SessionAction::MarkAuthenticated,
            StageModel::OpeningShell { connection, x11_cookie } => SessionAction::OpenShell {
                connection,
                request: shell_request_model(self.context, x11_cookie),
            },
            StageModel::StartingX11Forwarder { .. } => SessionAction::StartX11Forwarder {
                session_id: self.context.session_id,
            },
            StageModel::Registering { connection, injection_active } => SessionAction::Register {
                info: session_info_model(self.context, injection_active),
                config: self.context.config,
                connection,
            },
            StageModel::NotifyingReady { injection_active, .. } => SessionAction::NotifyReady(
                session_info_model(self.context, injection_active),
            ),
            StageModel::FindingTunnelManager { .. } => SessionAction::FindTunnelManager,
            StageModel::OpeningTunnels { connection_id, .. } => SessionAction::OpenTunnels {
                connection_id,
            },
            StageModel::StartingIo { connection } => SessionAction::StartIo {
                plan: io_plan_model(self.context),
                connection,
            },
        }
    }

    /// The run at another stage.
    pub open spec fn at(self, stage: StageModel) -> Progress<
        SessionModel,
        Result<Seq<char>, AppErrorModel>,
    > {
        Progress::Pending(SessionModel { stage, ..self })
    }

    /// What a reply makes of the run. A reply that does not answer the action
    /// changes nothing, and nor does a cancellation once the session is
    /// registered.
    pub open spec fn step(self, reply: SessionReply) -> Progress<
        SessionModel,
        Result<Seq<char>, AppErrorModel>,
    > {
        match (self.stage, reply) {
            (stage, SessionReply::Cancelled) => if self.context.cancellable && !is_registered(
                stage,
            ) {
                Progress::Done(Err(AppErrorModel::Cancelled("Session creation cancelled"@)))
            } else {
                Progress::Pending(self)
            },
            (StageModel::PreparingX11, SessionReply::X11Prepared { fake_cookie_hex }) => self.at(
                StageModel::Connecting {
                    connect: self.context.connect_start(),
                    x11_cookie: Some(fake_cookie_hex),
                },
            ),
            (StageModel::Connecting { connect, x11_cookie }, SessionReply::Connect(answer)) =>
                match connect.step_retrying(answer@) {
                    Progress::Pending(next) => self.at(
                        StageModel::Connecting { connect: next, x11_cookie },
                    ),
                    Progress::Done(Ok(chain)) => self.at(
                        StageModel::Authenticated {
                            connection: SessionConnection::Own(chain),
                            x11_cookie,
                        },
                    ),
                    Progress::Done(Err(error)) => Progress::Done(Err(error)),
                },
            (StageModel::Authenticated { connection, x11_cookie }, SessionReply::Done) => self.at(
                StageModel::OpeningShell { connection, x11_cookie },
            ),
            (
                StageModel::OpeningShell { connection, .. },
                SessionReply::ShellOpened { injection_active },
            ) => if self.context.config.x11_forwarding && !self.context.multiplexed {
                self.at(StageModel::StartingX11Forwarder { connection, injection_active })
            } else {
                self.at(StageModel::Registering { connection, injection_active })
            },
            (StageModel::OpeningShell { .. }, SessionReply::ShellFailed(error)) => Progress::Done(
                Err(error@),
            ),
            (
                StageModel::StartingX11Forwarder { connection, injection_active },
                SessionReply::Done,
            ) => self.at(StageModel::Registering { connection, injection_active }),
            (StageModel::Registering { connection, injection_active }, SessionReply::Done) =>
                if self.context.has_ready_hook {
                    self.at(StageModel::NotifyingReady { connection, injection_active })
                } else {
                    self.at(self.context.stage_after_ready(connection))
                },
            (StageModel::NotifyingReady { connection, .. }, SessionReply::Done) => self.at(
                self.context.stage_after_ready(connection),
            ),
            (
                StageModel::FindingTunnelManager { connection, connection_id },
                SessionReply::TunnelManager { present },
            ) => if present {
                self.at(StageModel::OpeningTunnels { connection, connection_id })
            } else {
                self.at(StageModel::StartingIo { connection })
            },
            (StageModel::OpeningTunnels { connection, .. }, SessionReply::Done) => self.at(
                StageModel::StartingIo { connection },
            ),
            (StageModel::StartingIo { .. }, SessionReply::Done) => Progress::Done(
                Ok(self.context.session_id@),
            ),
            _ => Progress::Pending(self),
        }
    }
}

impl SessionRun {
    /// The action that the run waits for.
    pub fn action(&self) -> (r: SessionAction)
        ensures
            r == self@.action(),
    {
        match &self.stage {
            SessionStage::PreparingX11 => SessionAction::PrepareX11 {
                display: self.context.config.x11_display.clone(),
            },
            SessionStage::Connecting { connect, .. } => SessionAction::Connect(
                connect.action().copy(),
            ),
            SessionStage::Authenticated { .. } => SessionAction::MarkAuthenticated,
            SessionStage::OpeningShell { connection, x11_cookie } => SessionAction::OpenShell {
                connection: *connection,
                request: self.context.shell_request(x11_cookie),
            },
            SessionStage::StartingX11Forwarder { .. } => SessionAction::StartX11Forwarder {
                session_id: self.context.session_id.clone(),
            },
            SessionStage::Registering { connection, injection_active } => SessionAction::Register {
                info: self.context.session_info(*injection_active),
                config: self.context.config.copy(),
                connection: *connection,
            },
            SessionStage::NotifyingReady { injection_active, .. } => SessionAction::NotifyReady(
                self.context.session_info(*injection_active),
            ),
            SessionStage::FindingTunnelManager { .. } => SessionAction::FindTunnelManager,
            SessionStage::OpeningTunnels { connection_id, .. } => SessionAction::OpenTunnels {
                connection_id: connection_id.clone(),
            },
            SessionStage::StartingIo { connection } => SessionAction::StartIo {
                plan: self.context.io_plan(),
                connection: *connection,
            },
        }
    }

    /// What the reply makes of the run. The outcome is the session's identifier.
    pub fn step(self, reply: SessionReply) -> (r: Progress<SessionRun, AppResult<String>>)
        ensures
            r@ == self@.step(reply),
    {
        let context = self.context;
        let stage = match (self.stage, reply) {
            (stage, SessionReply::Cancelled) => {
                if context.cancellable && !stage.registered() {
                    return Progress::Done(
                        Err(AppError::Cancelled("Session creation cancelled".to_owned())),
                    );
                }
                stage
            },
            (SessionStage::PreparingX11, SessionReply::X11Prepared { fake_cookie_hex }) => {
                SessionStage::Connecting {
                    connect: context.connect(),
                    x11_cookie: Some(fake_cookie_hex),
                }
            },
            (SessionStage::Connecting { connect, x11_cookie }, SessionReply::Connect(answer)) => {
                match connect.step_retrying(answer) {
                    Progress::Pending(next) => SessionStage::Connecting {
                        connect: next,
                        x11_cookie,
                    },
                    Progress::Done(Ok(chain)) => SessionStage::Authenticated {
                        connection: SessionConnection::Own(chain),
                        x11_cookie,
                    },
                    Progress::Done(Err(error)) => {
                        return Progress::Done(Err(error));
                    },
                }
            },
            (SessionStage::Authenticated { connection, x11_cookie }, SessionReply::Done) => {
                SessionStage::OpeningShell { connection, x11_cookie }
            },
            (
                SessionStage::OpeningShell { connection, .. },
                SessionReply::ShellOpened { injection_active },
            ) => {
                if context.config.x11_forwarding && !context.multiplexed {
                    SessionStage::StartingX11Forwarder { connection, injection_active }
                } else {
                    SessionStage::Registering { connection, injection_active }
                }
            },
            (SessionStage::OpeningShell { .. }, SessionReply::ShellFailed(error)) => {
                return Progress::Done(Err(error));
            },
            (
                SessionStage::StartingX11Forwarder { connection, injection_active },
                SessionReply::Done,
            ) => { SessionStage::Registering { connection, injection_active } },
            (SessionStage::Registering { connection, injection_active }, SessionReply::Done) => {
                if context.has_ready_hook {
                    SessionStage::NotifyingReady { connection, injection_active }
                } else {
                    context.next_after_ready(connection)
                }
            },
            (SessionStage::NotifyingReady { connection, .. }, SessionReply::Done) => {
                context.next_after_ready(connection)
            },
            (
                SessionStage::FindingTunnelManager { connection, connection_id },
                SessionReply::TunnelManager { present },
            ) => {
                if present {
                    SessionStage::OpeningTunnels { connection, connection_id }
                } else {
                    SessionStage::StartingIo { connection }
                }
            },
            (SessionStage::OpeningTunnels { connection, .. }, SessionReply::Done) => {
                SessionStage::StartingIo { connection }
            },
            (SessionStage::StartingIo { .. }, SessionReply::Done) => {
                return Progress::Done(Ok(context.session_id));
            },
            (stage, _) => stage,
        };
        Progress::Pending(SessionRun { context, stage })
    }
}

// New sessions.

/// The beginning of a new session with the identifier `session_id`.
pub open spec fn session_start(
    session_id: String,
    config: SshConfig,
    connection_id: Option<String>,
    owner_window_label: Option<String>,
    cancellable: bool,
    startup_command: Option<String>,
    has_ready_hook: bool,
    cwd_follow_mode: String,
) -> SessionModel {
    let context = SessionContext {
        session_id,
        config: config::labelled(config, owner_window_label),
        connection_id,
        owner_window_label,
        cwd_follow_mode,
        startup_command,
        has_ready_hook,
        cancellable,
        multiplexed: false,
    };
    SessionModel {
        context,
        stage: if config.x11_forwarding {
            StageModel::PreparingX11
        } else {
            StageModel::Connecting { connect: context.connect_start(), x11_cookie: None }
        },
    }
}

/// Starts to create a session under the identifier `session_id`.
pub fn create_ssh_session_with_id(
    session_id: String,
    config: SshConfig,
    connection_id: Option<String>,
    owner_window_label: Option<String>,
    cancellable: bool,
    startup_command: Option<String>,
    has_ready_hook: bool,
    cwd_follow_mode: String,
) -> (r: SessionRun)
    ensures
        r.context.session_id == session_id,
        r.context.config == config::labelled(config, owner_window_label),
        r.context.connection_id == connection_id,
        r.context.owner_window_label == owner_window_label,
        r.context.cancellable == cancellable,
        r.context.startup_command == startup_command,
        r.context.has_ready_hook == has_ready_hook,
        r.context.cwd_follow_mode == cwd_follow_mode,
        !r.context.multiplexed,
        r@ == session_start(
            session_id,
            config,
            connection_id,
            owner_window_label,
            cancellable,
            startup_command,
            has_ready_hook,
            cwd_follow_mode,
        ),
{
    let mut config = config;
    set_owner_window_label(&mut config, copy_label(&owner_window_label));
    let x11_forwarding = config.x11_forwarding;
    let context = SessionContext {
        session_id,
        config,
        connection_id,
        owner_window_label,
        cwd_follow_mode,
        startup_command,
        has_ready_hook,
        cancellable,
        multiplexed: false,
    };
    let stage = if x11_forwarding {
        SessionStage::PreparingX11
    } else {
        SessionStage::Connecting { connect: context.connect(), x11_cookie: None }
    };
    SessionRun { context, stage }
}

/// Starts to create a session: to connect, to open a shell, and to start its
/// I/O. `cwd_follow_mode` is how the file browser follows the shell's working
/// directory on such a host.
pub fn create_ssh_session(
    config: SshConfig,
    connection_id: Option<String>,
    owner_window_label: Option<String>,
    cancellable: bool,
    startup_command: Option<String>,
    has_ready_hook: bool,
    cwd_follow_mode: String,
) -> (r: SessionRun)
    ensures
        is_random_uuid(r.context.session_id@),
        r.context.config == config::labelled(config, owner_window_label),
        r.context.connection_id == connection_id,
        r.context.owner_window_label == owner_window_label,
        r.context.cancellable == cancellable,
        r.context.startup_command == startup_command,
        r.context.has_ready_hook == has_ready_hook,
        r.context.cwd_follow_mode == cwd_follow_mode,
        !r.context.multiplexed,
        r@ == session_start(
            r.context.session_id,
            config,
            connection_id,
            owner_window_label,
            cancellable,
            startup_command,
            has_ready_hook,
            cwd_follow_mode,
        ),
{
    create_ssh_session_with_id(
        new_session_id(),
        config,
        connection_id,
        owner_window_label,
        cancellable,
        startup_command,
        has_ready_hook,
        cwd_follow_mode,
    )
}

// Multiplexed sessions.

/// What a session has as its connection.
#[derive(Debug, Clone, Copy, PartialEq, Eq, Structural)]
pub enum SourceHandle {
    /// Nothing.
    Absent,
    /// Something that is no SSH connection.
    Foreign,
    /// An SSH connection.
    Connected,
}

/// The session whose connection a multiplexed session uses.
#[derive(Debug)]
pub struct SourceSession {
    pub session_type: SessionType,
    /// The configuration, if the session has one and it is for SSH.
    pub ssh_config: Option<SshConfig>,
    pub ssh_handle: SourceHandle,
    pub owner_window_label: Option<String>,
}

/// The configuration and the owner of a source session, or why a session cannot
/// be multiplexed on it.
pub open spec fn source_model(source_session_id: Seq<char>, source: Option<SourceSession>) -> Result<
    (SshConfig, Option<String>),
    AppErrorModel,
> {
    match source {
        None => Err(
            AppErrorModel::SessionNotFound("Session '"@ + source_session_id + "' not found"@),
        ),
        Some(session) => if session.session_type != SessionType::SSH {
            Err(AppErrorModel::Config("Source session is not an SSH session"@))
        } else {
            match (session.ssh_config, session.ssh_handle) {
                (None, _) => Err(AppErrorModel::Config("Failed to get SSH config"@)),
                (_, SourceHandle::Absent) => Err(
                    AppErrorModel::Config("Source session has no SSH handle"@),
                ),
                (_, SourceHandle::Foreign) => Err(
                    AppErrorModel::Config("Failed to get SSH handle"@),
                ),
                (Some(config), SourceHandle::Connected) => Ok(
                    (config, session.owner_window_label),
                ),
            }
        },
    }
}

/// The configuration and the owner of a source session, if a session can be
/// multiplexed on it.
pub fn resolve_source_session(source_session_id: &str, source: Option<SourceSession>) -> (r:
    AppResult<(SshConfig, Option<String>)>)
    ensures
        error::result_model(r) == source_model(source_session_id@, source),
{
    let session = match source {
        Some(session) => session,
        None => {
            return Err(
                AppError::SessionNotFound(join3("Session '", source_session_id, "' not found")),
            );
        },
    };
    if session.session_type != SessionType::SSH {
        return Err(AppError::Config("Source session is not an SSH session".to_owned()));
    }
    let config = match session.ssh_config {
        Some(config) => config,
        None => {
            return Err(AppError::Config("Failed to get SSH config".to_owned()));
        },
    };
    match session.ssh_handle {
        SourceHandle::Absent => Err(
            AppError::Config("Source session has no SSH handle".to_owned()),
        ),
        SourceHandle::Foreign => Err(AppError::Config("Failed to get SSH handle".to_owned())),
        SourceHandle::Connected => Ok((config, session.owner_window_label)),
    }
}

/// The beginning of a session on the connection of another one. X11 forwarding
/// belongs to a connection, so a session that wants it gets a connection of its
/// own, which takes a saved configuration.
pub open spec fn multiplexed_start(
    session_id: String,
    source_session_id: Seq<char>,
    source: Option<SourceSession>,
    startup_command: Option<String>,
    has_ready_hook: bool,
    cwd_follow_mode: String,
) -> Result<SessionModel, AppErrorModel> {
    match source_model(source_session_id, source) {
        Err(error) => Err(error),
        Ok((config, owner_window_label)) => if config.x11_forwarding {
            match config.connection_id {
                None => Err(
                    AppErrorModel::Config("X11 forwarding requires a saved SSH connection"@),
                ),
                Some(connection_id) => Ok(
                    session_start(
                        session_id,
                        config,
                        Some(connection_id),
                        owner_window_label,
                        false,
                        startup_command,
                        has_ready_hook,
                        cwd_follow_mode,
                    ),
                ),
            }
        } else {
            Ok(
                SessionModel {
                    context: SessionContext {
                        session_id,
                        config,
                        connection_id: config.connection_id,
                        owner_window_label,
                        cwd_follow_mode,
                        startup_command,
                        has_ready_hook,
                        cancellable: false,
                        multiplexed: true,
                    },
                    stage: StageModel::Authenticated {
                        connection: SessionConnection::Source,
                        x11_cookie: None,
                    },
                },
            )
        },
    }
}

/// The value of a session that was started, or of the error instead of it.
pub open spec fn started(result: AppResult<SessionRun>) -> Result<SessionModel, AppErrorModel> {
    match result {
        Ok(run) => Ok(run@),
        Err(error) => Err(error@),
    }
}

/// Starts to create a session under the identifier `session_id`, on the
/// connection of another one.
pub fn create_multiplexed_ssh_session_with_id(
    session_id: String,
    source_session_id: &str,
    source: Option<SourceSession>,
    startup_command: Option<String>,
    has_ready_hook: bool,
    cwd_follow_mode: String,
) -> (r: AppResult<SessionRun>)
    ensures
        started(r) == multiplexed_start(
            session_id,
            source_session_id@,
            source,
            startup_command,
            has_ready_hook,
            cwd_follow_mode,
        ),
{
    let (config, owner_window_label) = match resolve_source_session(source_session_id, source) {
        Ok(resolved) => resolved,
        Err(error) => {
            return Err(error);
        },
    };
    let connection_id = copy_label(&config.connection_id);
    if config.x11_forwarding {
        if connection_id.is_none() {
            return Err(
                AppError::Config("X11 forwarding requires a saved SSH connection".to_owned()),
            );
        }
        return Ok(
            create_ssh_session_with_id(
                session_id,
                config,
                connection_id,
                owner_window_label,
                false,
                startup_command,
                has_ready_hook,
                cwd_follow_mode,
            ),
        );
    }
    let context = SessionContext {
        session_id,
        config,
        connection_id,
        owner_window_label,
        cwd_follow_mode,
        startup_command,
        has_ready_hook,
        cancellable: false,
        multiplexed: true,
    };
    let stage = SessionStage::Authenticated {
        connection: SessionConnection::Source,
        x11_cookie: None,
    };
    Ok(SessionRun { context, stage })
}

/// Starts to create a session on the connection of another one. `source` is what
/// is registered under `source_session_id`.
pub fn create_multiplexed_ssh_session(
    source_session_id: &str,
    source: Option<SourceSession>,
    startup_command: Option<String>,
    has_ready_hook: bool,
    cwd_follow_mode: String,
) -> (r: AppResult<SessionRun>)
    ensures
        match r {
            Ok(run) => is_random_uuid(run.context.session_id@) && multiplexed_start(
                run.context.session_id,
                source_session_id@,
                source,
                startup_command,
                has_ready_hook,
                cwd_follow_mode,
            ) == Ok::<_, AppErrorModel>(run@),
            Err(error) => forall|session_id: String| #[trigger]
                multiplexed_start(
                    session_id,
                    source_session_id@,
                    source,
                    startup_command,
                    has_ready_hook,
                    cwd_follow_mode,
                ) == Err::<SessionModel, _>(error@),
        },
{
    create_multiplexed_ssh_session_with_id(
        new_session_id(),
        source_session_id,
        source,
        startup_command,
        has_ready_hook,
        cwd_follow_mode,
    )
}

// Laws.

/// A network device gets neither a file browser nor statistics, and every other
/// host gets statistics.
pub proof fn law_network_device_has_no_host_features(config: SshConfig)
    ensures
        capabilities(config).network_device_profile ==> !capabilities(
            config,
        ).remote_file_browser_enabled && !capabilities(config).remote_stats_enabled,
        !capabilities(config).network_device_profile ==> capabilities(
            config,
        ).remote_file_browser_enabled == config.sftp.enabled && capabilities(
            config,
        ).remote_stats_enabled,
        capabilities(config).network_device_profile <==> config.ssh_profile
            == SshProfile::NetworkDevice,
{
}

/// The place of a stage in the order in which a session passes through them.
pub open spec fn rank(stage: StageModel) -> nat {
    match stage {
        StageModel::PreparingX11 => 0,
        StageModel::Connecting { .. } => 1,
        StageModel::Authenticated { .. } => 2,
        StageModel::OpeningShell { .. } => 3,
        StageModel::StartingX11Forwarder { .. } => 4,
        StageModel::Registering { .. } => 5,
        StageModel::NotifyingReady { .. } => 6,
        StageModel::FindingTunnelManager { .. } => 7,
        StageModel::OpeningTunnels { .. } => 8,
        StageModel::StartingIo { .. } => 9,
    }
}

/// A session never goes back to an earlier stage, and what it was asked for does
/// not change.
pub proof fn law_session_moves_forward(run: SessionModel, reply: SessionReply)
    ensures
        run.step(reply) matches Progress::Pending(next) ==> next.context == run.context && rank(
            next.stage,
        ) >= rank(run.stage) && (next == run || rank(next.stage) > rank(run.stage) || (
        next.stage is Connecting && run.stage is Connecting)),
{
}

/// Whether a session at the stage has its shell.
pub open spec fn has_shell(stage: StageModel) -> bool {
    stage is StartingX11Forwarder || stage is Registering || is_registered(stage)
}

/// Whether a session at the stage has an authenticated connection.
pub open spec fn is_authenticated(stage: StageModel) -> bool {
    !(stage is PreparingX11) && !(stage is Connecting)
}

/// A session gets its shell only by a shell that was opened, and its connection
/// only by a chain that was connected to the end. It asks for a shell only on an
/// authenticated connection, and is registered only with a shell.
pub proof fn law_session_is_registered_after_its_shell_opened(
    run: SessionModel,
    reply: SessionReply,
)
    ensures
        run.step(reply) matches Progress::Pending(next) ==> has_shell(next.stage) && !has_shell(
            run.stage,
        ) ==> run.stage is OpeningShell && reply is ShellOpened,
        run.step(reply) matches Progress::Pending(next) ==> is_authenticated(next.stage)
            && !is_authenticated(run.stage) ==> (run.stage matches StageModel::Connecting {
            connect,
            ..
        } && reply matches SessionReply::Connect(answer) && connect.step(
            answer@,
        ) matches Progress::Done(Ok(_))),
        run.action() is OpenShell ==> is_authenticated(run.stage),
        run.action() is Register ==> has_shell(run.stage),
        run.step(reply) matches Progress::Done(Ok(_)) ==> has_shell(run.stage),
{
}

/// Only the connection and the shell can fail. Besides that, nothing but a
/// cancellation before it is registered keeps a session from being created.
pub proof fn law_only_connection_and_shell_can_fail(run: SessionModel, reply: SessionReply)
    ensures
        run.step(reply) matches Progress::Done(Err(_)) ==> run.stage is Connecting
            || run.stage is OpeningShell || (reply is Cancelled && run.context.cancellable
            && !is_registered(run.stage)),
{
}

/// An error means that the session is not registered and that its creator was
/// not told that it is ready: a session becomes registered only by the answer to
/// `Register`, the creator is told only of a registered session, and from a
/// registered session no reply leads to an error or back.
pub proof fn law_error_means_not_registered(run: SessionModel, reply: SessionReply)
    ensures
        run.step(reply) matches Progress::Done(Err(_)) ==> !is_registered(run.stage),
        run.action() is NotifyReady ==> is_registered(run.stage),
        run.step(reply) matches Progress::Pending(next) ==> is_registered(run.stage)
            ==> is_registered(next.stage),
        run.step(reply) matches Progress::Pending(next) ==> is_registered(next.stage)
            && !is_registered(run.stage) ==> run.action() is Register && reply is Done,
        run.step(reply) matches Progress::Done(Ok(_)) ==> is_registered(run.stage),
{
}

/// A session that was created is known by its own identifier.
pub proof fn law_outcome_is_the_session_id(run: SessionModel, reply: SessionReply)
    ensures
        run.step(reply) matches Progress::Done(Ok(session_id)) ==> session_id
            == run.context.session_id@,
{
}

/// The shell asks for agent forwarding exactly if the handler of the session's
/// own connection has an agent to forward.
pub proof fn law_shell_asks_for_the_agent_that_is_forwarded(
    context: SessionContext,
    x11_cookie: Option<String>,
)
    ensures
        shell_request_model(context, x11_cookie).agent_forwarding <==> connection::handler_plan(
            context.config,
            connection::connection_options(context.config, false, false, true, true),
        ).agent_endpoint is Some,
{
}

/// A session can be cancelled until it is registered, if its creator can cancel.
/// Otherwise a cancellation changes nothing.
pub proof fn law_cancellation(run: SessionModel)
    ensures
        run.step(SessionReply::Cancelled) == if run.context.cancellable && !is_registered(
            run.stage,
        ) {
            Progress::Done(
                Err::<Seq<char>, _>(AppErrorModel::Cancelled("Session creation cancelled"@)),
            )
        } else {
            Progress::Pending(run)
        },
{
}

/// The connection that a session uses: that of its source, if it is multiplexed,
/// or else the whole chain of its configuration.
pub open spec fn session_connection(context: SessionContext) -> SessionConnection {
    if context.multiplexed {
        SessionConnection::Source
    } else {
        SessionConnection::Own(
            ConnectedChain { target: (config::hops(context.config).len() - 1) as usize },
        )
    }
}

/// What holds of every session on its way: a connection that is being
/// established is not yet done and leads to the target, a connection that is
/// there is the session's, the shell gets an X11 cookie exactly if X11 is
/// forwarded on a connection of the session's own, and a multiplexed session
/// establishes no connection and opens no tunnels.
pub open spec fn session_valid(run: SessionModel) -> bool {
    let x11 = run.context.config.x11_forwarding && !run.context.multiplexed;
    &&& run.context.multiplexed ==> is_authenticated(run.stage) && !(
    run.stage is FindingTunnelManager) && !(run.stage is OpeningTunnels)
    &&& match run.stage {
        StageModel::PreparingX11 => x11,
        StageModel::Connecting { connect, x11_cookie } => connect.at < connect.script.len()
            && connect.script == run.context.connect_start().script && connect.target
            == run.context.connect_start().target && (x11_cookie is Some <==> x11),
        StageModel::Authenticated { connection, x11_cookie } => connection == session_connection(
            run.context,
        ) && (x11_cookie is Some <==> x11),
        StageModel::OpeningShell { connection, x11_cookie } => connection == session_connection(
            run.context,
        ) && (x11_cookie is Some <==> x11),
        StageModel::StartingX11Forwarder { connection, .. } => connection == session_connection(
            run.context,
        ) && x11,
        StageModel::Registering { connection, .. } => connection == session_connection(run.context),
        StageModel::NotifyingReady { connection, .. } => connection == session_connection(
            run.context,
        ),
        StageModel::FindingTunnelManager { connection, connection_id } => connection
            == session_connection(run.context) && run.context.connection_id == Some(connection_id),
        StageModel::OpeningTunnels { connection, connection_id } => connection
            == session_connection(run.context) && run.context.connection_id == Some(connection_id),
        StageModel::StartingIo { connection } => connection == session_connection(run.context),
    }
}

/// Sessions start valid.
pub proof fn law_sessions_start_valid(
    session_id: String,
    config: SshConfig,
    connection_id: Option<String>,
    owner_window_label: Option<String>,
    cancellable: bool,
    startup_command: Option<String>,
    has_ready_hook: bool,
    cwd_follow_mode: String,
    source_session_id: Seq<char>,
    source: Option<SourceSession>,
)
    ensures
        session_valid(
            session_start(
                session_id,
                config,
                connection_id,
                owner_window_label,
                cancellable,
                startup_command,
                has_ready_hook,
                cwd_follow_mode,
            ),
        ),
        multiplexed_start(
            session_id,
            source_session_id,
            source,
            startup_command,
            has_ready_hook,
            cwd_follow_mode,
        ) matches Ok(run) ==> session_valid(run),
{
    let labelled = config::labelled(config, owner_window_label);
    connection::lemma_chain_script_len(
        labelled,
        connection::connection_options(labelled, false, false, true, true),
    );
    if let Ok((config, owner)) = source_model(source_session_id, source) {
        let labelled = config::labelled(config, owner);
        connection::lemma_chain_script_len(
            labelled,
            connection::connection_options(labelled, false, false, true, true),
        );
    }
}

/// Sessions stay valid, whatever is replied.
pub proof fn law_sessions_stay_valid(run: SessionModel, reply: SessionReply)
    requires
        session_valid(run),
    ensures
        run.step(reply) matches Progress::Pending(next) ==> session_valid(next),
{
    connection::lemma_chain_script_len(
        run.context.config,
        connection::connection_options(run.context.config, false, false, true, true),
    );
}

/// The shell is opened on the session's connection, and the session is registered
/// and its I/O started with the same connection. It is registered with its own
/// configuration.
pub proof fn law_session_uses_its_connection(run: SessionModel)
    requires
        session_valid(run),
    ensures
        run.action() matches SessionAction::OpenShell { connection, .. } ==> connection
            == session_connection(run.context),
        run.action() matches SessionAction::Register { connection, config, .. } ==> connection
            == session_connection(run.context) && config == run.context.config,
        run.action() matches SessionAction::StartIo { connection, .. } ==> connection
            == session_connection(run.context),
{
}

/// The reply of a driver for whom everything succeeds, with what it found on the
/// way.
pub open spec fn success(
    run: SessionModel,
    fake_cookie_hex: String,
    injection_active: bool,
    present: bool,
) -> SessionReply {
    match run.stage {
        StageModel::PreparingX11 => SessionReply::X11Prepared { fake_cookie_hex },
        StageModel::Connecting { .. } => SessionReply::Connect(ConnectReply::Done),
        StageModel::OpeningShell { .. } => SessionReply::ShellOpened { injection_active },
        StageModel::FindingTunnelManager { .. } => SessionReply::TunnelManager { present },
        _ => SessionReply::Done,
    }
}

/// An upper bound on the number of successes that a session still needs.
pub open spec fn successes_needed(run: SessionModel) -> nat {
    let connecting = run.context.connect_start().script.len();
    match run.stage {
        StageModel::PreparingX11 => connecting + 9,
        StageModel::Connecting { connect, .. } => (connect.script.len() - connect.at + 8) as nat,
        stage => (10 - rank(stage)) as nat,
    }
}

/// The session after at most `limit` successes in a row.
pub open spec fn succeed(
    run: SessionModel,
    fake_cookie_hex: String,
    injection_active: bool,
    present: bool,
    limit: nat,
) -> Progress<SessionModel, Result<Seq<char>, AppErrorModel>>
    decreases limit,
{
    if limit == 0 {
        Progress::Pending(run)
    } else {
        match run.step(success(run, fake_cookie_hex, injection_active, present)) {
            Progress::Done(outcome) => Progress::Done(outcome),
            Progress::Pending(next) => succeed(
                next,
                fake_cookie_hex,
                injection_active,
                present,
                (limit - 1) as nat,
            ),
        }
    }
}

/// If everything succeeds, a session comes to its end, and the end is its
/// identifier.
pub proof fn law_session_succeeds(
    run: SessionModel,
    fake_cookie_hex: String,
    injection_active: bool,
    present: bool,
    limit: nat,
)
    requires
        session_valid(run),
        limit >= successes_needed(run),
    ensures
        succeed(run, fake_cookie_hex, injection_active, present, limit) == Progress::<
            SessionModel,
            _,
        >::Done(Ok::<_, AppErrorModel>(run.context.session_id@)),
    decreases limit,
{
    let reply = success(run, fake_cookie_hex, injection_active, present);
    law_sessions_stay_valid(run, reply);
    assert(successes_needed(run) > 0);
    assert(SessionReply::Connect(ConnectReply::Done)->Connect_0@ == ConnectReplyModel::Done);
    match run.step(reply) {
        Progress::Done(_) => {},
        Progress::Pending(next) => {
            assert(successes_needed(next) < successes_needed(run));
            law_session_succeeds(
                next,
                fake_cookie_hex,
                injection_active,
                present,
                (limit - 1) as nat,
            );
        },
    }
}

} // verus!
