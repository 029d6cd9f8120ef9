//! The configuration of an SSH connection.

use crate::text::copy_label;
use vstd::prelude::*;

verus! {

/// What kind of host a connection leads to.
#[derive(Debug, Clone, Copy, PartialEq, Eq, Structural)]
pub enum SshProfile {
    Standard,
    NetworkDevice,
}

/// Which local SSH agent to use.
#[derive(Debug)]
pub enum SshAgentEndpoint {
    /// The usual agent of the platform.
    Auto,
    /// The socket that an environment variable names.
    Environment { variable: String },
    /// The socket at a path.
    UnixSocket { path: String },
    /// PuTTY's agent.
    Pageant,
    /// The agent of OpenSSH for Windows.
    WindowsOpenSsh,
}

/// How the user authenticates. The credential is carried in the form in which
/// it is stored.
#[derive(Debug)]
pub enum SshAuth {
    NoAuth,
    Stored(String),
}

/// File transfer on a connection.
#[derive(Debug)]
pub struct SftpSettings {
    pub enabled: bool,
    /// How the file browser follows the shell's working directory, by name.
    pub cwd_follow_mode: String,
    pub shell_detection_timeout_ms: u64,
}

/// Everything that is known about a connection. `proxy`, `post_login` and
/// `ssh_algorithms` are carried in the form in which they are stored.
#[derive(Debug)]
pub struct SshConfig {
    pub connection_id: Option<String>,
    pub owner_window_label: Option<String>,
    pub name: String,
    pub host: String,
    pub port: u16,
    pub username: String,
    pub auth: SshAuth,
    pub backspace_mode: String,
    pub x11_forwarding: bool,
    pub x11_display: String,
    pub agent_endpoint: SshAgentEndpoint,
    pub agent_forwarding: bool,
    pub proxy: Option<String>,
    /// The host through which this one is reached.
    pub proxy_jump: Option<Box<SshConfig>>,
    pub post_login: Option<String>,
    pub ssh_algorithms: Option<String>,
    pub ssh_profile: SshProfile,
    pub terminal_type: String,
    pub sftp: SftpSettings,
    pub encoding: String,
}

impl SshAgentEndpoint {
    /// A copy of the endpoint.
    pub fn copy(&self) -> (r: SshAgentEndpoint)
        ensures
            r == *self,
    {
        match self {
            SshAgentEndpoint::Auto => SshAgentEndpoint::Auto,
            SshAgentEndpoint::Environment { variable } => SshAgentEndpoint::Environment {
                variable: variable.clone(),
            },
            SshAgentEndpoint::UnixSocket { path } => SshAgentEndpoint::UnixSocket {
                path: path.clone(),
            },
            SshAgentEndpoint::Pageant => SshAgentEndpoint::Pageant,
            SshAgentEndpoint::WindowsOpenSsh => SshAgentEndpoint::WindowsOpenSsh,
        }
    }
}

impl SshAuth {
    /// A copy of the credential.
    pub fn copy(&self) -> (r: SshAuth)
        ensures
            r == *self,
    {
        match self {
            SshAuth::NoAuth => SshAuth::NoAuth,
            SshAuth::Stored(credential) => SshAuth::Stored(credential.clone()),
        }
    }
}

impl SftpSettings {
    /// A copy of the settings.
    pub fn copy(&self) -> (r: SftpSettings)
        ensures
            r == *self,
    {
        SftpSettings {
            enabled: self.enabled,
            cwd_follow_mode: self.cwd_follow_mode.clone(),
            shell_detection_timeout_ms: self.shell_detection_timeout_ms,
        }
    }
}

impl SshConfig {
    /// A copy of the configuration, with its jump hosts.
    pub fn copy(&self) -> (r: SshConfig)
        ensures
            r == *self,
        decreases self,
    {
        SshConfig {
            connection_id: copy_label(&self.connection_id),
            owner_window_label: copy_label(&self.owner_window_label),
            name: self.name.clone(),
            host: self.host.clone(),
            port: self.port,
            username: self.username.clone(),
            auth: self.auth.copy(),
            backspace_mode: self.backspace_mode.clone(),
            x11_forwarding: self.x11_forwarding,
            x11_display: self.x11_display.clone(),
            agent_endpoint: self.agent_endpoint.copy(),
            agent_forwarding: self.agent_forwarding,
            proxy: copy_label(&self.proxy),
            proxy_jump: match &self.proxy_jump {
                Some(jump) => Some(Box::new((**jump).copy())),
                None => None,
            },
            post_login: copy_label(&self.post_login),
            ssh_algorithms: copy_label(&self.ssh_algorithms),
            ssh_profile: self.ssh_profile,
            terminal_type: self.terminal_type.clone(),
            sftp: self.sftp.copy(),
            encoding: self.encoding.clone(),
        }
    }
}

/// The hosts from the first that is connected to, up to the target: each is
/// reached through the one before it.
pub open spec fn hops(config: SshConfig) -> Seq<SshConfig>
    decreases config,
{
    match config.proxy_jump {
        Some(jump) => hops(*jump).push(config),
        None => seq![config],
    }
}

/// `config` with the label, and with nothing else changed, on every host of the
/// chain.
pub open spec fn labelled(config: SshConfig, owner_window_label: Option<String>) -> SshConfig
    decreases config,
{
    SshConfig {
        owner_window_label,
        proxy_jump: match config.proxy_jump {
            Some(jump) => Some(Box::new(labelled(*jump, owner_window_label))),
            None => None,
        },
        ..config
    }
}

/// Sets the window that owns the connection, on every host of the chain.
pub fn set_owner_window_label(config: &mut SshConfig, owner_window_label: Option<String>)
    ensures
        *final(config) == labelled(*old(config), owner_window_label),
    decreases *old(config),
{
    let jump_label = copy_label(&owner_window_label);
    config.owner_window_label = owner_window_label;
    match config.proxy_jump.take() {
        Some(mut jump) => {
            set_owner_window_label(&mut *jump, jump_label);
            config.proxy_jump = Some(jump);
        },
        None => {},
    }
}

/// Every host of a labelled chain carries the label, and differs from the host
/// that it was in nothing but the labels.
pub proof fn law_label_reaches_every_hop(config: SshConfig, owner_window_label: Option<String>)
    ensures
        hops(labelled(config, owner_window_label)).len() == hops(config).len(),
        forall|i: int|
            0 <= i < hops(config).len() ==> #[trigger] hops(
                labelled(config, owner_window_label),
            )[i] == labelled(hops(config)[i], owner_window_label) && hops(
                labelled(config, owner_window_label),
            )[i].owner_window_label == owner_window_label,
    decreases config,
{
    match config.proxy_jump {
        Some(jump) => {
            law_label_reaches_every_hop(*jump, owner_window_label);
        },
        None => {},
    }
}

/// The host at a position of the chain, or by how much the position is beyond
/// its end.
fn locate_hop(config: &SshConfig, hop: usize) -> (r: Result<&SshConfig, usize>)
    ensures
        match r {
            Ok(found) => hop < hops(*config).len() && *found == hops(*config)[hop as int],
            Err(beyond) => beyond == hop - hops(*config).len(),
        },
    decreases config,
{
    let beyond: usize = match &config.proxy_jump {
        Some(jump) => match locate_hop(jump, hop) {
            Ok(found) => {
                return Ok(found);
            },
            Err(beyond) => beyond,
        },
        None => hop,
    };
    if beyond == 0 {
        Ok(config)
    } else {
        Err(beyond - 1)
    }
}

/// The host at a position of the chain.
pub fn hop_config(config: &SshConfig, hop: usize) -> (r: Option<&SshConfig>)
    ensures
        r == if hop < hops(*config).len() {
            Some(&hops(*config)[hop as int])
        } else {
            None
        },
{
    match locate_hop(config, hop) {
        Ok(found) => Some(found),
        Err(_) => None,
    }
}

/// The chain of a configuration: its last host is the configuration itself, its
/// first host has no jump host, and the jump host of every other host is the host
/// before it.
pub proof fn law_hops_follow_the_jump_hosts(config: SshConfig, hop: int)
    ensures
        hops(config).len() > 0,
        hops(config)[hops(config).len() - 1] == config,
        hops(config)[0].proxy_jump is None,
        0 < hop < hops(config).len() ==> (hops(config)[hop].proxy_jump matches Some(jump) && *jump
            == hops(config)[hop - 1]),
    decreases config,
{
    match config.proxy_jump {
        Some(jump) => {
            law_hops_follow_the_jump_hosts(*jump, hop);
        },
        None => {},
    }
}

/// A label changes the label of a host and nothing else. The host has a jump host
/// exactly if it had one before.
pub proof fn law_label_changes_nothing_else(config: SshConfig, owner_window_label: Option<String>)
    ensures
        ({
            let after = labelled(config, owner_window_label);
            &&& after.owner_window_label == owner_window_label
            &&& after.connection_id == config.connection_id
            &&& after.name == config.name
            &&& after.host == config.host
            &&& after.port == config.port
            &&& after.username == config.username
            &&& after.auth == config.auth
            &&& after.backspace_mode == config.backspace_mode
            &&& after.x11_forwarding == config.x11_forwarding
            &&& after.x11_display == config.x11_display
            &&& after.agent_endpoint == config.agent_endpoint
            &&& after.agent_forwarding == config.agent_forwarding
            &&& after.proxy == config.proxy
            &&& after.post_login == config.post_login
            &&& after.ssh_algorithms == config.ssh_algorithms
            &&& after.ssh_profile == config.ssh_profile
            &&& after.terminal_type == config.terminal_type
            &&& after.sftp == config.sftp
            &&& after.encoding == config.encoding
            &&& after.proxy_jump is Some <==> config.proxy_jump is Some
        }),
{
}

} // verus!
