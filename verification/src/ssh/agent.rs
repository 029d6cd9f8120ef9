//! Which local SSH agent to connect to, and what to report if there is none.
//!
//! Authentication and forwarding each connect to the agent anew, so that no two
//! SSH channels share a stream.

use crate::error::{AppError, AppErrorModel, AppResult};
use crate::progress::Progress;
use crate::ssh::config::SshAgentEndpoint;
use crate::text;
use crate::text::{join, join3};
use vstd::prelude::*;
use vstd::string::*;

verus! {

/// How long a connection to an agent may take, in seconds.
pub const AGENT_CONNECT_TIMEOUT_SECS: u64 = 3;

/// The pipe of the agent of OpenSSH for Windows.
pub const WINDOWS_OPENSSH_AGENT_PIPE: &'static str = "\\\\.\\pipe\\openssh-ssh-agent";

/// The variable that names the socket of the usual agent.
pub const AUTH_SOCK_VARIABLE: &'static str = "SSH_AUTH_SOCK";

/// The kind of system that the program runs on.
#[derive(Debug, Clone, Copy, PartialEq, Eq, Structural)]
pub enum Platform {
    Unix,
    Windows,
    Other,
}

/// What a run asks its driver to do.
#[derive(Debug)]
pub enum AgentAction<'a> {
    /// See whether an environment variable is set.
    LookUp { variable: &'a str },
    /// Connect to the socket whose path is the value of a variable.
    ConnectVariable { variable: &'a str },
    /// Connect to the socket at a path.
    ConnectSocket { path: &'a str },
    /// Connect to the pipe of the agent of OpenSSH for Windows.
    ConnectPipe { pipe: &'a str },
    /// Connect to Pageant.
    ConnectPageant,
}

/// What a driver answers.
#[derive(Debug)]
pub enum AgentReply {
    /// Answer to `LookUp`.
    Variable { set: bool },
    /// Answer to a connection: the stream is there.
    Connected,
    /// Answer to a connection: it took too long.
    TimedOut,
    /// Answer to a connection: it failed, for the reason given.
    Failed { reason: String },
}

/// Mathematical value of an [`AgentAction`].
pub enum AgentActionModel {
    LookUp { variable: Seq<char> },
    ConnectVariable { variable: Seq<char> },
    ConnectSocket { path: Seq<char> },
    ConnectPipe { pipe: Seq<char> },
    ConnectPageant,
}

impl<'a> View for AgentAction<'a> {
    type V = AgentActionModel;

    open spec fn view(&self) -> AgentActionModel {
        match *self {
            AgentAction::LookUp { variable } => AgentActionModel::LookUp { variable: variable@ },
            AgentAction::ConnectVariable { variable } => AgentActionModel::ConnectVariable {
                variable: variable@,
            },
            AgentAction::ConnectSocket { path } => AgentActionModel::ConnectSocket { path: path@ },
            AgentAction::ConnectPipe { pipe } => AgentActionModel::ConnectPipe { pipe: pipe@ },
            AgentAction::ConnectPageant => AgentActionModel::ConnectPageant,
        }
    }
}

/// The connection to an agent. The outcome is the stream of the last action.
#[derive(Debug)]
pub enum AgentRun {
    /// `automatic` tells that the user has not chosen the variable.
    LookingUp { variable: String, automatic: bool },
    ConnectingVariable { variable: String },
    ConnectingSocket { path: String },
    /// `automatic` tells that Pageant is tried next.
    ConnectingPipe { automatic: bool },
    /// `pipe_error` is why the pipe was not connected to, where it was tried.
    ConnectingPageant { pipe_error: Option<String> },
}

/// Mathematical value of an [`AgentRun`].
pub enum AgentModel {
    LookingUp { variable: Seq<char>, automatic: bool },
    ConnectingVariable { variable: Seq<char> },
    ConnectingSocket { path: Seq<char> },
    ConnectingPipe { automatic: bool },
    ConnectingPageant { pipe_error: Option<Seq<char>> },
}

impl View for AgentRun {
    type V = AgentModel;

    open spec fn view(&self) -> AgentModel {
        match *self {
            AgentRun::LookingUp { variable, automatic } => AgentModel::LookingUp {
                variable: variable@,
                automatic,
            },
            AgentRun::ConnectingVariable { variable } => AgentModel::ConnectingVariable {
                variable: variable@,
            },
            AgentRun::ConnectingSocket { path } => AgentModel::ConnectingSocket { path: path@ },
            AgentRun::ConnectingPipe { automatic } => AgentModel::ConnectingPipe { automatic },
            AgentRun::ConnectingPageant { pipe_error } => AgentModel::ConnectingPageant {
                pipe_error: pipe_error.deep_view(),
            },
        }
    }
}

// Names of environment variables.

/// The name of a variable as it was meant: without the white space around it,
/// without the dollar signs before it, and without the white space that then
/// stands around it.
pub open spec fn variable_name(value: Seq<char>) -> Seq<char> {
    text::trimmed(text::without_dollars(text::trimmed(value)))
}

/// The name of a variable as it was meant, or an error if nothing is left.
pub fn normalize_environment_variable(value: &str) -> (r: AppResult<&str>)
    ensures
        match r {
            Ok(variable) => variable@ == variable_name(value@) && variable_name(value@).len() > 0,
            Err(error) => variable_name(value@).len() == 0 && error@ == AppErrorModel::Config(
                "SSH Agent environment variable must not be empty"@,
            ),
        },
{
    let variable = text::trim(text::trim_start_dollars(text::trim(value)));
    if variable.is_empty() {
        return Err(
            AppError::Config("SSH Agent environment variable must not be empty".to_owned()),
        );
    }
    Ok(variable)
}

/// A variable that is looked up has a name, and no white space around it.
pub proof fn law_variable_name_is_trimmed(value: Seq<char>)
    ensures
        variable_name(value).len() > 0 ==> !text::white_space(variable_name(value)[0])
            && !text::white_space(variable_name(value).last()),
{
    text::lemma_trimmed_ends(text::without_dollars(text::trimmed(value)));
}

// Where to connect to.

/// The first thing to do to connect to an agent, or why it cannot be connected
/// to on this platform.
pub open spec fn agent_start(platform: Platform, endpoint: SshAgentEndpoint) -> Result<
    AgentModel,
    AppErrorModel,
> {
    match (endpoint, platform) {
        (SshAgentEndpoint::Auto, Platform::Unix) => Ok(
            AgentModel::LookingUp { variable: AUTH_SOCK_VARIABLE@, automatic: true },
        ),
        (SshAgentEndpoint::Auto, Platform::Windows) => Ok(
            AgentModel::ConnectingPipe { automatic: true },
        ),
        (SshAgentEndpoint::Auto, Platform::Other) => Err(
            AppErrorModel::Config("SSH Agent is not supported on this platform"@),
        ),
        (SshAgentEndpoint::Environment { variable }, Platform::Unix) => if variable_name(
            variable@,
        ).len() == 0 {
            Err(AppErrorModel::Config("SSH Agent environment variable must not be empty"@))
        } else {
            Ok(AgentModel::LookingUp { variable: variable_name(variable@), automatic: false })
        },
        (SshAgentEndpoint::Environment { .. }, _) => Err(
            AppErrorModel::Config(
                "Environment variable SSH Agent is only supported on macOS and Linux"@,
            ),
        ),
        (SshAgentEndpoint::UnixSocket { path }, Platform::Unix) => if text::trimmed(path@).len()
            == 0 {
            Err(AppErrorModel::Config("SSH Agent Unix socket path must not be empty"@))
        } else {
            Ok(AgentModel::ConnectingSocket { path: path@ })
        },
        (SshAgentEndpoint::UnixSocket { .. }, _) => Err(
            AppErrorModel::Config("Unix socket SSH Agent is only supported on macOS and Linux"@),
        ),
        (SshAgentEndpoint::Pageant, Platform::Windows) => Ok(
            AgentModel::ConnectingPageant { pipe_error: None },
        ),
        (SshAgentEndpoint::Pageant, _) => Err(
            AppErrorModel::Config("Pageant SSH Agent is only supported on Windows"@),
        ),
        (SshAgentEndpoint::WindowsOpenSsh, Platform::Windows) => Ok(
            AgentModel::ConnectingPipe { automatic: false },
        ),
        (SshAgentEndpoint::WindowsOpenSsh, _) => Err(
            AppErrorModel::Config("Windows OpenSSH Agent is only supported on Windows"@),
        ),
    }
}

/// The value of a connection that was started, or of the error instead of it.
pub open spec fn agent_started(result: AppResult<AgentRun>) -> Result<AgentModel, AppErrorModel> {
    match result {
        Ok(run) => Ok(run@),
        Err(error) => Err(error@),
    }
}

/// Starts to connect to the usual agent of the platform.
fn connect_auto(platform: Platform) -> (r: AppResult<AgentRun>)
    ensures
        agent_started(r) == agent_start(platform, SshAgentEndpoint::Auto),
{
    match platform {
        Platform::Unix => Ok(
            AgentRun::LookingUp { variable: AUTH_SOCK_VARIABLE.to_owned(), automatic: true },
        ),
        Platform::Windows => Ok(AgentRun::ConnectingPipe { automatic: true }),
        Platform::Other => Err(
            AppError::Config("SSH Agent is not supported on this platform".to_owned()),
        ),
    }
}

/// Starts to connect to the agent at `endpoint`.
pub fn connect_agent_stream(platform: Platform, endpoint: &SshAgentEndpoint) -> (r: AppResult<
    AgentRun,
>)
    ensures
        agent_started(r) == agent_start(platform, *endpoint),
{
    match endpoint {
        SshAgentEndpoint::Auto => connect_auto(platform),
        SshAgentEndpoint::Environment { variable } => {
            if platform == Platform::Unix {
                match normalize_environment_variable(variable.as_str()) {
                    Ok(name) => Ok(
                        AgentRun::LookingUp { variable: name.to_owned(), automatic: false },
                    ),
                    Err(error) => Err(error),
                }
            } else {
                Err(
                    AppError::Config(
                        "Environment variable SSH Agent is only supported on macOS and Linux".to_owned(),
                    ),
                )
            }
        },
        SshAgentEndpoint::UnixSocket { path } => {
            if platform == Platform::Unix {
                if text::trim(path.as_str()).is_empty() {
                    Err(AppError::Config("SSH Agent Unix socket path must not be empty".to_owned()))
                } else {
                    Ok(AgentRun::ConnectingSocket { path: path.clone() })
                }
            } else {
                Err(
                    AppError::Config(
                        "Unix socket SSH Agent is only supported on macOS and Linux".to_owned(),
                    ),
                )
            }
        },
        SshAgentEndpoint::Pageant => {
            if platform == Platform::Windows {
                Ok(AgentRun::ConnectingPageant { pipe_error: None })
            } else {
                Err(AppError::Config("Pageant SSH Agent is only supported on Windows".to_owned()))
            }
        },
        SshAgentEndpoint::WindowsOpenSsh => {
            if platform == Platform::Windows {
                Ok(AgentRun::ConnectingPipe { automatic: false })
            } else {
                Err(
                    AppError::Config(
                        "Windows OpenSSH Agent is only supported on Windows".to_owned(),
                    ),
                )
            }
        },
    }
}

// What the answers mean.

/// Why a variable leads to no agent.
pub open spec fn unset_error(variable: Seq<char>, automatic: bool) -> AppErrorModel {
    if automatic {
        AppErrorModel::Auth("SSH_AUTH_SOCK is not set; no SSH Agent is available"@)
    } else {
        AppErrorModel::Auth("SSH Agent environment variable '"@ + variable + "' is not set"@)
    }
}

/// Why a connection was not made, if a reply says that it was not. `who` is what
/// was connected to.
pub open spec fn connection_error(who: Seq<char>, reply: AgentReply) -> Option<Seq<char>> {
    match reply {
        AgentReply::TimedOut => Some(who + " connection timed out"@),
        AgentReply::Failed { reason } => Some(who + " connection failed: "@ + reason@),
        _ => None,
    }
}

/// Why neither of the two agents on Windows was connected to.
pub open spec fn both_unavailable(pipe_error: Seq<char>, pageant_error: Seq<char>) -> Seq<char> {
    "Windows SSH Agent is unavailable (OpenSSH: "@ + pipe_error + "; Pageant: "@ + pageant_error
        + ")"@
}

impl AgentModel {
    /// The action that the run waits for.
    pub open spec fn action(self) -> AgentActionModel {
        match self {
            AgentModel::LookingUp { variable, .. } => AgentActionModel::LookUp { variable },
            AgentModel::ConnectingVariable { variable } => AgentActionModel::ConnectVariable {
                variable,
            },
            AgentModel::ConnectingSocket { path } => AgentActionModel::ConnectSocket { path },
            AgentModel::ConnectingPipe { .. } => AgentActionModel::ConnectPipe {
                pipe: WINDOWS_OPENSSH_AGENT_PIPE@,
            },
            AgentModel::ConnectingPageant { .. } => AgentActionModel::ConnectPageant,
        }
    }

    /// What is connected to, as errors call it.
    pub open spec fn name(self) -> Seq<char> {
        match self {
            AgentModel::ConnectingPipe { .. } => "Windows OpenSSH Agent"@,
            AgentModel::ConnectingPageant { .. } => "Pageant"@,
            _ => "SSH Agent"@,
        }
    }

    /// What a reply makes of the run. A reply that does not answer the action
    /// changes nothing.
    pub open spec fn step(self, reply: AgentReply) -> Progress<
        AgentModel,
        Result<(), AppErrorModel>,
    > {
        match self {
            AgentModel::LookingUp { variable, automatic } => match reply {
                AgentReply::Variable { set } => if set {
                    Progress::Pending(AgentModel::ConnectingVariable { variable })
                } else {
                    Progress::Done(Err(unset_error(variable, automatic)))
                },
                _ => Progress::Pending(self),
            },
            _ => match (reply, connection_error(self.name(), reply)) {
                (AgentReply::Connected, _) => Progress::Done(Ok(())),
                (_, None) => Progress::Pending(self),
                (_, Some(error)) => match self {
                    AgentModel::ConnectingPipe { automatic: true } => Progress::Pending(
                        AgentModel::ConnectingPageant { pipe_error: Some(error) },
                    ),
                    AgentModel::ConnectingPageant { pipe_error: Some(pipe_error) } =>
                        Progress::Done(
                            Err(AppErrorModel::Auth(both_unavailable(pipe_error, error))),
                        ),
                    _ => Progress::Done(Err(AppErrorModel::Auth(error))),
                },
            },
        }
    }
}

fn connection_failure(who: &str, reply: &AgentReply) -> (r: Option<String>)
    ensures
        r.deep_view() == connection_error(who@, *reply),
{
    match reply {
        AgentReply::TimedOut => Some(join(who, " connection timed out")),
        AgentReply::Failed { reason } => Some(
            join3(who, " connection failed: ", reason.as_str()),
        ),
        _ => None,
    }
}

impl AgentRun {
    /// The action that the run waits for.
    pub fn action<'a>(&'a self) -> (r: AgentAction<'a>)
        ensures
            r@ == self@.action(),
    {
        match self {
            AgentRun::LookingUp { variable, .. } => AgentAction::LookUp {
                variable: variable.as_str(),
            },
            AgentRun::ConnectingVariable { variable } => AgentAction::ConnectVariable {
                variable: variable.as_str(),
            },
            AgentRun::ConnectingSocket { path } => AgentAction::ConnectSocket {
                path: path.as_str(),
            },
            AgentRun::ConnectingPipe { .. } => AgentAction::ConnectPipe {
                pipe: WINDOWS_OPENSSH_AGENT_PIPE,
            },
            AgentRun::ConnectingPageant { .. } => AgentAction::ConnectPageant,
        }
    }

    /// What the reply makes of the run.
    pub fn step(self, reply: AgentReply) -> (r: Progress<AgentRun, AppResult<()>>)
        ensures
            r@ == self@.step(reply),
    {
        let who = match &self {
            AgentRun::LookingUp { .. } => {
                return self.step_looking_up(reply);
            },
            AgentRun::ConnectingPipe { .. } => "Windows OpenSSH Agent",
            AgentRun::ConnectingPageant { .. } => "Pageant",
            _ => "SSH Agent",
        };
        let connected = match &reply {
            AgentReply::Connected => true,
            _ => false,
        };
        if connected {
            return Progress::Done(Ok(()));
        }
        let error = match connection_failure(who, &reply) {
            Some(error) => error,
            None => {
                return Progress::Pending(self);
            },
        };
        match self {
            AgentRun::ConnectingPipe { automatic: true } => Progress::Pending(
                AgentRun::ConnectingPageant { pipe_error: Some(error) },
            ),
            AgentRun::ConnectingPageant { pipe_error: Some(pipe_error) } => {
                let message = join3(
                    "Windows SSH Agent is unavailable (OpenSSH: ",
                    pipe_error.as_str(),
                    "; Pageant: ",
                ).concat(error.as_str()).concat(")");
                Progress::Done(Err(AppError::Auth(message)))
            },
            _ => Progress::Done(Err(AppError::Auth(error))),
        }
    }

    fn step_looking_up(self, reply: AgentReply) -> (r: Progress<AgentRun, AppResult<()>>)
        requires
            self is LookingUp,
        ensures
            r@ == self@.step(reply),
    {
        match (self, reply) {
            (AgentRun::LookingUp { variable, automatic }, AgentReply::Variable { set }) => {
                if set {
                    Progress::Pending(AgentRun::ConnectingVariable { variable })
                } else if automatic {
                    Progress::Done(
                        Err(
                            AppError::Auth(
                                "SSH_AUTH_SOCK is not set; no SSH Agent is available".to_owned(),
                            ),
                        ),
                    )
                } else {
                    Progress::Done(
                        Err(
                            AppError::Auth(
                                join3(
                                    "SSH Agent environment variable '",
                                    variable.as_str(),
                                    "' is not set",
                                ),
                            ),
                        ),
                    )
                }
            },
            (run, _) => Progress::Pending(run),
        }
    }
}

// Laws.

/// Whether a run uses what only one platform has.
pub open spec fn runs_on(run: AgentModel, platform: Platform) -> bool {
    match run {
        AgentModel::ConnectingPipe { .. } | AgentModel::ConnectingPageant { .. } => platform
            == Platform::Windows,
        _ => platform == Platform::Unix,
    }
}

/// Sockets and variables are used on Unix only, the pipe and Pageant on Windows
/// only, and nothing on any other platform.
pub proof fn law_agent_stays_on_its_platform(
    platform: Platform,
    endpoint: SshAgentEndpoint,
    run: AgentModel,
    reply: AgentReply,
)
    ensures
        agent_start(platform, endpoint) matches Ok(first) ==> runs_on(first, platform),
        runs_on(run, platform) ==> (run.step(reply) matches Progress::Pending(next) ==> runs_on(
            next,
            platform,
        )),
        !runs_on(run, Platform::Other),
{
}

/// An agent that was chosen and is not there is not replaced by another one:
/// only the automatic choice on Windows goes on to Pageant.
pub proof fn law_only_automatic_choice_falls_back(run: AgentModel, reply: AgentReply)
    ensures
        run.step(reply) matches Progress::Pending(next) ==> next == run || (run is LookingUp
            && next is ConnectingVariable) || ((run matches AgentModel::ConnectingPipe {
            automatic,
        } && automatic) && next is ConnectingPageant),
{
}

/// On Windows the automatic choice fails only after both agents have failed, and
/// says why each of them did.
pub proof fn law_windows_automatic_choice_tries_both(first: AgentReply, second: AgentReply)
    requires
        first is TimedOut || first is Failed,
        second is TimedOut || second is Failed,
    ensures
        agent_start(Platform::Windows, SshAgentEndpoint::Auto) matches Ok(pipe) && pipe.step(
            first,
        ) matches Progress::Pending(pageant) && pageant.action()
            == AgentActionModel::ConnectPageant && pageant.step(second) == Progress::<
            AgentModel,
            _,
        >::Done(
            Err::<(), _>(
                AppErrorModel::Auth(
                    both_unavailable(
                        connection_error("Windows OpenSSH Agent"@, first)->0,
                        connection_error("Pageant"@, second)->0,
                    ),
                ),
            ),
        ),
{
}

/// A connection that is made ends the search for an agent.
pub proof fn law_connected_agent_is_used(run: AgentModel)
    requires
        !(run is LookingUp),
    ensures
        run.step(AgentReply::Connected) == Progress::<AgentModel, Result<(), AppErrorModel>>::Done(
            Ok(()),
        ),
{
}

/// The name of a variable is what the value holds between white space, dollar
/// signs and white space on its left, and white space on its right. It has no
/// white space at its ends. It is empty exactly if the value holds nothing else.
/// The places between the parts are returned.
pub proof fn law_variable_name_is_the_text_within(value: Seq<char>) -> (ends: (int, int, int, int))
    ensures
        0 <= ends.0 <= ends.1 <= ends.2 <= ends.3 <= value.len(),
        forall|k: int| 0 <= k < ends.0 ==> text::white_space(#[trigger] value[k]),
        forall|k: int| ends.0 <= k < ends.1 ==> #[trigger] value[k] == '$',
        forall|k: int| ends.1 <= k < ends.2 ==> text::white_space(#[trigger] value[k]),
        forall|k: int| ends.3 <= k < value.len() ==> text::white_space(#[trigger] value[k]),
        variable_name(value) == value.subrange(ends.2, ends.3),
        ends.2 < ends.3 ==> value[ends.1] != '$' && !text::white_space(value[ends.2])
            && !text::white_space(value[ends.3 - 1]),
{
    let (a, e) = text::law_trimmed_is_the_text_within(value);
    let outer = text::trimmed(value);
    let dollars = text::law_dollars_are_dropped_at_the_start(outer);
    let inner = outer.skip(dollars);
    let (i, j) = text::law_trimmed_is_the_text_within(inner);
    assert forall|k: int| a <= k < a + dollars implies #[trigger] value[k] == '$' by {
        assert(outer[k - a] == value[k]);
    }
    assert forall|k: int| a + dollars <= k < a + dollars + i implies text::white_space(
        #[trigger] value[k],
    ) by {
        assert(inner[k - a - dollars] == value[k]);
    }
    assert forall|k: int| a + dollars + j <= k < value.len() implies text::white_space(
        #[trigger] value[k],
    ) by {
        if k < e {
            assert(inner[k - a - dollars] == value[k]);
        }
    }
    assert(inner.subrange(i, j) == value.subrange(a + dollars + i, a + dollars + j));
    if i < j {
        assert(outer[dollars] == value[a + dollars]);
        assert(inner[i] == value[a + dollars + i]);
        assert(inner[j - 1] == value[a + dollars + j - 1]);
    }
    (a, a + dollars, a + dollars + i, a + dollars + j)
}

/// What is asked for first. The usual agent of Unix is found by the usual
/// variable, a chosen variable by its name, a chosen socket by its path. The usual
/// agent of Windows is that of OpenSSH, and a chosen agent of Windows is asked for
/// itself. Everything else is refused, and the error says why.
pub proof fn law_agent_is_the_chosen_one(platform: Platform, endpoint: SshAgentEndpoint)
    ensures
        match endpoint {
            SshAgentEndpoint::Auto => match platform {
                Platform::Unix => agent_start(platform, endpoint) matches Ok(run) && run.action()
                    matches AgentActionModel::LookUp { variable } && variable == "SSH_AUTH_SOCK"@,
                Platform::Windows => agent_start(platform, endpoint) matches Ok(run) && run.action()
                    matches AgentActionModel::ConnectPipe { pipe } && pipe
                    == "\\\\.\\pipe\\openssh-ssh-agent"@,
                Platform::Other => agent_start(platform, endpoint) matches Err(
                    AppErrorModel::Config(text),
                ) && text == "SSH Agent is not supported on this platform"@,
            },
            SshAgentEndpoint::Environment { variable: value } => if platform != Platform::Unix {
                agent_start(platform, endpoint) matches Err(AppErrorModel::Config(text)) && text
                    == "Environment variable SSH Agent is only supported on macOS and Linux"@
            } else if variable_name(value@).len() == 0 {
                agent_start(platform, endpoint) matches Err(AppErrorModel::Config(text)) && text
                    == "SSH Agent environment variable must not be empty"@
            } else {
                agent_start(platform, endpoint) matches Ok(run) && run.action() matches
                    AgentActionModel::LookUp { variable } && variable == variable_name(value@)
            },
            SshAgentEndpoint::UnixSocket { path: value } => if platform != Platform::Unix {
                agent_start(platform, endpoint) matches Err(AppErrorModel::Config(text)) && text
                    == "Unix socket SSH Agent is only supported on macOS and Linux"@
            } else if text::trimmed(value@).len() == 0 {
                agent_start(platform, endpoint) matches Err(AppErrorModel::Config(text)) && text
                    == "SSH Agent Unix socket path must not be empty"@
            } else {
                agent_start(platform, endpoint) matches Ok(run) && run.action() matches
                    AgentActionModel::ConnectSocket { path } && path == value@
            },
            SshAgentEndpoint::Pageant => if platform != Platform::Windows {
                agent_start(platform, endpoint) matches Err(AppErrorModel::Config(text)) && text
                    == "Pageant SSH Agent is only supported on Windows"@
            } else {
                agent_start(platform, endpoint) matches Ok(run) && run.action()
                    is ConnectPageant
            },
            SshAgentEndpoint::WindowsOpenSsh => if platform != Platform::Windows {
                agent_start(platform, endpoint) matches Err(AppErrorModel::Config(text)) && text
                    == "Windows OpenSSH Agent is only supported on Windows"@
            } else {
                agent_start(platform, endpoint) matches Ok(run) && run.action() matches
                    AgentActionModel::ConnectPipe { pipe } && pipe
                    == "\\\\.\\pipe\\openssh-ssh-agent"@
            },
        },
{
}

/// The variable that is connected through is the one that was looked up, if it is
/// set. For a chosen variable this is its name. If it is not set, the error says
/// so, and names a chosen variable.
pub proof fn law_agent_variable_is_the_one_looked_up(
    run: AgentModel,
    reply: AgentReply,
    endpoint: SshAgentEndpoint,
)
    ensures
        run.action() matches AgentActionModel::LookUp { variable } ==> match reply {
            AgentReply::Variable { set } => if set {
                run.step(reply) matches Progress::Pending(next) && next.action() matches
                    AgentActionModel::ConnectVariable { variable: connected } && connected
                    == variable
            } else {
                run.step(reply) matches Progress::Done(Err(AppErrorModel::Auth(_)))
            },
            _ => run.step(reply) matches Progress::Pending(next) && next == run,
        },
        endpoint is Auto ==> (agent_start(Platform::Unix, endpoint) matches Ok(first) && first.step(
            AgentReply::Variable { set: false },
        ) matches Progress::Done(Err(AppErrorModel::Auth(text))) && text
            == "SSH_AUTH_SOCK is not set; no SSH Agent is available"@),
        endpoint matches SshAgentEndpoint::Environment { variable } ==> variable_name(variable@).len()
            > 0 ==> (agent_start(Platform::Unix, endpoint) matches Ok(first) && (first.step(
            AgentReply::Variable { set: false },
        ) matches Progress::Done(Err(AppErrorModel::Auth(text))) && text
            == "SSH Agent environment variable '"@ + variable_name(variable@) + "' is not set"@) && (
        first.step(AgentReply::Variable { set: true }) matches Progress::Pending(second)
            && second.action() matches AgentActionModel::ConnectVariable { variable: connected }
            && connected == variable_name(variable@))),
{
}

/// What comes of a connection to a socket, named by a variable or by its path: it
/// is the outcome, or the error says that it took too long or why it failed. No
/// other reply changes anything.
pub proof fn law_agent_socket_is_connected_to_or_not(run: AgentModel, reply: AgentReply)
    requires
        run.action() is ConnectVariable || run.action() is ConnectSocket,
    ensures
        match reply {
            AgentReply::Connected => run.step(reply) matches Progress::Done(Ok(_)),
            AgentReply::TimedOut => run.step(reply) matches Progress::Done(
                Err(AppErrorModel::Auth(text)),
            ) && text == "SSH Agent connection timed out"@,
            AgentReply::Failed { reason } => run.step(reply) matches Progress::Done(
                Err(AppErrorModel::Auth(text)),
            ) && text == "SSH Agent connection failed: "@ + reason@,
            AgentReply::Variable { .. } => run.step(reply) matches Progress::Pending(next) && next
                == run,
        },
{
    reveal_strlit("SSH Agent");
    reveal_strlit(" connection timed out");
    reveal_strlit(" connection failed: ");
    reveal_strlit("SSH Agent connection timed out");
    reveal_strlit("SSH Agent connection failed: ");
    assert("SSH Agent"@ + " connection timed out"@ =~= "SSH Agent connection timed out"@);
    assert("SSH Agent"@ + " connection failed: "@ =~= "SSH Agent connection failed: "@);
}

/// What comes of an agent of Windows that the user chose: it is the outcome, or
/// the error says that it took too long or why it failed. Nothing else is tried.
pub proof fn law_chosen_windows_agent_is_connected_to_or_not(
    endpoint: SshAgentEndpoint,
    reply: AgentReply,
)
    requires
        endpoint is WindowsOpenSsh || endpoint is Pageant,
    ensures
        agent_start(Platform::Windows, endpoint) matches Ok(run) && (match reply {
            AgentReply::Connected => run.step(reply) matches Progress::Done(Ok(_)),
            AgentReply::TimedOut => run.step(reply) matches Progress::Done(
                Err(AppErrorModel::Auth(text)),
            ) && text == if endpoint is Pageant {
                "Pageant connection timed out"@
            } else {
                "Windows OpenSSH Agent connection timed out"@
            },
            AgentReply::Failed { reason } => run.step(reply) matches Progress::Done(
                Err(AppErrorModel::Auth(text)),
            ) && text == if endpoint is Pageant {
                "Pageant connection failed: "@ + reason@
            } else {
                "Windows OpenSSH Agent connection failed: "@ + reason@
            },
            AgentReply::Variable { .. } => run.step(reply) matches Progress::Pending(next) && next
                == run,
        }),
{
    lemma_windows_texts();
}

/// The errors of the agents of Windows, in one piece.
proof fn lemma_windows_texts()
    ensures
        "Pageant"@ + " connection timed out"@ == "Pageant connection timed out"@,
        "Pageant"@ + " connection failed: "@ == "Pageant connection failed: "@,
        "Windows OpenSSH Agent"@ + " connection timed out"@
            == "Windows OpenSSH Agent connection timed out"@,
        "Windows OpenSSH Agent"@ + " connection failed: "@
            == "Windows OpenSSH Agent connection failed: "@,
{
    reveal_strlit("Pageant");
    reveal_strlit("Windows OpenSSH Agent");
    reveal_strlit(" connection timed out");
    reveal_strlit(" connection failed: ");
    reveal_strlit("Pageant connection timed out");
    reveal_strlit("Pageant connection failed: ");
    reveal_strlit("Windows OpenSSH Agent connection timed out");
    reveal_strlit("Windows OpenSSH Agent connection failed: ");
    assert("Pageant"@ + " connection timed out"@ =~= "Pageant connection timed out"@);
    assert("Pageant"@ + " connection failed: "@ =~= "Pageant connection failed: "@);
    assert("Windows OpenSSH Agent"@ + " connection timed out"@
        =~= "Windows OpenSSH Agent connection timed out"@);
    assert("Windows OpenSSH Agent"@ + " connection failed: "@
        =~= "Windows OpenSSH Agent connection failed: "@);
}

/// What comes of the usual agent of Windows. If that of OpenSSH is connected to,
/// it is the outcome. If it is not, Pageant is tried, and if that is not connected
/// to either, the error gives both reasons. No other reply changes anything.
pub proof fn law_usual_windows_agent_is_either(first: AgentReply, second: AgentReply)
    ensures
        agent_start(Platform::Windows, SshAgentEndpoint::Auto) matches Ok(pipe) && (match first {
            AgentReply::Connected => pipe.step(first) matches Progress::Done(Ok(_)),
            AgentReply::Variable { .. } => pipe.step(first) matches Progress::Pending(next) && next
                == pipe,
            _ => pipe.step(first) matches Progress::Pending(pageant) && pageant.action()
                is ConnectPageant && (match second {
                AgentReply::Connected => pageant.step(second) matches Progress::Done(Ok(_)),
                AgentReply::Variable { .. } => pageant.step(second) matches Progress::Pending(next)
                    && next == pageant,
                _ => pageant.step(second) matches Progress::Done(Err(AppErrorModel::Auth(text)))
                    && text == "Windows SSH Agent is unavailable (OpenSSH: "@ + (match first {
                    AgentReply::Failed { reason } => "Windows OpenSSH Agent connection failed: "@
                        + reason@,
                    _ => "Windows OpenSSH Agent connection timed out"@,
                }) + "; Pageant: "@ + (match second {
                    AgentReply::Failed { reason } => "Pageant connection failed: "@ + reason@,
                    _ => "Pageant connection timed out"@,
                }) + ")"@,
            }),
        }),
{
    lemma_windows_texts();
}

/// The value of an action says what is to be done, and to what.
pub proof fn law_agent_action_is_its_value<'a>(action: AgentAction<'a>)
    ensures
        match action {
            AgentAction::LookUp { variable } => action@ matches AgentActionModel::LookUp {
                variable: value,
            } && value == variable@,
            AgentAction::ConnectVariable { variable } => action@ matches
                AgentActionModel::ConnectVariable { variable: value } && value == variable@,
            AgentAction::ConnectSocket { path } => action@ matches AgentActionModel::ConnectSocket {
                path: value,
            } && value == path@,
            AgentAction::ConnectPipe { pipe } => action@ matches AgentActionModel::ConnectPipe {
                pipe: value,
            } && value == pipe@,
            AgentAction::ConnectPageant => action@ is ConnectPageant,
        },
{
}

/// The value of what was started says whether it was, and has the value of the run
/// or of the error.
pub proof fn law_agent_started_is_its_value(result: AppResult<AgentRun>)
    ensures
        match result {
            Ok(run) => agent_started(result) matches Ok(value) && value == run@,
            Err(error) => agent_started(result) matches Err(value) && value == error@,
        },
{
}

} // verus!
