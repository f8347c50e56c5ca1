//! Sessions to target servers: what a request needs opened, and the answers and
//! errors of a session that cannot be.

use std::collections::BTreeMap;
use vstd::prelude::*;
use vstd::string::StringExecFns;
use crate::command::{
    command_error_text, invocation, parse_command, shell_split, CommandError,
};
use crate::text::{blank, decimal, is_blank, push_decimal};
use crate::types::{
    clone_opt_table, clone_texts, opt_table, HttpTarget, HttpTargetView, ProbeRequest,
    ProbeResult, ProbeResultView, SseTarget, SseTargetView, TargetTransportKind,
};

verus! {

/// Milliseconds that a handshake may take where the request names no limit.
pub const DEFAULT_HANDSHAKE_TIMEOUT_MS: u64 = 15_000;

/// Milliseconds that one poll of the progress stream may take once the response is
/// there.
pub const STREAM_GRACE_MS: u64 = 25;

impl TargetTransportKind {
    /// The wire name of the transport.
    pub open spec fn name(self) -> Seq<char> {
        match self {
            TargetTransportKind::Stdio => "stdio"@,
            TargetTransportKind::Sse => "sse"@,
            TargetTransportKind::Http => "http"@,
        }
    }

    /// The wire name of the transport.
    pub fn as_str(&self) -> (name: &'static str)
        ensures
            name@ == self.name(),
    {
        match self {
            TargetTransportKind::Stdio => "stdio",
            TargetTransportKind::Sse => "sse",
            TargetTransportKind::Http => "http",
        }
    }

    /// What a transport error is wrapped in.
    pub open spec fn failure_context(self) -> Seq<char> {
        match self {
            TargetTransportKind::Stdio => "spawn stdio target"@,
            TargetTransportKind::Sse => "connect sse target"@,
            TargetTransportKind::Http => "connect http target"@,
        }
    }

    /// What a transport error is wrapped in.
    pub fn context(&self) -> (text: &'static str)
        ensures
            text@ == self.failure_context(),
    {
        match self {
            TargetTransportKind::Stdio => "spawn stdio target",
            TargetTransportKind::Sse => "connect sse target",
            TargetTransportKind::Http => "connect http target",
        }
    }
}

/// The transport that a request asks for: standard streams where it names none.
pub open spec fn chosen_transport(transport: Option<TargetTransportKind>) -> TargetTransportKind {
    match transport {
        Some(kind) => kind,
        None => TargetTransportKind::Stdio,
    }
}

/// The handshake limit of a request: fifteen seconds where it names none.
pub open spec fn handshake_limit(requested: Option<u64>) -> u64 {
    match requested {
        Some(millis) => millis,
        None => DEFAULT_HANDSHAKE_TIMEOUT_MS,
    }
}

/// The handshake limit of a request in milliseconds.
pub fn handshake_timeout_ms(requested: Option<u64>) -> (millis: u64)
    ensures
        millis == handshake_limit(requested),
{
    match requested {
        Some(millis) => millis,
        None => DEFAULT_HANDSHAKE_TIMEOUT_MS,
    }
}

/// The error of a probe whose handshake took longer than `millis`.
pub open spec fn probe_timeout_text(kind: TargetTransportKind, millis: u64) -> Seq<char> {
    kind.name() + " handshake timed out after "@ + decimal(millis as nat) + " ms"@
}

/// Writes the error of a probe whose handshake took too long.
pub fn probe_timeout_message(kind: TargetTransportKind, millis: u64) -> (text: String)
    ensures
        text@ == probe_timeout_text(kind, millis),
{
    let mut text = String::from_str(kind.as_str());
    text.append(" handshake timed out after ");
    push_decimal(&mut text, millis as u128);
    text.append(" ms");
    text
}

/// The error of a listing or a call whose handshake took too long.
pub open spec fn session_timeout_text(kind: TargetTransportKind) -> Seq<char> {
    kind.name() + " handshake timed out"@
}

/// Writes the error of a listing or a call whose handshake took too long.
pub fn session_timeout_message(kind: TargetTransportKind) -> (text: String)
    ensures
        text@ == session_timeout_text(kind),
{
    let mut text = String::from_str(kind.as_str());
    text.append(" handshake timed out");
    text
}

/// Why no session can be opened for a request.
#[derive(Debug, Clone, Copy, PartialEq, Eq, Structural)]
pub enum SessionError {
    /// The command is blank.
    BlankCommand,
    /// Arguments came without a command.
    ArgumentsWithoutCommand,
    /// Neither the request nor the environment names a command.
    NoCommand,
    /// The command line of the request cannot be used.
    Command(CommandError),
    /// The command line of the environment cannot be used.
    EnvironmentCommand(CommandError),
    MissingSseUrl,
    MissingHttpUrl,
}

/// The text of a session error. `line` is the command line that a command error
/// speaks of.
pub open spec fn session_error_text(error: SessionError, line: Seq<char>) -> Seq<char> {
    match error {
        SessionError::BlankCommand => "command is required for stdio transport"@,
        SessionError::ArgumentsWithoutCommand =>
            "arguments provided without command for stdio transport"@,
        SessionError::NoCommand =>
            "command is required for stdio transport; set 'command'/'args' or INSPECTOR_STDIO_CMD"@,
        SessionError::Command(inner) => command_error_text(inner, line),
        SessionError::EnvironmentCommand(inner) => command_error_text(inner, line),
        SessionError::MissingSseUrl => "missing sse url"@,
        SessionError::MissingHttpUrl => "missing http url"@,
    }
}

impl SessionError {
    /// The text of the error. `line` is the command line that a command error speaks of.
    pub fn message(&self, line: &str) -> (text: String)
        ensures
            text@ == session_error_text(*self, line@),
    {
        match self {
            SessionError::BlankCommand => String::from_str(
                "command is required for stdio transport",
            ),
            SessionError::ArgumentsWithoutCommand => String::from_str(
                "arguments provided without command for stdio transport",
            ),
            SessionError::NoCommand => String::from_str(
                "command is required for stdio transport; set 'command'/'args' or INSPECTOR_STDIO_CMD",
            ),
            SessionError::Command(inner) => inner.message(line),
            SessionError::EnvironmentCommand(inner) => inner.message(line),
            SessionError::MissingSseUrl => String::from_str("missing sse url"),
            SessionError::MissingHttpUrl => String::from_str("missing http url"),
        }
    }
}

/// A child process to start.
#[derive(Debug)]
pub struct StdioLaunch {
    pub program: String,
    pub args: Vec<String>,
    pub env: Option<BTreeMap<String, String>>,
    pub cwd: Option<String>,
}

/// What a `StdioLaunch` stands for in contracts.
pub struct StdioLaunchView {
    pub program: Seq<char>,
    pub args: Seq<Seq<char>>,
    pub env: Option<Map<String, String>>,
    pub cwd: Option<Seq<char>>,
}

impl View for StdioLaunch {
    type V = StdioLaunchView;

    open spec fn view(&self) -> StdioLaunchView {
        StdioLaunchView {
            program: self.program@,
            args: self.args.deep_view(),
            env: opt_table(self.env),
            cwd: self.cwd.deep_view(),
        }
    }
}

/// What a probe has to do.
#[derive(Debug)]
pub enum ProbePlan {
    /// The request is answered as it stands, without a connection.
    Answer(ProbeResult),
    Stdio { launch: StdioLaunch, handshake_timeout_ms: u64 },
    Sse { url: String, handshake_timeout_ms: u64 },
    Http { url: String, auth_token: Option<String>, handshake_timeout_ms: u64 },
}

/// What a `ProbePlan` stands for in contracts.
pub enum ProbePlanView {
    Answer(ProbeResultView),
    Stdio { launch: StdioLaunchView, handshake_timeout_ms: u64 },
    Sse { url: Seq<char>, handshake_timeout_ms: u64 },
    Http { url: Seq<char>, auth_token: Option<Seq<char>>, handshake_timeout_ms: u64 },
}

impl View for ProbePlan {
    type V = ProbePlanView;

    open spec fn view(&self) -> ProbePlanView {
        match self {
            ProbePlan::Answer(result) => ProbePlanView::Answer(result@),
            ProbePlan::Stdio { launch, handshake_timeout_ms } => ProbePlanView::Stdio {
                launch: launch@,
                handshake_timeout_ms: *handshake_timeout_ms,
            },
            ProbePlan::Sse { url, handshake_timeout_ms } => ProbePlanView::Sse {
                url: url@,
                handshake_timeout_ms: *handshake_timeout_ms,
            },
            ProbePlan::Http { url, auth_token, handshake_timeout_ms } => ProbePlanView::Http {
                url: url@,
                auth_token: auth_token.deep_view(),
                handshake_timeout_ms: *handshake_timeout_ms,
            },
        }
    }
}

/// The answer of a probe that could not be tried.
pub open spec fn refusal(kind: TargetTransportKind, reason: Seq<char>) -> ProbeResultView {
    ProbeResultView {
        ok: false,
        transport: kind.name(),
        server_name: None,
        version: None,
        latency_ms: None,
        error: Some(reason),
    }
}

/// The answer of a probe whose handshake went through.
pub open spec fn success(
    kind: TargetTransportKind,
    version: Option<Seq<char>>,
    latency_ms: u64,
) -> ProbeResultView {
    ProbeResultView {
        ok: true,
        transport: kind.name(),
        server_name: None,
        version,
        latency_ms: Some(latency_ms),
        error: None,
    }
}

fn refuse(kind: TargetTransportKind, reason: &str) -> (result: ProbeResult)
    ensures
        result@ == refusal(kind, reason@),
{
    ProbeResult {
        ok: false,
        transport: String::from_str(kind.as_str()),
        server_name: None,
        version: None,
        latency_ms: None,
        error: Some(String::from_str(reason)),
    }
}

/// The answer of a probe whose handshake went through in `latency_ms` milliseconds.
pub fn probe_success(kind: TargetTransportKind, version: Option<String>, latency_ms: u64) -> (result:
    ProbeResult)
    ensures
        result@ == success(kind, version.deep_view(), latency_ms),
{
    ProbeResult {
        ok: true,
        transport: String::from_str(kind.as_str()),
        server_name: None,
        version,
        latency_ms: Some(latency_ms),
        error: None,
    }
}

/// The text of an optional string, empty where there is none.
pub open spec fn text_or_empty(text: Option<Seq<char>>) -> Seq<char> {
    match text {
        Some(t) => t,
        None => Seq::empty(),
    }
}

/// What a probe has to do for a request.
pub open spec fn probe_plan(request: crate::types::ProbeRequestView) -> Result<ProbePlanView, CommandError> {
    let limit = handshake_limit(request.handshake_timeout_ms);
    match chosen_transport(request.transport) {
        TargetTransportKind::Stdio => {
            if request.command.is_some() && request.args.is_some() && request.command.unwrap().len()
                > 0 {
                Ok(
                    ProbePlanView::Stdio {
                        launch: StdioLaunchView {
                            program: request.command.unwrap(),
                            args: request.args.unwrap(),
                            env: request.env,
                            cwd: request.cwd,
                        },
                        handshake_timeout_ms: limit,
                    },
                )
            } else if request.command.is_some() && request.args.is_none() {
                match invocation(shell_split(request.command.unwrap())) {
                    Ok((program, args)) => Ok(
                        ProbePlanView::Stdio {
                            launch: StdioLaunchView {
                                program,
                                args,
                                env: request.env,
                                cwd: request.cwd,
                            },
                            handshake_timeout_ms: limit,
                        },
                    ),
                    Err(error) => Err(error),
                }
            } else {
                Ok(
                    ProbePlanView::Answer(
                        refusal(TargetTransportKind::Stdio, "missing command for stdio"@),
                    ),
                )
            }
        },
        TargetTransportKind::Sse => {
            if text_or_empty(request.url).len() == 0 {
                Ok(ProbePlanView::Answer(refusal(TargetTransportKind::Sse, "missing url"@)))
            } else {
                Ok(ProbePlanView::Sse { url: request.url.unwrap(), handshake_timeout_ms: limit })
            }
        },
        TargetTransportKind::Http => {
            if text_or_empty(request.url).len() == 0 {
                Ok(ProbePlanView::Answer(refusal(TargetTransportKind::Http, "missing url"@)))
            } else {
                Ok(
                    ProbePlanView::Http {
                        url: request.url.unwrap(),
                        auth_token: request.auth_token,
                        handshake_timeout_ms: limit,
                    },
                )
            }
        },
    }
}

/// The view of a planned probe or of the error that stands in its way.
pub open spec fn planned_view(planned: Result<ProbePlan, CommandError>) -> Result<
    ProbePlanView,
    CommandError,
> {
    match planned {
        Ok(plan) => Ok(plan@),
        Err(error) => Err(error),
    }
}

/// Decides what a probe has to do: answer at once where the request lacks what its
/// transport needs, or open a session of the transport's kind.
pub fn plan_probe(request: &ProbeRequest) -> (planned: Result<ProbePlan, CommandError>)
    ensures
        planned_view(planned) == probe_plan(request@),
{
    let limit = handshake_timeout_ms(request.handshake_timeout_ms);
    let kind = match request.transport {
        Some(kind) => kind,
        None => TargetTransportKind::Stdio,
    };
    match kind {
        TargetTransportKind::Stdio => {
            match (&request.command, &request.args) {
                (Some(command), Some(args)) => {
                    if command.as_str().is_empty() {
                        return Ok(
                            ProbePlan::Answer(
                                refuse(TargetTransportKind::Stdio, "missing command for stdio"),
                            ),
                        );
                    }
                    Ok(
                        ProbePlan::Stdio {
                            launch: StdioLaunch {
                                program: command.clone(),
                                args: clone_texts(args),
                                env: clone_opt_table(&request.env),
                                cwd: request.cwd.clone(),
                            },
                            handshake_timeout_ms: limit,
                        },
                    )
                },
                (Some(command), None) => {
                    match parse_command(command.as_str()) {
                        Ok((program, args)) => Ok(
                            ProbePlan::Stdio {
                                launch: StdioLaunch {
                                    program,
                                    args,
                                    env: clone_opt_table(&request.env),
                                    cwd: request.cwd.clone(),
                                },
                                handshake_timeout_ms: limit,
                            },
                        ),
                        Err(error) => Err(error),
                    }
                },
                _ => Ok(
                    ProbePlan::Answer(
                        refuse(TargetTransportKind::Stdio, "missing command for stdio"),
                    ),
                ),
            }
        },
        TargetTransportKind::Sse => {
            match &request.url {
                Some(url) => {
                    if url.as_str().is_empty() {
                        Ok(ProbePlan::Answer(refuse(TargetTransportKind::Sse, "missing url")))
                    } else {
                        Ok(ProbePlan::Sse { url: url.clone(), handshake_timeout_ms: limit })
                    }
                },
                None => Ok(ProbePlan::Answer(refuse(TargetTransportKind::Sse, "missing url"))),
            }
        },
        TargetTransportKind::Http => {
            match &request.url {
                Some(url) => {
                    if url.as_str().is_empty() {
                        Ok(ProbePlan::Answer(refuse(TargetTransportKind::Http, "missing url")))
                    } else {
                        Ok(
                            ProbePlan::Http {
                                url: url.clone(),
                                auth_token: request.auth_token.clone(),
                                handshake_timeout_ms: limit,
                            },
                        )
                    }
                },
                None => Ok(ProbePlan::Answer(refuse(TargetTransportKind::Http, "missing url"))),
            }
        },
    }
}

/// What listing the tools of a target has to open.
#[derive(Debug)]
pub enum ListPlan {
    Stdio(StdioLaunch),
    Sse(SseTarget),
    Http(HttpTarget),
}

/// What a `ListPlan` stands for in contracts.
pub enum ListPlanView {
    Stdio(StdioLaunchView),
    Sse(SseTargetView),
    Http(HttpTargetView),
}

impl View for ListPlan {
    type V = ListPlanView;

    open spec fn view(&self) -> ListPlanView {
        match self {
            ListPlan::Stdio(launch) => ListPlanView::Stdio(launch@),
            ListPlan::Sse(target) => ListPlanView::Sse(target@),
            ListPlan::Http(target) => ListPlanView::Http(target@),
        }
    }
}

/// A command error as the error of a request's own command line.
pub open spec fn own_command(made: Result<(Seq<char>, Seq<Seq<char>>), CommandError>) -> Result<
    (Seq<char>, Seq<Seq<char>>),
    SessionError,
> {
    match made {
        Ok(pair) => Ok(pair),
        Err(error) => Err(SessionError::Command(error)),
    }
}

/// A command error as the error of the environment's command line.
pub open spec fn environment_command(
    made: Result<(Seq<char>, Seq<Seq<char>>), CommandError>,
) -> Result<(Seq<char>, Seq<Seq<char>>), SessionError> {
    match made {
        Ok(pair) => Ok(pair),
        Err(error) => Err(SessionError::EnvironmentCommand(error)),
    }
}

/// Program and arguments for a child process: the request's command with its
/// arguments, or its command line split into words, or else the command line that
/// the environment names.
pub open spec fn stdio_invocation(
    request: crate::types::ProbeRequestView,
    env_command: Option<Seq<char>>,
) -> Result<(Seq<char>, Seq<Seq<char>>), SessionError> {
    match request.command {
        Some(command) => if blank(command) {
            Err(SessionError::BlankCommand)
        } else {
            match request.args {
                Some(args) => Ok((command, args)),
                None => own_command(invocation(shell_split(command))),
            }
        },
        None => if request.args.is_some() && request.args.unwrap().len() > 0 {
            Err(SessionError::ArgumentsWithoutCommand)
        } else {
            match env_command {
                Some(line) => environment_command(invocation(shell_split(line))),
                None => Err(SessionError::NoCommand),
            }
        },
    }
}

/// The view of an invocation or of the session error in its place.
pub open spec fn resolved_view(made: Result<(String, Vec<String>), SessionError>) -> Result<
    (Seq<char>, Seq<Seq<char>>),
    SessionError,
> {
    match made {
        Ok((program, args)) => Ok((program@, args.deep_view())),
        Err(error) => Err(error),
    }
}

/// Finds program and arguments for a child process. `env_command` is the command
/// line that the environment names, if it names one.
pub fn resolve_stdio_invocation(request: &ProbeRequest, env_command: Option<&str>) -> (made: Result<
    (String, Vec<String>),
    SessionError,
>)
    ensures
        resolved_view(made) == stdio_invocation(
            request@,
            match env_command {
                Some(line) => Some(line@),
                None => None,
            },
        ),
{
    match &request.command {
        Some(command) => {
            if is_blank(command.as_str()) {
                return Err(SessionError::BlankCommand);
            }
            match &request.args {
                Some(args) => Ok((command.clone(), clone_texts(args))),
                None => match parse_command(command.as_str()) {
                    Ok(pair) => Ok(pair),
                    Err(error) => Err(SessionError::Command(error)),
                },
            }
        },
        None => {
            match &request.args {
                Some(args) => {
                    if args.len() > 0 {
                        return Err(SessionError::ArgumentsWithoutCommand);
                    }
                },
                None => {},
            }
            match env_command {
                Some(line) => match parse_command(line) {
                    Ok(pair) => Ok(pair),
                    Err(error) => Err(SessionError::EnvironmentCommand(error)),
                },
                None => Err(SessionError::NoCommand),
            }
        },
    }
}

/// The server-sent-events target of a request.
pub open spec fn sse_target(request: crate::types::ProbeRequestView) -> Result<
    SseTargetView,
    SessionError,
> {
    if text_or_empty(request.url).len() == 0 {
        Err(SessionError::MissingSseUrl)
    } else {
        Ok(
            SseTargetView {
                url: request.url.unwrap(),
                headers: request.headers,
                handshake_timeout_ms: request.handshake_timeout_ms,
            },
        )
    }
}

/// Builds the server-sent-events target of a request.
pub fn build_sse_target(request: &ProbeRequest) -> (made: Result<SseTarget, SessionError>)
    ensures
        match made {
            Ok(target) => sse_target(request@) == Ok::<SseTargetView, SessionError>(target@),
            Err(error) => sse_target(request@) == Err::<SseTargetView, SessionError>(error),
        },
{
    match &request.url {
        Some(url) => {
            if url.as_str().is_empty() {
                return Err(SessionError::MissingSseUrl);
            }
            Ok(
                SseTarget {
                    url: url.clone(),
                    headers: clone_opt_table(&request.headers),
                    handshake_timeout_ms: request.handshake_timeout_ms,
                },
            )
        },
        None => Err(SessionError::MissingSseUrl),
    }
}

/// The streamable-HTTP target of a request.
pub open spec fn http_target(request: crate::types::ProbeRequestView) -> Result<
    HttpTargetView,
    SessionError,
> {
    if text_or_empty(request.url).len() == 0 {
        Err(SessionError::MissingHttpUrl)
    } else {
        Ok(
            HttpTargetView {
                url: request.url.unwrap(),
                headers: request.headers,
                auth_token: request.auth_token,
                handshake_timeout_ms: request.handshake_timeout_ms,
            },
        )
    }
}

/// Builds the streamable-HTTP target of a request.
pub fn build_http_target(request: &ProbeRequest) -> (made: Result<HttpTarget, SessionError>)
    ensures
        match made {
            Ok(target) => http_target(request@) == Ok::<HttpTargetView, SessionError>(target@),
            Err(error) => http_target(request@) == Err::<HttpTargetView, SessionError>(error),
        },
{
    match &request.url {
        Some(url) => {
            if url.as_str().is_empty() {
                return Err(SessionError::MissingHttpUrl);
            }
            Ok(
                HttpTarget {
                    url: url.clone(),
                    headers: clone_opt_table(&request.headers),
                    auth_token: request.auth_token.clone(),
                    handshake_timeout_ms: request.handshake_timeout_ms,
                },
            )
        },
        None => Err(SessionError::MissingHttpUrl),
    }
}

/// What listing the tools has to open for a request.
pub open spec fn list_plan(
    request: crate::types::ProbeRequestView,
    env_command: Option<Seq<char>>,
) -> Result<ListPlanView, SessionError> {
    match chosen_transport(request.transport) {
        TargetTransportKind::Stdio => match stdio_invocation(request, env_command) {
            Ok((program, args)) => Ok(
                ListPlanView::Stdio(
                    StdioLaunchView { program, args, env: request.env, cwd: request.cwd },
                ),
            ),
            Err(error) => Err(error),
        },
        TargetTransportKind::Sse => match sse_target(request) {
            Ok(target) => Ok(ListPlanView::Sse(target)),
            Err(error) => Err(error),
        },
        TargetTransportKind::Http => match http_target(request) {
            Ok(target) => Ok(ListPlanView::Http(target)),
            Err(error) => Err(error),
        },
    }
}

/// Decides what listing the tools has to open: a child process, or one of the two
/// network targets.
pub fn plan_list_tools(request: &ProbeRequest, env_command: Option<&str>) -> (planned: Result<
    ListPlan,
    SessionError,
>)
    ensures
        match planned {
            Ok(plan) => list_plan(
                request@,
                match env_command {
                    Some(line) => Some(line@),
                    None => None,
                },
            ) == Ok::<ListPlanView, SessionError>(plan@),
            Err(error) => list_plan(
                request@,
                match env_command {
                    Some(line) => Some(line@),
                    None => None,
                },
            ) == Err::<ListPlanView, SessionError>(error),
        },
{
    let kind = match request.transport {
        Some(kind) => kind,
        None => TargetTransportKind::Stdio,
    };
    match kind {
        TargetTransportKind::Stdio => match resolve_stdio_invocation(request, env_command) {
            Ok((program, args)) => Ok(
                ListPlan::Stdio(
                    StdioLaunch {
                        program,
                        args,
                        env: clone_opt_table(&request.env),
                        cwd: request.cwd.clone(),
                    },
                ),
            ),
            Err(error) => Err(error),
        },
        TargetTransportKind::Sse => match build_sse_target(request) {
            Ok(target) => Ok(ListPlan::Sse(target)),
            Err(error) => Err(error),
        },
        TargetTransportKind::Http => match build_http_target(request) {
            Ok(target) => Ok(ListPlan::Http(target)),
            Err(error) => Err(error),
        },
    }
}

/// Checks the address of a server-sent-events target before a session is opened,
/// and gives the handshake limit in milliseconds.
pub fn check_sse_target(target: &SseTarget) -> (checked: Result<u64, SessionError>)
    ensures
        checked == if target@.url.len() == 0 {
            Err::<u64, SessionError>(SessionError::MissingSseUrl)
        } else {
            Ok::<u64, SessionError>(handshake_limit(target@.handshake_timeout_ms))
        },
{
    if target.url.as_str().is_empty() {
        Err(SessionError::MissingSseUrl)
    } else {
        Ok(handshake_timeout_ms(target.handshake_timeout_ms))
    }
}

/// Checks the address of a streamable-HTTP target before a session is opened, and
/// gives the handshake limit in milliseconds.
pub fn check_http_target(target: &HttpTarget) -> (checked: Result<u64, SessionError>)
    ensures
        checked == if target@.url.len() == 0 {
            Err::<u64, SessionError>(SessionError::MissingHttpUrl)
        } else {
            Ok::<u64, SessionError>(handshake_limit(target@.handshake_timeout_ms))
        },
{
    if target.url.as_str().is_empty() {
        Err(SessionError::MissingHttpUrl)
    } else {
        Ok(handshake_timeout_ms(target.handshake_timeout_ms))
    }
}

/// The error of a description whose tool the target does not list.
pub open spec fn tool_not_found_text(wanted: Seq<char>) -> Seq<char> {
    "tool '"@ + wanted + "' not found"@
}

/// The first position at which `wanted` stands in `names`, if it stands there.
pub open spec fn first_position(names: Seq<Seq<char>>, wanted: Seq<char>, at: int) -> bool {
    &&& 0 <= at < names.len()
    &&& names[at] == wanted
    &&& forall|j: int| 0 <= j < at ==> names[j] != wanted
}

/// Looks a tool up by name in the names that a target lists, in their order.
pub fn find_tool(names: &Vec<String>, wanted: &str) -> (found: Result<usize, String>)
    ensures
        match found {
            Ok(at) => first_position(names.deep_view(), wanted@, at as int),
            Err(message) => !names.deep_view().contains(wanted@) && message@
                == tool_not_found_text(wanted@),
        },
{
    let mut i: usize = 0;
    while i < names.len()
        invariant
            i <= names.len(),
            forall|j: int| 0 <= j < i ==> names.deep_view()[j] != wanted@,
        decreases names.len() - i,
    {
        if names[i].as_str().eq(wanted) {
            return Ok(i);
        }
        i += 1;
    }
    let mut message = String::from_str("tool '");
    message.append(wanted);
    message.append("' not found");
    Err(message)
}

} // verus!
