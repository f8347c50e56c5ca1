//! The facade: routing of tool names, the record of a run, targets and replies.

use vstd::prelude::*;
use vstd::string::StringExecFns;
use crate::clock::{render_freeze_until, freeze_until_text, Timestamp, TimestampView};
use crate::command::{command_error_text, invocation, parse_command, shell_split};
use crate::error_budget::FreezeReport;
use crate::ids::fresh_uuid;
use crate::run::InspectionRun;
use crate::session::{StdioLaunch, StdioLaunchView};
use crate::stream::{StreamEvent, StreamEventView};
use crate::types::{
    clone_opt_table, clone_texts, CallRequest, CallRequestView, HttpTarget, HttpTargetView,
    InspectionRunEvent, InspectionRunEventView, ReleaseTrack, SseTarget, SseTargetView,
    TargetDescriptor, TargetDescriptorView,
};

verus! {

/// The handler that a tool name is routed to.
#[derive(Debug, Clone, Copy, PartialEq, Eq, Structural)]
pub enum ToolRoute {
    Help,
    Probe,
    ListTools,
    Describe,
    Call,
    Unknown,
}

/// The handler for a tool name. Each inspector tool answers to its name with an
/// underscore and with a dot.
pub open spec fn route_of(name: Seq<char>) -> ToolRoute {
    if name == "help"@ || name == "inspector_help"@ {
        ToolRoute::Help
    } else if name == "inspector_probe"@ || name == "inspector.probe"@ {
        ToolRoute::Probe
    } else if name == "inspector_list_tools"@ || name == "inspector.list_tools"@ {
        ToolRoute::ListTools
    } else if name == "inspector_describe"@ || name == "inspector.describe"@ {
        ToolRoute::Describe
    } else if name == "inspector_call"@ || name == "inspector.call"@ {
        ToolRoute::Call
    } else {
        ToolRoute::Unknown
    }
}

/// Each tool is routed to its own handler under the name with the underscore.
pub proof fn lemma_advertised_routes()
    ensures
        route_of("help"@) == ToolRoute::Help,
        route_of("inspector_probe"@) == ToolRoute::Probe,
        route_of("inspector_list_tools"@) == ToolRoute::ListTools,
        route_of("inspector_describe"@) == ToolRoute::Describe,
        route_of("inspector_call"@) == ToolRoute::Call,
{
    reveal_strlit("help");
    reveal_strlit("inspector_help");
    reveal_strlit("inspector_probe");
    reveal_strlit("inspector.probe");
    reveal_strlit("inspector_list_tools");
    reveal_strlit("inspector.list_tools");
    reveal_strlit("inspector_describe");
    reveal_strlit("inspector.describe");
    reveal_strlit("inspector_call");
    reveal_strlit("inspector.call");
    assert("inspector_help"@.len() == 14);
    assert("inspector_probe"@.len() == 15);
    assert("inspector.probe"@.len() == 15);
    assert("inspector_list_tools"@.len() == 20);
    assert("inspector.list_tools"@.len() == 20);
    assert("inspector_describe"@.len() == 18);
    assert("inspector.describe"@.len() == 18);
    assert("inspector_call"@.len() == 14);
    assert("inspector_call"@[10] == 'c' && "inspector_help"@[10] == 'h');
}

/// Finds the handler for a tool name.
pub fn route_tool(name: &str) -> (route: ToolRoute)
    ensures
        route == route_of(name@),
{
    if name.eq("help") || name.eq("inspector_help") {
        ToolRoute::Help
    } else if name.eq("inspector_probe") || name.eq("inspector.probe") {
        ToolRoute::Probe
    } else if name.eq("inspector_list_tools") || name.eq("inspector.list_tools") {
        ToolRoute::ListTools
    } else if name.eq("inspector_describe") || name.eq("inspector.describe") {
        ToolRoute::Describe
    } else if name.eq("inspector_call") || name.eq("inspector.call") {
        ToolRoute::Call
    } else {
        ToolRoute::Unknown
    }
}

/// What the facade does with a call of a tool.
#[derive(Debug, Clone, Copy, PartialEq, Eq, Structural)]
pub enum Dispatch {
    /// The release track has the inspector switched off.
    Rollback,
    Route(ToolRoute),
}

/// What the facade does with a call of the tool `name` on a release track: on the
/// rollback track everything but the help is refused, before the name is looked at.
pub open spec fn dispatch_of(track: ReleaseTrack, name: Seq<char>) -> Dispatch {
    if !track.inspector_allowed() && route_of(name) != ToolRoute::Help {
        Dispatch::Rollback
    } else {
        Dispatch::Route(route_of(name))
    }
}

/// Decides what the facade does with a call of the tool `name`.
pub fn dispatch(track: ReleaseTrack, name: &str) -> (decision: Dispatch)
    ensures
        decision == dispatch_of(track, name@),
{
    let route = route_tool(name);
    if !track.allows_inspector() && route != ToolRoute::Help {
        Dispatch::Rollback
    } else {
        Dispatch::Route(route)
    }
}

/// The codes of the structured errors.
#[derive(Debug, Clone, Copy, PartialEq, Eq, Structural)]
pub enum ErrorCode {
    IdempotencyConflict,
    ErrorBudgetExhausted,
    ReleaseTrackRollback,
    MissingCommand,
    MissingStdioCmd,
    UnknownTool,
}

impl ErrorCode {
    /// The code as it stands in a structured error.
    pub open spec fn name(self) -> Seq<char> {
        match self {
            ErrorCode::IdempotencyConflict => "IDEMPOTENCY_CONFLICT"@,
            ErrorCode::ErrorBudgetExhausted => "ERROR_BUDGET_EXHAUSTED"@,
            ErrorCode::ReleaseTrackRollback => "RELEASE_TRACK_ROLLBACK"@,
            ErrorCode::MissingCommand => "MISSING_COMMAND"@,
            ErrorCode::MissingStdioCmd => "MISSING_STDIO_CMD"@,
            ErrorCode::UnknownTool => "UNKNOWN_TOOL"@,
        }
    }

    /// The code as it stands in a structured error.
    pub fn as_str(&self) -> (name: &'static str)
        ensures
            name@ == self.name(),
    {
        match self {
            ErrorCode::IdempotencyConflict => "IDEMPOTENCY_CONFLICT",
            ErrorCode::ErrorBudgetExhausted => "ERROR_BUDGET_EXHAUSTED",
            ErrorCode::ReleaseTrackRollback => "RELEASE_TRACK_ROLLBACK",
            ErrorCode::MissingCommand => "MISSING_COMMAND",
            ErrorCode::MissingStdioCmd => "MISSING_STDIO_CMD",
            ErrorCode::UnknownTool => "UNKNOWN_TOOL",
        }
    }
}

/// What a field of a result's metadata holds.
#[derive(Debug)]
pub enum MetaField {
    /// The metadata has no such field.
    Absent,
    /// The field holds something that is no string.
    NotText,
    Text(String),
}

/// The external reference in the metadata of a result: what `externalReference`
/// holds where the field is there, and what `external_reference` holds otherwise; a
/// field that holds no string gives none.
pub open spec fn meta_reference(camel: MetaField, snake: MetaField) -> Option<Seq<char>> {
    match camel {
        MetaField::Text(text) => Some(text@),
        MetaField::NotText => None,
        MetaField::Absent => match snake {
            MetaField::Text(text) => Some(text@),
            _ => None,
        },
    }
}

/// Reads the external reference from the two metadata fields of a result.
pub fn extract_external_reference(camel: MetaField, snake: MetaField) -> (reference: Option<String>)
    ensures
        reference.deep_view() == meta_reference(camel, snake),
{
    match camel {
        MetaField::Text(text) => Some(text),
        MetaField::NotText => None,
        MetaField::Absent => match snake {
            MetaField::Text(text) => Some(text),
            _ => None,
        },
    }
}

/// `event` is the record of a run: every field as given, its own identifier left
/// open, because it is drawn at random.
pub open spec fn is_call_event(
    event: InspectionRunEventView,
    run: InspectionRun,
    request: CallRequestView,
    snapshot: Option<serde_json::Value>,
    started_at: TimestampView,
    duration_ms: u64,
    target: Option<TargetDescriptorView>,
    response: Option<serde_json::Value>,
    error: Option<Seq<char>>,
    external_reference: Option<Seq<char>>,
) -> bool {
    &&& event.run_id == run.id
    &&& event.tool_name == request.tool_name
    &&& event.state == run.state.name()
    &&& event.started_at == started_at.text
    &&& event.duration_ms == duration_ms
    &&& event.target == target
    &&& event.request == snapshot
    &&& event.response == response
    &&& event.error == error
    &&& event.idempotency_key == request.idempotency_key
    &&& event.external_reference == external_reference
}

/// Writes the record of a run in the state that the run is in.
pub fn build_event(
    run: &InspectionRun,
    request: &CallRequest,
    snapshot: Option<serde_json::Value>,
    started_at: &Timestamp,
    duration_ms: u64,
    target: Option<TargetDescriptor>,
    response: Option<serde_json::Value>,
    error: Option<String>,
    external_reference: Option<String>,
) -> (event: InspectionRunEvent)
    ensures
        is_call_event(
            event@,
            *run,
            request@,
            snapshot,
            started_at@,
            duration_ms,
            target.deep_view(),
            response,
            error.deep_view(),
            external_reference.deep_view(),
        ),
{
    InspectionRunEvent {
        event_id: fresh_uuid(),
        run_id: run.id,
        tool_name: request.tool_name.clone(),
        state: String::from_str(run.state.as_str()),
        started_at: String::from_str(started_at.as_text()),
        duration_ms,
        target,
        request: snapshot,
        response,
        error,
        idempotency_key: request.idempotency_key.clone(),
        external_reference,
    }
}

/// What is attached to a result under the key `trace`.
#[derive(Debug)]
pub struct CallTrace {
    pub event: InspectionRunEvent,
    pub stream_enabled: bool,
    pub stream_events: Option<Vec<StreamEvent>>,
    pub outbox_persisted: bool,
}

/// What a `CallTrace` stands for in contracts.
pub struct CallTraceView {
    pub event: InspectionRunEventView,
    pub stream_enabled: bool,
    pub stream_events: Option<Seq<StreamEventView>>,
    pub outbox_persisted: bool,
}

impl View for CallTrace {
    type V = CallTraceView;

    open spec fn view(&self) -> CallTraceView {
        CallTraceView {
            event: self.event@,
            stream_enabled: self.stream_enabled,
            stream_events: self.stream_events.deep_view(),
            outbox_persisted: self.outbox_persisted,
        }
    }
}

/// The session that a call opens.
#[derive(Debug)]
pub enum CallRoute {
    Http(HttpTarget),
    Sse(SseTarget),
    Stdio(StdioLaunch),
}

/// What a `CallRoute` stands for in contracts.
pub enum CallRouteView {
    Http(HttpTargetView),
    Sse(SseTargetView),
    Stdio(StdioLaunchView),
}

impl View for CallRoute {
    type V = CallRouteView;

    open spec fn view(&self) -> CallRouteView {
        match self {
            CallRoute::Http(target) => CallRouteView::Http(target@),
            CallRoute::Sse(target) => CallRouteView::Sse(target@),
            CallRoute::Stdio(launch) => CallRouteView::Stdio(launch@),
        }
    }
}

/// The target of a call: what is recorded of it, and how it is reached.
#[derive(Debug)]
pub struct TargetPlan {
    pub descriptor: TargetDescriptor,
    pub route: CallRoute,
}

/// What a `TargetPlan` stands for in contracts.
pub struct TargetPlanView {
    pub descriptor: TargetDescriptorView,
    pub route: CallRouteView,
}

impl View for TargetPlan {
    type V = TargetPlanView;

    open spec fn view(&self) -> TargetPlanView {
        TargetPlanView { descriptor: self.descriptor@, route: self.route@ }
    }
}

/// The error of a call that names no target while the environment names none either.
pub open spec fn no_target_text() -> Seq<char> {
    "INSPECTOR_STDIO_CMD env is required or pass 'stdio' target"@
}

/// The target of a call. A streamable-HTTP target comes before a server-sent-events
/// target, that before a child process, and that before the command line that the
/// environment names.
pub open spec fn target_plan(request: CallRequestView, env_command: Option<Seq<char>>) -> Result<
    TargetPlanView,
    Seq<char>,
> {
    if request.http is Some {
        let http = request.http.unwrap();
        Ok(
            TargetPlanView {
                descriptor: TargetDescriptorView {
                    transport: "http"@,
                    command: None,
                    url: Some(http.url),
                    headers: http.headers,
                },
                route: CallRouteView::Http(http),
            },
        )
    } else if request.sse is Some {
        let sse = request.sse.unwrap();
        Ok(
            TargetPlanView {
                descriptor: TargetDescriptorView {
                    transport: "sse"@,
                    command: None,
                    url: Some(sse.url),
                    headers: sse.headers,
                },
                route: CallRouteView::Sse(sse),
            },
        )
    } else if request.stdio is Some {
        let stdio = request.stdio.unwrap();
        Ok(
            TargetPlanView {
                descriptor: TargetDescriptorView {
                    transport: "stdio"@,
                    command: Some(stdio.command),
                    url: None,
                    headers: None,
                },
                route: CallRouteView::Stdio(
                    StdioLaunchView {
                        program: stdio.command,
                        args: stdio.args,
                        env: stdio.env,
                        cwd: stdio.cwd,
                    },
                ),
            },
        )
    } else {
        match env_command {
            Some(line) => match invocation(shell_split(line)) {
                Ok((program, args)) => Ok(
                    TargetPlanView {
                        descriptor: TargetDescriptorView {
                            transport: "stdio"@,
                            command: Some(program),
                            url: None,
                            headers: None,
                        },
                        route: CallRouteView::Stdio(
                            StdioLaunchView { program, args, env: None, cwd: None },
                        ),
                    },
                ),
                Err(error) => Err(command_error_text(error, line)),
            },
            None => Err(no_target_text()),
        }
    }
}

/// The view of a planned target or of the message in its place.
pub open spec fn target_plan_view(planned: Result<TargetPlan, String>) -> Result<
    TargetPlanView,
    Seq<char>,
> {
    match planned {
        Ok(plan) => Ok(plan@),
        Err(message) => Err(message@),
    }
}

/// Finds the target of a call. `env_command` is the command line that the
/// environment names, if it names one.
pub fn plan_target(request: &CallRequest, env_command: Option<&str>) -> (planned: Result<
    TargetPlan,
    String,
>)
    ensures
        target_plan_view(planned) == target_plan(
            request@,
            match env_command {
                Some(line) => Some(line@),
                None => None,
            },
        ),
{
    if let Some(http) = &request.http {
        return Ok(
            TargetPlan {
                descriptor: TargetDescriptor {
                    transport: String::from_str("http"),
                    command: None,
                    url: Some(http.url.clone()),
                    headers: clone_opt_table(&http.headers),
                },
                route: CallRoute::Http(http.clone()),
            },
        );
    }
    if let Some(sse) = &request.sse {
        return Ok(
            TargetPlan {
                descriptor: TargetDescriptor {
                    transport: String::from_str("sse"),
                    command: None,
                    url: Some(sse.url.clone()),
                    headers: clone_opt_table(&sse.headers),
                },
                route: CallRoute::Sse(sse.clone()),
            },
        );
    }
    if let Some(stdio) = &request.stdio {
        return Ok(
            TargetPlan {
                descriptor: TargetDescriptor {
                    transport: String::from_str("stdio"),
                    command: Some(stdio.command.clone()),
                    url: None,
                    headers: None,
                },
                route: CallRoute::Stdio(
                    StdioLaunch {
                        program: stdio.command.clone(),
                        args: clone_texts(&stdio.args),
                        env: clone_opt_table(&stdio.env),
                        cwd: stdio.cwd.clone(),
                    },
                ),
            },
        );
    }
    match env_command {
        Some(line) => match parse_command(line) {
            Ok((program, args)) => Ok(
                TargetPlan {
                    descriptor: TargetDescriptor {
                        transport: String::from_str("stdio"),
                        command: Some(program.clone()),
                        url: None,
                        headers: None,
                    },
                    route: CallRoute::Stdio(StdioLaunch { program, args, env: None, cwd: None }),
                },
            ),
            Err(error) => Err(error.message(line)),
        },
        None => Err(String::from_str("INSPECTOR_STDIO_CMD env is required or pass 'stdio' target")),
    }
}

/// What a refusal for a frozen error budget tells the caller.
#[derive(Debug)]
pub struct FreezeNotice {
    /// The end of the freeze in RFC 3339.
    pub frozen_until: String,
    /// Successful calls in the sample.
    pub successes: usize,
    pub sample_size: usize,
}

/// A structured error: the payload of a result that is flagged as failed.
#[derive(Debug)]
pub struct ErrorReply {
    pub error: String,
    pub code: Option<ErrorCode>,
    pub event: Option<InspectionRunEvent>,
    pub freeze: Option<FreezeNotice>,
}

/// What a `ErrorReply` stands for in contracts.
pub struct ErrorReplyView {
    pub error: Seq<char>,
    pub code: Option<ErrorCode>,
    pub event: Option<InspectionRunEventView>,
    pub freeze: Option<(Seq<char>, usize, usize)>,
}

impl View for ErrorReply {
    type V = ErrorReplyView;

    open spec fn view(&self) -> ErrorReplyView {
        ErrorReplyView {
            error: self.error@,
            code: self.code,
            event: self.event.deep_view(),
            freeze: match self.freeze {
                Some(notice) => Some((notice.frozen_until@, notice.successes, notice.sample_size)),
                None => None,
            },
        }
    }
}

/// The error of a call that carries nothing but its cause.
pub fn failure_reply(cause: &str) -> (reply: ErrorReply)
    ensures
        reply@ == (ErrorReplyView { error: cause@, code: None, event: None, freeze: None }),
{
    ErrorReply { error: String::from_str(cause), code: None, event: None, freeze: None }
}

/// The error for a tool name that no handler answers to.
pub fn unknown_tool_reply() -> (reply: ErrorReply)
    ensures
        reply@ == (ErrorReplyView {
            error: "unknown tool"@,
            code: None,
            event: None,
            freeze: None,
        }),
{
    failure_reply("unknown tool")
}

/// The error for an inspector tool on the rollback track.
pub fn rollback_reply() -> (reply: ErrorReply)
    ensures
        reply@ == (ErrorReplyView {
            error: "inspector disabled by release track"@,
            code: Some(ErrorCode::ReleaseTrackRollback),
            event: None,
            freeze: None,
        }),
{
    ErrorReply {
        error: String::from_str("inspector disabled by release track"),
        code: Some(ErrorCode::ReleaseTrackRollback),
        event: None,
        freeze: None,
    }
}

/// The error for a call that collides with a known one.
pub fn conflict_reply(message: String, existing: Option<InspectionRunEvent>) -> (reply: ErrorReply)
    ensures
        reply@ == (ErrorReplyView {
            error: message@,
            code: Some(ErrorCode::IdempotencyConflict),
            event: existing.deep_view(),
            freeze: None,
        }),
{
    ErrorReply {
        error: message,
        code: Some(ErrorCode::IdempotencyConflict),
        event: existing,
        freeze: None,
    }
}

/// The error for a call that comes while the error budget is frozen.
pub fn freeze_reply(report: &FreezeReport) -> (reply: ErrorReply)
    ensures
        reply@.error == "error budget exhausted"@,
        reply@.code == Some(ErrorCode::ErrorBudgetExhausted),
        reply@.event.is_none(),
        reply@.freeze == Some(
            (freeze_until_text(report.until as int), report.successes, report.sample_size),
        ),
{
    ErrorReply {
        error: String::from_str("error budget exhausted"),
        code: Some(ErrorCode::ErrorBudgetExhausted),
        event: None,
        freeze: Some(
            FreezeNotice {
                frozen_until: render_freeze_until(report.until),
                successes: report.successes,
                sample_size: report.sample_size,
            },
        ),
    }
}

/// One line of the reference that the help tool returns.
#[derive(Debug, Clone, Copy, PartialEq, Eq, Structural)]
pub enum HelpSection {
    Summary,
    Tool(ToolRoute),
    Environment,
    Workflow,
    /// The inspector tools are switched off.
    Notice,
}

/// The lines of the help on a release track, in order. The notice comes last, and
/// only on a track that has the inspector switched off.
pub open spec fn help_outline(track: ReleaseTrack) -> Seq<HelpSection> {
    let fixed = seq![
        HelpSection::Summary,
        HelpSection::Tool(ToolRoute::Probe),
        HelpSection::Tool(ToolRoute::ListTools),
        HelpSection::Tool(ToolRoute::Describe),
        HelpSection::Tool(ToolRoute::Call),
        HelpSection::Environment,
        HelpSection::Workflow,
    ];
    if track.inspector_allowed() {
        fixed
    } else {
        fixed.push(HelpSection::Notice)
    }
}

/// The lines of the help on a release track, in order.
pub fn help_sections(track: ReleaseTrack) -> (sections: Vec<HelpSection>)
    ensures
        sections@ == help_outline(track),
{
    let mut sections: Vec<HelpSection> = Vec::new();
    sections.push(HelpSection::Summary);
    sections.push(HelpSection::Tool(ToolRoute::Probe));
    sections.push(HelpSection::Tool(ToolRoute::ListTools));
    sections.push(HelpSection::Tool(ToolRoute::Describe));
    sections.push(HelpSection::Tool(ToolRoute::Call));
    sections.push(HelpSection::Environment);
    sections.push(HelpSection::Workflow);
    if !track.allows_inspector() {
        sections.push(HelpSection::Notice);
    }
    sections
}

impl HelpSection {
    /// The value of the field `section` in the line.
    pub open spec fn label(self) -> Seq<char> {
        match self {
            HelpSection::Summary => "summary"@,
            HelpSection::Tool(_) => "tool"@,
            HelpSection::Environment => "environment"@,
            HelpSection::Workflow => "workflow"@,
            HelpSection::Notice => "notice"@,
        }
    }

    /// The value of the field `section` in the line.
    pub fn as_str(&self) -> (label: &'static str)
        ensures
            label@ == self.label(),
    {
        match self {
            HelpSection::Summary => "summary",
            HelpSection::Tool(_) => "tool",
            HelpSection::Environment => "environment",
            HelpSection::Workflow => "workflow",
            HelpSection::Notice => "notice",
        }
    }
}

} // verus!
