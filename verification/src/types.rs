//! The data that requests, targets and events are made of.

use std::collections::BTreeMap;
use vstd::prelude::*;

verus! {

/// The contents of an optional string table.
pub open spec fn opt_table(table: Option<BTreeMap<String, String>>) -> Option<Map<String, String>> {
    match table {
        Some(t) => Some(t@),
        None => None,
    }
}

/// A copy of an optional string table.
pub fn clone_opt_table(table: &Option<BTreeMap<String, String>>) -> (copy: Option<
    BTreeMap<String, String>,
>)
    ensures
        opt_table(copy) == opt_table(*table),
{
    match table {
        Some(t) => Some(t.clone()),
        None => None,
    }
}

/// A copy of a list of strings.
pub fn clone_texts(list: &Vec<String>) -> (copy: Vec<String>)
    ensures
        copy.deep_view() == list.deep_view(),
{
    list.clone()
}

/// Arguments of a tool that takes none.
#[derive(Debug, Clone, Copy, PartialEq, Eq, Structural)]
pub struct EmptyArgs {}

/// How a target server is reached.
#[derive(Debug, Clone, Copy, PartialEq, Eq, Structural)]
pub enum TargetTransportKind {
    Stdio,
    Sse,
    Http,
}

/// Rollout dial that selects which tools are exposed.
#[derive(Debug, Clone, Copy, PartialEq, Eq, Structural)]
pub enum ReleaseTrack {
    Stable,
    Canary,
    Rollback,
}

/// A request to probe, list or describe a target.
#[derive(Debug)]
pub struct ProbeRequest {
    pub transport: Option<TargetTransportKind>,
    pub command: Option<String>,
    pub args: Option<Vec<String>>,
    pub env: Option<BTreeMap<String, String>>,
    pub cwd: Option<String>,
    pub url: Option<String>,
    pub headers: Option<BTreeMap<String, String>>,
    pub auth_token: Option<String>,
    pub handshake_timeout_ms: Option<u64>,
}

/// What a `ProbeRequest` stands for in contracts.
pub struct ProbeRequestView {
    pub transport: Option<TargetTransportKind>,
    pub command: Option<Seq<char>>,
    pub args: Option<Seq<Seq<char>>>,
    pub env: Option<Map<String, String>>,
    pub cwd: Option<Seq<char>>,
    pub url: Option<Seq<char>>,
    pub headers: Option<Map<String, String>>,
    pub auth_token: Option<Seq<char>>,
    pub handshake_timeout_ms: Option<u64>,
}

impl View for ProbeRequest {
    type V = ProbeRequestView;

    open spec fn view(&self) -> ProbeRequestView {
        ProbeRequestView {
            transport: self.transport,
            command: self.command.deep_view(),
            args: self.args.deep_view(),
            env: opt_table(self.env),
            cwd: self.cwd.deep_view(),
            url: self.url.deep_view(),
            headers: opt_table(self.headers),
            auth_token: self.auth_token.deep_view(),
            handshake_timeout_ms: self.handshake_timeout_ms,
        }
    }
}

impl Clone for ProbeRequest {
    fn clone(&self) -> (copy: Self)
        ensures
            copy@ == self@,
    {
        ProbeRequest {
            transport: self.transport,
            command: self.command.clone(),
            args: match &self.args {
                Some(list) => Some(clone_texts(list)),
                None => None,
            },
            env: clone_opt_table(&self.env),
            cwd: self.cwd.clone(),
            url: self.url.clone(),
            headers: clone_opt_table(&self.headers),
            auth_token: self.auth_token.clone(),
            handshake_timeout_ms: self.handshake_timeout_ms,
        }
    }
}

impl Default for ProbeRequest {
    fn default() -> (request: Self)
        ensures
            request@ == (ProbeRequestView {
                transport: None,
                command: None,
                args: None,
                env: None,
                cwd: None,
                url: None,
                headers: None,
                auth_token: None,
                handshake_timeout_ms: None,
            }),
    {
        ProbeRequest {
            transport: None,
            command: None,
            args: None,
            env: None,
            cwd: None,
            url: None,
            headers: None,
            auth_token: None,
            handshake_timeout_ms: None,
        }
    }
}

/// What a probe found.
#[derive(Debug)]
pub struct ProbeResult {
    pub ok: bool,
    pub transport: String,
    pub server_name: Option<String>,
    pub version: Option<String>,
    pub latency_ms: Option<u64>,
    pub error: Option<String>,
}

/// What a `ProbeResult` stands for in contracts.
pub struct ProbeResultView {
    pub ok: bool,
    pub transport: Seq<char>,
    pub server_name: Option<Seq<char>>,
    pub version: Option<Seq<char>>,
    pub latency_ms: Option<u64>,
    pub error: Option<Seq<char>>,
}

impl View for ProbeResult {
    type V = ProbeResultView;

    open spec fn view(&self) -> ProbeResultView {
        ProbeResultView {
            ok: self.ok,
            transport: self.transport@,
            server_name: self.server_name.deep_view(),
            version: self.version.deep_view(),
            latency_ms: self.latency_ms,
            error: self.error.deep_view(),
        }
    }
}

impl Clone for ProbeResult {
    fn clone(&self) -> (copy: Self)
        ensures
            copy@ == self@,
    {
        ProbeResult {
            ok: self.ok,
            transport: self.transport.clone(),
            server_name: self.server_name.clone(),
            version: self.version.clone(),
            latency_ms: self.latency_ms,
            error: self.error.clone(),
        }
    }
}

/// A child process that speaks the protocol on its standard streams.
#[derive(Debug)]
pub struct StdioTarget {
    pub command: String,
    pub args: Vec<String>,
    pub env: Option<BTreeMap<String, String>>,
    pub cwd: Option<String>,
}

/// What a `StdioTarget` stands for in contracts.
pub struct StdioTargetView {
    pub command: Seq<char>,
    pub args: Seq<Seq<char>>,
    pub env: Option<Map<String, String>>,
    pub cwd: Option<Seq<char>>,
}

impl View for StdioTarget {
    type V = StdioTargetView;

    open spec fn view(&self) -> StdioTargetView {
        StdioTargetView {
            command: self.command@,
            args: self.args.deep_view(),
            env: opt_table(self.env),
            cwd: self.cwd.deep_view(),
        }
    }
}

impl DeepView for StdioTarget {
    type V = StdioTargetView;

    open spec fn deep_view(&self) -> StdioTargetView {
        self@
    }
}

impl Clone for StdioTarget {
    fn clone(&self) -> (copy: Self)
        ensures
            copy@ == self@,
    {
        StdioTarget {
            command: self.command.clone(),
            args: clone_texts(&self.args),
            env: clone_opt_table(&self.env),
            cwd: self.cwd.clone(),
        }
    }
}

/// A server reached over server-sent events.
#[derive(Debug)]
pub struct SseTarget {
    pub url: String,
    pub headers: Option<BTreeMap<String, String>>,
    pub handshake_timeout_ms: Option<u64>,
}

/// What a `SseTarget` stands for in contracts.
pub struct SseTargetView {
    pub url: Seq<char>,
    pub headers: Option<Map<String, String>>,
    pub handshake_timeout_ms: Option<u64>,
}

impl View for SseTarget {
    type V = SseTargetView;

    open spec fn view(&self) -> SseTargetView {
        SseTargetView {
            url: self.url@,
            headers: opt_table(self.headers),
            handshake_timeout_ms: self.handshake_timeout_ms,
        }
    }
}

impl DeepView for SseTarget {
    type V = SseTargetView;

    open spec fn deep_view(&self) -> SseTargetView {
        self@
    }
}

impl Clone for SseTarget {
    fn clone(&self) -> (copy: Self)
        ensures
            copy@ == self@,
    {
        SseTarget {
            url: self.url.clone(),
            headers: clone_opt_table(&self.headers),
            handshake_timeout_ms: self.handshake_timeout_ms,
        }
    }
}

/// A server reached over streamable HTTP.
#[derive(Debug)]
pub struct HttpTarget {
    pub url: String,
    pub headers: Option<BTreeMap<String, String>>,
    pub auth_token: Option<String>,
    pub handshake_timeout_ms: Option<u64>,
}

/// What a `HttpTarget` stands for in contracts.
pub struct HttpTargetView {
    pub url: Seq<char>,
    pub headers: Option<Map<String, String>>,
    pub auth_token: Option<Seq<char>>,
    pub handshake_timeout_ms: Option<u64>,
}

impl View for HttpTarget {
    type V = HttpTargetView;

    open spec fn view(&self) -> HttpTargetView {
        HttpTargetView {
            url: self.url@,
            headers: opt_table(self.headers),
            auth_token: self.auth_token.deep_view(),
            handshake_timeout_ms: self.handshake_timeout_ms,
        }
    }
}

impl DeepView for HttpTarget {
    type V = HttpTargetView;

    open spec fn deep_view(&self) -> HttpTargetView {
        self@
    }
}

impl Clone for HttpTarget {
    fn clone(&self) -> (copy: Self)
        ensures
            copy@ == self@,
    {
        HttpTarget {
            url: self.url.clone(),
            headers: clone_opt_table(&self.headers),
            auth_token: self.auth_token.clone(),
            handshake_timeout_ms: self.handshake_timeout_ms,
        }
    }
}

/// The target of a call as recorded for audit.
#[derive(Debug)]
pub struct TargetDescriptor {
    pub transport: String,
    pub command: Option<String>,
    pub url: Option<String>,
    pub headers: Option<BTreeMap<String, String>>,
}

/// What a `TargetDescriptor` stands for in contracts.
pub struct TargetDescriptorView {
    pub transport: Seq<char>,
    pub command: Option<Seq<char>>,
    pub url: Option<Seq<char>>,
    pub headers: Option<Map<String, String>>,
}

impl View for TargetDescriptor {
    type V = TargetDescriptorView;

    open spec fn view(&self) -> TargetDescriptorView {
        TargetDescriptorView {
            transport: self.transport@,
            command: self.command.deep_view(),
            url: self.url.deep_view(),
            headers: opt_table(self.headers),
        }
    }
}

impl DeepView for TargetDescriptor {
    type V = TargetDescriptorView;

    open spec fn deep_view(&self) -> TargetDescriptorView {
        self@
    }
}

impl Clone for TargetDescriptor {
    fn clone(&self) -> (copy: Self)
        ensures
            copy@ == self@,
    {
        TargetDescriptor {
            transport: self.transport.clone(),
            command: self.command.clone(),
            url: self.url.clone(),
            headers: clone_opt_table(&self.headers),
        }
    }
}

/// A copy of an optional target descriptor.
pub fn clone_opt_target(target: &Option<TargetDescriptor>) -> (copy: Option<TargetDescriptor>)
    ensures
        copy.deep_view() == target.deep_view(),
{
    match target {
        Some(t) => Some(t.clone()),
        None => None,
    }
}

/// A request to call one tool of a target.
#[derive(Debug)]
pub struct CallRequest {
    pub tool_name: String,
    pub arguments_json: serde_json::Value,
    pub idempotency_key: Option<String>,
    pub external_reference: Option<String>,
    pub stream: bool,
    pub stdio: Option<StdioTarget>,
    pub sse: Option<SseTarget>,
    pub http: Option<HttpTarget>,
}

/// What a `CallRequest` stands for in contracts.
pub struct CallRequestView {
    pub tool_name: Seq<char>,
    pub arguments_json: serde_json::Value,
    pub idempotency_key: Option<Seq<char>>,
    pub external_reference: Option<Seq<char>>,
    pub stream: bool,
    pub stdio: Option<StdioTargetView>,
    pub sse: Option<SseTargetView>,
    pub http: Option<HttpTargetView>,
}

impl View for CallRequest {
    type V = CallRequestView;

    open spec fn view(&self) -> CallRequestView {
        CallRequestView {
            tool_name: self.tool_name@,
            arguments_json: self.arguments_json,
            idempotency_key: self.idempotency_key.deep_view(),
            external_reference: self.external_reference.deep_view(),
            stream: self.stream,
            stdio: self.stdio.deep_view(),
            sse: self.sse.deep_view(),
            http: self.http.deep_view(),
        }
    }
}

impl DeepView for CallRequest {
    type V = CallRequestView;

    open spec fn deep_view(&self) -> CallRequestView {
        self@
    }
}

impl Clone for CallRequest {
    fn clone(&self) -> (copy: Self)
        ensures
            copy@ == self@,
    {
        CallRequest {
            tool_name: self.tool_name.clone(),
            arguments_json: self.arguments_json.clone(),
            idempotency_key: self.idempotency_key.clone(),
            external_reference: self.external_reference.clone(),
            stream: self.stream,
            stdio: match &self.stdio {
                Some(t) => Some(t.clone()),
                None => None,
            },
            sse: match &self.sse {
                Some(t) => Some(t.clone()),
                None => None,
            },
            http: match &self.http {
                Some(t) => Some(t.clone()),
                None => None,
            },
        }
    }
}

/// A request to describe one tool of a target.
#[derive(Debug)]
pub struct DescribeRequest {
    pub tool_name: String,
    pub probe: ProbeRequest,
}

/// The durable record of one finished run.
#[derive(Debug)]
pub struct InspectionRunEvent {
    pub event_id: uuid::Uuid,
    pub run_id: uuid::Uuid,
    pub tool_name: String,
    pub state: String,
    pub started_at: String,
    pub duration_ms: u64,
    pub target: Option<TargetDescriptor>,
    pub request: Option<serde_json::Value>,
    pub response: Option<serde_json::Value>,
    pub error: Option<String>,
    pub idempotency_key: Option<String>,
    pub external_reference: Option<String>,
}

/// What a `InspectionRunEvent` stands for in contracts.
pub struct InspectionRunEventView {
    pub event_id: uuid::Uuid,
    pub run_id: uuid::Uuid,
    pub tool_name: Seq<char>,
    pub state: Seq<char>,
    pub started_at: Seq<char>,
    pub duration_ms: u64,
    pub target: Option<TargetDescriptorView>,
    pub request: Option<serde_json::Value>,
    pub response: Option<serde_json::Value>,
    pub error: Option<Seq<char>>,
    pub idempotency_key: Option<Seq<char>>,
    pub external_reference: Option<Seq<char>>,
}

impl View for InspectionRunEvent {
    type V = InspectionRunEventView;

    open spec fn view(&self) -> InspectionRunEventView {
        InspectionRunEventView {
            event_id: self.event_id,
            run_id: self.run_id,
            tool_name: self.tool_name@,
            state: self.state@,
            started_at: self.started_at@,
            duration_ms: self.duration_ms,
            target: self.target.deep_view(),
            request: self.request,
            response: self.response,
            error: self.error.deep_view(),
            idempotency_key: self.idempotency_key.deep_view(),
            external_reference: self.external_reference.deep_view(),
        }
    }
}

impl DeepView for InspectionRunEvent {
    type V = InspectionRunEventView;

    open spec fn deep_view(&self) -> InspectionRunEventView {
        self@
    }
}

impl Clone for InspectionRunEvent {
    fn clone(&self) -> (copy: Self)
        ensures
            copy@ == self@,
    {
        InspectionRunEvent {
            event_id: self.event_id,
            run_id: self.run_id,
            tool_name: self.tool_name.clone(),
            state: self.state.clone(),
            started_at: self.started_at.clone(),
            duration_ms: self.duration_ms,
            target: clone_opt_target(&self.target),
            request: self.request.clone(),
            response: self.response.clone(),
            error: self.error.clone(),
            idempotency_key: self.idempotency_key.clone(),
            external_reference: self.external_reference.clone(),
        }
    }
}

} // verus!
