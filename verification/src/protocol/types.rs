//! Payloads exchanged with the gateway.
//!
//! These are plain data carriers; their wire encoding lives with the
//! program around the library.

use vstd::prelude::*;

verus! {

/// Message role for transcript messages.
#[derive(Debug, Clone, Copy, PartialEq, Eq, Structural)]
pub enum MessageRole {
    User,
    Assistant,
    System,
    Tool,
}

/// Transcript message.
#[derive(Debug, Clone, PartialEq, Eq)]
pub struct GatewayTranscriptMessage {
    pub context: Option<String>,
    pub name: Option<String>,
    pub role: MessageRole,
    pub text: Option<String>,
}

/// Session information.
#[derive(Debug, Clone, PartialEq, Eq)]
pub struct SessionInfo {
    pub id: Option<String>,
    pub model: Option<String>,
    pub title: Option<String>,
    pub started_at: Option<i64>,
    pub message_count: Option<usize>,
}

/// Optional capability counts reported by the gateway in the ready message.
#[derive(Debug, Clone, Default, PartialEq, Eq)]
pub struct GatewayCapabilities {
    pub tool_count: Option<u16>,
    pub skill_count: Option<u16>,
    pub mcp_servers: Option<Vec<String>>,
}

/// Session list item.
#[derive(Debug, Clone, PartialEq, Eq)]
pub struct SessionListItem {
    pub id: String,
    pub message_count: usize,
    pub preview: String,
    pub started_at: i64,
    pub title: String,
    pub source: Option<String>,
}

/// Model option provider.
#[derive(Debug, Clone, PartialEq, Eq)]
pub struct ModelOptionProvider {
    pub name: String,
    pub slug: String,
    pub models: Option<Vec<String>>,
    pub total_models: Option<usize>,
    pub authenticated: Option<bool>,
    pub is_current: Option<bool>,
}

/// Session create request.
#[derive(Debug, Clone, Default, PartialEq, Eq)]
pub struct SessionCreateRequest {
    pub model: Option<String>,
    pub provider: Option<String>,
    pub toolsets: Option<Vec<String>>,
    pub skills: Option<Vec<String>>,
    pub worktree: Option<bool>,
}

/// Session create response.
#[derive(Debug, Clone, PartialEq, Eq)]
pub struct SessionCreateResponse {
    pub session_id: String,
    pub info: Option<SessionInfo>,
}

/// Session resume request.
#[derive(Debug, Clone, PartialEq, Eq)]
pub struct SessionResumeRequest {
    pub session_id: String,
}

/// Inflight turn information.
#[derive(Debug, Clone, PartialEq, Eq)]
pub struct SessionInflightTurn {
    pub user: Option<String>,
    pub assistant: Option<String>,
    pub streaming: Option<bool>,
}

/// Session resume response.
#[derive(Debug, Clone, PartialEq, Eq)]
pub struct SessionResumeResponse {
    pub session_id: String,
    pub messages: Option<Vec<GatewayTranscriptMessage>>,
    pub info: Option<SessionInfo>,
    pub running: Option<bool>,
    pub inflight: Option<SessionInflightTurn>,
}

/// Session list response.
#[derive(Debug, Clone, PartialEq, Eq)]
pub struct SessionListResponse {
    pub sessions: Option<Vec<SessionListItem>>,
}

/// Message delta (streaming).
#[derive(Debug, Clone, PartialEq, Eq)]
pub struct MessageDelta {
    pub session_id: Option<String>,
    pub text: String,
    pub rendered: Option<String>,
}

/// Token usage information.
#[derive(Debug, Clone, Copy, Default, PartialEq, Eq, Structural)]
pub struct TokenUsage {
    pub prompt_tokens: usize,
    pub completion_tokens: usize,
    pub total_tokens: usize,
    pub cache_read_tokens: Option<usize>,
    pub cache_write_tokens: Option<usize>,
    pub prompt_category_tokens: Option<u32>,
    pub tool_call_tokens: Option<u32>,
    pub reasoning_tokens: Option<u32>,
    pub output_tokens: Option<u32>,
    pub failed_tool_call_tokens: Option<u32>,
}

/// The value of an optional count, or the given stand-in when it is absent.
pub open spec fn count_or(v: Option<u32>, stand_in: u32) -> u32 {
    match v {
        Some(x) => x,
        None => stand_in,
    }
}

impl TokenUsage {
    /// The five detailed counts (prompt, tool call, reasoning, output, failed
    /// tool call), each with a fixed stand-in where the gateway sent none.
    pub fn get_mock_detailed_usage(&self) -> (r: (u32, u32, u32, u32, u32))
        ensures
            r == (
                count_or(self.prompt_category_tokens, 150),
                count_or(self.tool_call_tokens, 80),
                count_or(self.reasoning_tokens, 400),
                count_or(self.output_tokens, 200),
                count_or(self.failed_tool_call_tokens, 0),
            ),
    {
        (
            self.prompt_category_tokens.unwrap_or(150),
            self.tool_call_tokens.unwrap_or(80),
            self.reasoning_tokens.unwrap_or(400),
            self.output_tokens.unwrap_or(200),
            self.failed_tool_call_tokens.unwrap_or(0),
        )
    }
}

/// Message complete.
#[derive(Debug, Clone, PartialEq, Eq)]
pub struct MessageComplete {
    pub session_id: Option<String>,
    pub text: String,
    pub status: String,
    pub usage: Option<TokenUsage>,
    pub reasoning: Option<String>,
    pub warning: Option<String>,
    pub rendered: Option<String>,
}

/// Tool start notification.
#[derive(Debug, Clone, PartialEq, Eq)]
pub struct ToolStart {
    pub session_id: Option<String>,
    pub tool_name: String,
    pub call_id: String,
    pub arguments: Option<String>,
}

/// Tool progress update.
#[derive(Debug, Clone, PartialEq, Eq)]
pub struct ToolProgress {
    pub session_id: Option<String>,
    pub call_id: String,
    pub output: String,
}

/// Approval response.
#[derive(Debug, Clone, PartialEq, Eq)]
pub struct ApprovalResponse {
    pub request_id: String,
    pub approved: bool,
    pub choice: String,
}

/// Completion item.
#[derive(Debug, Clone, PartialEq, Eq)]
pub struct CompletionItem {
    pub display: String,
    pub text: String,
    pub meta: Option<String>,
}

/// Completion response.
#[derive(Debug, Clone, PartialEq, Eq)]
pub struct CompletionResponse {
    pub items: Option<Vec<CompletionItem>>,
    pub replace_from: Option<usize>,
}

/// Slash exec request.
#[derive(Debug, Clone, PartialEq, Eq)]
pub struct SlashExecRequest {
    pub session_id: String,
    pub command: String,
}

/// Slash exec response.
#[derive(Debug, Clone, PartialEq, Eq)]
pub struct SlashExecResponse {
    pub output: Option<String>,
    pub warning: Option<String>,
}

/// Config get request.
#[derive(Debug, Clone, PartialEq, Eq)]
pub struct ConfigGetRequest {
    pub key: String,
}

/// Config get response.
#[derive(Debug, Clone, PartialEq, Eq)]
pub struct ConfigGetResponse {
    pub value: Option<String>,
    pub display: Option<String>,
    pub home: Option<String>,
}

/// Prompt submit request.
#[derive(Debug, Clone, PartialEq, Eq)]
pub struct PromptSubmitRequest {
    pub session_id: String,
    pub text: String,
    pub images: Option<Vec<String>>,
    pub truncate_before_user_ordinal: Option<usize>,
}

/// Prompt submit response.
#[derive(Debug, Clone, PartialEq, Eq)]
pub struct PromptSubmitResponse {
    pub ok: Option<bool>,
    pub status: Option<String>,
}

/// Gateway error.
#[derive(Debug, Clone, PartialEq, Eq)]
pub struct GatewayError {
    pub message: String,
    pub details: Option<String>,
}

/// Gateway stderr event.
#[derive(Debug, Clone, PartialEq, Eq)]
pub struct GatewayStderr {
    pub line: String,
    pub level: Option<String>,
}

/// Clarify request event.
#[derive(Debug, Clone, PartialEq, Eq)]
pub struct ClarifyRequest {
    pub request_id: String,
    pub question: String,
    pub choices: Option<Vec<String>>,
}

/// Sudo request event.
#[derive(Debug, Clone, PartialEq, Eq)]
pub struct SudoRequest {
    pub request_id: String,
}

/// Secret request event.
#[derive(Debug, Clone, PartialEq, Eq)]
pub struct SecretRequest {
    pub request_id: String,
    pub env_var: String,
    pub prompt: String,
}

/// Clarify response params.
#[derive(Debug, Clone, PartialEq, Eq)]
pub struct ClarifyResponse {
    pub request_id: String,
    pub answer: String,
}

/// Sudo response params.
#[derive(Debug, Clone, PartialEq, Eq)]
pub struct SudoResponse {
    pub request_id: String,
    pub password: String,
}

/// Secret response params.
#[derive(Debug, Clone, PartialEq, Eq)]
pub struct SecretResponse {
    pub request_id: String,
    pub value: String,
}

/// Session close response.
#[derive(Debug, Clone, Default, PartialEq, Eq)]
pub struct SessionCloseResponse {
    pub session_id: Option<String>,
    pub success: Option<bool>,
}

/// Approval respond response.
#[derive(Debug, Clone, Default, PartialEq, Eq)]
pub struct ApprovalRespondResponse {
    pub success: Option<bool>,
}

/// Config set response.
#[derive(Debug, Clone, Default, PartialEq, Eq)]
pub struct ConfigSetResponse {
    pub success: Option<bool>,
}

/// Terminal resize response.
#[derive(Debug, Clone, Default, PartialEq, Eq)]
pub struct TerminalResizeResponse {
    pub success: Option<bool>,
}

/// Clarify respond response.
#[derive(Debug, Clone, Default, PartialEq, Eq)]
pub struct ClarifyRespondResponse {
    pub status: Option<String>,
    pub ok: Option<bool>,
}

/// Sudo respond response.
#[derive(Debug, Clone, Default, PartialEq, Eq)]
pub struct SudoRespondResponse {
    pub status: Option<String>,
    pub ok: Option<bool>,
}

/// Secret respond response.
#[derive(Debug, Clone, Default, PartialEq, Eq)]
pub struct SecretRespondResponse {
    pub status: Option<String>,
    pub ok: Option<bool>,
}

/// Session interrupt response.
#[derive(Debug, Clone, Default, PartialEq, Eq)]
pub struct SessionInterruptResponse {
    pub status: Option<String>,
    pub ok: Option<bool>,
}

/// Session most recent response.
#[derive(Debug, Clone, Default, PartialEq, Eq)]
pub struct SessionMostRecentResponse {
    pub session_id: Option<String>,
}

/// Session delete response.
#[derive(Debug, Clone, Default, PartialEq, Eq)]
pub struct SessionDeleteResponse {
    pub deleted: Option<String>,
}

/// Session cwd set response.
#[derive(Debug, Clone, Default, PartialEq, Eq)]
pub struct SessionCwdSetResponse {
    pub cwd: Option<String>,
    pub success: Option<bool>,
}

/// Model options response.
#[derive(Debug, Clone, Default, PartialEq, Eq)]
pub struct ModelOptionsResponse {
    pub providers: Option<Vec<ModelOptionProvider>>,
}

/// Session activate response.
#[derive(Debug, Clone, PartialEq, Eq)]
pub struct SessionActivateResponse {
    pub session_id: String,
    pub messages: Option<Vec<GatewayTranscriptMessage>>,
    pub info: Option<SessionInfo>,
    pub running: Option<bool>,
}

/// Session inflight response.
#[derive(Debug, Clone, PartialEq, Eq)]
pub struct SessionInflightResponse {
    pub session_id: String,
    pub inflight: Option<SessionInflightTurn>,
}

/// All requests from the terminal client to the gateway.
#[derive(Debug, Clone, PartialEq, Eq)]
pub enum TuiRequest {
    GatewayReady,
    SessionCreate(SessionCreateRequest),
    SessionResume(SessionResumeRequest),
    SessionList,
    SessionClose { session_id: String },
    SessionActivate { session_id: String },
    PromptSubmit(PromptSubmitRequest),
    ApprovalRespond(ApprovalResponse),
    CompleteSlash { text: String },
    CompletePath { word: String },
    ClarifyRespond(ClarifyResponse),
    SudoRespond(SudoResponse),
    SecretRespond(SecretResponse),
    SessionInterrupt { session_id: String },
    SessionMostRecent,
    SessionDelete { session_id: String },
    SessionCwdSet { session_id: String, cwd: String },
    ModelOptions,
    SlashExec(SlashExecRequest),
    ConfigGet(ConfigGetRequest),
    ConfigSet { key: String, value: String },
    TerminalResize { cols: u16, rows: u16 },
}

/// The JSON-RPC method name under which a request is sent.
pub open spec fn spec_method_name(r: TuiRequest) -> Seq<char> {
    match r {
        TuiRequest::GatewayReady => "gateway.ready"@,
        TuiRequest::SessionCreate(_) => "session.create"@,
        TuiRequest::SessionResume(_) => "session.resume"@,
        TuiRequest::SessionList => "session.list"@,
        TuiRequest::SessionClose { .. } => "session.close"@,
        TuiRequest::SessionActivate { .. } => "session.activate"@,
        TuiRequest::PromptSubmit(_) => "prompt.submit"@,
        TuiRequest::ApprovalRespond(_) => "approval.respond"@,
        TuiRequest::CompleteSlash { .. } => "complete.slash"@,
        TuiRequest::CompletePath { .. } => "complete.path"@,
        TuiRequest::ClarifyRespond(_) => "clarify.respond"@,
        TuiRequest::SudoRespond(_) => "sudo.respond"@,
        TuiRequest::SecretRespond(_) => "secret.respond"@,
        TuiRequest::SessionInterrupt { .. } => "session.interrupt"@,
        TuiRequest::SessionMostRecent => "session.most_recent"@,
        TuiRequest::SessionDelete { .. } => "session.delete"@,
        TuiRequest::SessionCwdSet { .. } => "session.cwd.set"@,
        TuiRequest::ModelOptions => "model.options"@,
        TuiRequest::SlashExec(_) => "slash.exec"@,
        TuiRequest::ConfigGet(_) => "config.get"@,
        TuiRequest::ConfigSet { .. } => "config.set"@,
        TuiRequest::TerminalResize { .. } => "terminal.resize"@,
    }
}

impl TuiRequest {
    /// The JSON-RPC method name under which this request is sent.
    pub fn method_name(&self) -> (r: &'static str)
        ensures
            r@ == spec_method_name(*self),
    {
        match self {
            TuiRequest::GatewayReady => "gateway.ready",
            TuiRequest::SessionCreate(_) => "session.create",
            TuiRequest::SessionResume(_) => "session.resume",
            TuiRequest::SessionList => "session.list",
            TuiRequest::SessionClose { .. } => "session.close",
            TuiRequest::SessionActivate { .. } => "session.activate",
            TuiRequest::PromptSubmit(_) => "prompt.submit",
            TuiRequest::ApprovalRespond(_) => "approval.respond",
            TuiRequest::CompleteSlash { .. } => "complete.slash",
            TuiRequest::CompletePath { .. } => "complete.path",
            TuiRequest::ClarifyRespond(_) => "clarify.respond",
            TuiRequest::SudoRespond(_) => "sudo.respond",
            TuiRequest::SecretRespond(_) => "secret.respond",
            TuiRequest::SessionInterrupt { .. } => "session.interrupt",
            TuiRequest::SessionMostRecent => "session.most_recent",
            TuiRequest::SessionDelete { .. } => "session.delete",
            TuiRequest::SessionCwdSet { .. } => "session.cwd.set",
            TuiRequest::ModelOptions => "model.options",
            TuiRequest::SlashExec(_) => "slash.exec",
            TuiRequest::ConfigGet(_) => "config.get",
            TuiRequest::ConfigSet { .. } => "config.set",
            TuiRequest::TerminalResize { .. } => "terminal.resize",
        }
    }
}

} // verus!
