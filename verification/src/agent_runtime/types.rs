//! Records exchanged with agent runtimes: identifiers, inputs, command
//! catalogs, status reports, interventions and bus filters.
//!
//! Free-form JSON payloads are held as their serialized JSON text.
use vstd::prelude::*;

use crate::text::owned;

verus! {

#[derive(Debug, Clone, PartialEq, Eq, Hash, Default)]
pub struct SessionId(pub String);

#[derive(Debug, Clone, PartialEq, Eq, Hash, Default)]
pub struct InstanceId(pub String);

#[derive(Debug, Clone, PartialEq, Eq, Hash, Default)]
pub struct CommandId(pub String);

#[derive(Debug, Clone, PartialEq, Eq, Hash, Default)]
pub struct SessionRef(pub String);

#[derive(Debug, Clone, PartialEq, Eq, Hash, Default)]
pub struct CallId(pub String);

#[derive(Debug, Clone, Copy, PartialEq, Eq, Structural, Default)]
pub struct AgentCapabilities {
    pub reasoning_stream: bool,
    pub tool_stream: bool,
    pub usage_reporting: bool,
    pub structured_intervention: bool,
    pub command_catalog: bool,
}

#[derive(Debug, Clone, PartialEq, Eq, Default)]
pub struct AgentInput {
    pub text: String,
    pub images: Vec<AgentImageInput>,
}

#[derive(Debug, Clone, PartialEq, Eq)]
pub struct AgentImageInput {
    pub media_type: String,
    pub data_base64: String,
}

#[derive(Debug, Clone, Copy, PartialEq, Eq, Structural)]
pub enum AgentCommandSource {
    ProviderNative,
    AdapterMapped,
}

impl Default for AgentCommandSource {
    /// Commands are provider-native unless said otherwise.
    fn default() -> (r: Self)
        ensures
            r == AgentCommandSource::ProviderNative,
    {
        AgentCommandSource::ProviderNative
    }
}

#[derive(Debug, Clone, Copy, PartialEq, Eq, Structural)]
pub enum AgentCommandCompletion {
    CommandResult,
    TurnCompleted,
    NoOutputAck,
    ProviderIdle,
}

impl Default for AgentCommandCompletion {
    /// A command completes with its turn unless said otherwise.
    fn default() -> (r: Self)
        ensures
            r == AgentCommandCompletion::TurnCompleted,
    {
        AgentCommandCompletion::TurnCompleted
    }
}

#[derive(Debug, Clone, PartialEq, Eq)]
pub enum AgentCommandInput {
    /// The command takes no input.
    NoInput,
    Text { label: String, required: bool },
    /// The input's JSON schema, as JSON text.
    JsonSchema { schema: String },
}

impl Default for AgentCommandInput {
    /// A command takes no input unless said otherwise.
    fn default() -> (r: Self)
        ensures
            r is NoInput,
    {
        AgentCommandInput::NoInput
    }
}

#[derive(Debug, Clone, PartialEq, Eq)]
pub struct AgentCommand {
    pub name: String,
    pub description: Option<String>,
    pub aliases: Vec<String>,
    pub source: AgentCommandSource,
    pub input: AgentCommandInput,
    pub completion: AgentCommandCompletion,
}

#[derive(Debug, Clone, PartialEq, Eq, Default)]
pub struct AgentCommandCatalog {
    pub commands: Vec<AgentCommand>,
    pub complete: bool,
    pub revision: u64,
}

#[derive(Debug, Clone, PartialEq, Eq)]
pub struct AgentCommandInvocation {
    pub name: String,
    pub args: Option<String>,
    /// The invocation's values, as JSON text.
    pub values: String,
    pub source: AgentCommandSource,
}

#[derive(Debug, Clone, PartialEq, Eq)]
pub enum AgentCommandResultData {
    Models(AgentModelCatalog),
    Permissions(AgentPermissionCatalog),
    Skills(AgentSkillCatalog),
    Commands(AgentCommandCatalog),
    ForkTargets(AgentForkTargetCatalog),
    Fork(AgentForkResult),
    Status(AgentStatus),
    Text { text: String },
    /// A JSON result, as JSON text.
    Json(String),
    Empty,
}

#[derive(Debug, Clone, PartialEq, Eq)]
pub struct AgentCommandResult {
    pub name: String,
    pub source: AgentCommandSource,
    pub data: AgentCommandResultData,
}

#[derive(Debug, Clone, PartialEq, Eq)]
pub struct AgentModelSelection {
    pub model: String,
    pub reasoning: Option<String>,
}

#[derive(Debug, Clone, PartialEq, Eq)]
pub struct AgentPermissionSelection {
    pub mode: String,
}

#[derive(Debug, Clone, PartialEq, Eq)]
pub struct AgentForkSelection {
    pub target_id: String,
}

#[derive(Debug, Clone, PartialEq, Eq, Default)]
pub struct AgentReasoningOption {
    pub value: String,
    pub description: Option<String>,
    pub is_default: Option<bool>,
}

#[derive(Debug, Clone, PartialEq, Eq, Default)]
pub struct AgentModelOption {
    pub id: String,
    pub display_name: Option<String>,
    pub description: Option<String>,
    pub supported_reasoning: Vec<AgentReasoningOption>,
}

#[derive(Debug, Clone, PartialEq, Eq, Default)]
pub struct AgentModelCatalog {
    pub current_model: Option<String>,
    pub current_reasoning: Option<String>,
    pub models: Vec<AgentModelOption>,
}

#[derive(Debug, Clone, PartialEq, Eq, Default)]
pub struct AgentPermissionOption {
    pub id: String,
    pub display_name: Option<String>,
    pub description: Option<String>,
}

#[derive(Debug, Clone, PartialEq, Eq, Default)]
pub struct AgentPermissionCatalog {
    pub current_mode: Option<String>,
    pub modes: Vec<AgentPermissionOption>,
}

#[derive(Debug, Clone, Copy, PartialEq, Eq, Structural, Default)]
pub struct AgentTokenUsage {
    pub input_tokens: Option<u64>,
    pub output_tokens: Option<u64>,
    pub total_tokens: Option<u64>,
}

#[derive(Debug, Clone, Copy, PartialEq, Eq, Structural, Default)]
pub struct AgentContextUsage {
    pub used_tokens: Option<u64>,
    pub max_tokens: Option<u64>,
    pub percent_used: Option<u8>,
}

#[derive(Debug, Clone, PartialEq, Eq, Default)]
pub struct AgentStatus {
    pub version: Option<String>,
    pub session_id: Option<String>,
    pub directory: Option<String>,
    pub model: Option<String>,
    pub model_detail: Option<String>,
    pub reasoning: Option<String>,
    pub permissions: Option<String>,
    pub account: Option<String>,
    pub base_url: Option<String>,
    pub proxy: Option<String>,
    pub setting_sources: Option<String>,
    pub agents_md: Option<String>,
    pub tokens: Option<AgentTokenUsage>,
    pub context: Option<AgentContextUsage>,
    pub compactions: Option<u64>,
    pub origin: Option<String>,
}

#[derive(Debug, Clone, PartialEq, Eq, Default)]
pub struct AgentSkillSummary {
    pub name: String,
    pub display_name: Option<String>,
    pub description: Option<String>,
    pub path: Option<String>,
    pub scope: Option<String>,
    pub source: Option<String>,
    pub tokens: Option<u64>,
    pub enabled: Option<bool>,
}

#[derive(Debug, Clone, PartialEq, Eq, Default)]
pub struct AgentSkillCatalog {
    pub skills: Vec<AgentSkillSummary>,
}

#[derive(Debug, Clone, PartialEq, Eq, Default)]
pub struct AgentForkResult {
    pub session_ref: Option<SessionRef>,
    pub source_session_ref: Option<SessionRef>,
}

#[derive(Debug, Clone, PartialEq, Eq, Default)]
pub struct AgentForkTarget {
    pub id: String,
    pub label: Option<String>,
    pub description: Option<String>,
}

#[derive(Debug, Clone, PartialEq, Eq, Default)]
pub struct AgentForkTargetCatalog {
    pub targets: Vec<AgentForkTarget>,
}

/// The JSON text of the JSON `null` value.
pub open spec fn json_null_text() -> Seq<char> {
    "null"@
}

#[derive(Debug, Clone, PartialEq, Eq)]
pub struct OpenSession {
    pub model: Option<String>,
    pub cwd: Option<String>,
    pub initial_input: Option<AgentInput>,
    /// Runtime-level idle process recycle timeout. `None` uses the
    /// runtime default, while `Some(0)` disables automatic recycle for
    /// this session.
    pub idle_timeout_ms: Option<u64>,
    /// Provider-specific arguments, as JSON text.
    pub args: String,
}

impl Default for OpenSession {
    /// No model, directory, input or timeout, and `null` arguments.
    fn default() -> (r: Self)
        ensures
            r.model is None,
            r.cwd is None,
            r.initial_input is None,
            r.idle_timeout_ms is None,
            r.args@ == json_null_text(),
    {
        OpenSession {
            model: None,
            cwd: None,
            initial_input: None,
            idle_timeout_ms: None,
            args: owned("null"),
        }
    }
}

#[derive(Debug, Clone, PartialEq, Eq)]
pub struct ResumeSession {
    pub session_ref: SessionRef,
    /// Runtime-level idle process recycle timeout. `None` uses the
    /// runtime default, while `Some(0)` disables automatic recycle for
    /// this session.
    pub idle_timeout_ms: Option<u64>,
    /// Provider-specific arguments, as JSON text.
    pub args: String,
}

impl Default for ResumeSession {
    /// An empty session reference, no timeout, and `null` arguments.
    fn default() -> (r: Self)
        ensures
            r.session_ref.0@ == Seq::<char>::empty(),
            r.idle_timeout_ms is None,
            r.args@ == json_null_text(),
    {
        ResumeSession {
            session_ref: SessionRef(String::new()),
            idle_timeout_ms: None,
            args: owned("null"),
        }
    }
}

#[derive(Debug, Clone, Copy, PartialEq, Eq, Structural)]
pub enum ApprovalDecision {
    Allow,
    Deny,
}

#[derive(Debug, Clone, PartialEq, Eq)]
pub struct ApprovalRequest {
    pub req_id: String,
    pub tool_name: String,
    pub message: Option<String>,
    /// The tool input, as JSON text.
    pub input: Option<String>,
}

#[derive(Debug, Clone, PartialEq, Eq)]
pub struct QuestionOption {
    pub label: String,
    pub description: Option<String>,
}

#[derive(Debug, Clone, PartialEq, Eq)]
pub struct Question {
    pub header: Option<String>,
    pub text: String,
    pub options: Vec<QuestionOption>,
    pub multi_select: bool,
}

#[derive(Debug, Clone, PartialEq, Eq)]
pub struct QuestionAnswer {
    pub values: Vec<String>,
}

#[derive(Debug, Clone, PartialEq, Eq)]
pub struct QuestionResponse {
    pub answers: Vec<QuestionAnswer>,
}

#[derive(Debug, Clone, PartialEq, Eq)]
pub struct QuestionRequest {
    pub req_id: String,
    pub questions: Vec<Question>,
}

#[derive(Debug, Clone, PartialEq, Eq)]
pub enum InterventionRequest {
    Approval(ApprovalRequest),
    Question(QuestionRequest),
}

#[derive(Debug, Clone, PartialEq, Eq)]
pub enum InterventionResponse {
    Approval(ApprovalDecision),
    Answers(QuestionResponse),
}

#[derive(Debug, Clone, Copy, PartialEq, Eq, Structural)]
pub struct RuntimeBusFilter {
    pub session_lifecycle: bool,
    pub user_messages: bool,
    pub assistant_messages: bool,
    pub reasoning: bool,
    pub tool_calls: bool,
    pub tool_results: bool,
    pub usage: bool,
    pub intervention_requests: bool,
    /// Emit turn-completed / turn-failed signals.
    /// Defaults to true because these are control-plane markers
    /// consumers need to detect end-of-turn reliably.
    pub turn_lifecycle: bool,
}

impl Default for RuntimeBusFilter {
    /// Session lifecycle and turn lifecycle events only.
    fn default() -> (r: Self)
        ensures
            r == (RuntimeBusFilter {
                session_lifecycle: true,
                user_messages: false,
                assistant_messages: false,
                reasoning: false,
                tool_calls: false,
                tool_results: false,
                usage: false,
                intervention_requests: false,
                turn_lifecycle: true,
            }),
    {
        RuntimeBusFilter {
            session_lifecycle: true,
            user_messages: false,
            assistant_messages: false,
            reasoning: false,
            tool_calls: false,
            tool_results: false,
            usage: false,
            intervention_requests: false,
            turn_lifecycle: true,
        }
    }
}

#[derive(Debug, Clone, PartialEq, Eq)]
pub struct CommandRejectedEvent {
    pub command_id: Option<CommandId>,
    pub session_id: Option<SessionId>,
    pub instance_id: Option<InstanceId>,
    pub message: String,
}

} // verus!
