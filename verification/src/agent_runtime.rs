//! Agent runtimes: remote environments and their registry, file-transfer
//! safety, and the records exchanged with runtimes.
pub mod file_safety;
pub mod registry;
pub mod remote;
pub mod types;

pub use file_safety::RemoteFileSafety;
pub use registry::RemoteEnvironmentRegistry;
pub use remote::{RemoteEnvironmentConfig, RemoteEnvironmentError, RemoteTransport, SessionOrigin};
pub use types::{
    AgentCapabilities, AgentCommand, AgentCommandCatalog, AgentCommandCompletion,
    AgentCommandInput, AgentCommandInvocation, AgentCommandResult, AgentCommandResultData,
    AgentCommandSource, AgentContextUsage, AgentForkResult, AgentForkSelection, AgentForkTarget,
    AgentForkTargetCatalog, AgentImageInput, AgentInput, AgentModelCatalog, AgentModelOption,
    AgentModelSelection, AgentPermissionCatalog, AgentPermissionOption, AgentPermissionSelection,
    AgentReasoningOption, AgentSkillCatalog, AgentSkillSummary, AgentStatus, AgentTokenUsage,
    ApprovalDecision, ApprovalRequest, CallId, CommandId, CommandRejectedEvent, InstanceId,
    InterventionRequest, InterventionResponse, OpenSession, Question, QuestionAnswer,
    QuestionOption, QuestionRequest, QuestionResponse, ResumeSession, RuntimeBusFilter, SessionId,
    SessionRef,
};
