//! The control plane: workspace, channel and session records, settings,
//! and status snapshots.
pub mod status;
pub mod types;

pub use status::build_status_snapshot;
pub use types::{
    message_session_binding_id, ChannelBinding, ChannelBindingId, CommandCompletionPolicy,
    CommandId, CommandState, CommandWorkflow, EffectiveSettings, LiveInstanceId,
    LiveInstanceRecord, LiveInstanceState, MessageSessionBinding, MessageSessionBindingId,
    NotificationSettings, PanelRenderId, PanelRenderRecord, ProviderSessionId,
    ProviderSessionRecord, ReconcileOutcome, Revision, ScheduledTaskId, ScheduledTaskRecord,
    ScopedSettingsOverride, SessionDefaultSettings, StatusSnapshot, SubAgentActionId,
    SubAgentLinkId, SystemSettings, TimelineItem, TimelineItemKind, TimelineSeq, TurnId,
    TurnRecord, TurnSource, TurnState, WorkspaceBinding, WorkspaceId,
};
