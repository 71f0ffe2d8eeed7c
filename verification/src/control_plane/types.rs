//! Control-plane records: identifiers, sequence numbers and revisions,
//! settings and their per-scope overrides, bindings between workspaces,
//! channels and provider sessions, runtime instances, turns, timeline items,
//! command workflows, scheduled tasks, and the status snapshot.
//!
//! Paths are held as text, and free-form JSON payloads as their serialized
//! JSON text.
use std::collections::HashMap;
use std::time::SystemTime;
use vstd::prelude::*;
use vstd::string::StringExecFns;

use crate::agent_runtime::types::{AgentContextUsage, AgentStatus, AgentTokenUsage};
use crate::text::owned;

verus! {

#[verifier::external_type_specification]
#[verifier::external_body]
pub struct ExSystemTime(std::time::SystemTime);

/// `<SystemTime as Clone>::clone`. Claimed: the clone is the same instant;
/// `SystemTime` is `Copy`, and its `Clone` is the copy.
pub assume_specification[ <SystemTime as Clone>::clone ](t: &SystemTime) -> (r: SystemTime)
    ensures
        r == *t,
;

/// `SystemTime::now`. Nothing is claimed of the result: it is the clock's reading.
#[verifier::external_body]
fn now() -> SystemTime {
    SystemTime::now()
}

/// Identifier of a workspace.
#[derive(Debug, Clone, PartialEq, Eq, Hash, Default, PartialOrd, Ord)]
pub struct WorkspaceId(String);

impl View for WorkspaceId {
    type V = Seq<char>;

    closed spec fn view(&self) -> Seq<char> {
        self.0@
    }
}

impl WorkspaceId {
    /// The identifier with the given text.
    pub fn new(value: &str) -> (r: Self)
        ensures
            r@ == value@,
    {
        WorkspaceId(owned(value))
    }

    /// The text of the identifier.
    pub fn as_str(&self) -> (r: &str)
        ensures
            r@ == self@,
    {
        self.0.as_str()
    }

    /// A copy of the identifier.
    pub(crate) fn duplicate(&self) -> (r: Self)
        ensures
            r == *self,
    {
        WorkspaceId(self.0.clone())
    }
}

impl<'a> From<&'a str> for WorkspaceId {
    /// The identifier with the given text.
    fn from(value: &'a str) -> (r: Self)
        ensures
            r@ == value@,
    {
        WorkspaceId::new(value)
    }
}

impl<'a> vstd::std_specs::convert::FromSpecImpl<&'a str> for WorkspaceId {
    /// The conversion is described by the `ensures` of `from`, not by `from_spec`.
    open spec fn obeys_from_spec() -> bool {
        false
    }

    open spec fn from_spec(v: &'a str) -> Self {
        vstd::pervasive::arbitrary()
    }
}

/// Identifier of a channel binding.
#[derive(Debug, Clone, PartialEq, Eq, Hash, Default, PartialOrd, Ord)]
pub struct ChannelBindingId(String);

impl View for ChannelBindingId {
    type V = Seq<char>;

    closed spec fn view(&self) -> Seq<char> {
        self.0@
    }
}

impl ChannelBindingId {
    /// The identifier with the given text.
    pub fn new(value: &str) -> (r: Self)
        ensures
            r@ == value@,
    {
        ChannelBindingId(owned(value))
    }

    /// The text of the identifier.
    pub fn as_str(&self) -> (r: &str)
        ensures
            r@ == self@,
    {
        self.0.as_str()
    }

    /// A copy of the identifier.
    pub(crate) fn duplicate(&self) -> (r: Self)
        ensures
            r == *self,
    {
        ChannelBindingId(self.0.clone())
    }
}

impl<'a> From<&'a str> for ChannelBindingId {
    /// The identifier with the given text.
    fn from(value: &'a str) -> (r: Self)
        ensures
            r@ == value@,
    {
        ChannelBindingId::new(value)
    }
}

impl<'a> vstd::std_specs::convert::FromSpecImpl<&'a str> for ChannelBindingId {
    /// The conversion is described by the `ensures` of `from`, not by `from_spec`.
    open spec fn obeys_from_spec() -> bool {
        false
    }

    open spec fn from_spec(v: &'a str) -> Self {
        vstd::pervasive::arbitrary()
    }
}

/// Identifier of a rendered status panel.
#[derive(Debug, Clone, PartialEq, Eq, Hash, Default, PartialOrd, Ord)]
pub struct PanelRenderId(String);

impl View for PanelRenderId {
    type V = Seq<char>;

    closed spec fn view(&self) -> Seq<char> {
        self.0@
    }
}

impl PanelRenderId {
    /// The identifier with the given text.
    pub fn new(value: &str) -> (r: Self)
        ensures
            r@ == value@,
    {
        PanelRenderId(owned(value))
    }

    /// The text of the identifier.
    pub fn as_str(&self) -> (r: &str)
        ensures
            r@ == self@,
    {
        self.0.as_str()
    }
}

impl<'a> From<&'a str> for PanelRenderId {
    /// The identifier with the given text.
    fn from(value: &'a str) -> (r: Self)
        ensures
            r@ == value@,
    {
        PanelRenderId::new(value)
    }
}

impl<'a> vstd::std_specs::convert::FromSpecImpl<&'a str> for PanelRenderId {
    /// The conversion is described by the `ensures` of `from`, not by `from_spec`.
    open spec fn obeys_from_spec() -> bool {
        false
    }

    open spec fn from_spec(v: &'a str) -> Self {
        vstd::pervasive::arbitrary()
    }
}

/// Identifier of a provider session.
#[derive(Debug, Clone, PartialEq, Eq, Hash, Default, PartialOrd, Ord)]
pub struct ProviderSessionId(String);

impl View for ProviderSessionId {
    type V = Seq<char>;

    closed spec fn view(&self) -> Seq<char> {
        self.0@
    }
}

impl ProviderSessionId {
    /// The identifier with the given text.
    pub fn new(value: &str) -> (r: Self)
        ensures
            r@ == value@,
    {
        ProviderSessionId(owned(value))
    }

    /// The text of the identifier.
    pub fn as_str(&self) -> (r: &str)
        ensures
            r@ == self@,
    {
        self.0.as_str()
    }

    /// A copy of the identifier.
    pub(crate) fn duplicate(&self) -> (r: Self)
        ensures
            r == *self,
    {
        ProviderSessionId(self.0.clone())
    }
}

impl<'a> From<&'a str> for ProviderSessionId {
    /// The identifier with the given text.
    fn from(value: &'a str) -> (r: Self)
        ensures
            r@ == value@,
    {
        ProviderSessionId::new(value)
    }
}

impl<'a> vstd::std_specs::convert::FromSpecImpl<&'a str> for ProviderSessionId {
    /// The conversion is described by the `ensures` of `from`, not by `from_spec`.
    open spec fn obeys_from_spec() -> bool {
        false
    }

    open spec fn from_spec(v: &'a str) -> Self {
        vstd::pervasive::arbitrary()
    }
}

/// Identifier of a message-to-session binding.
#[derive(Debug, Clone, PartialEq, Eq, Hash, Default, PartialOrd, Ord)]
pub struct MessageSessionBindingId(String);

impl View for MessageSessionBindingId {
    type V = Seq<char>;

    closed spec fn view(&self) -> Seq<char> {
        self.0@
    }
}

impl MessageSessionBindingId {
    /// The identifier with the given text.
    pub fn new(value: &str) -> (r: Self)
        ensures
            r@ == value@,
    {
        MessageSessionBindingId(owned(value))
    }

    /// The text of the identifier.
    pub fn as_str(&self) -> (r: &str)
        ensures
            r@ == self@,
    {
        self.0.as_str()
    }
}

impl<'a> From<&'a str> for MessageSessionBindingId {
    /// The identifier with the given text.
    fn from(value: &'a str) -> (r: Self)
        ensures
            r@ == value@,
    {
        MessageSessionBindingId::new(value)
    }
}

impl<'a> vstd::std_specs::convert::FromSpecImpl<&'a str> for MessageSessionBindingId {
    /// The conversion is described by the `ensures` of `from`, not by `from_spec`.
    open spec fn obeys_from_spec() -> bool {
        false
    }

    open spec fn from_spec(v: &'a str) -> Self {
        vstd::pervasive::arbitrary()
    }
}

/// Identifier of a live runtime instance.
#[derive(Debug, Clone, PartialEq, Eq, Hash, Default, PartialOrd, Ord)]
pub struct LiveInstanceId(String);

impl View for LiveInstanceId {
    type V = Seq<char>;

    closed spec fn view(&self) -> Seq<char> {
        self.0@
    }
}

impl LiveInstanceId {
    /// The identifier with the given text.
    pub fn new(value: &str) -> (r: Self)
        ensures
            r@ == value@,
    {
        LiveInstanceId(owned(value))
    }

    /// The text of the identifier.
    pub fn as_str(&self) -> (r: &str)
        ensures
            r@ == self@,
    {
        self.0.as_str()
    }

    /// A copy of the identifier.
    pub(crate) fn duplicate(&self) -> (r: Self)
        ensures
            r == *self,
    {
        LiveInstanceId(self.0.clone())
    }
}

impl<'a> From<&'a str> for LiveInstanceId {
    /// The identifier with the given text.
    fn from(value: &'a str) -> (r: Self)
        ensures
            r@ == value@,
    {
        LiveInstanceId::new(value)
    }
}

impl<'a> vstd::std_specs::convert::FromSpecImpl<&'a str> for LiveInstanceId {
    /// The conversion is described by the `ensures` of `from`, not by `from_spec`.
    open spec fn obeys_from_spec() -> bool {
        false
    }

    open spec fn from_spec(v: &'a str) -> Self {
        vstd::pervasive::arbitrary()
    }
}

/// Identifier of a turn.
#[derive(Debug, Clone, PartialEq, Eq, Hash, Default, PartialOrd, Ord)]
pub struct TurnId(String);

impl View for TurnId {
    type V = Seq<char>;

    closed spec fn view(&self) -> Seq<char> {
        self.0@
    }
}

impl TurnId {
    /// The identifier with the given text.
    pub fn new(value: &str) -> (r: Self)
        ensures
            r@ == value@,
    {
        TurnId(owned(value))
    }

    /// The text of the identifier.
    pub fn as_str(&self) -> (r: &str)
        ensures
            r@ == self@,
    {
        self.0.as_str()
    }
}

impl<'a> From<&'a str> for TurnId {
    /// The identifier with the given text.
    fn from(value: &'a str) -> (r: Self)
        ensures
            r@ == value@,
    {
        TurnId::new(value)
    }
}

impl<'a> vstd::std_specs::convert::FromSpecImpl<&'a str> for TurnId {
    /// The conversion is described by the `ensures` of `from`, not by `from_spec`.
    open spec fn obeys_from_spec() -> bool {
        false
    }

    open spec fn from_spec(v: &'a str) -> Self {
        vstd::pervasive::arbitrary()
    }
}

/// Identifier of a command workflow.
#[derive(Debug, Clone, PartialEq, Eq, Hash, Default, PartialOrd, Ord)]
pub struct CommandId(String);

impl View for CommandId {
    type V = Seq<char>;

    closed spec fn view(&self) -> Seq<char> {
        self.0@
    }
}

impl CommandId {
    /// The identifier with the given text.
    pub fn new(value: &str) -> (r: Self)
        ensures
            r@ == value@,
    {
        CommandId(owned(value))
    }

    /// The text of the identifier.
    pub fn as_str(&self) -> (r: &str)
        ensures
            r@ == self@,
    {
        self.0.as_str()
    }

    /// Whether the identifier is the empty text.
    pub fn is_empty(&self) -> (r: bool)
        ensures
            r == (self@.len() == 0),
    {
        self.0.as_str().is_empty()
    }
}

impl<'a> From<&'a str> for CommandId {
    /// The identifier with the given text.
    fn from(value: &'a str) -> (r: Self)
        ensures
            r@ == value@,
    {
        CommandId::new(value)
    }
}

impl<'a> vstd::std_specs::convert::FromSpecImpl<&'a str> for CommandId {
    /// The conversion is described by the `ensures` of `from`, not by `from_spec`.
    open spec fn obeys_from_spec() -> bool {
        false
    }

    open spec fn from_spec(v: &'a str) -> Self {
        vstd::pervasive::arbitrary()
    }
}

/// Identifier of a sub-agent action.
#[derive(Debug, Clone, PartialEq, Eq, Hash, Default, PartialOrd, Ord)]
pub struct SubAgentActionId(String);

impl View for SubAgentActionId {
    type V = Seq<char>;

    closed spec fn view(&self) -> Seq<char> {
        self.0@
    }
}

impl SubAgentActionId {
    /// The identifier with the given text.
    pub fn new(value: &str) -> (r: Self)
        ensures
            r@ == value@,
    {
        SubAgentActionId(owned(value))
    }

    /// The text of the identifier.
    pub fn as_str(&self) -> (r: &str)
        ensures
            r@ == self@,
    {
        self.0.as_str()
    }
}

impl<'a> From<&'a str> for SubAgentActionId {
    /// The identifier with the given text.
    fn from(value: &'a str) -> (r: Self)
        ensures
            r@ == value@,
    {
        SubAgentActionId::new(value)
    }
}

impl<'a> vstd::std_specs::convert::FromSpecImpl<&'a str> for SubAgentActionId {
    /// The conversion is described by the `ensures` of `from`, not by `from_spec`.
    open spec fn obeys_from_spec() -> bool {
        false
    }

    open spec fn from_spec(v: &'a str) -> Self {
        vstd::pervasive::arbitrary()
    }
}

/// Identifier of a sub-agent link.
#[derive(Debug, Clone, PartialEq, Eq, Hash, Default, PartialOrd, Ord)]
pub struct SubAgentLinkId(String);

impl View for SubAgentLinkId {
    type V = Seq<char>;

    closed spec fn view(&self) -> Seq<char> {
        self.0@
    }
}

impl SubAgentLinkId {
    /// The identifier with the given text.
    pub fn new(value: &str) -> (r: Self)
        ensures
            r@ == value@,
    {
        SubAgentLinkId(owned(value))
    }

    /// The text of the identifier.
    pub fn as_str(&self) -> (r: &str)
        ensures
            r@ == self@,
    {
        self.0.as_str()
    }
}

impl<'a> From<&'a str> for SubAgentLinkId {
    /// The identifier with the given text.
    fn from(value: &'a str) -> (r: Self)
        ensures
            r@ == value@,
    {
        SubAgentLinkId::new(value)
    }
}

impl<'a> vstd::std_specs::convert::FromSpecImpl<&'a str> for SubAgentLinkId {
    /// The conversion is described by the `ensures` of `from`, not by `from_spec`.
    open spec fn obeys_from_spec() -> bool {
        false
    }

    open spec fn from_spec(v: &'a str) -> Self {
        vstd::pervasive::arbitrary()
    }
}

/// Identifier of a scheduled task.
#[derive(Debug, Clone, PartialEq, Eq, Hash, Default, PartialOrd, Ord)]
pub struct ScheduledTaskId(String);

impl View for ScheduledTaskId {
    type V = Seq<char>;

    closed spec fn view(&self) -> Seq<char> {
        self.0@
    }
}

impl ScheduledTaskId {
    /// The identifier with the given text.
    pub fn new(value: &str) -> (r: Self)
        ensures
            r@ == value@,
    {
        ScheduledTaskId(owned(value))
    }

    /// The text of the identifier.
    pub fn as_str(&self) -> (r: &str)
        ensures
            r@ == self@,
    {
        self.0.as_str()
    }
}

impl<'a> From<&'a str> for ScheduledTaskId {
    /// The identifier with the given text.
    fn from(value: &'a str) -> (r: Self)
        ensures
            r@ == value@,
    {
        ScheduledTaskId::new(value)
    }
}

impl<'a> vstd::std_specs::convert::FromSpecImpl<&'a str> for ScheduledTaskId {
    /// The conversion is described by the `ensures` of `from`, not by `from_spec`.
    open spec fn obeys_from_spec() -> bool {
        false
    }

    open spec fn from_spec(v: &'a str) -> Self {
        vstd::pervasive::arbitrary()
    }
}

/// Position of an item in a workspace timeline.
#[derive(Debug, Clone, Copy, PartialEq, Eq, Structural, Hash, PartialOrd, Ord)]
pub struct TimelineSeq(u64);

impl Default for TimelineSeq {
    /// Zero.
    fn default() -> (r: Self)
        ensures
            r.value() == 0,
    {
        TimelineSeq(0)
    }
}

impl TimelineSeq {
    /// The position as a number.
    pub closed spec fn value(self) -> u64 {
        self.0
    }

    pub fn new(value: u64) -> (r: Self)
        ensures
            r.value() == value,
    {
        TimelineSeq(value)
    }

    pub fn get(self) -> (r: u64)
        ensures
            r == self.value(),
    {
        self.0
    }

    /// The following position; there is none after the largest.
    pub fn next(self) -> (r: Self)
        requires
            self.value() < u64::MAX,
        ensures
            r.value() == self.value() + 1,
    {
        TimelineSeq(self.0 + 1)
    }
}

/// Revision counter of a record.
#[derive(Debug, Clone, Copy, PartialEq, Eq, Structural, Hash, PartialOrd, Ord)]
pub struct Revision(u64);

impl Default for Revision {
    /// Zero.
    fn default() -> (r: Self)
        ensures
            r.value() == 0,
    {
        Revision(0)
    }
}

impl Revision {
    /// The revision as a number.
    pub closed spec fn value(self) -> u64 {
        self.0
    }

    pub fn new(value: u64) -> (r: Self)
        ensures
            r.value() == value,
    {
        Revision(value)
    }

    pub fn get(self) -> (r: u64)
        ensures
            r == self.value(),
    {
        self.0
    }

    /// The following revision; there is none after the largest.
    pub fn next(self) -> (r: Self)
        requires
            self.value() < u64::MAX,
        ensures
            r.value() == self.value() + 1,
    {
        Revision(self.0 + 1)
    }
}

#[derive(Debug, Clone, PartialEq, Eq)]
pub struct SystemSettings {
    pub session: SessionDefaultSettings,
    pub notifications: NotificationSettings,
    /// Overrides by workspace project path.
    pub workspace: HashMap<String, ScopedSettingsOverride>,
    /// Overrides by provider session.
    pub provider_session: HashMap<ProviderSessionId, ScopedSettingsOverride>,
}

impl Default for SystemSettings {
    /// Default session and notification settings, and no overrides.
    fn default() -> (r: Self)
        ensures
            r.session.force_bypass_permissions == false,
            r.notifications.enabled,
            r.workspace@ == Map::<String, ScopedSettingsOverride>::empty(),
            r.provider_session@ == Map::<ProviderSessionId, ScopedSettingsOverride>::empty(),
    {
        SystemSettings {
            session: SessionDefaultSettings::default(),
            notifications: NotificationSettings::default(),
            workspace: HashMap::new(),
            provider_session: HashMap::new(),
        }
    }
}

#[derive(Debug, Clone, Copy, PartialEq, Eq, Structural)]
pub struct SessionDefaultSettings {
    pub force_bypass_permissions: bool,
}

impl Default for SessionDefaultSettings {
    /// Permissions are not bypassed.
    fn default() -> (r: Self)
        ensures
            r.force_bypass_permissions == false,
    {
        SessionDefaultSettings { force_bypass_permissions: false }
    }
}

#[derive(Debug, Clone, Copy, PartialEq, Eq, Structural)]
pub struct NotificationSettings {
    pub enabled: bool,
}

impl Default for NotificationSettings {
    /// Notifications are enabled.
    fn default() -> (r: Self)
        ensures
            r.enabled,
    {
        NotificationSettings { enabled: default_notifications_enabled() }
    }
}

/// Notifications are on unless configured otherwise.
pub fn default_notifications_enabled() -> (r: bool)
    ensures
        r,
{
    true
}

/// Settings that a scope sets; `None` keeps the value from the wider scope.
#[derive(Debug, Clone, Copy, PartialEq, Eq, Structural)]
pub struct ScopedSettingsOverride {
    pub force_bypass_permissions: Option<bool>,
    pub notifications_enabled: Option<bool>,
}

impl Default for ScopedSettingsOverride {
    /// An override that sets nothing.
    fn default() -> (r: Self)
        ensures
            r.force_bypass_permissions is None,
            r.notifications_enabled is None,
    {
        ScopedSettingsOverride { force_bypass_permissions: None, notifications_enabled: None }
    }
}

/// The settings that result from applying `o` to `s`.
pub open spec fn applied(o: ScopedSettingsOverride, s: EffectiveSettings) -> EffectiveSettings {
    EffectiveSettings {
        session: SessionDefaultSettings {
            force_bypass_permissions: match o.force_bypass_permissions {
                Some(b) => b,
                None => s.session.force_bypass_permissions,
            },
        },
        notifications: NotificationSettings {
            enabled: match o.notifications_enabled {
                Some(b) => b,
                None => s.notifications.enabled,
            },
        },
    }
}

impl ScopedSettingsOverride {
    /// Applies the override: each setting it sets replaces the current one.
    pub fn apply_to(&self, settings: &mut EffectiveSettings)
        ensures
            *final(settings) == applied(*self, *old(settings)),
    {
        if let Some(enabled) = self.force_bypass_permissions {
            settings.session.force_bypass_permissions = enabled;
        }
        if let Some(enabled) = self.notifications_enabled {
            settings.notifications.enabled = enabled;
        }
    }
}

/// Law: each setting that an override sets takes the override's value, and
/// each that it leaves unset keeps its value.
pub proof fn lemma_override_sets_named_settings(o: ScopedSettingsOverride, s: EffectiveSettings)
    ensures
        applied(o, s).session.force_bypass_permissions == (match o.force_bypass_permissions {
            Some(b) => b,
            None => s.session.force_bypass_permissions,
        }),
        applied(o, s).notifications.enabled == (match o.notifications_enabled {
            Some(b) => b,
            None => s.notifications.enabled,
        }),
{
}

/// Law: applying an override twice is applying it once.
pub proof fn lemma_apply_idempotent(o: ScopedSettingsOverride, s: EffectiveSettings)
    ensures
        applied(o, applied(o, s)) == applied(o, s),
{
}

/// Law: an override that sets nothing changes nothing.
pub proof fn lemma_empty_override_is_identity(s: EffectiveSettings)
    ensures
        applied(
            ScopedSettingsOverride { force_bypass_permissions: None, notifications_enabled: None },
            s,
        ) == s,
{
}

/// Law: applying a wider override and then a narrower one gives each
/// setting from the narrowest override that sets it.
pub proof fn lemma_narrower_override_wins(
    wide: ScopedSettingsOverride,
    narrow: ScopedSettingsOverride,
    s: EffectiveSettings,
)
    ensures
        applied(narrow, applied(wide, s)) == applied(
            ScopedSettingsOverride {
                force_bypass_permissions: match narrow.force_bypass_permissions {
                    Some(b) => Some(b),
                    None => wide.force_bypass_permissions,
                },
                notifications_enabled: match narrow.notifications_enabled {
                    Some(b) => Some(b),
                    None => wide.notifications_enabled,
                },
            },
            s,
        ),
{
}

#[derive(Debug, Clone, Copy, PartialEq, Eq, Structural)]
pub struct EffectiveSettings {
    pub session: SessionDefaultSettings,
    pub notifications: NotificationSettings,
}

impl Default for EffectiveSettings {
    /// Permissions not bypassed, notifications enabled.
    fn default() -> (r: Self)
        ensures
            r.session.force_bypass_permissions == false,
            r.notifications.enabled,
    {
        EffectiveSettings {
            session: SessionDefaultSettings::default(),
            notifications: NotificationSettings::default(),
        }
    }
}

/// A workspace bound to a provider and a project.
#[derive(Debug, Clone, PartialEq, Eq)]
pub struct WorkspaceBinding {
    pub workspace_id: WorkspaceId,
    pub title: String,
    pub provider_id: String,
    /// The project directory, as a path text.
    pub project_path: String,
    pub worktree_ref: Option<String>,
    pub active_provider_session_id: Option<ProviderSessionId>,
    pub active_live_instance_id: Option<LiveInstanceId>,
    pub created_at: SystemTime,
    pub updated_at: SystemTime,
    pub revision: Revision,
}

impl WorkspaceBinding {
    /// A new binding at revision 0, with no worktree, session or instance,
    /// created and updated now.
    pub fn new(workspace_id: WorkspaceId, title: &str, provider_id: &str, project_path: &str) -> (r:
        Self)
        ensures
            r.workspace_id == workspace_id,
            r.title@ == title@,
            r.provider_id@ == provider_id@,
            r.project_path@ == project_path@,
            r.worktree_ref is None,
            r.active_provider_session_id is None,
            r.active_live_instance_id is None,
            r.created_at == r.updated_at,
            r.revision.value() == 0,
    {
        let now = now();
        WorkspaceBinding {
            workspace_id,
            title: owned(title),
            provider_id: owned(provider_id),
            project_path: owned(project_path),
            worktree_ref: None,
            active_provider_session_id: None,
            active_live_instance_id: None,
            created_at: now,
            updated_at: now,
            revision: Revision::new(0),
        }
    }
}

/// An owned copy of an optional text.
fn owned_opt(s: Option<&str>) -> (r: Option<String>)
    ensures
        (match s {
            Some(t) => r matches Some(u) && u@ == t@,
            None => r is None,
        }),
{
    match s {
        Some(t) => Some(owned(t)),
        None => None,
    }
}

/// A workspace bound to a chat (and optionally a topic) of a channel.
#[derive(Debug, Clone, PartialEq, Eq)]
pub struct ChannelBinding {
    pub channel_binding_id: ChannelBindingId,
    pub workspace_id: WorkspaceId,
    pub channel: String,
    pub chat_id: String,
    pub topic_id: Option<String>,
    pub created_at: SystemTime,
    pub updated_at: SystemTime,
}

impl ChannelBinding {
    /// A new binding, created and updated now.
    pub fn new(
        channel_binding_id: ChannelBindingId,
        workspace_id: WorkspaceId,
        channel: &str,
        chat_id: &str,
        topic_id: Option<&str>,
    ) -> (r: Self)
        ensures
            r.channel_binding_id == channel_binding_id,
            r.workspace_id == workspace_id,
            r.channel@ == channel@,
            r.chat_id@ == chat_id@,
            (match topic_id {
                Some(t) => r.topic_id matches Some(u) && u@ == t@,
                None => r.topic_id is None,
            }),
            r.created_at == r.updated_at,
    {
        let now = now();
        ChannelBinding {
            channel_binding_id,
            workspace_id,
            channel: owned(channel),
            chat_id: owned(chat_id),
            topic_id: owned_opt(topic_id),
            created_at: now,
            updated_at: now,
        }
    }
}

/// A status panel rendered into a chat.
#[derive(Debug, Clone, PartialEq, Eq)]
pub struct PanelRenderRecord {
    pub panel_id: PanelRenderId,
    pub channel: String,
    pub chat_id: String,
    pub message_id: Option<String>,
    pub last_rendered_revision: Revision,
    pub last_observed_stale_revision: Option<Revision>,
    pub last_reconcile_outcome: Option<ReconcileOutcome>,
    pub created_at: SystemTime,
    pub updated_at: SystemTime,
}

impl PanelRenderRecord {
    /// A new panel record, reconciled successfully, with no stale revision
    /// observed, created and updated now.
    pub fn new(
        panel_id: PanelRenderId,
        channel: &str,
        chat_id: &str,
        message_id: Option<&str>,
        last_rendered_revision: Revision,
    ) -> (r: Self)
        ensures
            r.panel_id == panel_id,
            r.channel@ == channel@,
            r.chat_id@ == chat_id@,
            (match message_id {
                Some(t) => r.message_id matches Some(u) && u@ == t@,
                None => r.message_id is None,
            }),
            r.last_rendered_revision == last_rendered_revision,
            r.last_observed_stale_revision is None,
            r.last_reconcile_outcome == Some(ReconcileOutcome::Success),
            r.created_at == r.updated_at,
    {
        let now = now();
        PanelRenderRecord {
            panel_id,
            channel: owned(channel),
            chat_id: owned(chat_id),
            message_id: owned_opt(message_id),
            last_rendered_revision,
            last_observed_stale_revision: None,
            last_reconcile_outcome: Some(ReconcileOutcome::Success),
            created_at: now,
            updated_at: now,
        }
    }
}

/// A chat message bound to the provider session it belongs to.
#[derive(Debug, Clone, PartialEq, Eq)]
pub struct MessageSessionBinding {
    pub binding_id: MessageSessionBindingId,
    pub channel: String,
    pub chat_id: String,
    pub message_id: String,
    pub provider_session_id: ProviderSessionId,
    pub created_at: SystemTime,
    pub updated_at: SystemTime,
}

impl MessageSessionBinding {
    /// A new binding whose identifier is derived from the channel, chat and
    /// message, created and updated now.
    pub fn new(
        channel: &str,
        chat_id: &str,
        message_id: &str,
        provider_session_id: ProviderSessionId,
    ) -> (r: Self)
        ensures
            r.binding_id@ == binding_id_text(channel@, chat_id@, message_id@),
            r.channel@ == channel@,
            r.chat_id@ == chat_id@,
            r.message_id@ == message_id@,
            r.provider_session_id == provider_session_id,
            r.created_at == r.updated_at,
    {
        let now = now();
        MessageSessionBinding {
            binding_id: message_session_binding_id(channel, chat_id, message_id),
            channel: owned(channel),
            chat_id: owned(chat_id),
            message_id: owned(message_id),
            provider_session_id,
            created_at: now,
            updated_at: now,
        }
    }
}

/// `channel:chat_id:message_id`.
pub open spec fn binding_id_text(channel: Seq<char>, chat_id: Seq<char>, message_id: Seq<char>) -> Seq<
    char,
> {
    channel + ":"@ + chat_id + ":"@ + message_id
}

proof fn lemma_colon_split(a: Seq<char>, x: Seq<char>, b: Seq<char>, y: Seq<char>)
    requires
        forall|i: int| 0 <= i < a.len() ==> a[i] != ':',
        forall|i: int| 0 <= i < b.len() ==> b[i] != ':',
        a + ":"@ + x == b + ":"@ + y,
    ensures
        a == b,
        x == y,
{
    reveal_strlit(":");
    let t = a + ":"@ + x;
    if a.len() < b.len() {
        assert(t[a.len() as int] == ':');
        assert((b + ":"@ + y)[a.len() as int] == b[a.len() as int]);
    } else if b.len() < a.len() {
        assert((b + ":"@ + y)[b.len() as int] == ':');
        assert(t[b.len() as int] == a[b.len() as int]);
    }
    assert(a =~= t.subrange(0, a.len() as int));
    assert(b =~= (b + ":"@ + y).subrange(0, b.len() as int));
    assert(x =~= t.subrange(a.len() as int + 1, t.len() as int));
    assert(y =~= (b + ":"@ + y).subrange(b.len() as int + 1, t.len() as int));
}

/// Law: where channels and chat ids hold no colon, the binding identifier
/// tells them apart: two bindings share an identifier only where their
/// channel, chat and message are the same.
pub proof fn lemma_binding_id_tells_parts(
    channel_a: Seq<char>,
    chat_a: Seq<char>,
    message_a: Seq<char>,
    channel_b: Seq<char>,
    chat_b: Seq<char>,
    message_b: Seq<char>,
)
    requires
        forall|i: int| 0 <= i < channel_a.len() ==> channel_a[i] != ':',
        forall|i: int| 0 <= i < channel_b.len() ==> channel_b[i] != ':',
        forall|i: int| 0 <= i < chat_a.len() ==> chat_a[i] != ':',
        forall|i: int| 0 <= i < chat_b.len() ==> chat_b[i] != ':',
        binding_id_text(channel_a, chat_a, message_a) == binding_id_text(
            channel_b,
            chat_b,
            message_b,
        ),
    ensures
        channel_a == channel_b,
        chat_a == chat_b,
        message_a == message_b,
{
    assert(binding_id_text(channel_a, chat_a, message_a) =~= channel_a + ":"@ + (chat_a + ":"@
        + message_a));
    assert(binding_id_text(channel_b, chat_b, message_b) =~= channel_b + ":"@ + (chat_b + ":"@
        + message_b));
    lemma_colon_split(channel_a, chat_a + ":"@ + message_a, channel_b, chat_b + ":"@ + message_b);
    lemma_colon_split(chat_a, message_a, chat_b, message_b);
}

/// The identifier of the binding of a chat message: its channel, chat and
/// message joined by colons.
pub fn message_session_binding_id(channel: &str, chat_id: &str, message_id: &str) -> (r:
    MessageSessionBindingId)
    ensures
        r@ == binding_id_text(channel@, chat_id@, message_id@),
{
    let mut s = owned(channel);
    s.append(":");
    s.append(chat_id);
    s.append(":");
    s.append(message_id);
    MessageSessionBindingId(s)
}

/// A session of a provider, with what the provider reported of it.
#[derive(Debug, Clone, PartialEq, Eq)]
pub struct ProviderSessionRecord {
    pub provider_session_id: ProviderSessionId,
    pub provider_id: String,
    pub native_resume_ref: String,
    pub model: Option<String>,
    pub reasoning: Option<String>,
    pub permission_mode: Option<String>,
    /// The provider's status report, as JSON text.
    pub status_extra: String,
    /// The last usage report, as JSON text.
    pub usage_snapshot: String,
    /// The last context report, as JSON text.
    pub context_snapshot: String,
    pub created_at: SystemTime,
    pub updated_at: SystemTime,
}

/// The JSON text of the JSON `null` value.
pub open spec fn null_text() -> Seq<char> {
    "null"@
}

impl ProviderSessionRecord {
    /// A new record with no model, reasoning or permission mode, `null`
    /// reports, created and updated now.
    pub fn new(provider_session_id: ProviderSessionId, provider_id: &str, native_resume_ref: &str) -> (r:
        Self)
        ensures
            r.provider_session_id == provider_session_id,
            r.provider_id@ == provider_id@,
            r.native_resume_ref@ == native_resume_ref@,
            r.model is None,
            r.reasoning is None,
            r.permission_mode is None,
            r.status_extra@ == null_text(),
            r.usage_snapshot@ == null_text(),
            r.context_snapshot@ == null_text(),
            r.created_at == r.updated_at,
    {
        let now = now();
        ProviderSessionRecord {
            provider_session_id,
            provider_id: owned(provider_id),
            native_resume_ref: owned(native_resume_ref),
            model: None,
            reasoning: None,
            permission_mode: None,
            status_extra: owned("null"),
            usage_snapshot: owned("null"),
            context_snapshot: owned("null"),
            created_at: now,
            updated_at: now,
        }
    }
}

#[derive(Debug, Clone, Copy, PartialEq, Eq, Structural)]
pub enum LiveInstanceState {
    Starting,
    Idle,
    Running,
    WaitingPermission,
    Closing,
    Closed,
    Failed,
    Stale,
}

/// A running instance of a provider session.
#[derive(Debug, Clone, PartialEq, Eq)]
pub struct LiveInstanceRecord {
    pub live_instance_id: LiveInstanceId,
    pub provider_id: String,
    pub provider_session_id: ProviderSessionId,
    pub pid_or_handle: Option<String>,
    pub state: LiveInstanceState,
    pub last_seen_at: SystemTime,
    pub active_turn_id: Option<TurnId>,
    pub close_reason: Option<String>,
}

impl LiveInstanceRecord {
    /// A new idle instance with no active turn, last seen now.
    pub fn new(
        live_instance_id: LiveInstanceId,
        provider_id: &str,
        provider_session_id: ProviderSessionId,
        pid_or_handle: Option<&str>,
    ) -> (r: Self)
        ensures
            r.live_instance_id == live_instance_id,
            r.provider_id@ == provider_id@,
            r.provider_session_id == provider_session_id,
            (match pid_or_handle {
                Some(t) => r.pid_or_handle matches Some(u) && u@ == t@,
                None => r.pid_or_handle is None,
            }),
            r.state == LiveInstanceState::Idle,
            r.active_turn_id is None,
            r.close_reason is None,
    {
        LiveInstanceRecord {
            live_instance_id,
            provider_id: owned(provider_id),
            provider_session_id,
            pid_or_handle: owned_opt(pid_or_handle),
            state: LiveInstanceState::Idle,
            last_seen_at: now(),
            active_turn_id: None,
            close_reason: None,
        }
    }
}

#[derive(Debug, Clone, Copy, PartialEq, Eq, Structural)]
pub enum TurnSource {
    UserMessage,
    Command,
    System,
}

#[derive(Debug, Clone, Copy, PartialEq, Eq, Structural)]
pub enum TurnState {
    Queued,
    Submitted,
    Running,
    Completed,
    Failed,
    Canceled,
    Orphaned,
}

#[derive(Debug, Clone, PartialEq, Eq)]
pub struct TurnRecord {
    pub turn_id: TurnId,
    pub workspace_id: WorkspaceId,
    pub provider_session_id: ProviderSessionId,
    pub live_instance_id: LiveInstanceId,
    pub source: TurnSource,
    pub input: String,
    pub reply_to_channel_message_id: Option<i64>,
    pub state: TurnState,
    pub timeline_seq_start: Option<TimelineSeq>,
    pub timeline_seq_end: Option<TimelineSeq>,
    /// The turn's usage report, as JSON text.
    pub usage: String,
    pub created_at: SystemTime,
    pub completed_at: Option<SystemTime>,
}

#[derive(Debug, Clone, Copy, PartialEq, Eq, Structural)]
pub enum TimelineItemKind {
    User,
    Assistant,
    Attachment,
    Reasoning,
    ToolCall,
    ToolResult,
    Permission,
    CommandResult,
    Usage,
    Status,
    Error,
    Compaction,
}

#[derive(Debug, Clone, PartialEq, Eq)]
pub struct TimelineItem {
    pub workspace_id: WorkspaceId,
    pub turn_id: TurnId,
    pub seq: TimelineSeq,
    pub epoch: u64,
    pub provider_item_id: Option<String>,
    pub kind: TimelineItemKind,
    /// The item's payload, as JSON text.
    pub payload: String,
    pub created_at: SystemTime,
}

impl TimelineItem {
    /// A new item at sequence 0 of epoch 0, with no provider item
    /// identifier, created now.
    pub fn new(workspace_id: WorkspaceId, turn_id: TurnId, kind: TimelineItemKind, payload: String) -> (r:
        Self)
        ensures
            r.workspace_id == workspace_id,
            r.turn_id == turn_id,
            r.seq.value() == 0,
            r.epoch == 0,
            r.provider_item_id is None,
            r.kind == kind,
            r.payload == payload,
    {
        TimelineItem {
            workspace_id,
            turn_id,
            seq: TimelineSeq::new(0),
            epoch: 0,
            provider_item_id: None,
            kind,
            payload,
            created_at: now(),
        }
    }
}

#[derive(Debug, Clone, Copy, PartialEq, Eq, Structural)]
pub enum CommandCompletionPolicy {
    CommandResult,
    TurnCompleted,
    NoOutputAck,
    ProviderIdle,
    ManualError,
}

#[derive(Debug, Clone, Copy, PartialEq, Eq, Structural)]
pub enum CommandState {
    Pending,
    Running,
    Completed,
    Failed,
}

#[derive(Debug, Clone, PartialEq, Eq)]
pub struct CommandWorkflow {
    pub command_id: CommandId,
    pub workspace_id: WorkspaceId,
    pub turn_id: TurnId,
    pub name: String,
    pub args: Option<String>,
    /// The command's values, as JSON text.
    pub values: String,
    pub catalog_revision: Revision,
    pub completion_policy: CommandCompletionPolicy,
    pub state: CommandState,
    /// The command's result, as JSON text.
    pub result: Option<String>,
    pub error: Option<String>,
    pub created_at: SystemTime,
    pub completed_at: Option<SystemTime>,
}

impl CommandWorkflow {
    /// A new pending workflow with an empty command identifier, no result
    /// and no error, created now and not completed.
    pub fn new(
        workspace_id: WorkspaceId,
        turn_id: TurnId,
        name: &str,
        args: Option<String>,
        values: String,
        catalog_revision: Revision,
        completion_policy: CommandCompletionPolicy,
    ) -> (r: Self)
        ensures
            r.command_id@ == Seq::<char>::empty(),
            r.workspace_id == workspace_id,
            r.turn_id == turn_id,
            r.name@ == name@,
            r.args == args,
            r.values == values,
            r.catalog_revision == catalog_revision,
            r.completion_policy == completion_policy,
            r.state == CommandState::Pending,
            r.result is None,
            r.error is None,
            r.completed_at is None,
    {
        CommandWorkflow {
            command_id: CommandId(String::new()),
            workspace_id,
            turn_id,
            name: owned(name),
            args,
            values,
            catalog_revision,
            completion_policy,
            state: CommandState::Pending,
            result: None,
            error: None,
            created_at: now(),
            completed_at: None,
        }
    }
}

#[derive(Debug, Clone, PartialEq, Eq)]
pub struct ScheduledTaskRecord {
    pub task_id: ScheduledTaskId,
    pub workspace_id: WorkspaceId,
    pub provider_id: String,
    /// The project directory, as a path text.
    pub project_path: String,
    pub title: String,
    pub prompt: String,
    pub next_run_unix_ms: u64,
    pub enabled: bool,
    pub last_run_unix_ms: Option<u64>,
    pub created_at: SystemTime,
    pub updated_at: SystemTime,
}

impl ScheduledTaskRecord {
    /// A new enabled task that has not run yet, created and updated now.
    pub fn new(
        task_id: ScheduledTaskId,
        workspace_id: WorkspaceId,
        provider_id: &str,
        project_path: &str,
        title: &str,
        prompt: &str,
        next_run_unix_ms: u64,
    ) -> (r: Self)
        ensures
            r.task_id == task_id,
            r.workspace_id == workspace_id,
            r.provider_id@ == provider_id@,
            r.project_path@ == project_path@,
            r.title@ == title@,
            r.prompt@ == prompt@,
            r.next_run_unix_ms == next_run_unix_ms,
            r.enabled,
            r.last_run_unix_ms is None,
            r.created_at == r.updated_at,
    {
        let now = now();
        ScheduledTaskRecord {
            task_id,
            workspace_id,
            provider_id: owned(provider_id),
            project_path: owned(project_path),
            title: owned(title),
            prompt: owned(prompt),
            next_run_unix_ms,
            enabled: true,
            last_run_unix_ms: None,
            created_at: now,
            updated_at: now,
        }
    }
}

/// What is known of a workspace's provider, session, instance and channel.
#[derive(Debug, Clone, PartialEq, Eq, Default)]
pub struct StatusSnapshot {
    pub workspace_id: Option<WorkspaceId>,
    pub provider_id: Option<String>,
    pub provider_version: Option<String>,
    pub provider_session_id: Option<ProviderSessionId>,
    pub native_resume_ref: Option<String>,
    pub live_instance_id: Option<LiveInstanceId>,
    pub live_instance_state: Option<LiveInstanceState>,
    pub channel_binding_id: Option<ChannelBindingId>,
    pub channel: Option<String>,
    pub chat_id: Option<String>,
    pub topic_id: Option<String>,
    pub directory: Option<String>,
    /// The project directory, as a path text.
    pub project_path: Option<String>,
    pub worktree_ref: Option<String>,
    pub model: Option<String>,
    pub model_detail: Option<String>,
    pub reasoning: Option<String>,
    pub permission_mode: Option<String>,
    pub account: Option<String>,
    pub base_url: Option<String>,
    pub proxy: Option<String>,
    pub setting_sources: Option<String>,
    pub agents_md: Option<String>,
    pub token_usage: Option<AgentTokenUsage>,
    pub context_usage: Option<AgentContextUsage>,
    pub compactions: Option<u64>,
    /// The last usage report, as JSON text.
    pub usage_snapshot: Option<String>,
    /// The last context report, as JSON text.
    pub context_snapshot: Option<String>,
    pub provider_status: Option<AgentStatus>,
    pub channel_binding_state: Option<String>,
    pub last_reconcile_outcome: Option<ReconcileOutcome>,
    pub origin: Option<String>,
}

#[derive(Debug, Clone, Copy, PartialEq, Eq, Structural)]
pub enum ReconcileOutcome {
    /// Reconciliation found nothing to repair.
    Success,
    StaleRevision,
    TopicMissing,
    TopicMissingRecreated,
    ProviderSessionProbeRequired,
    ProviderSessionStale,
    LiveInstanceStale,
    TurnOrphaned,
    PermissionOrphaned,
    ManualAttentionRequired,
}

} // verus!
