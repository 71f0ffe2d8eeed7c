//! The status snapshot of a workspace, assembled from its records.
use vstd::prelude::*;
use vstd::string::StringExecFns;

use crate::agent_runtime::types::AgentStatus;
use crate::control_plane::types::{
    ChannelBinding, LiveInstanceRecord, ProviderSessionRecord, ReconcileOutcome, StatusSnapshot,
    WorkspaceBinding,
};
use crate::text::owned;

verus! {

/// The first of two options that is set.
pub open spec fn or_else<T>(a: Option<T>, b: Option<T>) -> Option<T> {
    if a is Some {
        a
    } else {
        b
    }
}

/// The provider's status report, which exists only where a provider session does.
pub open spec fn effective_status(
    provider_session: Option<&ProviderSessionRecord>,
    report: Option<AgentStatus>,
) -> Option<AgentStatus> {
    match provider_session {
        Some(_) => report,
        None => None,
    }
}

/// A field of the status report, if there is a report.
pub open spec fn report_field<T>(st: Option<AgentStatus>, f: spec_fn(AgentStatus) -> Option<T>) -> Option<
    T,
> {
    match st {
        Some(s) => f(s),
        None => None,
    }
}

/// A field of the provider session, if there is one.
pub open spec fn session_field<T>(
    ps: Option<&ProviderSessionRecord>,
    f: spec_fn(ProviderSessionRecord) -> Option<T>,
) -> Option<T> {
    match ps {
        Some(s) => f(*s),
        None => None,
    }
}

/// `channel:chat:topic` for a binding with a topic, else `missing_topic`.
pub open spec fn binding_state_text(b: ChannelBinding) -> Seq<char> {
    match b.topic_id {
        Some(t) => b.channel@ + ":"@ + b.chat_id@ + ":"@ + t@,
        None => "missing_topic"@,
    }
}

/// The snapshot built from the records, but for the channel binding state,
/// which `binding_state_text` gives. The session's own model and reasoning
/// take precedence over the ones the provider reported; the workspace's
/// provider takes precedence over the session's.
pub open spec fn expected_snapshot(
    workspace: Option<&WorkspaceBinding>,
    provider_session: Option<&ProviderSessionRecord>,
    live_instance: Option<&LiveInstanceRecord>,
    channel_binding: Option<&ChannelBinding>,
    last_reconcile_outcome: Option<ReconcileOutcome>,
    report: Option<AgentStatus>,
) -> StatusSnapshot {
    let st = effective_status(provider_session, report);
    StatusSnapshot {
        workspace_id: match workspace {
            Some(w) => Some(w.workspace_id),
            None => None,
        },
        provider_id: or_else(
            match workspace {
                Some(w) => Some(w.provider_id),
                None => None,
            },
            session_field(provider_session, |s: ProviderSessionRecord| Some(s.provider_id)),
        ),
        provider_version: report_field(st, |s: AgentStatus| s.version),
        provider_session_id: session_field(
            provider_session,
            |s: ProviderSessionRecord| Some(s.provider_session_id),
        ),
        native_resume_ref: session_field(
            provider_session,
            |s: ProviderSessionRecord| Some(s.native_resume_ref),
        ),
        live_instance_id: match live_instance {
            Some(l) => Some(l.live_instance_id),
            None => None,
        },
        live_instance_state: match live_instance {
            Some(l) => Some(l.state),
            None => None,
        },
        channel_binding_id: match channel_binding {
            Some(b) => Some(b.channel_binding_id),
            None => None,
        },
        channel: match channel_binding {
            Some(b) => Some(b.channel),
            None => None,
        },
        chat_id: match channel_binding {
            Some(b) => Some(b.chat_id),
            None => None,
        },
        topic_id: match channel_binding {
            Some(b) => b.topic_id,
            None => None,
        },
        directory: report_field(st, |s: AgentStatus| s.directory),
        project_path: match workspace {
            Some(w) => Some(w.project_path),
            None => None,
        },
        worktree_ref: match workspace {
            Some(w) => w.worktree_ref,
            None => None,
        },
        model: or_else(
            session_field(provider_session, |s: ProviderSessionRecord| s.model),
            report_field(st, |s: AgentStatus| s.model),
        ),
        model_detail: report_field(st, |s: AgentStatus| s.model_detail),
        reasoning: or_else(
            session_field(provider_session, |s: ProviderSessionRecord| s.reasoning),
            report_field(st, |s: AgentStatus| s.reasoning),
        ),
        permission_mode: session_field(provider_session, |s: ProviderSessionRecord| s.permission_mode),
        account: report_field(st, |s: AgentStatus| s.account),
        base_url: report_field(st, |s: AgentStatus| s.base_url),
        proxy: report_field(st, |s: AgentStatus| s.proxy),
        setting_sources: report_field(st, |s: AgentStatus| s.setting_sources),
        agents_md: report_field(st, |s: AgentStatus| s.agents_md),
        token_usage: report_field(st, |s: AgentStatus| s.tokens),
        context_usage: report_field(st, |s: AgentStatus| s.context),
        compactions: report_field(st, |s: AgentStatus| s.compactions),
        usage_snapshot: session_field(
            provider_session,
            |s: ProviderSessionRecord| Some(s.usage_snapshot),
        ),
        context_snapshot: session_field(
            provider_session,
            |s: ProviderSessionRecord| Some(s.context_snapshot),
        ),
        provider_status: st,
        channel_binding_state: None,
        last_reconcile_outcome: last_reconcile_outcome,
        origin: report_field(st, |s: AgentStatus| s.origin),
    }
}

fn copy_text(o: &Option<String>) -> (r: Option<String>)
    ensures
        r == *o,
{
    match o {
        Some(s) => Some(s.clone()),
        None => None,
    }
}

/// The first of two optional texts that is set, copied.
fn first_text(a: &Option<String>, b: &Option<String>) -> (r: Option<String>)
    ensures
        r == or_else(*a, *b),
{
    match a {
        Some(s) => Some(s.clone()),
        None => copy_text(b),
    }
}

/// The status snapshot of a workspace, from its binding, its provider
/// session, its live instance, its channel binding and the outcome of the
/// last reconciliation. `provider_status_report` is the provider session's
/// `status_extra` read as an agent status, where it reads as one; it counts
/// only where there is a provider session.
pub fn build_status_snapshot(
    workspace: Option<&WorkspaceBinding>,
    provider_session: Option<&ProviderSessionRecord>,
    live_instance: Option<&LiveInstanceRecord>,
    channel_binding: Option<&ChannelBinding>,
    last_reconcile_outcome: Option<ReconcileOutcome>,
    provider_status_report: Option<AgentStatus>,
) -> (r: StatusSnapshot)
    ensures
        r == (StatusSnapshot {
            channel_binding_state: r.channel_binding_state,
            ..expected_snapshot(
                workspace,
                provider_session,
                live_instance,
                channel_binding,
                last_reconcile_outcome,
                provider_status_report,
            )
        }),
        (match channel_binding {
            Some(b) => r.channel_binding_state matches Some(t) && t@ == binding_state_text(*b),
            None => r.channel_binding_state is None,
        }),
{
    let provider_status: Option<AgentStatus> = match provider_session {
        Some(_) => provider_status_report,
        None => None,
    };
    let (version, directory, model_detail, account, base_url, proxy, setting_sources, agents_md, origin) =
        match &provider_status {
        Some(s) => (
            copy_text(&s.version),
            copy_text(&s.directory),
            copy_text(&s.model_detail),
            copy_text(&s.account),
            copy_text(&s.base_url),
            copy_text(&s.proxy),
            copy_text(&s.setting_sources),
            copy_text(&s.agents_md),
            copy_text(&s.origin),
        ),
        None => (None, None, None, None, None, None, None, None, None),
    };
    let (token_usage, context_usage, compactions) = match &provider_status {
        Some(s) => (s.tokens, s.context, s.compactions),
        None => (None, None, None),
    };
    let (status_model, status_reasoning) = match &provider_status {
        Some(s) => (copy_text(&s.model), copy_text(&s.reasoning)),
        None => (None, None),
    };
    let provider_id = match workspace {
        Some(w) => Some(w.provider_id.clone()),
        None => match provider_session {
            Some(s) => Some(s.provider_id.clone()),
            None => None,
        },
    };
    let (model, reasoning) = match provider_session {
        Some(s) => (first_text(&s.model, &status_model), first_text(&s.reasoning, &status_reasoning)),
        None => (copy_text(&status_model), copy_text(&status_reasoning)),
    };
    let channel_binding_state = match channel_binding {
        Some(b) => match &b.topic_id {
            Some(topic) => {
                let mut t = owned(b.channel.as_str());
                t.append(":");
                t.append(b.chat_id.as_str());
                t.append(":");
                t.append(topic.as_str());
                Some(t)
            },
            None => Some(owned("missing_topic")),
        },
        None => None,
    };
    let r = StatusSnapshot {
        workspace_id: match workspace {
            Some(w) => Some(w.workspace_id.duplicate()),
            None => None,
        },
        provider_id,
        provider_version: version,
        provider_session_id: match provider_session {
            Some(s) => Some(s.provider_session_id.duplicate()),
            None => None,
        },
        native_resume_ref: match provider_session {
            Some(s) => Some(s.native_resume_ref.clone()),
            None => None,
        },
        live_instance_id: match live_instance {
            Some(l) => Some(l.live_instance_id.duplicate()),
            None => None,
        },
        live_instance_state: match live_instance {
            Some(l) => Some(l.state),
            None => None,
        },
        channel_binding_id: match channel_binding {
            Some(b) => Some(b.channel_binding_id.duplicate()),
            None => None,
        },
        channel: match channel_binding {
            Some(b) => Some(b.channel.clone()),
            None => None,
        },
        chat_id: match channel_binding {
            Some(b) => Some(b.chat_id.clone()),
            None => None,
        },
        topic_id: match channel_binding {
            Some(b) => copy_text(&b.topic_id),
            None => None,
        },
        directory,
        project_path: match workspace {
            Some(w) => Some(w.project_path.clone()),
            None => None,
        },
        worktree_ref: match workspace {
            Some(w) => copy_text(&w.worktree_ref),
            None => None,
        },
        model,
        model_detail,
        reasoning,
        permission_mode: match provider_session {
            Some(s) => copy_text(&s.permission_mode),
            None => None,
        },
        account,
        base_url,
        proxy,
        setting_sources,
        agents_md,
        token_usage,
        context_usage,
        compactions,
        usage_snapshot: match provider_session {
            Some(s) => Some(s.usage_snapshot.clone()),
            None => None,
        },
        context_snapshot: match provider_session {
            Some(s) => Some(s.context_snapshot.clone()),
            None => None,
        },
        provider_status,
        channel_binding_state,
        last_reconcile_outcome,
        origin,
    };
    r
}

/// Law: where there is a provider session, the origin that its status
/// report names is the snapshot's origin.
pub proof fn lemma_origin_propagates(
    workspace: Option<&WorkspaceBinding>,
    provider_session: &ProviderSessionRecord,
    live_instance: Option<&LiveInstanceRecord>,
    channel_binding: Option<&ChannelBinding>,
    last_reconcile_outcome: Option<ReconcileOutcome>,
    report: AgentStatus,
)
    ensures
        expected_snapshot(
            workspace,
            Some(provider_session),
            live_instance,
            channel_binding,
            last_reconcile_outcome,
            Some(report),
        ).origin == report.origin,
{
}

/// Law: without a provider session, nothing of a status report reaches the snapshot.
pub proof fn lemma_no_session_no_report(
    workspace: Option<&WorkspaceBinding>,
    live_instance: Option<&LiveInstanceRecord>,
    channel_binding: Option<&ChannelBinding>,
    last_reconcile_outcome: Option<ReconcileOutcome>,
    report: Option<AgentStatus>,
)
    ensures
        ({
            let r = expected_snapshot(
                workspace,
                None,
                live_instance,
                channel_binding,
                last_reconcile_outcome,
                report,
            );
            &&& r.provider_status is None
            &&& r.provider_version is None
            &&& r.model is None
            &&& r.reasoning is None
            &&& r.origin is None
            &&& r.token_usage is None
            &&& r.usage_snapshot is None
        }),
{
}

/// Law: the model and reasoning that the provider session records take
/// precedence over the ones its status report names; the report fills in
/// what the session leaves unset.
pub proof fn lemma_session_choice_wins(
    workspace: Option<&WorkspaceBinding>,
    provider_session: &ProviderSessionRecord,
    live_instance: Option<&LiveInstanceRecord>,
    channel_binding: Option<&ChannelBinding>,
    last_reconcile_outcome: Option<ReconcileOutcome>,
    report: AgentStatus,
)
    ensures
        ({
            let r = expected_snapshot(
                workspace,
                Some(provider_session),
                live_instance,
                channel_binding,
                last_reconcile_outcome,
                Some(report),
            );
            &&& r.model == (if provider_session.model is Some {
                provider_session.model
            } else {
                report.model
            })
            &&& r.reasoning == (if provider_session.reasoning is Some {
                provider_session.reasoning
            } else {
                report.reasoning
            })
        }),
{
}

/// Law: what the snapshot shows of the provider session: its id, resume
/// reference, permission mode and usage and context reports, and its
/// provider where there is no workspace binding; without a session, none of
/// these.
pub proof fn lemma_session_fields_carry(
    workspace: Option<&WorkspaceBinding>,
    provider_session: Option<&ProviderSessionRecord>,
    live_instance: Option<&LiveInstanceRecord>,
    channel_binding: Option<&ChannelBinding>,
    last_reconcile_outcome: Option<ReconcileOutcome>,
    report: Option<AgentStatus>,
)
    ensures
        ({
            let r = expected_snapshot(
                workspace,
                provider_session,
                live_instance,
                channel_binding,
                last_reconcile_outcome,
                report,
            );
            match provider_session {
                Some(s) => {
                    &&& r.provider_session_id == Some(s.provider_session_id)
                    &&& r.native_resume_ref == Some(s.native_resume_ref)
                    &&& r.permission_mode == s.permission_mode
                    &&& r.usage_snapshot == Some(s.usage_snapshot)
                    &&& r.context_snapshot == Some(s.context_snapshot)
                    &&& r.provider_status == report
                    &&& workspace is None ==> r.provider_id == Some(s.provider_id)
                },
                None => {
                    &&& r.provider_session_id is None
                    &&& r.native_resume_ref is None
                    &&& r.permission_mode is None
                    &&& r.usage_snapshot is None
                    &&& r.context_snapshot is None
                    &&& r.provider_status is None
                    &&& workspace is None ==> r.provider_id is None
                },
            }
        }),
{
}

/// Law: what the snapshot shows of the workspace binding: its id, its
/// provider (which takes precedence over the session's), its project path
/// and worktree; without a binding, none of these.
pub proof fn lemma_workspace_fields_carry(
    workspace: Option<&WorkspaceBinding>,
    provider_session: Option<&ProviderSessionRecord>,
    live_instance: Option<&LiveInstanceRecord>,
    channel_binding: Option<&ChannelBinding>,
    last_reconcile_outcome: Option<ReconcileOutcome>,
    report: Option<AgentStatus>,
)
    ensures
        ({
            let r = expected_snapshot(
                workspace,
                provider_session,
                live_instance,
                channel_binding,
                last_reconcile_outcome,
                report,
            );
            match workspace {
                Some(w) => {
                    &&& r.workspace_id == Some(w.workspace_id)
                    &&& r.provider_id == Some(w.provider_id)
                    &&& r.project_path == Some(w.project_path)
                    &&& r.worktree_ref == w.worktree_ref
                },
                None => {
                    &&& r.workspace_id is None
                    &&& r.project_path is None
                    &&& r.worktree_ref is None
                },
            }
        }),
{
}

/// Law: what the snapshot shows of the live instance, of the channel
/// binding and of the last reconciliation. A binding's state is
/// `channel:chat:topic` where it has a topic, else `missing_topic`.
pub proof fn lemma_instance_and_channel_fields_carry(
    workspace: Option<&WorkspaceBinding>,
    provider_session: Option<&ProviderSessionRecord>,
    live_instance: Option<&LiveInstanceRecord>,
    channel_binding: Option<&ChannelBinding>,
    last_reconcile_outcome: Option<ReconcileOutcome>,
    report: Option<AgentStatus>,
)
    ensures
        ({
            let r = expected_snapshot(
                workspace,
                provider_session,
                live_instance,
                channel_binding,
                last_reconcile_outcome,
                report,
            );
            &&& r.last_reconcile_outcome == last_reconcile_outcome
            &&& match live_instance {
                Some(l) => r.live_instance_id == Some(l.live_instance_id) && r.live_instance_state
                    == Some(l.state),
                None => r.live_instance_id is None && r.live_instance_state is None,
            }
            &&& match channel_binding {
                Some(b) => {
                    &&& r.channel_binding_id == Some(b.channel_binding_id)
                    &&& r.channel == Some(b.channel)
                    &&& r.chat_id == Some(b.chat_id)
                    &&& r.topic_id == b.topic_id
                    &&& binding_state_text(*b) == match b.topic_id {
                        Some(t) => b.channel@ + ":"@ + b.chat_id@ + ":"@ + t@,
                        None => "missing_topic"@,
                    }
                },
                None => {
                    &&& r.channel_binding_id is None
                    &&& r.channel is None
                    &&& r.chat_id is None
                    &&& r.topic_id is None
                },
            }
        }),
{
}

/// Law: where there is a provider session, the snapshot shows what its
/// status report says: the version, directory, model detail, account, base
/// URL, proxy, setting sources, agents file, token and context usage,
/// compactions and origin; the report's model and reasoning stand where the
/// session names none.
pub proof fn lemma_report_fields_carry(
    workspace: Option<&WorkspaceBinding>,
    provider_session: &ProviderSessionRecord,
    live_instance: Option<&LiveInstanceRecord>,
    channel_binding: Option<&ChannelBinding>,
    last_reconcile_outcome: Option<ReconcileOutcome>,
    report: AgentStatus,
)
    ensures
        ({
            let r = expected_snapshot(
                workspace,
                Some(provider_session),
                live_instance,
                channel_binding,
                last_reconcile_outcome,
                Some(report),
            );
            &&& r.provider_status == Some(report)
            &&& r.provider_version == report.version
            &&& r.directory == report.directory
            &&& r.model_detail == report.model_detail
            &&& r.account == report.account
            &&& r.base_url == report.base_url
            &&& r.proxy == report.proxy
            &&& r.setting_sources == report.setting_sources
            &&& r.agents_md == report.agents_md
            &&& r.token_usage == report.tokens
            &&& r.context_usage == report.context
            &&& r.compactions == report.compactions
            &&& r.origin == report.origin
            &&& provider_session.model is None ==> r.model == report.model
            &&& provider_session.reasoning is None ==> r.reasoning == report.reasoning
        }),
{
}

/// Law: a provider session without a status report leaves every field that
/// a report would fill unset, and the model and reasoning are the session's.
pub proof fn lemma_session_without_report(
    workspace: Option<&WorkspaceBinding>,
    provider_session: &ProviderSessionRecord,
    live_instance: Option<&LiveInstanceRecord>,
    channel_binding: Option<&ChannelBinding>,
    last_reconcile_outcome: Option<ReconcileOutcome>,
)
    ensures
        ({
            let r = expected_snapshot(
                workspace,
                Some(provider_session),
                live_instance,
                channel_binding,
                last_reconcile_outcome,
                None,
            );
            &&& r.provider_status is None
            &&& r.provider_version is None
            &&& r.directory is None
            &&& r.model_detail is None
            &&& r.account is None
            &&& r.base_url is None
            &&& r.proxy is None
            &&& r.setting_sources is None
            &&& r.agents_md is None
            &&& r.token_usage is None
            &&& r.context_usage is None
            &&& r.compactions is None
            &&& r.origin is None
            &&& r.model == provider_session.model
            &&& r.reasoning == provider_session.reasoning
        }),
{
}

} // verus!
