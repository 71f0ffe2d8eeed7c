use lucarne::agent_runtime::types::{
    AgentCommandCompletion, AgentCommandInput, AgentCommandSource, AgentStatus, AgentTokenUsage,
    OpenSession, ResumeSession, RuntimeBusFilter,
};
use lucarne::control_plane::types::{
    message_session_binding_id, ChannelBinding, ChannelBindingId, CommandCompletionPolicy,
    CommandId, CommandState, EffectiveSettings, LiveInstanceId, LiveInstanceRecord,
    LiveInstanceState, MessageSessionBinding, NotificationSettings, PanelRenderId,
    PanelRenderRecord, ProviderSessionId, ProviderSessionRecord, ReconcileOutcome, Revision,
    ScheduledTaskId, ScheduledTaskRecord, ScopedSettingsOverride, SessionDefaultSettings,
    SystemSettings, TimelineItem, TimelineItemKind, TimelineSeq, TurnId, WorkspaceBinding,
    WorkspaceId, CommandWorkflow,
};
use lucarne::agent_runtime::file_safety::RemoteFileSafety;
use lucarne::agent_runtime::registry::{compare_names, NameOrder, RemoteEnvironmentRegistry};
use lucarne::agent_runtime::remote::{
    compose_config_debug, default_timeout_secs, default_true, RemoteEnvironmentConfig, RemoteEnvironmentError,
    RemoteTransport, SessionOrigin,
};
use lucarne::control_plane::status::build_status_snapshot;
use lucarne::text::{chars_of, is_whitespace};

fn rejection(path: &str) -> (String, String) {
    match RemoteFileSafety::validate_relative_path(path) {
        Err(RemoteEnvironmentError::SafeFileTransferRejected { file, reason }) => (file, reason),
        other => panic!("expected a rejection, got {:?}", other),
    }
}

#[test]
fn path_rejections_name_the_path_and_the_reason() {
    assert_eq!(
        rejection("   "),
        ("   ".to_string(), "Path cannot be empty".to_string())
    );
    assert_eq!(rejection("").1, "Path cannot be empty");
    assert_eq!(
        rejection(" c:data").1,
        "Absolute paths with drive prefix are not permitted"
    );
    assert_eq!(
        rejection("~user/file").1,
        "Absolute paths or home directory paths outside remote workspace root are not permitted"
    );
    assert_eq!(
        rejection("\\share").1,
        "Absolute paths or home directory paths outside remote workspace root are not permitted"
    );
    assert_eq!(
        rejection("a\\..\\b").1,
        "Path contains directory traversal component ('..')"
    );
    assert_eq!(rejection("..").1, "Path contains directory traversal component ('..')");
    assert_eq!(rejection("a/..").1, "Path contains directory traversal component ('..')");
    assert_eq!(rejection(" a/.. ").0, " a/.. ");
}

#[test]
fn path_normalization_trims_and_turns_backslashes() {
    assert_eq!(
        RemoteFileSafety::validate_relative_path("  a\\b\\c.txt \t\n").unwrap(),
        "a/b/c.txt"
    );
    assert_eq!(
        RemoteFileSafety::validate_relative_path("\u{3000}x\u{2003}").unwrap(),
        "x"
    );
    assert_eq!(RemoteFileSafety::validate_relative_path("..a/b..").unwrap(), "..a/b..");
    assert_eq!(RemoteFileSafety::validate_relative_path("a/.../b").unwrap(), "a/.../b");
    assert_eq!(RemoteFileSafety::validate_relative_path("é:x").unwrap(), "é:x");
    assert_eq!(RemoteFileSafety::validate_relative_path("1:x").unwrap(), "1:x");
    assert_eq!(RemoteFileSafety::validate_relative_path("a~").unwrap(), "a~");
}

#[test]
fn path_validation_is_idempotent() {
    for p in ["  sub\\dir\\file.txt ", "a/b", "x\\y/..z", "\u{a0}q\u{85}"] {
        let once = RemoteFileSafety::validate_relative_path(p).unwrap();
        let twice = RemoteFileSafety::validate_relative_path(&once).unwrap();
        assert_eq!(once, twice);
    }
}

#[test]
fn file_size_rejection_names_size_and_limit() {
    match RemoteFileSafety::validate_file_size(5000, 2048) {
        Err(RemoteEnvironmentError::SafeFileTransferRejected { file, reason }) => {
            assert_eq!(file, "5000 bytes");
            assert_eq!(reason, "File exceeds maximum allowed transfer size of 2048 bytes");
        }
        other => panic!("unexpected {:?}", other),
    }
    assert!(RemoteFileSafety::validate_file_size(0, 0).is_ok());
    assert!(RemoteFileSafety::validate_file_size(u64::MAX, u64::MAX).is_ok());
    assert!(RemoteFileSafety::validate_file_size(1, 0).is_err());
}

#[test]
fn error_messages() {
    assert_eq!(
        RemoteEnvironmentError::EnvironmentNotFound("gpu".into()).to_string(),
        "remote environment not found: 'gpu'"
    );
    assert_eq!(
        RemoteEnvironmentError::AuthenticationFailed { env: "e".into(), reason: "bad key".into() }
            .to_string(),
        "authentication failed for remote environment 'e': bad key"
    );
    assert_eq!(
        RemoteEnvironmentError::Unreachable {
            env: "e".into(),
            endpoint: "h:1".into(),
            error: "refused".into()
        }
        .to_string(),
        "remote environment 'e' at 'h:1' is unreachable: refused"
    );
    assert_eq!(
        RemoteEnvironmentError::ExecutionTimeout { env: "e".into(), timeout_secs: 30 }.to_string(),
        "remote execution in 'e' timed out after 30s"
    );
    assert_eq!(
        RemoteEnvironmentError::SafeFileTransferRejected { file: "f".into(), reason: "r".into() }
            .to_string(),
        "remote file operation rejected for 'f': r"
    );
}

fn timeout_message(secs: u64) -> String {
    RemoteEnvironmentError::ExecutionTimeout { env: "e".into(), timeout_secs: secs }.to_string()
}

#[test]
fn decimal_rendering() {
    assert_eq!(timeout_message(0), "remote execution in 'e' timed out after 0s");
    assert_eq!(timeout_message(7), "remote execution in 'e' timed out after 7s");
    assert_eq!(timeout_message(10), "remote execution in 'e' timed out after 10s");
    assert_eq!(timeout_message(1234567890), "remote execution in 'e' timed out after 1234567890s");
    assert_eq!(
        timeout_message(u64::MAX),
        format!("remote execution in 'e' timed out after {}s", u64::MAX)
    );
}

#[test]
fn characters_round_trip() {
    let s = "héllo wörld ✓";
    let v = chars_of(s);
    assert_eq!(v, s.chars().collect::<Vec<char>>());
    assert!(chars_of("").is_empty());
}

#[test]
fn whitespace_matches_std() {
    for c in ['\u{0}', ' ', '\t', '\n', '\u{b}', '\u{c}', '\r', '\u{85}', '\u{a0}', '\u{1680}',
        '\u{2000}', '\u{200a}', '\u{200b}', '\u{2028}', '\u{2029}', '\u{202f}', '\u{205f}',
        '\u{3000}', '\u{feff}', 'a', '\u{1f}', '\u{7f}'] {
        assert_eq!(is_whitespace(c), c.is_whitespace(), "{:?}", c);
    }
}

#[test]
fn name_order() {
    assert!(matches!(compare_names("a", "b"), NameOrder::Less));
    assert!(matches!(compare_names("a", "ab"), NameOrder::Less));
    assert!(matches!(compare_names("ab", "a"), NameOrder::Greater));
    assert!(matches!(compare_names("same", "same"), NameOrder::Equal));
    assert!(matches!(compare_names("é", "z"), NameOrder::Greater));
    assert!(matches!(compare_names("", ""), NameOrder::Equal));
    assert!(matches!(compare_names("", "x"), NameOrder::Less));
}

#[test]
fn registry_lists_sorted_and_replaces_by_name() {
    let mut registry = RemoteEnvironmentRegistry::default();
    registry.register(RemoteEnvironmentConfig::new("zeta", "z:1"));
    registry.register(RemoteEnvironmentConfig::new("alpha", "a:1"));
    registry.register(RemoteEnvironmentConfig::new("mid", "m:1"));
    registry.register(RemoteEnvironmentConfig::new("alpha", "a:2"));
    let names: Vec<&str> = registry.list().iter().map(|c| c.name.as_str()).collect();
    assert_eq!(names, vec!["alpha", "mid", "zeta"]);
    assert_eq!(registry.get("alpha").unwrap().endpoint, "a:2");
    assert_eq!(registry.get("zeta").unwrap().endpoint, "z:1");
}

#[test]
fn registry_refusals_leave_it_unchanged() {
    let mut registry = RemoteEnvironmentRegistry::new();
    registry.register(RemoteEnvironmentConfig::new("one", "h:1"));
    registry.set_default("one").unwrap();
    let before = registry.clone();
    match registry.set_default("two") {
        Err(RemoteEnvironmentError::EnvironmentNotFound(n)) => assert_eq!(n, "two"),
        other => panic!("unexpected {:?}", other),
    }
    assert!(registry == before);
    assert_eq!(registry.default_environment().map(|s| s.as_str()), Some("one"));
    match registry.resolve_origin_label(Some("nowhere")) {
        Err(RemoteEnvironmentError::EnvironmentNotFound(n)) => assert_eq!(n, "nowhere"),
        other => panic!("unexpected {:?}", other),
    }
}

#[test]
fn dangling_default_is_reported() {
    let mut registry = RemoteEnvironmentRegistry::new();
    registry.set_default_unchecked(Some("gone".to_string()));
    match registry.resolve_origin_label(None) {
        Err(RemoteEnvironmentError::EnvironmentNotFound(n)) => assert_eq!(n, "gone"),
        other => panic!("unexpected {:?}", other),
    }
    registry.set_default_unchecked(None);
    assert_eq!(registry.resolve_origin_label(None).unwrap(), "local");
}

#[test]
fn redacted_debug_text() {
    let config = RemoteEnvironmentConfig::new("a\"b", "host:1");
    assert_eq!(
        config.redacted_debug(),
        "RemoteEnvironmentConfig { name: \"a\\\"b\", endpoint: \"host:1\", transport: Gateway, \
         remote_cwd: None, env: {}, auth_token: None, timeout_secs: 30, enabled: true }"
    );
    let with_token = config.clone().with_auth_token("tok").with_cwd("/w");
    let other_token = config.with_auth_token("different").with_cwd("/w");
    assert_eq!(with_token.redacted_debug(), other_token.redacted_debug());
    assert!(with_token.redacted_debug().contains("auth_token: Some(\"<redacted>\")"));
    assert!(with_token.redacted_debug().contains("remote_cwd: Some(\"/w\")"));
    let mut with_env = RemoteEnvironmentConfig::new("n", "e").with_auth_token("tok");
    with_env.env.insert("K".into(), "V".into());
    assert!(with_env.redacted_debug().contains("env: {\"K\": \"V\"}, auth_token: Some(\"<redacted>\")"));
    assert!(!with_env.redacted_debug().contains("tok\""));
}

#[test]
fn config_builders_and_defaults() {
    let c = RemoteEnvironmentConfig::new("n", "e");
    assert_eq!(c.transport, RemoteTransport::Gateway);
    assert_eq!(c.timeout_secs, 30);
    assert!(c.env.is_empty());
    assert!(c.auth_token.is_none());
    assert!(c.remote_cwd.is_none());
    assert_eq!(default_timeout_secs(), 30);
    assert!(default_true());
    assert_eq!(RemoteTransport::default(), RemoteTransport::Gateway);
    assert_eq!(SessionOrigin::default(), SessionOrigin::Local);
    let c = c.with_transport(RemoteTransport::Bridge);
    assert_eq!(c.transport, RemoteTransport::Bridge);
    assert_eq!(c.name, "n");
}

#[test]
fn counters() {
    assert_eq!(TimelineSeq::new(41).get(), 41);
    assert_eq!(TimelineSeq::new(41).next().get(), 42);
    assert_eq!(Revision::new(0).next().next().get(), 2);
    assert_eq!(Revision::default().get(), 0);
    assert_eq!(TimelineSeq::default().get(), 0);
}

#[test]
fn identifiers() {
    assert_eq!(WorkspaceId::new("w-1").as_str(), "w-1");
    assert_eq!(WorkspaceId::from("w-2").as_str(), "w-2");
    let t: TurnId = "t-1".into();
    assert_eq!(t.as_str(), "t-1");
    assert!(CommandId::new("").is_empty());
    assert!(!CommandId::new("c").is_empty());
    assert_eq!(
        message_session_binding_id("telegram", "42", "7").as_str(),
        "telegram:42:7"
    );
}

#[test]
fn settings_overrides() {
    let mut s = EffectiveSettings::default();
    assert!(!s.session.force_bypass_permissions);
    assert!(s.notifications.enabled);
    ScopedSettingsOverride::default().apply_to(&mut s);
    assert_eq!(s, EffectiveSettings::default());
    let o = ScopedSettingsOverride { force_bypass_permissions: Some(true), notifications_enabled: None };
    o.apply_to(&mut s);
    assert!(s.session.force_bypass_permissions);
    assert!(s.notifications.enabled);
    let once = s;
    o.apply_to(&mut s);
    assert_eq!(s, once);
    let o2 = ScopedSettingsOverride { force_bypass_permissions: Some(false), notifications_enabled: Some(false) };
    o2.apply_to(&mut s);
    assert_eq!(
        s,
        EffectiveSettings {
            session: SessionDefaultSettings { force_bypass_permissions: false },
            notifications: NotificationSettings { enabled: false },
        }
    );
    let sys = SystemSettings::default();
    assert!(sys.workspace.is_empty() && sys.provider_session.is_empty());
    assert!(sys.notifications.enabled);
}

#[test]
fn record_constructors() {
    let w = WorkspaceBinding::new(WorkspaceId::new("w"), "Title", "codex", "/p");
    assert_eq!(w.created_at, w.updated_at);
    assert_eq!(w.revision.get(), 0);
    assert_eq!(w.project_path, "/p");
    let c = ChannelBinding::new(ChannelBindingId::new("c"), WorkspaceId::new("w"), "tg", "1", Some("9"));
    assert_eq!(c.topic_id.as_deref(), Some("9"));
    let p = PanelRenderRecord::new(PanelRenderId::new("p"), "tg", "1", None, Revision::new(3));
    assert_eq!(p.last_reconcile_outcome, Some(ReconcileOutcome::Success));
    assert_eq!(p.last_rendered_revision.get(), 3);
    let m = MessageSessionBinding::new("tg", "1", "5", ProviderSessionId::new("s"));
    assert_eq!(m.binding_id.as_str(), "tg:1:5");
    let ps = ProviderSessionRecord::new(ProviderSessionId::new("s"), "codex", "resume");
    assert_eq!(ps.status_extra, "null");
    assert_eq!(ps.usage_snapshot, "null");
    let l = LiveInstanceRecord::new(LiveInstanceId::new("l"), "codex", ProviderSessionId::new("s"), Some("pid:1"));
    assert_eq!(l.state, LiveInstanceState::Idle);
    assert_eq!(l.pid_or_handle.as_deref(), Some("pid:1"));
    let t = TimelineItem::new(WorkspaceId::new("w"), TurnId::new("t"), TimelineItemKind::User, "{}".to_string());
    assert_eq!(t.seq.get(), 0);
    assert_eq!(t.epoch, 0);
    let cw = CommandWorkflow::new(WorkspaceId::new("w"), TurnId::new("t"), "model", None, "null".to_string(), Revision::new(1), CommandCompletionPolicy::CommandResult);
    assert_eq!(cw.state, CommandState::Pending);
    assert!(cw.command_id.is_empty());
    let st = ScheduledTaskRecord::new(ScheduledTaskId::new("s"), WorkspaceId::new("w"), "codex", "/p", "daily", "do it", 99);
    assert!(st.enabled);
    assert_eq!(st.next_run_unix_ms, 99);
    assert_eq!(st.created_at, st.updated_at);
}

#[test]
fn agent_defaults() {
    let f = RuntimeBusFilter::default();
    assert!(f.session_lifecycle && f.turn_lifecycle);
    assert!(!f.user_messages && !f.tool_calls && !f.usage);
    assert_eq!(OpenSession::default().args, "null");
    assert_eq!(ResumeSession::default().args, "null");
    assert_eq!(ResumeSession::default().session_ref.0, "");
    assert_eq!(AgentCommandSource::default(), AgentCommandSource::ProviderNative);
    assert_eq!(AgentCommandCompletion::default(), AgentCommandCompletion::TurnCompleted);
    assert_eq!(AgentCommandInput::default(), AgentCommandInput::NoInput);
}

#[test]
fn snapshot_origin_and_precedence() {
    let w = WorkspaceBinding::new(WorkspaceId::new("w"), "T", "codex", "/p");
    let mut ps = ProviderSessionRecord::new(ProviderSessionId::new("s"), "other", "resume-ref");
    ps.model = Some("session-model".to_string());
    let status = AgentStatus {
        version: Some("0.1.0".into()),
        origin: Some("remote:gpu-server".into()),
        model: Some("gemini-2.5-pro".into()),
        reasoning: Some("high".into()),
        tokens: Some(AgentTokenUsage { input_tokens: Some(3), output_tokens: None, total_tokens: Some(3) }),
        ..Default::default()
    };
    let cb = ChannelBinding::new(ChannelBindingId::new("c"), WorkspaceId::new("w"), "tg", "1", Some("9"));
    let snap = build_status_snapshot(Some(&w), Some(&ps), None, Some(&cb), Some(ReconcileOutcome::StaleRevision), Some(status.clone()));
    assert_eq!(snap.origin.as_deref(), Some("remote:gpu-server"));
    assert_eq!(snap.provider_version.as_deref(), Some("0.1.0"));
    assert_eq!(snap.provider_id.as_deref(), Some("codex"));
    assert_eq!(snap.model.as_deref(), Some("session-model"));
    assert_eq!(snap.reasoning.as_deref(), Some("high"));
    assert_eq!(snap.channel_binding_state.as_deref(), Some("tg:1:9"));
    assert_eq!(snap.native_resume_ref.as_deref(), Some("resume-ref"));
    assert_eq!(snap.usage_snapshot.as_deref(), Some("null"));
    assert_eq!(snap.token_usage.unwrap().input_tokens, Some(3));
    assert_eq!(snap.provider_status, Some(status.clone()));
    assert_eq!(snap.last_reconcile_outcome, Some(ReconcileOutcome::StaleRevision));
    assert_eq!(snap.project_path.as_deref(), Some("/p"));

    let cb2 = ChannelBinding::new(ChannelBindingId::new("c"), WorkspaceId::new("w"), "tg", "1", None);
    let bare = build_status_snapshot(None, None, None, Some(&cb2), None, Some(status));
    assert_eq!(bare.channel_binding_state.as_deref(), Some("missing_topic"));
    assert!(bare.origin.is_none());
    assert!(bare.provider_status.is_none());
    assert!(bare.model.is_none());
    assert!(bare.provider_id.is_none());
    assert!(bare.workspace_id.is_none());
}

#[test]
fn debug_layout_from_parts() {
    let c = RemoteEnvironmentConfig::new("n", "e")
        .with_transport(RemoteTransport::Ssh)
        .with_auth_token("hidden");
    assert_eq!(
        compose_config_debug(&c, "N", "E", Some("D"), "{M}", "R"),
        "RemoteEnvironmentConfig { name: N, endpoint: E, transport: Ssh, remote_cwd: Some(D), \
         env: {M}, auth_token: Some(R), timeout_secs: 30, enabled: true }"
    );
    let mut c2 = RemoteEnvironmentConfig::new("n", "e");
    c2.enabled = false;
    c2.timeout_secs = 7;
    assert_eq!(
        compose_config_debug(&c2, "N", "E", None, "{}", "R"),
        "RemoteEnvironmentConfig { name: N, endpoint: E, transport: Gateway, remote_cwd: None, \
         env: {}, auth_token: None, timeout_secs: 7, enabled: false }"
    );
}
