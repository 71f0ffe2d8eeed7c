use lucarne::agent_runtime::AgentStatus;
use lucarne::control_plane::{
    build_status_snapshot, ProviderSessionId, ProviderSessionRecord, StatusSnapshot,
};
use lucarne::agent_runtime::{
    RemoteEnvironmentConfig, RemoteEnvironmentError, RemoteEnvironmentRegistry, RemoteFileSafety,
    RemoteTransport, SessionOrigin,
};

#[test]
fn test_remote_environment_config_defaults() {
    let config = RemoteEnvironmentConfig::new("staging-gpu", "10.0.0.12:8080")
        .with_transport(RemoteTransport::Gateway)
        .with_cwd("/workspace/agent")
        .with_auth_token("secret-token");

    assert_eq!(config.name.as_str(), "staging-gpu");
    assert_eq!(config.endpoint.as_str(), "10.0.0.12:8080");
    assert_eq!(config.transport, RemoteTransport::Gateway);
    assert_eq!(config.remote_cwd.as_deref(), Some("/workspace/agent"));
    assert_eq!(config.origin_label().as_str(), "remote:staging-gpu");
    assert!(config.enabled);

    let debug_str = config.redacted_debug();
    assert!(debug_str.contains("<redacted>"));
    assert!(!debug_str.contains("secret-token"));
}

#[test]
fn test_registry_registration_and_defaults() {
    let mut registry = RemoteEnvironmentRegistry::new();
    let env1 = RemoteEnvironmentConfig::new("dev-vm", "dev.corp.net:22")
        .with_transport(RemoteTransport::Ssh);
    let env2 = RemoteEnvironmentConfig::new("prod-cluster", "prod.corp.net:9000")
        .with_transport(RemoteTransport::Gateway);

    registry.register(env1);
    registry.register(env2);

    assert_eq!(registry.list().len(), 2);
    assert!(registry.get("dev-vm").is_some());
    assert!(registry.get("unknown").is_none());

    assert_eq!(
        registry.resolve_origin_label(Some("dev-vm")).unwrap().as_str(),
        "remote:dev-vm"
    );
    assert_eq!(
        registry.resolve_origin_label(None).unwrap().as_str(),
        "local"
    );

    registry.set_default("prod-cluster").unwrap();
    assert_eq!(
        registry.resolve_origin_label(None).unwrap().as_str(),
        "remote:prod-cluster"
    );
}

#[test]
fn test_remote_file_safety_host_independent() {
    assert!(RemoteFileSafety::validate_relative_path("safe/path/file.py").is_ok());
    assert_eq!(
        RemoteFileSafety::validate_relative_path("sub\\dir\\file.txt").unwrap(),
        "sub/dir/file.txt"
    );
    assert!(RemoteFileSafety::validate_relative_path("../secret/config.json").is_err());
    assert!(RemoteFileSafety::validate_relative_path("safe/../../escape.txt").is_err());
    assert!(RemoteFileSafety::validate_relative_path("/etc/passwd").is_err());
    assert!(RemoteFileSafety::validate_relative_path("C:\\Windows\\System32").is_err());
    assert!(RemoteFileSafety::validate_relative_path("C:/Windows/System32").is_err());
    assert!(RemoteFileSafety::validate_relative_path("~/.ssh/id_rsa").is_err());
    assert!(RemoteFileSafety::validate_relative_path("\\\\server\\share\\data").is_err());
}

#[test]
fn test_remote_file_safety_size_limit() {
    assert!(RemoteFileSafety::validate_file_size(1024, 2048).is_ok());
    assert!(RemoteFileSafety::validate_file_size(5000, 2048).is_err());
}

#[test]
fn test_session_origin_display() {
    assert_eq!(SessionOrigin::Local.origin_label().as_str(), "local");
    assert_eq!(SessionOrigin::Local.to_string(), "local");
    assert_eq!(
        SessionOrigin::Remote("cloud".into()).origin_label().as_str(),
        "remote:cloud"
    );
    assert_eq!(
        SessionOrigin::Remote("cloud".into()).to_string(),
        "remote:cloud"
    );
}

#[test]
fn remote_environment_registry_management() {
    let mut registry = RemoteEnvironmentRegistry::new();
    let env_ssh = RemoteEnvironmentConfig::new("dev-box", "ssh.corp.internal:22")
        .with_transport(RemoteTransport::Ssh);
    let env_bridge = RemoteEnvironmentConfig::new("worker-node", "127.0.0.1:9099")
        .with_transport(RemoteTransport::Bridge);

    registry.register(env_ssh);
    registry.register(env_bridge);

    assert_eq!(registry.list().len(), 2);
    assert!(registry.get("dev-box").is_some());
    assert!(registry.get("worker-node").is_some());
    assert!(registry.get("non-existent").is_none());

    // Without default, resolving None yields "local"
    assert_eq!(
        registry.resolve_origin_label(None).unwrap().as_str(),
        "local"
    );

    // Resolving named environment
    assert_eq!(
        registry.resolve_origin_label(Some("dev-box")).unwrap().as_str(),
        "remote:dev-box"
    );

    // Set default
    assert!(registry.set_default("worker-node").is_ok());
    assert_eq!(
        registry.resolve_origin_label(None).unwrap().as_str(),
        "remote:worker-node"
    );

    // Setting invalid default returns error
    assert!(matches!(
        registry.set_default("missing-env"),
        Err(RemoteEnvironmentError::EnvironmentNotFound(_))
    ));
}

#[test]
fn remote_file_safety_traversal_prevention() {
    // Valid relative paths
    assert!(RemoteFileSafety::validate_relative_path("src/main.rs").is_ok());
    assert!(RemoteFileSafety::validate_relative_path("data/models/weights.bin").is_ok());
    assert_eq!(
        RemoteFileSafety::validate_relative_path("sub\\dir\\file.txt").unwrap(),
        "sub/dir/file.txt"
    );

    // Traversal attempts
    assert!(matches!(
        RemoteFileSafety::validate_relative_path("../secret.key"),
        Err(RemoteEnvironmentError::SafeFileTransferRejected { .. })
    ));
    assert!(matches!(
        RemoteFileSafety::validate_relative_path("foo/../../bar"),
        Err(RemoteEnvironmentError::SafeFileTransferRejected { .. })
    ));

    // Absolute paths
    assert!(matches!(
        RemoteFileSafety::validate_relative_path("/etc/shadow"),
        Err(RemoteEnvironmentError::SafeFileTransferRejected { .. })
    ));
    assert!(matches!(
        RemoteFileSafety::validate_relative_path("C:\\Windows\\System32"),
        Err(RemoteEnvironmentError::SafeFileTransferRejected { .. })
    ));
}

#[test]
fn remote_file_safety_size_limits() {
    assert!(RemoteFileSafety::validate_file_size(500, 1000).is_ok());
    assert!(RemoteFileSafety::validate_file_size(1000, 1000).is_ok());
    assert!(matches!(
        RemoteFileSafety::validate_file_size(1001, 1000),
        Err(RemoteEnvironmentError::SafeFileTransferRejected { .. })
    ));
}

#[test]
fn remote_environment_config_serde_and_origin_label() {
    let mut config = RemoteEnvironmentConfig::new("gpu-cluster-1", "cluster.ai.corp:8443")
        .with_transport(RemoteTransport::Gateway)
        .with_cwd("/home/agent/workspace")
        .with_auth_token("secret-token-123");
    config.env.insert("CUDA_VISIBLE_DEVICES".into(), "0,1".into());

    assert_eq!(config.name.as_str(), "gpu-cluster-1");
    assert_eq!(config.endpoint.as_str(), "cluster.ai.corp:8443");
    assert_eq!(config.transport, RemoteTransport::Gateway);
    assert_eq!(config.remote_cwd.as_deref(), Some("/home/agent/workspace"));
    assert_eq!(config.origin_label().as_str(), "remote:gpu-cluster-1");
    assert_eq!(config.env.get("CUDA_VISIBLE_DEVICES").unwrap(), "0,1");
    assert!(config.enabled);

    let copy = config.clone();
    assert!(copy == config);
}

#[test]
fn session_origin_labels_and_serde() {
    let local = SessionOrigin::Local;
    let remote = SessionOrigin::Remote("gpu-server".to_string());

    assert_eq!(local.as_str(), "local");
    assert_eq!(local.to_display_label().as_str(), "local");

    assert_eq!(remote.as_str(), "gpu-server");
    assert_eq!(remote.to_display_label().as_str(), "remote:gpu-server");

    let copy = remote.clone();
    assert_eq!(copy, remote);
}

#[test]
fn agent_status_and_snapshot_origin_propagation() {
    let status = AgentStatus {
        version: Some("0.1.0".into()),
        origin: Some("remote:gpu-server".into()),
        model: Some("gemini-2.5-pro".into()),
        ..Default::default()
    };
    assert_eq!(status.origin.as_deref(), Some("remote:gpu-server"));

    let snapshot = StatusSnapshot {
        provider_id: Some("codex".into()),
        origin: Some("remote:gpu-server".into()),
        ..Default::default()
    };
    assert_eq!(snapshot.origin.as_deref(), Some("remote:gpu-server"));

    let session = ProviderSessionRecord::new(ProviderSessionId::new("s"), "codex", "resume");
    let built = build_status_snapshot(None, Some(&session), None, None, None, Some(status));
    assert_eq!(built.origin.as_deref(), Some("remote:gpu-server"));
    assert_eq!(built.provider_id.as_deref(), Some("codex"));
    assert_eq!(built.provider_version.as_deref(), Some("0.1.0"));
}
