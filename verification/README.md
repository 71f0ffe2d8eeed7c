# lucarne

Verified core of an agent daemon's remote-environment and control-plane
records, written in Verus.

- `src/agent_runtime/remote.rs`: remote environment configuration, session
  origins and their labels, error messages, and the redacted debug text of a
  configuration.
- `src/agent_runtime/registry.rs`: the registry of remote environments, kept
  sorted by name, and origin-label resolution.
- `src/agent_runtime/file_safety.rs`: validation of relative paths and file
  sizes for remote file transfer.
- `src/agent_runtime/types.rs`, `src/control_plane/types.rs`: runtime and
  control-plane records, identifiers, counters, settings and overrides.
- `src/control_plane/status.rs`: the status snapshot of a workspace.
- `src/text.rs`: character-level string helpers.

`app/` holds the serde, `Display` and `std::error::Error` surface of the
remote-environment types (copies with those derives and `From` conversions
both ways), the JSON reading of provider status reports, and the JSON form of
the status snapshot. The other records have no serializable copy here.
