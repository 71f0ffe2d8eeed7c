//! Remote agent environments, file-transfer safety checks, agent runtime
//! and control-plane records, and the status snapshot built from them.
pub mod agent_runtime;
pub mod control_plane;
pub mod text;
