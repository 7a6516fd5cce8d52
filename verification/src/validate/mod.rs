//! SSH config validation checks and their orchestration.

pub mod basic;
pub mod cm_dir;
pub mod control_path;
pub mod duplicate;
pub mod host_prefix;
pub mod identity;
pub mod orchestrator;
pub mod proxyjump;
pub mod syntax;
