//! Verified core of an agent runtime: shell-command safety classes, safety
//! rule sets, turn resolution bookkeeping, the agent registry and friends.

pub mod runtime;
pub mod safety_rules;
pub mod shell_path;
pub mod text;
pub mod thread_util;
pub mod workflow;
pub mod skill;
