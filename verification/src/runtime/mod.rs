//! The multi-agent runtime: agent registry, turn resolution, channels.

pub mod agent;
pub mod channels;
pub mod correction;
pub mod manager;
pub mod turn_resolve;

use vstd::prelude::*;

use crate::runtime::manager::AgentManager;

verus! {

/// A unique agent identifier.
pub type AgentId = u64;

/// A model served by a configured endpoint.
#[derive(Debug, Clone, PartialEq, Eq)]
pub struct ModelRef {
    /// The endpoint's name.
    pub endpoint: String,
    /// The model id on that endpoint.
    pub model: String,
    /// An optional reasoning-effort setting.
    pub reasoning_effort: Option<String>,
}

/// Spawns background agents from within the agent loop.
///
/// This is the seam that lets the `spawn_agent` tool start a new agent
/// without depending on the UI layer, which provides the implementation
/// (backed by the real [`AgentManager`] and the loop factory).
pub trait AgentSpawner: Send + Sync {
    /// Spawns a new background agent with the given display name and task
    /// description and kicks off its first turn. `role` optionally
    /// constrains its tool surface (a read-only role for a sub-agent that
    /// only inspects). Returns the new agent's id, or why the spawn failed.
    fn spawn(&self, name: &str, task: &str, role: Option<String>) -> Result<AgentId, String>;

    /// The parent-aware side of this spawner, if it records parents. By
    /// default it does not.
    fn parent_aware(&self) -> (r: Option<&dyn ParentAwareSpawner>)
        default_ensures
            r is None,
    {
        None
    }
}

/// A spawner that can record the spawning agent as the new agent's parent,
/// so that the parent is notified when the child finishes.
pub trait ParentAwareSpawner: Send + Sync {
    /// Spawns a background agent on behalf of `parent_id` (`None` behaves
    /// like [`AgentSpawner::spawn`]). `model` forces the model the agent
    /// runs on; `role` optionally constrains its tool surface.
    fn spawn_with_parent(
        &self,
        name: &str,
        task: &str,
        parent_id: Option<AgentId>,
        model: Option<ModelRef>,
        role: Option<String>,
    ) -> Result<AgentId, String>;
}

/// Reports whether an agent has running spawned descendants; the workflow
/// consults it to gate state transitions on running subagents, and the
/// auto-continue logic to park a parent whose descendants run.
pub trait DescendantTracker: Send + Sync {
    /// Whether the agent with `agent_id` has running spawned descendants
    /// (direct children or theirs, recursively).
    fn has_running_descendants(&self, agent_id: AgentId) -> bool;
}

impl DescendantTracker for AgentManager {
    /// The registry answers from its own records.
    fn has_running_descendants(&self, agent_id: AgentId) -> (r: bool)
        ensures
            r == exists|x: AgentId|
                #[trigger] self.has(x) && self.lookup(x).running && self.descends(x, agent_id),
    {
        AgentManager::has_running_descendants(self, agent_id)
    }
}

} // verus!
