//! Workflow states of an agent.

use vstd::prelude::*;

verus! {

/// The state of an agent's plan workflow.
#[derive(Debug, Clone, Copy, PartialEq, Eq, Structural)]
pub enum WorkflowState {
    /// Exploring and drafting a plan.
    Planning,
    /// Working through the steps of a plan.
    Executing,
    /// Reviewing the executed plan (the closing sequence).
    Reviewing,
    /// The plan is done; the resting state between tasks.
    Complete,
    /// A skill overlay is active.
    Skill,
    /// The role state stamped on a spawned sub-agent.
    Subagent,
}

} // verus!
