//! Channel contract — the decoupled agent↔UI boundary.
//!
//! The agent and the UI share no mutable state: commands flow UI → agent,
//! events flow agent → UI. These are the plain values carried across.

use vstd::prelude::*;

use crate::runtime::AgentId;

verus! {

/// One clickable option in an `ask_user` question: a short button label
/// and an optional longer description shown beneath it.
#[derive(Debug, Clone, PartialEq, Eq)]
pub struct QuestionOption {
    /// The short button label.
    pub label: String,
    /// An optional longer description shown under the label.
    pub description: Option<String>,
}

/// A per-role token breakdown of the context window.
#[derive(Debug, Clone, Copy, PartialEq, Eq, Structural)]
pub struct ContextBreakdown {
    /// System messages (system prompt, constitution, summaries).
    pub system: u32,
    /// User messages.
    pub user: u32,
    /// Assistant messages (text and tool calls).
    pub assistant: u32,
    /// Tool result messages.
    pub tool: u32,
}

impl Default for ContextBreakdown {
    fn default() -> (r: Self)
        ensures
            r == (ContextBreakdown { system: 0, user: 0, assistant: 0, tool: 0 }),
    {
        ContextBreakdown { system: 0, user: 0, assistant: 0, tool: 0 }
    }
}

impl ContextBreakdown {
    /// The total of the four roles, when it fits in a `u32`.
    pub fn total(&self) -> (r: Option<u32>)
        ensures
            match r {
                Some(t) => t == self.system + self.user + self.assistant + self.tool,
                None => self.system + self.user + self.assistant + self.tool > u32::MAX,
            },
    {
        let a = self.system.checked_add(self.user);
        match a {
            Some(a) => match a.checked_add(self.assistant) {
                Some(b) => b.checked_add(self.tool),
                None => None,
            },
            None => None,
        }
    }
}

/// A steering message's payload: the text plus any pasted image
/// attachments (base64 data URLs), carried end to end through the steer
/// pipeline.
#[derive(Debug, Clone, PartialEq, Eq)]
pub struct SteerPayload {
    /// The steer's text.
    pub text: String,
    /// Pasted image attachments (base64 data URLs); may be empty.
    pub images: Vec<String>,
}

impl SteerPayload {
    /// A steer with the given text and no images.
    pub fn from_text(text: &str) -> (r: Self)
        ensures
            r.text@ == text@,
            r.images@.len() == 0,
    {
        SteerPayload { text: text.to_owned(), images: Vec::new() }
    }
}

/// UI → Agent (pushed to the agent's inbox).
#[derive(Debug, Clone)]
pub enum AgentCommand {
    /// Start a new turn with a user prompt and pasted image attachments.
    Prompt { text: String, images: Vec<String> },
    /// Mid-work guidance — queued, injected at the next turn boundary.
    Suggestion(SteerPayload),
    /// Cancel a queued steer whose text matches.
    CancelSuggestion(String),
    /// Cancel the current LLM generation.
    Interrupt,
    /// Stop the agent entirely.
    Cancel,
    /// Manually compact the context.
    Compact,
    /// Clear the conversation history entirely.
    Clear,
}

/// The marker prefix of an unattended (run-all) dispatched prompt: the
/// runtime's only harness-visible dispatch-context signal.
pub const UNATTENDED_PROMPT_PREFIX: &'static str = "[backlog run-all — unattended mode]";

/// One recalled memory in a memory-recall event: its tier and title.
#[derive(Debug, Clone, PartialEq, Eq)]
pub struct RecallHit {
    /// The memory tier (snake_case, e.g. "semantic").
    pub tier: String,
    /// The memory's title.
    pub title: String,
}

/// Why an agent parked (went idle awaiting input) instead of
/// auto-continuing.
#[derive(Debug, Clone, Copy, PartialEq, Eq, Structural)]
pub enum ParkReason {
    /// The user pressed Stop — the turn was interrupted mid-flight.
    Interrupted,
    /// The auto-continue budget ran out while the workflow still expected
    /// progress — a possible genuine deadlock; needs a nudge.
    BudgetExhausted,
    /// Spawned descendants are still running — the designed wait.
    WaitingForDescendants,
    /// The workflow does not expect progress — idle by design.
    NoWorkExpected,
}

impl ParkReason {
    /// Whether this park needs manual input (it is surfaced to the user as
    /// a banner): an interruption or an exhausted budget.
    pub fn needs_input(&self) -> (r: bool)
        ensures
            r == (*self == ParkReason::Interrupted || *self == ParkReason::BudgetExhausted),
    {
        match self {
            ParkReason::Interrupted => true,
            ParkReason::BudgetExhausted => true,
            ParkReason::WaitingForDescendants => false,
            ParkReason::NoWorkExpected => false,
        }
    }
}

/// The phases of the agent's request loop.
#[derive(Debug, Clone, Copy, PartialEq, Eq, Structural)]
pub enum PhaseKind {
    /// Local preparation before the request goes to the network.
    Sending,
    /// Auto-compaction running inside the sending window.
    Compacting,
    /// Network-bound, until the first content byte arrives.
    Waiting,
    /// Reasoning deltas are streaming in.
    Reasoning,
    /// Answer content or tool-call deltas are streaming in.
    Streaming,
    /// Tool calls are executing between requests.
    RunningTools,
}

/// The UI's answer to an approval request.
#[derive(Debug, Clone, Copy, PartialEq, Eq, Structural)]
pub enum Approval {
    /// Approve the action.
    Approve,
    /// Deny the action.
    Deny,
    /// Deny this and all subsequent approvals of the turn.
    DenyAll,
}

/// The user's answer to an `ask_user` question.
#[derive(Debug, Clone, PartialEq, Eq)]
pub enum UserAnswer {
    /// The user clicked the option at the given 0-indexed position.
    Choice { index: usize },
    /// The user typed a freeform answer.
    Freeform { text: String },
}

impl UserAnswer {
    /// The chosen option among `n_options`, when the answer is a choice of
    /// an existing option.
    pub fn chosen(&self, n_options: usize) -> (r: Option<usize>)
        ensures
            match self {
                UserAnswer::Choice { index } => r == (if *index < n_options {
                    Some(*index)
                } else {
                    None::<usize>
                }),
                UserAnswer::Freeform { .. } => r is None,
            },
    {
        match self {
            UserAnswer::Choice { index } => if *index < n_options {
                Some(*index)
            } else {
                None
            },
            UserAnswer::Freeform { .. } => None,
        }
    }
}

/// Configuration for spawning an agent.
#[derive(Debug, Clone)]
pub struct AgentConfig {
    pub name: String,
    /// The project root directory.
    pub project_root: String,
    pub model: String,
}

/// A tool-spawned background agent finished: the child, its name and
/// whether it succeeded.
#[derive(Debug, Clone, PartialEq, Eq)]
pub struct ChildFinished {
    pub child_id: AgentId,
    pub name: String,
    pub success: bool,
}

} // verus!
