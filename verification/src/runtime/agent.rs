//! The agent task's decisions.
//!
//! Each agent owns an inbox of [`AgentCommand`]s and a conversation; its
//! loop receives a command, runs turns against the provider and emits
//! events. The loop itself (the inbox, the provider calls, the events) is
//! outside work; everything it decides lives here, as functions from the
//! task's state and what just happened to the next state and the action to
//! take: what a command starts, whether a finished turn auto-continues or
//! parks, what a provider failure leads to, and how a compaction ends.

use vstd::prelude::*;

use crate::runtime::channels::{AgentCommand, ParkReason, SteerPayload, UNATTENDED_PROMPT_PREFIX};
use crate::runtime::correction::{detect_correction, first_trigger, lowercase};
use crate::runtime::AgentId;
use crate::text::{
    append_chars, chars_eq, chars_of, decimal, push_decimal, push_str, slice_chars, starts_with,
    starts_with_seq, string_of,
};

verus! {

/// Maximum consecutive auto-continue turns before the agent parks for user
/// input. Prevents infinite loops when the model keeps finishing without
/// completing the plan (a genuine deadlock the user must break).
pub const MAX_AUTO_CONTINUE: u32 = 12;

/// A background memory consolidation fires every this many auto-continue
/// turns, so working-memory events are compressed during long chains.
pub const CONSOLIDATE_EVERY_N_TURNS: u32 = 8;

/// The synthetic message that drives an auto-continue turn.
pub const CONTINUE_NOTE: &'static str = "[harness note] continue from where you left off.";

/// The synthetic message that drives an auto-continue turn of an agent
/// running unattended: it says that no user input is coming.
pub const UNATTENDED_CONTINUE_NOTE: &'static str =
    "[harness note] continue from where you left off. (You are running unattended — no user input is coming; use your best judgment.)";

/// The state a task keeps across commands: its identity, its memory
/// session, its auto-continue budget, its dispatch mode and whether a
/// memory consolidation is in flight. Its conversation is held by the loop.
pub struct AgentTask {
    pub id: AgentId,
    pub name: String,
    /// The memory session id, started on the first prompt or steer.
    session_id: Option<String>,
    /// Consecutive auto-continue turns; reset to 0 by external input (a
    /// prompt, or a between-turn steer).
    auto_continue_streak: u32,
    /// Whether the last prompt carried the unattended (run-all) prefix.
    /// Re-derived on every prompt; a steer leaves it as it is.
    unattended: bool,
    /// Whether a memory consolidation of the task is in flight.
    consolidation_in_flight: bool,
}

/// What a command received between turns leads to.
#[derive(Debug, Clone, Copy, PartialEq, Eq)]
pub enum CommandStep {
    /// Push the prompt as a user message and drive turns. `correction` is
    /// the correction trigger the prompt matched, to be recorded as a
    /// working memory before the turn runs.
    RunPrompt { correction: Option<&'static str> },
    /// Announce the steer as injected, push it as a user message and drive
    /// turns.
    RunSuggestion,
    /// Nothing to do between turns.
    Ignore,
    /// Compact the conversation.
    Compact,
    /// Clear the conversation.
    Clear,
    /// Stop the task: its last events are [`task_end_events`] of a cancel.
    Exit,
}

/// What the loop knows when a turn ended normally (no stop request).
#[derive(Debug, Clone, Copy, PartialEq, Eq, Structural)]
pub struct TurnEndFacts {
    /// Whether the workflow expects further progress (in this dispatch mode).
    pub expects_progress: bool,
    /// Whether spawned descendants of the agent are still running.
    pub descendants_running: bool,
    /// Whether the agent is a subagent.
    pub subagent: bool,
}

/// What a normally ended turn leads to.
#[derive(Debug, Clone, Copy, PartialEq, Eq)]
pub enum TurnEnd {
    /// Push `note` as a user message and run another turn; when
    /// `consolidate` is set, first fire a background memory consolidation.
    AutoContinue { note: &'static str, consolidate: bool },
    /// Go idle. `reason` is the park reason to report, or `None` for a
    /// subagent, whose routine parks are not reported.
    Park { reason: Option<ParkReason> },
}

/// The continue note for a task in the given dispatch mode.
pub open spec fn continue_note(unattended: bool) -> &'static str {
    if unattended {
        UNATTENDED_CONTINUE_NOTE
    } else {
        CONTINUE_NOTE
    }
}

/// Whether a normally ended turn auto-continues.
pub open spec fn auto_continues(streak: u32, f: TurnEndFacts) -> bool {
    streak < MAX_AUTO_CONTINUE && f.expects_progress && !f.descendants_running && !f.subagent
}

/// Why a main agent parks after a normally ended turn that does not
/// auto-continue.
pub open spec fn park_reason(f: TurnEndFacts) -> ParkReason {
    if f.descendants_running {
        ParkReason::WaitingForDescendants
    } else if !f.expects_progress {
        ParkReason::NoWorkExpected
    } else {
        ParkReason::BudgetExhausted
    }
}

/// What a normally ended turn leads to, given the streak before it.
pub open spec fn turn_end_decision(streak: u32, unattended: bool, f: TurnEndFacts) -> TurnEnd {
    if auto_continues(streak, f) {
        TurnEnd::AutoContinue {
            note: continue_note(unattended),
            consolidate: (streak + 1) % (CONSOLIDATE_EVERY_N_TURNS as int) == 0,
        }
    } else if f.subagent {
        TurnEnd::Park { reason: None }
    } else {
        TurnEnd::Park { reason: Some(park_reason(f)) }
    }
}

/// The streak after a normally ended turn.
pub open spec fn next_streak(streak: u32, f: TurnEndFacts) -> u32 {
    if auto_continues(streak, f) {
        (streak + 1) as u32
    } else {
        streak
    }
}

/// The number of auto-continue turns in a chain of normally ended turns
/// with no external input in between, starting from `streak`.
pub open spec fn auto_continue_count(streak: u32, facts: Seq<TurnEndFacts>) -> nat
    decreases facts.len(),
{
    if facts.len() == 0 {
        0
    } else {
        let rest = auto_continue_count(next_streak(streak, facts[0]), facts.drop_first());
        if auto_continues(streak, facts[0]) {
            rest + 1
        } else {
            rest
        }
    }
}

/// Auto-continuation is bounded: however the turns of a chain end, a chain
/// with no prompt or steer in between auto-continues at most
/// `MAX_AUTO_CONTINUE` times in all, counting the streak it started from.
pub proof fn law_auto_continue_is_bounded(streak: u32, facts: Seq<TurnEndFacts>)
    requires
        streak <= MAX_AUTO_CONTINUE,
    ensures
        streak + auto_continue_count(streak, facts) <= MAX_AUTO_CONTINUE,
    decreases facts.len(),
{
    if facts.len() > 0 {
        law_auto_continue_is_bounded(next_streak(streak, facts[0]), facts.drop_first());
    }
}

/// A subagent never auto-continues: every one of its turns parks, and the
/// park is not reported.
pub proof fn law_subagents_always_park(streak: u32, unattended: bool, f: TurnEndFacts)
    requires
        f.subagent,
    ensures
        turn_end_decision(streak, unattended, f) == (TurnEnd::Park { reason: None }),
        next_streak(streak, f) == streak,
{
}

/// A main agent whose descendants are still running parks to wait for
/// them, whatever its budget and workflow.
pub proof fn law_running_descendants_park_the_parent(streak: u32, unattended: bool, f: TurnEndFacts)
    requires
        f.descendants_running,
        !f.subagent,
    ensures
        turn_end_decision(streak, unattended, f) == (TurnEnd::Park {
            reason: Some(ParkReason::WaitingForDescendants),
        }),
{
}

/// Whether a memory consolidation may start: there is a memory store and
/// an active session, and no consolidation of the task is in flight.
pub open spec fn consolidation_may_start(in_flight: bool, has_store: bool, has_session: bool) -> bool {
    has_store && has_session && !in_flight
}

/// Consolidations of one task never overlap: once one started, no other
/// starts until it is finished, whatever the store and session are then.
pub proof fn law_consolidations_never_overlap(
    in_flight: bool,
    has_store: bool,
    has_session: bool,
    later_store: bool,
    later_session: bool,
)
    requires
        consolidation_may_start(in_flight, has_store, has_session),
    ensures
        !consolidation_may_start(
            in_flight || consolidation_may_start(in_flight, has_store, has_session),
            later_store,
            later_session,
        ),
{
}

impl AgentTask {
    /// The task's agent id.
    pub closed spec fn agent_id(&self) -> AgentId {
        self.id
    }

    /// The task's display name.
    pub closed spec fn agent_name(&self) -> Seq<char> {
        self.name@
    }

    /// The task's auto-continue streak.
    pub closed spec fn streak(&self) -> u32 {
        self.auto_continue_streak
    }

    /// Whether the task runs unattended.
    pub closed spec fn unattended_mode(&self) -> bool {
        self.unattended
    }

    /// The task's memory session id, if one was started.
    pub closed spec fn session(&self) -> Option<Seq<char>> {
        match self.session_id {
            Some(s) => Some(s@),
            None => None,
        }
    }

    /// Whether a memory consolidation of the task is in flight.
    pub closed spec fn consolidating(&self) -> bool {
        self.consolidation_in_flight
    }

    /// A fresh task: no session, a full auto-continue budget, attended, no
    /// consolidation in flight.
    pub fn new(id: AgentId, name: String) -> (t: Self)
        ensures
            t.agent_id() == id,
            t.agent_name() == name@,
            t.streak() == 0,
            !t.unattended_mode(),
            t.session() is None,
            !t.consolidating(),
    {
        AgentTask {
            id,
            name,
            session_id: None,
            auto_continue_streak: 0,
            unattended: false,
            consolidation_in_flight: false,
        }
    }

    /// The task's auto-continue streak.
    pub fn auto_continue_streak(&self) -> (r: u32)
        ensures
            r == self.streak(),
    {
        self.auto_continue_streak
    }

    /// Whether the task runs unattended.
    pub fn is_unattended(&self) -> (r: bool)
        ensures
            r == self.unattended_mode(),
    {
        self.unattended
    }

    /// The task's memory session id, if one was started.
    pub fn session_id(&self) -> (r: Option<String>)
        ensures
            match r {
                Some(s) => self.session() == Some(s@),
                None => self.session() is None,
            },
    {
        match &self.session_id {
            Some(s) => Some(s.clone()),
            None => None,
        }
    }

    /// Whether the task still has to start a memory session (it starts one
    /// on its first prompt or steer, when a memory store is available).
    pub fn wants_session(&self) -> (r: bool)
        ensures
            r == (self.session() is None),
    {
        self.session_id.is_none()
    }

    /// Records the memory session the task started.
    pub fn set_session_id(&mut self, sid: String)
        ensures
            final(self).session() == Some(sid@),
            final(self).agent_id() == old(self).agent_id(),
            final(self).agent_name() == old(self).agent_name(),
            final(self).streak() == old(self).streak(),
            final(self).unattended_mode() == old(self).unattended_mode(),
            final(self).consolidating() == old(self).consolidating(),
    {
        self.session_id = Some(sid);
    }

    /// What a prompt re-derives: the streak restarts (real user input earns
    /// a fresh budget) and the dispatch mode is set from the prompt's
    /// marker (assignment, so a plain prompt clears unattended mode).
    pub fn rederive_on_prompt(&mut self, text: &str)
        ensures
            final(self).streak() == 0,
            final(self).unattended_mode() == starts_with(text@, UNATTENDED_PROMPT_PREFIX@),
            final(self).agent_id() == old(self).agent_id(),
            final(self).agent_name() == old(self).agent_name(),
            final(self).session() == old(self).session(),
            final(self).consolidating() == old(self).consolidating(),
    {
        self.auto_continue_streak = 0;
        let t = chars_of(text);
        let p = chars_of(UNATTENDED_PROMPT_PREFIX);
        self.unattended = starts_with_seq(&t, &p);
    }

    /// What a command received between turns leads to, and what it does to
    /// the task's state.
    pub fn on_command(&mut self, cmd: &AgentCommand) -> (r: CommandStep)
        ensures
            final(self).agent_id() == old(self).agent_id(),
            final(self).agent_name() == old(self).agent_name(),
            final(self).session() == old(self).session(),
            final(self).consolidating() == old(self).consolidating(),
            match cmd {
                AgentCommand::Prompt { text, images: _ } => {
                    &&& r == (CommandStep::RunPrompt {
                        correction: first_trigger(lowercase(text@)),
                    })
                    &&& final(self).streak() == 0
                    &&& final(self).unattended_mode() == starts_with(
                        text@,
                        UNATTENDED_PROMPT_PREFIX@,
                    )
                },
                AgentCommand::Suggestion(_) => {
                    &&& r == CommandStep::RunSuggestion
                    &&& final(self).streak() == 0
                    &&& final(self).unattended_mode() == old(self).unattended_mode()
                },
                AgentCommand::CancelSuggestion(_) => r == CommandStep::Ignore && final(self).streak()
                    == old(self).streak() && final(self).unattended_mode() == old(
                    self,
                ).unattended_mode(),
                AgentCommand::Interrupt => r == CommandStep::Ignore && final(self).streak() == old(
                    self,
                ).streak() && final(self).unattended_mode() == old(self).unattended_mode(),
                AgentCommand::Cancel => r == CommandStep::Exit && final(self).streak() == old(
                    self,
                ).streak() && final(self).unattended_mode() == old(self).unattended_mode(),
                AgentCommand::Compact => r == CommandStep::Compact && final(self).streak() == old(
                    self,
                ).streak() && final(self).unattended_mode() == old(self).unattended_mode(),
                AgentCommand::Clear => r == CommandStep::Clear && final(self).streak() == old(
                    self,
                ).streak() && final(self).unattended_mode() == old(self).unattended_mode(),
            },
    {
        match cmd {
            AgentCommand::Prompt { text, images: _ } => {
                self.rederive_on_prompt(text.as_str());
                let correction = detect_correction(text.as_str());
                CommandStep::RunPrompt { correction }
            },
            AgentCommand::Suggestion(_) => {
                self.auto_continue_streak = 0;
                CommandStep::RunSuggestion
            },
            AgentCommand::CancelSuggestion(_) => CommandStep::Ignore,
            AgentCommand::Interrupt => CommandStep::Ignore,
            AgentCommand::Cancel => CommandStep::Exit,
            AgentCommand::Compact => CommandStep::Compact,
            AgentCommand::Clear => CommandStep::Clear,
        }
    }

    /// What a turn that ended normally (no stop request) leads to: another
    /// turn driven by a continue note while the budget lasts, the workflow
    /// expects progress, no descendant runs and the agent is not a
    /// subagent; otherwise a park.
    pub fn on_turn_end(&mut self, facts: TurnEndFacts) -> (r: TurnEnd)
        ensures
            r == turn_end_decision(old(self).streak(), old(self).unattended_mode(), facts),
            final(self).streak() == next_streak(old(self).streak(), facts),
            final(self).unattended_mode() == old(self).unattended_mode(),
            final(self).agent_id() == old(self).agent_id(),
            final(self).agent_name() == old(self).agent_name(),
            final(self).session() == old(self).session(),
            final(self).consolidating() == old(self).consolidating(),
    {
        if self.auto_continue_streak < MAX_AUTO_CONTINUE && facts.expects_progress
            && !facts.descendants_running && !facts.subagent {
            self.auto_continue_streak = self.auto_continue_streak + 1;
            let consolidate = self.auto_continue_streak % CONSOLIDATE_EVERY_N_TURNS == 0;
            let note = if self.unattended {
                UNATTENDED_CONTINUE_NOTE
            } else {
                CONTINUE_NOTE
            };
            TurnEnd::AutoContinue { note, consolidate }
        } else if facts.subagent {
            TurnEnd::Park { reason: None }
        } else {
            let reason = if facts.descendants_running {
                ParkReason::WaitingForDescendants
            } else if !facts.expects_progress {
                ParkReason::NoWorkExpected
            } else {
                ParkReason::BudgetExhausted
            };
            TurnEnd::Park { reason: Some(reason) }
        }
    }

    /// Claims the task's consolidation slot. A consolidation runs only
    /// with a memory store, an active session and none already in flight
    /// for the task (overlapping runs would double-spend tokens); the slot
    /// stays claimed until [`AgentTask::finish_consolidation`].
    pub fn try_begin_consolidation(&mut self, has_store: bool) -> (r: bool)
        ensures
            r == consolidation_may_start(
                old(self).consolidating(),
                has_store,
                old(self).session() is Some,
            ),
            final(self).consolidating() == (old(self).consolidating() || r),
            final(self).streak() == old(self).streak(),
            final(self).unattended_mode() == old(self).unattended_mode(),
            final(self).agent_id() == old(self).agent_id(),
            final(self).agent_name() == old(self).agent_name(),
            final(self).session() == old(self).session(),
    {
        if has_store && self.session_id.is_some() && !self.consolidation_in_flight {
            self.consolidation_in_flight = true;
            true
        } else {
            false
        }
    }

    /// Releases the consolidation slot when the consolidation ends, however
    /// it ends.
    pub fn finish_consolidation(&mut self)
        ensures
            !final(self).consolidating(),
            final(self).streak() == old(self).streak(),
            final(self).unattended_mode() == old(self).unattended_mode(),
            final(self).agent_id() == old(self).agent_id(),
            final(self).agent_name() == old(self).agent_name(),
            final(self).session() == old(self).session(),
    {
        self.consolidation_in_flight = false;
    }
}

/// Why a turn stopped early, as the turn reports it: the commands that
/// arrived while it ran, folded into one request.
#[derive(Debug, Clone)]
pub enum StopReason {
    /// The turn soft-stopped on steers queued mid-turn.
    Steer(Vec<SteerPayload>),
    /// The user pressed Stop with steers already queued.
    InterruptWithSteers(Vec<SteerPayload>),
    /// The user pressed Stop.
    Interrupt,
    /// The agent was cancelled.
    Cancel,
    /// The user asked for a compaction.
    Compact,
    /// The user asked for a compaction with steers queued.
    CompactWithSteers(Vec<SteerPayload>),
    /// The user asked for a fresh conversation.
    Clear,
}

/// What the task's loop does once a chain of turns is over.
#[derive(Debug, Clone)]
pub enum AfterTurn {
    /// The agent stays alive and waits for the next command.
    Continue,
    /// The agent was cancelled; the task ends.
    Cancelled,
    /// Compact the conversation, then run these queued steers (or, with
    /// none, resume the interrupted work).
    Compact(Vec<SteerPayload>),
    /// Clear the conversation.
    Clear,
}

/// What a stopped turn leads to.
#[derive(Debug, Clone)]
pub enum StopStep {
    /// Announce each steer as injected, push each as a user message in
    /// arrival order and run a follow-up turn.
    FollowUp(Vec<SteerPayload>),
    /// Report a park with [`ParkReason::Interrupted`] and go idle: a turn
    /// the user stopped never auto-resumes.
    ParkInterrupted,
    /// End the chain of turns.
    Finish(AfterTurn),
}

/// What a stopped turn leads to. Queued steers are never dropped: they
/// drive the follow-up turn, or run after the compaction they came with.
pub fn resolve_stop(stop: StopReason) -> (r: StopStep)
    ensures
        match stop {
            StopReason::Steer(s) => r == StopStep::FollowUp(s),
            StopReason::InterruptWithSteers(s) => r == StopStep::FollowUp(s),
            StopReason::Interrupt => r == StopStep::ParkInterrupted,
            StopReason::Cancel => r == StopStep::Finish(AfterTurn::Cancelled),
            StopReason::Compact => r matches StopStep::Finish(AfterTurn::Compact(s)) && s@.len()
                == 0,
            StopReason::CompactWithSteers(s) => r == StopStep::Finish(AfterTurn::Compact(s)),
            StopReason::Clear => r == StopStep::Finish(AfterTurn::Clear),
        },
{
    match stop {
        StopReason::Steer(s) => StopStep::FollowUp(s),
        StopReason::InterruptWithSteers(s) => StopStep::FollowUp(s),
        StopReason::Interrupt => StopStep::ParkInterrupted,
        StopReason::Cancel => StopStep::Finish(AfterTurn::Cancelled),
        StopReason::Compact => StopStep::Finish(AfterTurn::Compact(Vec::new())),
        StopReason::CompactWithSteers(s) => StopStep::Finish(AfterTurn::Compact(s)),
        StopReason::Clear => StopStep::Finish(AfterTurn::Clear),
    }
}

/// How a manual compaction ended.
#[derive(Debug, Clone)]
pub enum CompactOutcome {
    /// The summary was applied (with or without a reduction).
    Completed,
    /// The summarization call failed; the conversation is unchanged.
    Failed,
    /// The user stopped the summarization: `Interrupt` goes idle, `Cancel`
    /// ends the agent.
    Stopped(StopReason),
}

/// How a compaction ended, given what its summarization call returned: an
/// error fails the compaction; otherwise a stop request that arrived during
/// the call stops it, and with none the compaction completed.
pub fn compaction_outcome(summarization: Result<Option<StopReason>, String>) -> (r: CompactOutcome)
    ensures
        match summarization {
            Err(_) => r == CompactOutcome::Failed,
            Ok(Some(s)) => r == CompactOutcome::Stopped(s),
            Ok(None) => r == CompactOutcome::Completed,
        },
{
    match summarization {
        Err(_) => CompactOutcome::Failed,
        Ok(Some(s)) => CompactOutcome::Stopped(s),
        Ok(None) => CompactOutcome::Completed,
    }
}

/// Whether the summary replaces the conversation: only a completed
/// compaction applies it; a failed or stopped one keeps the original
/// conversation.
pub fn applies_summary(outcome: &CompactOutcome) -> (r: bool)
    ensures
        r == (*outcome is Completed),
{
    match outcome {
        CompactOutcome::Completed => true,
        CompactOutcome::Failed => false,
        CompactOutcome::Stopped(_) => false,
    }
}

/// The harness note that resumes work after a compaction with no queued
/// steers.
pub const COMPACTED_RESUME_NOTE: &'static str =
    "[harness note] Context was compacted mid-task — continue from where you left off.";

/// What follows a compaction.
#[derive(Debug, Clone, Copy, PartialEq, Eq)]
pub enum CompactFollowUp {
    /// The agent was cancelled mid-compaction: end the task (queued steers
    /// are not pushed).
    Exit,
    /// Push the queued steers (they stay as context for the next prompt)
    /// and go idle.
    Idle,
    /// Push the queued steers, then `note` when there is one, and run a
    /// follow-up turn on the compacted conversation.
    Resume { note: Option<&'static str> },
}

/// What follows a compaction that ended with `outcome`, with
/// `queued_steers` steers waiting to run. Only a completed compaction
/// resumes work: a failed one must not claim the context was compacted,
/// and a stopped one honors the stop.
pub fn after_compaction(outcome: &CompactOutcome, queued_steers: usize) -> (r: CompactFollowUp)
    ensures
        match outcome {
            CompactOutcome::Stopped(StopReason::Cancel) => r == CompactFollowUp::Exit,
            CompactOutcome::Stopped(_) => r == CompactFollowUp::Idle,
            CompactOutcome::Failed => r == CompactFollowUp::Idle,
            CompactOutcome::Completed => r == (CompactFollowUp::Resume {
                note: if queued_steers == 0 {
                    Some(COMPACTED_RESUME_NOTE)
                } else {
                    None
                },
            }),
        },
{
    match outcome {
        CompactOutcome::Stopped(StopReason::Cancel) => CompactFollowUp::Exit,
        CompactOutcome::Stopped(_) => CompactFollowUp::Idle,
        CompactOutcome::Failed => CompactFollowUp::Idle,
        CompactOutcome::Completed => {
            let note = if queued_steers == 0 {
                Some(COMPACTED_RESUME_NOTE)
            } else {
                None
            };
            CompactFollowUp::Resume { note }
        },
    }
}

/// What a command buffered during a compaction's summarization becomes.
#[derive(Debug, Clone)]
pub enum Reinjection {
    /// Announce the steer as injected and push it: as a guidance message
    /// when `as_guidance` (a text-only steer), else as a user message with
    /// its images.
    InjectSteer { payload: SteerPayload, as_guidance: bool },
    /// Push the prompt as a user message.
    PushPrompt { text: String, images: Vec<String> },
    /// Any other command is unexpected here; it is logged and dropped.
    Unexpected(AgentCommand),
}

impl AgentTask {
    /// Re-injects a command buffered during a compaction's summarization.
    /// A buffered prompt never passed through [`AgentTask::on_command`], so
    /// it re-derives the budget and the dispatch mode here.
    pub fn reinject_buffered(&mut self, cmd: AgentCommand) -> (r: Reinjection)
        ensures
            final(self).agent_id() == old(self).agent_id(),
            final(self).agent_name() == old(self).agent_name(),
            final(self).session() == old(self).session(),
            final(self).consolidating() == old(self).consolidating(),
            match cmd {
                AgentCommand::Suggestion(p) => {
                    &&& r == (Reinjection::InjectSteer {
                        payload: p,
                        as_guidance: p.images@.len() == 0,
                    })
                    &&& final(self).streak() == old(self).streak()
                    &&& final(self).unattended_mode() == old(self).unattended_mode()
                },
                AgentCommand::Prompt { text, images } => {
                    &&& r == (Reinjection::PushPrompt { text, images })
                    &&& final(self).streak() == 0
                    &&& final(self).unattended_mode() == starts_with(
                        text@,
                        UNATTENDED_PROMPT_PREFIX@,
                    )
                },
                _ => {
                    &&& r == Reinjection::Unexpected(cmd)
                    &&& final(self).streak() == old(self).streak()
                    &&& final(self).unattended_mode() == old(self).unattended_mode()
                },
            },
    {
        match cmd {
            AgentCommand::Suggestion(p) => {
                let as_guidance = p.images.len() == 0;
                Reinjection::InjectSteer { payload: p, as_guidance }
            },
            AgentCommand::Prompt { text, images } => {
                self.rederive_on_prompt(text.as_str());
                Reinjection::PushPrompt { text, images }
            },
            other => Reinjection::Unexpected(other),
        }
    }
}

/// Maximum attempts for a single turn when the provider fails (a network or
/// stream error), retried with backoff. Distinct from the cap on
/// consecutive tool-execution errors within a turn.
pub const MAX_PROVIDER_TURN_ATTEMPTS: u32 = 3;

/// A failure-triage reading of a provider error.
#[derive(Debug, Clone, Copy, PartialEq, Eq, Structural)]
pub enum FailureClass {
    /// Credentials, permissions or a quota need the user.
    NeedsUser,
    /// The request itself must change.
    Permanent,
    /// A transient fault; a retry may help.
    Transient,
    /// A flaky test; a retry may help.
    FlakyTest,
}

/// A provider error as the turn loop reads it: its text and its kind.
#[derive(Debug, Clone)]
pub struct ProviderFailure {
    /// The error's display text.
    pub text: String,
    /// The provider answered 429: out of quota.
    pub rate_limited: bool,
    /// The error can never succeed on retry (context overflow, auth, an
    /// unknown model).
    pub non_retryable: bool,
    /// The error is itself a classified failure-triage skip.
    pub classified_skip: bool,
}

/// The provider-retry state of one turn, as plain values.
#[derive(Debug, Clone, Copy, PartialEq, Eq, Structural)]
pub struct RetryState {
    /// Failed attempts counted against [`MAX_PROVIDER_TURN_ATTEMPTS`].
    pub attempt: u32,
    /// Whether the turn already switched (or tried to switch) to an
    /// alternate endpoint after a rate limit.
    pub tried_fallback: bool,
    /// The triage class that skipped the retry ladder, if any.
    pub skip: Option<FailureClass>,
    /// Whether a triage row logged for an earlier attempt awaits its
    /// outcome.
    pub pending: bool,
}

/// The next action after a provider error.
#[derive(Debug, Clone, Copy, PartialEq, Eq, Structural)]
pub enum ErrorStep {
    /// Look for an alternate endpoint serving the same model, and report it
    /// through [`ProviderRetry::on_fallback`].
    QueryFallback,
    /// Announce the switch and retry at once on the alternate endpoint.
    Switch,
    /// Ask the failure triage for a class, and report it through
    /// [`ProviderRetry::on_classified`].
    Classify,
    /// Announce the retry, back off and retry; `attempt` is the failed
    /// attempt's number.
    Retry { attempt: u32 },
    /// Give up: record the failure in the conversation, report it and end
    /// the turn.
    Fail,
}

/// Counts one more failed attempt and decides between retry and failure.
pub open spec fn ladder(s: RetryState) -> (RetryState, ErrorStep) {
    let a = if s.attempt < MAX_PROVIDER_TURN_ATTEMPTS {
        (s.attempt + 1) as u32
    } else {
        s.attempt
    };
    (
        RetryState { attempt: a, ..s },
        if a < MAX_PROVIDER_TURN_ATTEMPTS {
            ErrorStep::Retry { attempt: a }
        } else {
            ErrorStep::Fail
        },
    )
}

/// Gives up on the turn.
pub open spec fn give_up(s: RetryState) -> (RetryState, ErrorStep) {
    (RetryState { attempt: MAX_PROVIDER_TURN_ATTEMPTS, ..s }, ErrorStep::Fail)
}

/// The step after a provider error. A rate limit gets one switch to an
/// alternate endpoint per turn and is never retried with backoff; a
/// non-retryable error fails at once; any other error is classified once
/// per turn when triage is on, and otherwise climbs the retry ladder.
pub open spec fn error_step(
    s: RetryState,
    rate_limited: bool,
    non_retryable: bool,
    triage_on: bool,
) -> (RetryState, ErrorStep) {
    if rate_limited {
        if !s.tried_fallback {
            (RetryState { tried_fallback: true, ..s }, ErrorStep::QueryFallback)
        } else {
            give_up(s)
        }
    } else if non_retryable {
        give_up(s)
    } else if triage_on && !s.pending && s.skip is None {
        (s, ErrorStep::Classify)
    } else {
        ladder(s)
    }
}

/// The step once the alternate-endpoint lookup answered.
pub open spec fn fallback_step(s: RetryState, found: bool) -> (RetryState, ErrorStep) {
    if found {
        (s, ErrorStep::Switch)
    } else {
        give_up(s)
    }
}

/// The step once the failure triage answered: a confident needs-user or
/// permanent reading skips the retry ladder; a transient or flaky reading
/// (logged, pending its outcome), or no usable answer, climbs it.
pub open spec fn classified_step(s: RetryState, class: Option<FailureClass>) -> (RetryState, ErrorStep) {
    match class {
        Some(FailureClass::NeedsUser) => give_up(RetryState { skip: class, ..s }),
        Some(FailureClass::Permanent) => give_up(RetryState { skip: class, ..s }),
        Some(_) => ladder(RetryState { pending: true, ..s }),
        None => ladder(s),
    }
}

/// One answer the retry policy receives within a turn.
pub enum RetryEvent {
    /// A provider error of the given kinds, with triage on or off.
    Error { rate_limited: bool, non_retryable: bool, triage_on: bool },
    /// The alternate-endpoint lookup's answer.
    Fallback { found: bool },
    /// The failure triage's answer.
    Classified { class: Option<FailureClass> },
}

/// The state and step after one answer.
pub open spec fn retry_step(s: RetryState, e: RetryEvent) -> (RetryState, ErrorStep) {
    match e {
        RetryEvent::Error { rate_limited, non_retryable, triage_on } => error_step(
            s,
            rate_limited,
            non_retryable,
            triage_on,
        ),
        RetryEvent::Fallback { found } => fallback_step(s, found),
        RetryEvent::Classified { class } => classified_step(s, class),
    }
}

/// The number of backoff retries that a sequence of answers leads to.
pub open spec fn retries(s: RetryState, events: Seq<RetryEvent>) -> nat
    decreases events.len(),
{
    if events.len() == 0 {
        0
    } else {
        let (s2, step) = retry_step(s, events[0]);
        let rest = retries(s2, events.drop_first());
        if step is Retry {
            rest + 1
        } else {
            rest
        }
    }
}

/// The number of alternate-endpoint lookups that a sequence of answers
/// leads to.
pub open spec fn fallback_queries(s: RetryState, events: Seq<RetryEvent>) -> nat
    decreases events.len(),
{
    if events.len() == 0 {
        0
    } else {
        let (s2, step) = retry_step(s, events[0]);
        let rest = fallback_queries(s2, events.drop_first());
        if step is QueryFallback {
            rest + 1
        } else {
            rest
        }
    }
}

/// The retry ladder is bounded: whatever errors and answers a turn meets,
/// it backs off and retries fewer than `MAX_PROVIDER_TURN_ATTEMPTS` times
/// in all, counting the attempts already failed.
pub proof fn law_retries_are_bounded(s: RetryState, events: Seq<RetryEvent>)
    requires
        s.attempt < MAX_PROVIDER_TURN_ATTEMPTS,
    ensures
        s.attempt + retries(s, events) < MAX_PROVIDER_TURN_ATTEMPTS,
    decreases events.len(),
{
    if events.len() > 0 {
        let (s2, step) = retry_step(s, events[0]);
        if s2.attempt < MAX_PROVIDER_TURN_ATTEMPTS {
            law_retries_are_bounded(s2, events.drop_first());
        } else {
            lemma_no_retries_when_exhausted(s2, events.drop_first());
        }
    }
}

/// Once the attempts are used up, nothing retries any more.
pub proof fn lemma_no_retries_when_exhausted(s: RetryState, events: Seq<RetryEvent>)
    requires
        s.attempt >= MAX_PROVIDER_TURN_ATTEMPTS,
    ensures
        retries(s, events) == 0,
    decreases events.len(),
{
    if events.len() > 0 {
        let (s2, step) = retry_step(s, events[0]);
        lemma_no_retries_when_exhausted(s2, events.drop_first());
    }
}

/// A rate-limited turn switches endpoints at most once: whatever errors
/// and answers follow, the alternate-endpoint lookup runs at most once per
/// turn, so two rate-limited endpoints never ping-pong.
pub proof fn law_one_fallback_per_turn(s: RetryState, events: Seq<RetryEvent>)
    ensures
        fallback_queries(s, events) <= (if s.tried_fallback {
            0nat
        } else {
            1nat
        }),
    decreases events.len(),
{
    if events.len() > 0 {
        let (s2, step) = retry_step(s, events[0]);
        law_one_fallback_per_turn(s2, events.drop_first());
    }
}

/// A non-retryable error never burns backoff retries: it fails the turn at
/// once, whatever the state.
pub proof fn law_non_retryable_fails_at_once(s: RetryState, triage_on: bool)
    ensures
        error_step(s, false, true, triage_on).1 == ErrorStep::Fail,
{
}

/// A confident triage reading of a failure the user must resolve, or of a
/// request that must change, skips the retry ladder: whatever the state,
/// the turn fails at once, with its attempts used up and the class
/// recorded, so the terminal note names that class instead of claiming
/// that retries were exhausted. A transient or flaky reading never skips:
/// it records no class and climbs the ladder by one attempt.
pub proof fn law_confident_triage_skips_the_ladder(s: RetryState, class: FailureClass)
    requires
        s.attempt < MAX_PROVIDER_TURN_ATTEMPTS,
        s.skip is None,
    ensures
        (class == FailureClass::NeedsUser || class == FailureClass::Permanent) ==> {
            let (s2, step) = classified_step(s, Some(class));
            &&& step == ErrorStep::Fail
            &&& s2.skip == Some(class)
            &&& s2.attempt == MAX_PROVIDER_TURN_ATTEMPTS
            &&& qualifier(false, false, s2.skip, false) == (if class == FailureClass::NeedsUser {
                QUALIFIER_NEEDS_USER
            } else {
                QUALIFIER_PERMANENT
            })
        },
        (class == FailureClass::Transient || class == FailureClass::FlakyTest) ==> {
            let (s2, step) = classified_step(s, Some(class));
            &&& s2.skip is None
            &&& s2.pending
            &&& s2.attempt == s.attempt + 1
            &&& step == (if s.attempt + 1 < MAX_PROVIDER_TURN_ATTEMPTS {
                ErrorStep::Retry { attempt: (s.attempt + 1) as u32 }
            } else {
                ErrorStep::Fail
            })
        },
{
}

/// The retry policy of one turn.
pub struct ProviderRetry {
    state: RetryState,
}

impl View for ProviderRetry {
    type V = RetryState;

    closed spec fn view(&self) -> RetryState {
        self.state
    }
}

impl ProviderRetry {
    /// A turn's first attempt: nothing failed yet.
    pub fn new() -> (r: Self)
        ensures
            r@ == (RetryState { attempt: 0, tried_fallback: false, skip: None, pending: false }),
    {
        ProviderRetry {
            state: RetryState { attempt: 0, tried_fallback: false, skip: None, pending: false },
        }
    }

    /// The failed attempts so far.
    pub fn attempt(&self) -> (r: u32)
        ensures
            r == self@.attempt,
    {
        self.state.attempt
    }

    /// The triage class that skipped the retry ladder, if any.
    pub fn skip_class(&self) -> (r: Option<FailureClass>)
        ensures
            r == self@.skip,
    {
        self.state.skip
    }

    fn apply(&mut self, next: (RetryState, ErrorStep)) -> (r: ErrorStep)
        ensures
            final(self)@ == next.0,
            r == next.1,
    {
        self.state = next.0;
        next.1
    }

    fn climb(&self) -> (r: (RetryState, ErrorStep))
        ensures
            r == ladder(self@),
    {
        let s = self.state;
        let a = if s.attempt < MAX_PROVIDER_TURN_ATTEMPTS {
            s.attempt + 1
        } else {
            s.attempt
        };
        let step = if a < MAX_PROVIDER_TURN_ATTEMPTS {
            ErrorStep::Retry { attempt: a }
        } else {
            ErrorStep::Fail
        };
        (RetryState { attempt: a, ..s }, step)
    }

    /// The step after a provider error; `triage_on` tells whether a failure
    /// triage is configured.
    pub fn on_error(&mut self, failure: &ProviderFailure, triage_on: bool) -> (r: ErrorStep)
        ensures
            (final(self)@, r) == error_step(
                old(self)@,
                failure.rate_limited,
                failure.non_retryable,
                triage_on,
            ),
    {
        let s = self.state;
        if failure.rate_limited {
            if !s.tried_fallback {
                self.apply((RetryState { tried_fallback: true, ..s }, ErrorStep::QueryFallback))
            } else {
                self.apply((RetryState { attempt: MAX_PROVIDER_TURN_ATTEMPTS, ..s }, ErrorStep::Fail))
            }
        } else if failure.non_retryable {
            self.apply((RetryState { attempt: MAX_PROVIDER_TURN_ATTEMPTS, ..s }, ErrorStep::Fail))
        } else if triage_on && !s.pending && s.skip.is_none() {
            ErrorStep::Classify
        } else {
            let next = self.climb();
            self.apply(next)
        }
    }

    /// The step once the alternate-endpoint lookup answered.
    pub fn on_fallback(&mut self, found: bool) -> (r: ErrorStep)
        ensures
            (final(self)@, r) == fallback_step(old(self)@, found),
    {
        if found {
            ErrorStep::Switch
        } else {
            let s = self.state;
            self.apply((RetryState { attempt: MAX_PROVIDER_TURN_ATTEMPTS, ..s }, ErrorStep::Fail))
        }
    }

    /// The step once the failure triage answered.
    pub fn on_classified(&mut self, class: Option<FailureClass>) -> (r: ErrorStep)
        ensures
            (final(self)@, r) == classified_step(old(self)@, class),
    {
        let s = self.state;
        match class {
            Some(FailureClass::NeedsUser) | Some(FailureClass::Permanent) => {
                self.apply(
                    (
                        RetryState { skip: class, attempt: MAX_PROVIDER_TURN_ATTEMPTS, ..s },
                        ErrorStep::Fail,
                    ),
                )
            },
            Some(_) => {
                self.state = RetryState { pending: true, ..s };
                let next = self.climb();
                self.apply(next)
            },
            None => {
                let next = self.climb();
                self.apply(next)
            },
        }
    }

    /// Takes the triage row that awaits its outcome, if any: the caller
    /// resolves it as a success when the turn then succeeds, as a failure
    /// when the turn then fails for good.
    pub fn take_pending(&mut self) -> (r: bool)
        ensures
            r == old(self)@.pending,
            final(self)@ == (RetryState { pending: false, ..old(self)@ }),
    {
        let s = self.state;
        self.state = RetryState { pending: false, ..s };
        s.pending
    }
}

/// The maximum length, in characters, of a provider error's text pushed
/// into the conversation on a terminal failure: error bodies can be huge.
pub const MAX_PROVIDER_ERROR_NOTE_CHARS: usize = 2000;

/// The qualifier of a rate limit with no alternate endpoint.
pub const QUALIFIER_RATE_LIMITED: &'static str = "rate limited (429), no alternate provider found";

/// The qualifier of an error that is itself a classified skip.
pub const QUALIFIER_CLASSIFIED_SKIP: &'static str =
    "classified failure-triage skip (retrying cannot help)";

/// The qualifier of an error the triage read as needing the user.
pub const QUALIFIER_NEEDS_USER: &'static str =
    "classified needs_user — retrying cannot help (credentials, permissions, or a quota need the user)";

/// The qualifier of an error the triage read as permanent.
pub const QUALIFIER_PERMANENT: &'static str =
    "classified permanent — retrying cannot help (the request itself must change)";

/// The qualifier of a non-retryable error.
pub const QUALIFIER_NON_RETRYABLE: &'static str = "non-retryable provider error";

/// The qualifier of an error that outlasted the retry ladder.
pub const QUALIFIER_RETRIES_EXHAUSTED: &'static str = "provider error, retries exhausted";

/// How a terminal provider failure is qualified: no text claims "retries
/// exhausted" for a failure that skipped the retries.
pub open spec fn qualifier(
    rate_limited: bool,
    classified_skip: bool,
    skip: Option<FailureClass>,
    non_retryable: bool,
) -> &'static str {
    if rate_limited {
        QUALIFIER_RATE_LIMITED
    } else if classified_skip {
        QUALIFIER_CLASSIFIED_SKIP
    } else if skip == Some(FailureClass::NeedsUser) {
        QUALIFIER_NEEDS_USER
    } else if skip is Some {
        QUALIFIER_PERMANENT
    } else if non_retryable {
        QUALIFIER_NON_RETRYABLE
    } else {
        QUALIFIER_RETRIES_EXHAUSTED
    }
}

/// The first `MAX_PROVIDER_ERROR_NOTE_CHARS` characters of `s`.
pub open spec fn truncated_error(s: Seq<char>) -> Seq<char> {
    if s.len() <= MAX_PROVIDER_ERROR_NOTE_CHARS {
        s
    } else {
        s.take(MAX_PROVIDER_ERROR_NOTE_CHARS as int)
    }
}

/// The in-context note of a terminal provider failure, so that the next
/// turn sees why the last request failed.
pub open spec fn terminal_note_text(qualifier: Seq<char>, error: Seq<char>) -> Seq<char> {
    "[harness note] The previous LLM request failed terminally ("@ + qualifier + "): "@
        + truncated_error(error)
}

/// The user-facing text of a terminal provider failure: a rate limit adds
/// what the user can do, a triage skip names its class, any other error is
/// shown as it is.
pub open spec fn terminal_event_text(
    error: Seq<char>,
    qualifier: Seq<char>,
    rate_limited: bool,
    skipped: bool,
) -> Seq<char> {
    if rate_limited {
        error + " — "@ + qualifier
            + ". Switch models via the status-bar picker, or configure another endpoint serving this model."@
    } else if skipped {
        error + " — "@ + qualifier + "."@
    } else {
        error
    }
}

/// The note of a retry about to happen.
pub open spec fn retry_note_text(error: Seq<char>, attempt: u32) -> Seq<char> {
    error + " — retrying (attempt "@ + decimal(attempt as nat) + "/"@ + decimal(
        MAX_PROVIDER_TURN_ATTEMPTS as nat,
    ) + ")"@
}

/// The note of a switch to an alternate endpoint after a rate limit.
pub open spec fn fallback_note_text(model: Seq<char>, from: Seq<char>, to: Seq<char>) -> Seq<char> {
    "Rate limited (429) on "@ + model + "@"@ + from + " — switching to alternate provider "@ + to
}

/// The first `MAX_PROVIDER_ERROR_NOTE_CHARS` characters of `v`.
fn truncate_error(v: &Vec<char>) -> (r: Vec<char>)
    ensures
        r@ == truncated_error(v@),
{
    let end = if v.len() <= MAX_PROVIDER_ERROR_NOTE_CHARS {
        v.len()
    } else {
        MAX_PROVIDER_ERROR_NOTE_CHARS
    };
    let r = slice_chars(v, 0, end);
    assert(r@ =~= truncated_error(v@));
    r
}

/// The note of a retry about to happen.
pub fn retry_note(error: &str, attempt: u32) -> (r: String)
    ensures
        r@ == retry_note_text(error@, attempt),
{
    let mut v = chars_of(error);
    push_str(&mut v, " — retrying (attempt ");
    push_decimal(&mut v, attempt);
    push_str(&mut v, "/");
    push_decimal(&mut v, MAX_PROVIDER_TURN_ATTEMPTS);
    push_str(&mut v, ")");
    string_of(&v)
}

/// The note of a switch to an alternate endpoint after a rate limit.
pub fn fallback_note(model: &str, from: &str, to: &str) -> (r: String)
    ensures
        r@ == fallback_note_text(model@, from@, to@),
{
    let mut v: Vec<char> = Vec::new();
    push_str(&mut v, "Rate limited (429) on ");
    push_str(&mut v, model);
    push_str(&mut v, "@");
    push_str(&mut v, from);
    push_str(&mut v, " — switching to alternate provider ");
    push_str(&mut v, to);
    assert(v@ =~= fallback_note_text(model@, from@, to@));
    string_of(&v)
}

impl ProviderRetry {
    /// How this turn's terminal failure is qualified.
    pub fn qualifier(&self, failure: &ProviderFailure) -> (r: &'static str)
        ensures
            r == qualifier(
                failure.rate_limited,
                failure.classified_skip,
                self@.skip,
                failure.non_retryable,
            ),
    {
        if failure.rate_limited {
            QUALIFIER_RATE_LIMITED
        } else if failure.classified_skip {
            QUALIFIER_CLASSIFIED_SKIP
        } else {
            match self.state.skip {
                Some(FailureClass::NeedsUser) => QUALIFIER_NEEDS_USER,
                Some(_) => QUALIFIER_PERMANENT,
                None => if failure.non_retryable {
                    QUALIFIER_NON_RETRYABLE
                } else {
                    QUALIFIER_RETRIES_EXHAUSTED
                },
            }
        }
    }

    /// The in-context note of this turn's terminal failure.
    pub fn terminal_note(&self, failure: &ProviderFailure) -> (r: String)
        ensures
            r@ == terminal_note_text(
                qualifier(
                    failure.rate_limited,
                    failure.classified_skip,
                    self@.skip,
                    failure.non_retryable,
                )@,
                failure.text@,
            ),
    {
        let q = self.qualifier(failure);
        let mut v: Vec<char> = Vec::new();
        push_str(&mut v, "[harness note] The previous LLM request failed terminally (");
        push_str(&mut v, q);
        push_str(&mut v, "): ");
        let e = chars_of(failure.text.as_str());
        let t = truncate_error(&e);
        append_chars(&mut v, &t);
        string_of(&v)
    }

    /// The user-facing text of this turn's terminal failure.
    pub fn terminal_event(&self, failure: &ProviderFailure) -> (r: String)
        ensures
            r@ == terminal_event_text(
                failure.text@,
                qualifier(
                    failure.rate_limited,
                    failure.classified_skip,
                    self@.skip,
                    failure.non_retryable,
                )@,
                failure.rate_limited,
                self@.skip is Some,
            ),
    {
        let q = self.qualifier(failure);
        let mut v = chars_of(failure.text.as_str());
        if failure.rate_limited {
            push_str(&mut v, " — ");
            push_str(&mut v, q);
            push_str(
                &mut v,
                ". Switch models via the status-bar picker, or configure another endpoint serving this model.",
            );
        } else if self.state.skip.is_some() {
            push_str(&mut v, " — ");
            push_str(&mut v, q);
            push_str(&mut v, ".");
        }
        string_of(&v)
    }
}

/// The text of a failed compaction.
pub open spec fn compaction_failed_text(error: Seq<char>) -> Seq<char> {
    "context compaction failed: "@ + error
}

/// The text of a compaction the user stopped.
pub const COMPACTION_INTERRUPTED: &'static str = "Compaction interrupted — original conversation kept.";

/// The text of a failed compaction.
pub fn compaction_failed(error: &str) -> (r: String)
    ensures
        r@ == compaction_failed_text(error@),
{
    let mut v: Vec<char> = Vec::new();
    push_str(&mut v, "context compaction failed: ");
    push_str(&mut v, error);
    string_of(&v)
}

/// The pointer to the archive of the context a compaction dropped: empty
/// when nothing was archived.
pub open spec fn checkpoint_pointer_text(id: Option<Seq<char>>) -> Seq<char> {
    match id {
        Some(id) => "\npre-compaction context archived — expand_result id="@ + id
            + " to retrieve dropped detail"@,
        None => Seq::empty(),
    }
}

/// The pointer to the archive of the context a compaction dropped.
pub fn checkpoint_pointer(id: Option<&str>) -> (r: String)
    ensures
        r@ == checkpoint_pointer_text(
            match id {
                Some(i) => Some(i@),
                None => None,
            },
        ),
{
    let mut v: Vec<char> = Vec::new();
    match id {
        Some(i) => {
            push_str(&mut v, "\npre-compaction context archived — expand_result id=");
            push_str(&mut v, i);
            push_str(&mut v, " to retrieve dropped detail");
        },
        None => {},
    }
    string_of(&v)
}

/// An event the task itself sends at the edges of a compaction and of its
/// life (the events of a turn are sent by the turn).
#[derive(Debug, Clone, PartialEq, Eq)]
pub enum TaskEvent {
    /// A compaction started (the transcript shows "Compacting context…").
    CompactStarted,
    /// The context usage after a compaction: tokens used of the window.
    ContextUsage { used: u32, max: u32 },
    /// A compaction completed, from `before` to `after` tokens.
    Compacted { before: u32, after: u32 },
    /// An error note; `retrying` marks a transient one (the agent stays
    /// alive).
    Error { error: String, retrying: bool },
    /// The turn finished with reason `Stop`.
    Finished,
    /// The task terminated.
    Exited,
}

/// How the task's life ends.
#[derive(Debug, Clone, Copy, PartialEq, Eq, Structural)]
pub enum TaskEnd {
    /// The inbox was closed.
    InboxClosed,
    /// The agent was cancelled.
    Cancelled,
}

/// The last events of the task. `Exited` is sent once, as the very last
/// event, right after `Finished` on a cancel; nothing else ends the task, so
/// a turn that merely ends never sends it.
pub fn task_end_events(end: TaskEnd) -> (r: Vec<TaskEvent>)
    ensures
        end == TaskEnd::Cancelled ==> r@ == seq![TaskEvent::Finished, TaskEvent::Exited],
        end == TaskEnd::InboxClosed ==> r@ == seq![TaskEvent::Exited],
{
    let mut r: Vec<TaskEvent> = Vec::new();
    if end == TaskEnd::Cancelled {
        r.push(TaskEvent::Finished);
    }
    r.push(TaskEvent::Exited);
    r
}

/// The events of a compaction whose summarization call returned
/// `summarization`: `before` tokens before it, `used` of `max` after it.
/// The start marker always comes first and is always paired with an end,
/// so no "Compacting context…" is left dangling: a failure ends with one
/// transient error naming the failure (no usage, no `Compacted`); a stop
/// ends with the usage and the transient interrupted note (no
/// `Compacted`); a completion ends with the usage and one `Compacted`.
/// Re-injected steers are announced between the start marker and the
/// usage.
pub fn compaction_events(summarization: &Result<Option<StopReason>, String>, before: u32, used: u32, max: u32) -> (r: Vec<TaskEvent>)
    ensures
        match summarization {
            Err(e) => r@.len() == 2 && r@[0] == TaskEvent::CompactStarted && (r@[1] matches TaskEvent::Error { error, retrying } && error@ == compaction_failed_text(e@) && retrying),
            Ok(Some(_)) => r@.len() == 3 && r@[0] == TaskEvent::CompactStarted && r@[1] == (TaskEvent::ContextUsage { used: used, max: max }) && (r@[2] matches TaskEvent::Error { error, retrying } && error@ == COMPACTION_INTERRUPTED@ && retrying),
            Ok(None) => r@ == seq![TaskEvent::CompactStarted, TaskEvent::ContextUsage { used: used, max: max }, TaskEvent::Compacted { before: before, after: used }],
        },
{
    let mut r: Vec<TaskEvent> = Vec::new();
    r.push(TaskEvent::CompactStarted);
    match summarization {
        Err(e) => {
            r.push(TaskEvent::Error { error: compaction_failed(e.as_str()), retrying: true });
        },
        Ok(stop) => {
            r.push(TaskEvent::ContextUsage { used, max });
            match stop {
                Some(_) => r.push(
                    TaskEvent::Error { error: COMPACTION_INTERRUPTED.to_owned(), retrying: true },
                ),
                None => r.push(TaskEvent::Compacted { before, after: used }),
            }
        },
    }
    r
}

/// Whether `c` is a steer with text `t`.
pub open spec fn is_steer_with(c: AgentCommand, t: Seq<char>) -> bool {
    c matches AgentCommand::Suggestion(p) && p.text@ == t
}

/// `cmds` without its first steer of text `t` (unchanged when there is
/// none).
pub open spec fn without_first_steer(cmds: Seq<AgentCommand>, t: Seq<char>) -> Seq<AgentCommand>
    decreases cmds.len(),
{
    if cmds.len() == 0 {
        cmds
    } else if is_steer_with(cmds[0], t) {
        cmds.drop_first()
    } else {
        seq![cmds[0]] + without_first_steer(cmds.drop_first(), t)
    }
}

/// The commands buffered during a summarization once dismissed steers are
/// dropped: in arrival order, each `CancelSuggestion(t)` removes the
/// earliest still-queued steer of text `t` and is itself dropped; every
/// other command stays in order.
pub open spec fn undismissed(cmds: Seq<AgentCommand>) -> Seq<AgentCommand>
    decreases cmds.len(),
{
    if cmds.len() == 0 {
        cmds
    } else {
        let prev = undismissed(cmds.drop_last());
        match cmds.last() {
            AgentCommand::CancelSuggestion(t) => without_first_steer(prev, t@),
            c => prev.push(c),
        }
    }
}

/// Removing the steer at `i`, the first of text `t`, is
/// [`without_first_steer`].
proof fn lemma_without_first_steer(cmds: Seq<AgentCommand>, t: Seq<char>, i: int)
    requires
        0 <= i <= cmds.len(),
        forall|k: int| 0 <= k < i ==> !is_steer_with(#[trigger] cmds[k], t),
        i < cmds.len() ==> is_steer_with(cmds[i], t),
    ensures
        without_first_steer(cmds, t) == (if i < cmds.len() {
            cmds.remove(i)
        } else {
            cmds
        }),
    decreases i,
{
    if cmds.len() > 0 && i > 0 {
        assert(!is_steer_with(cmds[0], t));
        let rest = cmds.drop_first();
        assert forall|k: int| 0 <= k < i - 1 implies !is_steer_with(#[trigger] rest[k], t) by {
            assert(rest[k] == cmds[k + 1]);
        }
        lemma_without_first_steer(rest, t, i - 1);
        if i < cmds.len() {
            assert(seq![cmds[0]] + rest.remove(i - 1) =~= cmds.remove(i));
        } else {
            assert(seq![cmds[0]] + rest =~= cmds);
        }
    }
}

/// Drops the first steer of text `t` from `out`.
fn drop_first_steer(out: &mut Vec<AgentCommand>, t: &str)
    ensures
        final(out)@ == without_first_steer(old(out)@, t@),
{
    let tv = chars_of(t);
    let mut i: usize = 0;
    while i < out.len()
        invariant
            i <= out@.len(),
            tv@ == t@,
            out@ == old(out)@,
            forall|k: int| 0 <= k < i ==> !is_steer_with(#[trigger] out@[k], t@),
        decreases out.len() - i,
    {
        let hit = match &out[i] {
            AgentCommand::Suggestion(p) => {
                let pv = chars_of(p.text.as_str());
                chars_eq(&pv, &tv)
            },
            _ => false,
        };
        if hit {
            assert(is_steer_with(out@[i as int], t@));
            proof {
                lemma_without_first_steer(out@, t@, i as int);
            }
            out.remove(i);
            return;
        }
        i = i + 1;
    }
    proof {
        lemma_without_first_steer(out@, t@, i as int);
    }
}

/// Drops the steers the user dismissed from the commands buffered during
/// a summarization, before they are re-injected.
pub fn drop_cancelled_steers(buffered: &mut Vec<AgentCommand>)
    ensures
        final(buffered)@ == undismissed(old(buffered)@),
{
    let ghost orig = buffered@;
    let mut out: Vec<AgentCommand> = Vec::new();
    let mut k: usize = 0;
    let n = buffered.len();
    while buffered.len() > 0
        invariant
            k + buffered@.len() == n,
            n == orig.len(),
            buffered@ == orig.subrange(k as int, n as int),
            out@ == undismissed(orig.take(k as int)),
        decreases buffered.len(),
    {
        let c = buffered.remove(0);
        assert(c == orig[k as int]);
        assert(orig.take(k + 1).drop_last() =~= orig.take(k as int));
        assert(orig.take(k + 1).last() == c);
        match c {
            AgentCommand::CancelSuggestion(t) => {
                drop_first_steer(&mut out, t.as_str());
            },
            other => {
                out.push(other);
            },
        }
        k = k + 1;
        assert(buffered@ =~= orig.subrange(k as int, n as int));
    }
    assert(orig.take(n as int) =~= orig);
    *buffered = out;
}

} // verus!
