//! Turn-resolution domain logic.
//!
//! [`TurnResolveLatch`] ensures a turn resolves the backlog **at most once**:
//! some failure paths emit a final `Error { retrying: false }` *and then*
//! `Finished`; without a latch both resolutions would run. The latch also
//! defers failure/success resolution while descendants are still running.
//!
//! [`workflow_transition_counts`] gates plan-loop evidence: only a real
//! workflow state transition counts as proof the plan loop ran.
//!
//! [`completion_suggestion_text`] builds the `Suggestion` text sent to a
//! child's parent when the child finishes.

use std::collections::{HashMap, HashSet};

use vstd::prelude::*;

use crate::runtime::AgentId;
use crate::text::{push_str, string_of};
use crate::workflow::WorkflowState;

verus! {

broadcast use vstd::std_specs::hash::group_hash_axioms;

/// Outcome of a terminal event for Run-All / auto-feed bookkeeping.
#[derive(Debug, Clone, PartialEq, Eq)]
pub enum ResolveAction {
    /// The turn succeeded.
    Success,
    /// The turn failed, with the error note.
    Failure(String),
    /// Already resolved this turn, or still waiting on descendants — no-op.
    NoAction,
}

/// The abstract state of a [`TurnResolveLatch`].
pub struct LatchView {
    /// Agents whose turn failed (final Error seen), with the error note.
    pub failed_note: Map<AgentId, String>,
    /// Agents whose turn was already resolved this turn.
    pub resolved: Set<AgentId>,
    /// Agents whose workflow changed state at least once this turn.
    pub workflow_changed: Set<AgentId>,
    /// Agents whose success was deferred while descendants ran.
    pub pending_finished: Set<AgentId>,
    /// Agents whose root plan was abandoned this turn.
    pub plan_abandoned: Set<AgentId>,
    /// The abandoned root plan's id per agent (`None` = unknown).
    pub abandoned_plan_ids: Map<AgentId, Option<String>>,
}

impl LatchView {
    /// The state with every mark of `id` dropped.
    pub open spec fn cleared(self, id: AgentId) -> LatchView {
        LatchView {
            failed_note: self.failed_note.remove(id),
            resolved: self.resolved.remove(id),
            workflow_changed: self.workflow_changed.remove(id),
            pending_finished: self.pending_finished.remove(id),
            plan_abandoned: self.plan_abandoned.remove(id),
            abandoned_plan_ids: self.abandoned_plan_ids.remove(id),
        }
    }

    /// The recorded abandoned plan id of `id`, when one is known.
    pub open spec fn abandoned_id(self, id: AgentId) -> Option<Seq<char>> {
        if self.abandoned_plan_ids.contains_key(id) {
            match self.abandoned_plan_ids[id] {
                Some(p) => Some(p@),
                None => None,
            }
        } else {
            None
        }
    }

    /// Whether the state has no marks at all.
    pub open spec fn is_empty(self) -> bool {
        &&& self.failed_note == Map::<AgentId, String>::empty()
        &&& self.resolved == Set::<AgentId>::empty()
        &&& self.workflow_changed == Set::<AgentId>::empty()
        &&& self.pending_finished == Set::<AgentId>::empty()
        &&& self.plan_abandoned == Set::<AgentId>::empty()
        &&& self.abandoned_plan_ids == Map::<AgentId, Option<String>>::empty()
    }
}

/// A final Error arrived for `id`: the failure is recorded, and resolves
/// now unless descendants are running; nothing happens once resolved.
pub open spec fn spec_on_final_error(v: LatchView, id: AgentId, note: String, descendants_running: bool) -> (
    LatchView,
    ResolveAction,
) {
    if v.resolved.contains(id) {
        (v, ResolveAction::NoAction)
    } else {
        let v1 = LatchView { failed_note: v.failed_note.insert(id, note), ..v };
        if descendants_running {
            (v1, ResolveAction::NoAction)
        } else {
            (LatchView { resolved: v1.resolved.insert(id), ..v1 }, ResolveAction::Failure(note))
        }
    }
}

/// A Finished arrived for `id`: idle bookkeeping once resolved; deferred
/// (as a pending success) while descendants run; otherwise the recorded
/// failure resolves, or else success.
pub open spec fn spec_on_finished(v: LatchView, id: AgentId, descendants_running: bool) -> (
    LatchView,
    ResolveAction,
) {
    if v.resolved.contains(id) {
        (
            LatchView {
                failed_note: v.failed_note.remove(id),
                pending_finished: v.pending_finished.remove(id),
                ..v
            },
            ResolveAction::NoAction,
        )
    } else if descendants_running {
        (LatchView { pending_finished: v.pending_finished.insert(id), ..v }, ResolveAction::NoAction)
    } else {
        let v1 = LatchView {
            failed_note: v.failed_note.remove(id),
            resolved: v.resolved.insert(id),
            pending_finished: v.pending_finished.remove(id),
            ..v
        };
        if v.failed_note.contains_key(id) {
            (v1, ResolveAction::Failure(v.failed_note[id]))
        } else {
            (v1, ResolveAction::Success)
        }
    }
}

/// Delivers a deferred resolution of `id` once no descendants run: a
/// recorded failure first, else a pending success, else nothing.
pub open spec fn spec_flush(v: LatchView, id: AgentId, descendants_running: bool) -> (
    LatchView,
    ResolveAction,
) {
    if descendants_running || v.resolved.contains(id) {
        (v, ResolveAction::NoAction)
    } else if v.failed_note.contains_key(id) {
        (
            LatchView {
                failed_note: v.failed_note.remove(id),
                resolved: v.resolved.insert(id),
                pending_finished: v.pending_finished.remove(id),
                ..v
            },
            ResolveAction::Failure(v.failed_note[id]),
        )
    } else if v.pending_finished.contains(id) {
        (
            LatchView {
                resolved: v.resolved.insert(id),
                pending_finished: v.pending_finished.remove(id),
                ..v
            },
            ResolveAction::Success,
        )
    } else {
        (v, ResolveAction::NoAction)
    }
}

/// Re-marks a consumed pending success of `id` whose delivery was deferred.
pub open spec fn spec_remark(v: LatchView, id: AgentId) -> LatchView {
    if v.resolved.contains(id) {
        LatchView {
            resolved: v.resolved.remove(id),
            pending_finished: v.pending_finished.insert(id),
            ..v
        }
    } else {
        v
    }
}

/// Per-turn latch so a final `Error` and a subsequent `Finished` cannot both
/// resolve Run-All / auto-feed for the same agent turn.
///
/// Also defers failure resolution when the main agent errors while
/// descendants are still running — the next idle terminal event (Finished,
/// or Error after children drain) delivers the failure once.
#[derive(Debug)]
pub struct TurnResolveLatch {
    failed_note: HashMap<AgentId, String>,
    resolved: HashSet<AgentId>,
    workflow_changed: HashSet<AgentId>,
    pending_finished: HashSet<AgentId>,
    plan_abandoned: HashSet<AgentId>,
    abandoned_plan_ids: HashMap<AgentId, Option<String>>,
}

impl View for TurnResolveLatch {
    type V = LatchView;

    closed spec fn view(&self) -> LatchView {
        LatchView {
            failed_note: self.failed_note@,
            resolved: self.resolved@,
            workflow_changed: self.workflow_changed@,
            pending_finished: self.pending_finished@,
            plan_abandoned: self.plan_abandoned@,
            abandoned_plan_ids: self.abandoned_plan_ids@,
        }
    }
}

impl Default for TurnResolveLatch {
    fn default() -> (r: Self)
        ensures
            r@.is_empty(),
    {
        TurnResolveLatch::new()
    }
}

impl TurnResolveLatch {
    /// A latch with no marks.
    pub fn new() -> (r: Self)
        ensures
            r@.is_empty(),
    {
        TurnResolveLatch {
            failed_note: HashMap::new(),
            resolved: HashSet::new(),
            workflow_changed: HashSet::new(),
            pending_finished: HashSet::new(),
            plan_abandoned: HashSet::new(),
            abandoned_plan_ids: HashMap::new(),
        }
    }

    /// Drops every mark of `agent_id`.
    fn clear(&mut self, agent_id: AgentId)
        ensures
            final(self)@ == old(self)@.cleared(agent_id),
    {
        self.failed_note.remove(&agent_id);
        self.resolved.remove(&agent_id);
        self.workflow_changed.remove(&agent_id);
        self.pending_finished.remove(&agent_id);
        self.plan_abandoned.remove(&agent_id);
        self.abandoned_plan_ids.remove(&agent_id);
    }

    /// A new turn started — clear any stale marks.
    pub fn on_started(&mut self, agent_id: AgentId)
        ensures
            final(self)@ == old(self)@.cleared(agent_id),
    {
        self.clear(agent_id);
    }

    /// A final Error arrived. `descendants_running` gates whether failure can
    /// resolve now (same rule as success on Finished).
    pub fn on_final_error(
        &mut self,
        agent_id: AgentId,
        note: String,
        descendants_running: bool,
    ) -> (r: ResolveAction)
        ensures
            (final(self)@, r) == spec_on_final_error(old(self)@, agent_id, note, descendants_running),
    {
        if self.resolved.contains(&agent_id) {
            return ResolveAction::NoAction;
        }
        self.failed_note.insert(agent_id, note.clone());
        if descendants_running {
            return ResolveAction::NoAction;
        }
        self.resolved.insert(agent_id);
        ResolveAction::Failure(note)
    }

    /// A Finished arrived. Success only if no prior final Error; if a prior
    /// Error was deferred (descendants), deliver failure now when idle.
    pub fn on_finished(&mut self, agent_id: AgentId, descendants_running: bool) -> (r:
        ResolveAction)
        ensures
            (final(self)@, r) == spec_on_finished(old(self)@, agent_id, descendants_running),
    {
        if self.resolved.contains(&agent_id) {
            self.failed_note.remove(&agent_id);
            self.pending_finished.remove(&agent_id);
            return ResolveAction::NoAction;
        }
        if descendants_running {
            self.pending_finished.insert(agent_id);
            return ResolveAction::NoAction;
        }
        if let Some(note) = self.failed_note.remove(&agent_id) {
            self.resolved.insert(agent_id);
            self.pending_finished.remove(&agent_id);
            return ResolveAction::Failure(note);
        }
        self.resolved.insert(agent_id);
        self.pending_finished.remove(&agent_id);
        ResolveAction::Success
    }

    /// Record that the agent's workflow changed state this turn.
    pub fn note_workflow_changed(&mut self, agent_id: AgentId)
        ensures
            final(self)@ == (LatchView {
                workflow_changed: old(self)@.workflow_changed.insert(agent_id),
                ..old(self)@
            }),
    {
        self.workflow_changed.insert(agent_id);
    }

    /// Whether any workflow state transition was observed for the agent this
    /// turn — evidence the plan loop actually ran.
    pub fn workflow_changed(&self, agent_id: AgentId) -> (r: bool)
        ensures
            r == self@.workflow_changed.contains(agent_id),
    {
        self.workflow_changed.contains(&agent_id)
    }

    /// Record that the agent's root plan was abandoned this turn, with the
    /// abandoned plan's id when known.
    pub fn note_plan_abandoned(&mut self, agent_id: AgentId, plan_id: Option<String>)
        ensures
            final(self)@ == (LatchView {
                plan_abandoned: old(self)@.plan_abandoned.insert(agent_id),
                abandoned_plan_ids: old(self)@.abandoned_plan_ids.insert(agent_id, plan_id),
                ..old(self)@
            }),
    {
        self.plan_abandoned.insert(agent_id);
        self.abandoned_plan_ids.insert(agent_id, plan_id);
    }

    /// Whether the agent's root plan was abandoned this turn.
    pub fn plan_abandoned(&self, agent_id: AgentId) -> (r: bool)
        ensures
            r == self@.plan_abandoned.contains(agent_id),
    {
        self.plan_abandoned.contains(&agent_id)
    }

    /// The abandoned root plan's id for the agent this turn — `None` when
    /// unknown or when no abandonment was noted.
    pub fn abandoned_plan_id(&self, agent_id: AgentId) -> (r: Option<&str>)
        ensures
            match r {
                Some(s) => self@.abandoned_id(agent_id) == Some(s@),
                None => self@.abandoned_id(agent_id) is None,
            },
    {
        match self.abandoned_plan_ids.get(&agent_id) {
            Some(Some(p)) => Some(p.as_str()),
            _ => None,
        }
    }

    /// Drop state when the agent task exits.
    pub fn on_exited(&mut self, agent_id: AgentId)
        ensures
            final(self)@ == old(self)@.cleared(agent_id),
    {
        self.clear(agent_id);
    }

    /// If `main_id` has a deferred resolution (failure or success) and no
    /// descendants are running, deliver it now that the tree is idle.
    pub fn flush_deferred_main_failure(&mut self, main_id: AgentId, descendants_running: bool) -> (r:
        ResolveAction)
        ensures
            (final(self)@, r) == spec_flush(old(self)@, main_id, descendants_running),
    {
        if descendants_running || self.resolved.contains(&main_id) {
            return ResolveAction::NoAction;
        }
        let ghost old_notes = self.failed_note@;
        let ghost old_pending = self.pending_finished@;
        if let Some(note) = self.failed_note.remove(&main_id) {
            self.resolved.insert(main_id);
            self.pending_finished.remove(&main_id);
            return ResolveAction::Failure(note);
        }
        assert(old_notes.remove(main_id) =~= old_notes);
        if self.pending_finished.remove(&main_id) {
            self.resolved.insert(main_id);
            return ResolveAction::Success;
        }
        assert(old_pending.remove(main_id) =~= old_pending);
        ResolveAction::NoAction
    }

    /// Re-mark a pending-finished entry that was consumed by
    /// `flush_deferred_main_failure` but whose success delivery was deferred.
    pub fn remark_pending_finished(&mut self, agent_id: AgentId)
        ensures
            final(self)@ == spec_remark(old(self)@, agent_id),
    {
        if self.resolved.contains(&agent_id) {
            self.resolved.remove(&agent_id);
            self.pending_finished.insert(agent_id);
        }
    }
}

/// Whether an observed `WorkflowStateChanged` counts as plan-loop evidence:
/// only a real transition (the new state differs from the last observed
/// one); a first-ever observation (`None`) counts.
pub fn workflow_transition_counts(prev: Option<WorkflowState>, new: WorkflowState) -> (r: bool)
    ensures
        r == (prev != Some(new)),
{
    match prev {
        Some(p) => p != new,
        None => true,
    }
}

/// The completion-notification text sent to a child's parent: names the
/// child and its outcome, and the report path when one was written —
/// otherwise says explicitly that no report was written.
pub open spec fn completion_text(child_name: Seq<char>, outcome: Seq<char>, report_path: Option<
    Seq<char>,
>) -> Seq<char> {
    match report_path {
        Some(path) => "[background agent \""@ + child_name + "\" "@ + outcome
            + " — read its report at "@ + path + " and combine the results into a plan]"@,
        None => "[background agent \""@ + child_name + "\" "@ + outcome
            + " — no report was written; combine the results from its session output into a plan]"@,
    }
}

/// The view of an optional string slice.
pub open spec fn opt_str_view(o: Option<&str>) -> Option<Seq<char>> {
    match o {
        Some(s) => Some(s@),
        None => None,
    }
}

/// Builds the completion-notification `Suggestion` text sent to a child's
/// parent agent, naming the review-report path when the child wrote one.
pub fn completion_suggestion_text(child_name: &str, outcome: &str, report_path: Option<&str>) -> (r:
    String)
    ensures
        r@ == completion_text(child_name@, outcome@, opt_str_view(report_path)),
{
    let mut v: Vec<char> = Vec::new();
    push_str(&mut v, "[background agent \"");
    push_str(&mut v, child_name);
    push_str(&mut v, "\" ");
    push_str(&mut v, outcome);
    match report_path {
        Some(path) => {
            push_str(&mut v, " — read its report at ");
            push_str(&mut v, path);
            push_str(&mut v, " and combine the results into a plan]");
        },
        None => {
            push_str(
                &mut v,
                " — no report was written; combine the results from its session output into a plan]",
            );
        },
    }
    assert(v@ =~= completion_text(child_name@, outcome@, opt_str_view(report_path)));
    string_of(&v)
}

// ---------------------------------------------------------------------------
// Laws
// ---------------------------------------------------------------------------

/// A terminal event of an agent's turn, as the latch sees it.
pub enum TerminalEvent {
    /// A final Error with its note.
    FinalError { note: String, descendants_running: bool },
    /// A Finished event.
    Finished { descendants_running: bool },
    /// A flush of the deferred resolution once descendants drained.
    Flush { descendants_running: bool },
}

/// The latch's reaction to a terminal event of `id`.
pub open spec fn terminal_step(v: LatchView, id: AgentId, e: TerminalEvent) -> (
    LatchView,
    ResolveAction,
) {
    match e {
        TerminalEvent::FinalError { note, descendants_running } => spec_on_final_error(
            v,
            id,
            note,
            descendants_running,
        ),
        TerminalEvent::Finished { descendants_running } => spec_on_finished(
            v,
            id,
            descendants_running,
        ),
        TerminalEvent::Flush { descendants_running } => spec_flush(v, id, descendants_running),
    }
}

/// The number of resolutions (success or failure) that the terminal events
/// `es` of `id`, processed in order from `v`, deliver.
pub open spec fn resolutions(v: LatchView, id: AgentId, es: Seq<TerminalEvent>) -> nat
    decreases es.len(),
{
    if es.len() == 0 {
        0
    } else {
        let (v1, r) = terminal_step(v, id, es[0]);
        (if r is NoAction {
            0nat
        } else {
            1nat
        }) + resolutions(v1, id, es.drop_first())
    }
}

proof fn lemma_terminal_step(v: LatchView, id: AgentId, e: TerminalEvent)
    ensures
        v.resolved.contains(id) ==> terminal_step(v, id, e).1 is NoAction,
        v.resolved.contains(id) ==> terminal_step(v, id, e).0.resolved.contains(id),
        !(terminal_step(v, id, e).1 is NoAction) ==> terminal_step(v, id, e).0.resolved.contains(
            id,
        ),
{
}

proof fn lemma_no_resolution_once_resolved(v: LatchView, id: AgentId, es: Seq<TerminalEvent>)
    requires
        v.resolved.contains(id),
    ensures
        resolutions(v, id, es) == 0,
    decreases es.len(),
{
    if es.len() > 0 {
        lemma_terminal_step(v, id, es[0]);
        lemma_no_resolution_once_resolved(terminal_step(v, id, es[0]).0, id, es.drop_first());
    }
}

/// At most once: whatever sequence of final Errors, Finished events and
/// flushes an agent's turn sees, the latch delivers at most one resolution
/// (success or failure) for it — until a new turn starts or the agent exits.
pub proof fn law_turn_resolves_at_most_once(v: LatchView, id: AgentId, es: Seq<TerminalEvent>)
    ensures
        resolutions(v, id, es) <= 1,
    decreases es.len(),
{
    if es.len() > 0 {
        let (v1, r) = terminal_step(v, id, es[0]);
        lemma_terminal_step(v, id, es[0]);
        if r is NoAction {
            law_turn_resolves_at_most_once(v1, id, es.drop_first());
        } else {
            lemma_no_resolution_once_resolved(v1, id, es.drop_first());
        }
    }
}

/// A new turn (or the agent's exit) clears every mark of the agent: a clean
/// Finished then counts as success, and no workflow change, plan
/// abandonment or abandoned plan id is reported for it.
pub proof fn law_new_turn_clears_marks(v: LatchView, id: AgentId)
    ensures
        spec_on_finished(v.cleared(id), id, false).1 == ResolveAction::Success,
        !v.cleared(id).workflow_changed.contains(id),
        !v.cleared(id).plan_abandoned.contains(id),
        v.cleared(id).abandoned_id(id) is None,
{
}

/// Agents are independent: a terminal event of one agent leaves every mark
/// of every other agent as it was.
pub proof fn law_agents_are_independent(v: LatchView, id: AgentId, other: AgentId, e: TerminalEvent)
    requires
        other != id,
    ensures
        ({
            let w = terminal_step(v, id, e).0;
            &&& w.resolved.contains(other) == v.resolved.contains(other)
            &&& w.failed_note.contains_key(other) == v.failed_note.contains_key(other)
            &&& (w.failed_note.contains_key(other) ==> w.failed_note[other]
                == v.failed_note[other])
            &&& w.pending_finished.contains(other) == v.pending_finished.contains(other)
            &&& w.workflow_changed == v.workflow_changed
            &&& w.plan_abandoned == v.plan_abandoned
            &&& w.abandoned_plan_ids == v.abandoned_plan_ids
        }),
{
}

/// A failure deferred while descendants ran is delivered, with its note, by
/// the next Finished once the tree is idle.
pub proof fn law_deferred_failure_is_delivered(v: LatchView, id: AgentId, note: String)
    requires
        !v.resolved.contains(id),
    ensures
        ({
            let (v1, r1) = spec_on_final_error(v, id, note, true);
            &&& r1 is NoAction
            &&& spec_on_finished(v1, id, false).1 == ResolveAction::Failure(note)
        }),
{
}

/// A success deferred while descendants ran is delivered by the flush once
/// they drain.
pub proof fn law_deferred_success_is_flushed(v: LatchView, id: AgentId)
    requires
        !v.resolved.contains(id),
        !v.failed_note.contains_key(id),
    ensures
        ({
            let (v1, r1) = spec_on_finished(v, id, true);
            &&& r1 is NoAction
            &&& spec_flush(v1, id, false).1 == ResolveAction::Success
        }),
{
}

/// A failure deferred while descendants ran is delivered, with its own
/// note, by the flush once they drain: never as a success, never with
/// another note. The turn is then resolved, so a later Finished delivers
/// nothing more, and even a pending success recorded alongside gives way
/// to the failure.
pub proof fn law_deferred_failure_is_flushed(v: LatchView, id: AgentId, note: String)
    requires
        !v.resolved.contains(id),
    ensures
        ({
            let (v1, r1) = spec_on_final_error(v, id, note, true);
            let (v2, r2) = spec_flush(v1, id, false);
            &&& r1 is NoAction
            &&& r2 == ResolveAction::Failure(note)
            &&& v2.resolved.contains(id)
            &&& !v2.failed_note.contains_key(id)
            &&& spec_on_finished(v2, id, false).1 is NoAction
        }),
        ({
            let (v1, _) = spec_on_final_error(v, id, note, true);
            let (w1, _) = spec_on_finished(v1, id, true);
            spec_flush(w1, id, false).1 == ResolveAction::Failure(note)
        }),
{
}

} // verus!
