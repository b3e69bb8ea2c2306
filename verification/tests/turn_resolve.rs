//! Scenarios of turn resolution.

use mnemo::runtime::turn_resolve::{
    completion_suggestion_text, workflow_transition_counts,
    ResolveAction, TurnResolveLatch,
};
use mnemo::workflow::WorkflowState;

/// Quality C1: final Error then Finished must not both count as terminal
/// resolutions — Finished after a failure is idle bookkeeping only.
#[test]
fn final_error_then_finished_is_not_success() {
    let mut latch = TurnResolveLatch::default();
    latch.on_started(1);
    assert!(matches!(
        latch.on_final_error(1, "boom".into(), false),
        ResolveAction::Failure(n) if n == "boom"
    ));
    // Second Error must not double-resolve.
    assert_eq!(
        latch.on_final_error(1, "again".into(), false),
        ResolveAction::NoAction
    );
    // Finished after resolved failure is idle bookkeeping.
    assert_eq!(latch.on_finished(1, false), ResolveAction::NoAction);
}

#[test]
fn clean_finished_counts_as_success() {
    let mut latch = TurnResolveLatch::default();
    latch.on_started(1);
    assert_eq!(latch.on_finished(1, false), ResolveAction::Success);
}

#[test]
fn started_clears_stale_failure_mark() {
    let mut latch = TurnResolveLatch::default();
    let _ = latch.on_final_error(1, "old".into(), false);
    latch.on_started(1);
    assert_eq!(
        latch.on_finished(1, false),
        ResolveAction::Success,
        "new turn after prior failure must be allowed to succeed"
    );
}

#[test]
fn exited_clears_failure_mark() {
    let mut latch = TurnResolveLatch::default();
    let _ = latch.on_final_error(2, "x".into(), true); // deferred
    latch.on_exited(2);
    assert_eq!(latch.on_finished(2, false), ResolveAction::Success);
}

#[test]
fn plan_abandoned_flag_round_trips_and_clears_per_turn() {
    // Backlog 45dcf577: the abandonment mark is per-turn evidence — set
    // by the forwarder on an Executing/Reviewing → Planning transition,
    // read by the resolution paths (the one true `Failed`), cleared when
    // the next turn starts or the agent exits.
    let mut latch = TurnResolveLatch::default();
    latch.on_started(1);
    assert!(!latch.plan_abandoned(1));
    latch.note_plan_abandoned(1, None);
    assert!(latch.plan_abandoned(1));
    // A new turn clears the mark.
    latch.on_started(1);
    assert!(!latch.plan_abandoned(1));
    // Agent exit clears it too.
    latch.note_plan_abandoned(1, None);
    latch.on_exited(1);
    assert!(!latch.plan_abandoned(1));
    // Agents are independent.
    latch.note_plan_abandoned(2, None);
    assert!(!latch.plan_abandoned(1));
    assert!(latch.plan_abandoned(2));
}

#[test]
fn abandoned_plan_id_round_trips_and_clears_per_turn() {
    // (backlog bba2c82d) The latch carries the abandoned plan's id
    // from the turn's transition evidence — the Failed guard's
    // linkage input (after the abandonment pop the live
    // main_agent_top_plan_id no longer names the abandoned plan).
    // Unknown (None) when the evidence predates the tracking;
    // cleared with the flag on turn start and agent exit.
    let mut latch = TurnResolveLatch::default();
    latch.on_started(1);
    assert_eq!(latch.abandoned_plan_id(1), None);
    latch.note_plan_abandoned(1, Some("abc123".to_string()));
    assert!(latch.plan_abandoned(1));
    assert_eq!(latch.abandoned_plan_id(1), Some("abc123"));
    // The blind case: the id is unknown but the flag is still set.
    latch.on_started(1);
    latch.note_plan_abandoned(1, None);
    assert!(latch.plan_abandoned(1));
    assert_eq!(latch.abandoned_plan_id(1), None);
    // A new turn clears both.
    latch.on_started(1);
    assert!(!latch.plan_abandoned(1));
    assert_eq!(latch.abandoned_plan_id(1), None);
    // Agent exit clears both.
    latch.note_plan_abandoned(1, Some("abc123".to_string()));
    latch.on_exited(1);
    assert!(!latch.plan_abandoned(1));
    assert_eq!(latch.abandoned_plan_id(1), None);
    // Agents are independent.
    latch.note_plan_abandoned(2, Some("zzz".to_string()));
    assert_eq!(latch.abandoned_plan_id(1), None);
    assert_eq!(latch.abandoned_plan_id(2), Some("zzz"));
}

#[test]
fn agents_are_independent() {
    let mut latch = TurnResolveLatch::default();
    latch.on_started(1);
    latch.on_started(2);
    assert!(matches!(
        latch.on_final_error(1, "fail".into(), false),
        ResolveAction::Failure(_)
    ));
    assert_eq!(
        latch.on_finished(2, false),
        ResolveAction::Success,
        "agent 2 success must not be blocked by agent 1 failure"
    );
    assert_eq!(latch.on_finished(1, false), ResolveAction::NoAction);
}

#[test]
fn error_with_descendants_defers_until_finished_idle() {
    let mut latch = TurnResolveLatch::default();
    latch.on_started(1);
    assert_eq!(
        latch.on_final_error(1, "parent failed".into(), true),
        ResolveAction::NoAction,
        "must not resolve while descendants run"
    );
    assert_eq!(
        latch.on_finished(1, true),
        ResolveAction::NoAction,
        "still deferred while descendants run"
    );
    assert!(matches!(
        latch.on_finished(1, false),
        ResolveAction::Failure(n) if n == "parent failed"
    ));
}

#[test]
fn workflow_changed_tracks_transitions_per_turn() {
    let mut latch = TurnResolveLatch::default();
    assert!(!latch.workflow_changed(1), "no observation yet");
    latch.note_workflow_changed(1);
    assert!(latch.workflow_changed(1));
    assert!(!latch.workflow_changed(2), "other agents unaffected");
    latch.on_started(1);
    assert!(!latch.workflow_changed(1), "a new turn resets the evidence");
    latch.note_workflow_changed(1);
    latch.on_exited(1);
    assert!(!latch.workflow_changed(1), "agent exit clears the evidence");
}

#[test]
fn dispatch_time_planning_entry_is_not_loop_evidence() {
    let mut latch = TurnResolveLatch::default();
    latch.note_workflow_changed(1);
    latch.on_started(1);
    assert!(
        !latch.workflow_changed(1),
        "a pre-turn transition never counts as this turn's loop evidence"
    );
}

#[test]
fn workflow_transition_counts_requires_a_real_state_change() {
    assert!(
        workflow_transition_counts(Some(WorkflowState::Complete), WorkflowState::Complete)
            == false,
        "a no-op event (same state) is NOT evidence"
    );
    assert!(
        workflow_transition_counts(None, WorkflowState::Complete),
        "first-ever observation counts (prev unknown)"
    );
    assert!(
        workflow_transition_counts(Some(WorkflowState::Complete), WorkflowState::Executing),
        "Complete → Executing is evidence"
    );
    assert!(
        workflow_transition_counts(Some(WorkflowState::Reviewing), WorkflowState::Complete),
        "Reviewing → Complete is evidence"
    );
}

#[test]
fn deferred_success_is_flushed_when_descendants_drain() {
    let mut latch = TurnResolveLatch::default();
    latch.on_started(1);
    assert_eq!(
        latch.on_finished(1, true),
        ResolveAction::NoAction,
        "must not resolve while descendants run"
    );
    assert_eq!(
        latch.flush_deferred_main_failure(1, false),
        ResolveAction::Success,
        "a deferred success must be flushed when descendants drain"
    );
}

#[test]
fn generic_text_when_no_report_path() {
    // The report-less completion text must say so — "no report was
    // written" — instead of a generic "read its report", which would send
    // the parent hunting for a report that never existed.
    let text = completion_suggestion_text("investigator", "failed", None);
    assert!(text.contains("investigator"));
    assert!(text.contains("failed"));
    assert!(text.contains("no report was written"), "text: {text}");
    assert!(
        !text.contains("read its report at"),
        "no path → no 'at <path>' clause, got: {text}"
    );
}
