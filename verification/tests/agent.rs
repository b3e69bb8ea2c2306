use mnemo::runtime::agent::{
    after_compaction, applies_summary, checkpoint_pointer, compaction_events, compaction_outcome,
    drop_cancelled_steers, task_end_events, TaskEnd, TaskEvent, COMPACTION_INTERRUPTED, compaction_failed, fallback_note, resolve_stop, retry_note,
    AfterTurn, AgentTask, CommandStep, CompactFollowUp, CompactOutcome, ErrorStep, FailureClass,
    ProviderFailure, ProviderRetry, Reinjection, StopReason, StopStep, TurnEnd, TurnEndFacts,
    COMPACTED_RESUME_NOTE, CONTINUE_NOTE, MAX_AUTO_CONTINUE, MAX_PROVIDER_ERROR_NOTE_CHARS,
    QUALIFIER_NEEDS_USER, QUALIFIER_NON_RETRYABLE, QUALIFIER_RATE_LIMITED,
    QUALIFIER_RETRIES_EXHAUSTED, UNATTENDED_CONTINUE_NOTE,
};
use mnemo::runtime::channels::{AgentCommand, ParkReason, SteerPayload, UNATTENDED_PROMPT_PREFIX};

#[test]
fn consolidation_dedup_guard_prevents_overlap() {
    // Simulates the exact AtomicBool swap logic used in
    // spawn_consolidation: the first call proceeds (swap returns false),
    // the second is dedup'd (swap returns true), and after the spawned
    // task clears the flag, the next call proceeds again.
    let flag = std::sync::atomic::AtomicBool::new(false);

    // First call — not in flight, proceeds.
    assert!(!flag.swap(true, std::sync::atomic::Ordering::SeqCst));

    // Second call — already in flight, dedup'd (returns true = was set).
    assert!(flag.swap(true, std::sync::atomic::Ordering::SeqCst));

    // Spawned task finishes, clears the flag.
    flag.store(false, std::sync::atomic::Ordering::SeqCst);

    // Third call — flag was cleared, proceeds again.
    assert!(!flag.swap(true, std::sync::atomic::Ordering::SeqCst));
}

fn working() -> TurnEndFacts {
    TurnEndFacts { expects_progress: true, descendants_running: false, subagent: false }
}

#[test]
fn task_consolidation_gate_never_overlaps() {
    let mut t = AgentTask::new(1, "main".to_string());
    // No session yet: nothing to consolidate.
    assert!(!t.try_begin_consolidation(true));
    t.set_session_id("s1".to_string());
    // No store: nothing to consolidate.
    assert!(!t.try_begin_consolidation(false));
    assert!(t.try_begin_consolidation(true));
    assert!(!t.try_begin_consolidation(true));
    t.finish_consolidation();
    assert!(t.try_begin_consolidation(true));
}

#[test]
fn auto_continue_parks_after_budget_exhaustion() {
    let mut t = AgentTask::new(1, "main".to_string());
    for i in 1..=MAX_AUTO_CONTINUE {
        match t.on_turn_end(working()) {
            TurnEnd::AutoContinue { note, consolidate } => {
                assert_eq!(note, CONTINUE_NOTE);
                assert_eq!(consolidate, i == 8);
            }
            other => panic!("expected auto-continue, got {other:?}"),
        }
    }
    assert_eq!(t.auto_continue_streak(), MAX_AUTO_CONTINUE);
    assert_eq!(
        t.on_turn_end(working()),
        TurnEnd::Park { reason: Some(ParkReason::BudgetExhausted) }
    );
    assert_eq!(t.auto_continue_streak(), MAX_AUTO_CONTINUE);
}

#[test]
fn prompt_resets_budget_and_rederives_unattended() {
    let mut t = AgentTask::new(1, "main".to_string());
    for _ in 0..MAX_AUTO_CONTINUE {
        t.on_turn_end(working());
    }
    let prompt = format!("{UNATTENDED_PROMPT_PREFIX} run item 3");
    let step = t.on_command(&AgentCommand::Prompt { text: prompt, images: vec![] });
    assert_eq!(step, CommandStep::RunPrompt { correction: None });
    assert_eq!(t.auto_continue_streak(), 0);
    assert!(t.is_unattended());
    assert_eq!(
        t.on_turn_end(working()),
        TurnEnd::AutoContinue { note: UNATTENDED_CONTINUE_NOTE, consolidate: false }
    );
    // A steer resets the budget but keeps the dispatch mode.
    let step = t.on_command(&AgentCommand::Suggestion(SteerPayload::from_text("go on")));
    assert_eq!(step, CommandStep::RunSuggestion);
    assert_eq!(t.auto_continue_streak(), 0);
    assert!(t.is_unattended());
    // A plain prompt clears unattended mode.
    t.on_command(&AgentCommand::Prompt { text: "hello".to_string(), images: vec![] });
    assert!(!t.is_unattended());
}

#[test]
fn correction_prompt_reports_its_trigger() {
    let mut t = AgentTask::new(1, "main".to_string());
    let step = t.on_command(&AgentCommand::Prompt {
        text: "That's wrong, use the other file".to_string(),
        images: vec![],
    });
    assert_eq!(step, CommandStep::RunPrompt { correction: Some("that's wrong") });
}

#[test]
fn between_turn_commands_without_work() {
    let mut t = AgentTask::new(1, "main".to_string());
    assert_eq!(t.on_command(&AgentCommand::Interrupt), CommandStep::Ignore);
    assert_eq!(t.on_command(&AgentCommand::CancelSuggestion("x".into())), CommandStep::Ignore);
    assert_eq!(t.on_command(&AgentCommand::Compact), CommandStep::Compact);
    assert_eq!(t.on_command(&AgentCommand::Clear), CommandStep::Clear);
    assert_eq!(t.on_command(&AgentCommand::Cancel), CommandStep::Exit);
}

#[test]
fn park_reasons_after_a_normal_turn_end() {
    let mut t = AgentTask::new(1, "main".to_string());
    let waiting = TurnEndFacts { expects_progress: true, descendants_running: true, subagent: false };
    assert_eq!(t.on_turn_end(waiting), TurnEnd::Park { reason: Some(ParkReason::WaitingForDescendants) });
    let idle = TurnEndFacts { expects_progress: false, descendants_running: false, subagent: false };
    assert_eq!(t.on_turn_end(idle), TurnEnd::Park { reason: Some(ParkReason::NoWorkExpected) });
    let sub = TurnEndFacts { expects_progress: true, descendants_running: false, subagent: true };
    assert_eq!(t.on_turn_end(sub), TurnEnd::Park { reason: None });
    assert_eq!(t.auto_continue_streak(), 0);
}

#[test]
fn stopped_turns_never_drop_steers() {
    let steers = vec![SteerPayload::from_text("a"), SteerPayload::from_text("b")];
    match resolve_stop(StopReason::Steer(steers.clone())) {
        StopStep::FollowUp(s) => assert_eq!(s, steers),
        other => panic!("unexpected {other:?}"),
    }
    match resolve_stop(StopReason::InterruptWithSteers(steers.clone())) {
        StopStep::FollowUp(s) => assert_eq!(s, steers),
        other => panic!("unexpected {other:?}"),
    }
    match resolve_stop(StopReason::CompactWithSteers(steers.clone())) {
        StopStep::Finish(AfterTurn::Compact(s)) => assert_eq!(s, steers),
        other => panic!("unexpected {other:?}"),
    }
    match resolve_stop(StopReason::Compact) {
        StopStep::Finish(AfterTurn::Compact(s)) => assert!(s.is_empty()),
        other => panic!("unexpected {other:?}"),
    }
    assert!(matches!(resolve_stop(StopReason::Interrupt), StopStep::ParkInterrupted));
    assert!(matches!(resolve_stop(StopReason::Cancel), StopStep::Finish(AfterTurn::Cancelled)));
    assert!(matches!(resolve_stop(StopReason::Clear), StopStep::Finish(AfterTurn::Clear)));
}

#[test]
fn compaction_follow_ups() {
    assert_eq!(
        after_compaction(&CompactOutcome::Completed, 0),
        CompactFollowUp::Resume { note: Some(COMPACTED_RESUME_NOTE) }
    );
    assert_eq!(after_compaction(&CompactOutcome::Completed, 2), CompactFollowUp::Resume { note: None });
    assert_eq!(after_compaction(&CompactOutcome::Failed, 0), CompactFollowUp::Idle);
    assert_eq!(
        after_compaction(&CompactOutcome::Stopped(StopReason::Interrupt), 1),
        CompactFollowUp::Idle
    );
    assert_eq!(
        after_compaction(&CompactOutcome::Stopped(StopReason::Cancel), 1),
        CompactFollowUp::Exit
    );
}

#[test]
fn buffered_prompt_during_compaction_rederives_unattended() {
    let mut t = AgentTask::new(1, "main".to_string());
    t.on_command(&AgentCommand::Prompt {
        text: format!("{UNATTENDED_PROMPT_PREFIX} item"),
        images: vec![],
    });
    t.on_turn_end(working());
    assert_eq!(t.auto_continue_streak(), 1);
    let r = t.reinject_buffered(AgentCommand::Prompt { text: "take over".into(), images: vec![] });
    assert!(matches!(r, Reinjection::PushPrompt { ref text, .. } if text == "take over"));
    assert!(!t.is_unattended());
    assert_eq!(t.auto_continue_streak(), 0);
    let r = t.reinject_buffered(AgentCommand::Suggestion(SteerPayload::from_text("hint")));
    assert!(matches!(r, Reinjection::InjectSteer { as_guidance: true, .. }));
    let with_image = SteerPayload { text: "see".into(), images: vec!["data:image/png;base64,AA".into()] };
    let r = t.reinject_buffered(AgentCommand::Suggestion(with_image));
    assert!(matches!(r, Reinjection::InjectSteer { as_guidance: false, .. }));
    let r = t.reinject_buffered(AgentCommand::Clear);
    assert!(matches!(r, Reinjection::Unexpected(AgentCommand::Clear)));
}

fn failure(text: &str, rate_limited: bool, non_retryable: bool) -> ProviderFailure {
    ProviderFailure { text: text.to_string(), rate_limited, non_retryable, classified_skip: false }
}

#[test]
fn transient_errors_climb_the_ladder_then_fail() {
    let mut r = ProviderRetry::new();
    let f = failure("HTTP 500", false, false);
    assert_eq!(r.on_error(&f, false), ErrorStep::Retry { attempt: 1 });
    assert_eq!(r.on_error(&f, false), ErrorStep::Retry { attempt: 2 });
    assert_eq!(r.on_error(&f, false), ErrorStep::Fail);
    assert_eq!(r.qualifier(&f), QUALIFIER_RETRIES_EXHAUSTED);
    assert_eq!(
        r.terminal_note(&f),
        "[harness note] The previous LLM request failed terminally (provider error, retries exhausted): HTTP 500"
    );
    assert_eq!(r.terminal_event(&f), "HTTP 500");
}

#[test]
fn run_turn_attempt_skips_retry_for_non_retryable_error() {
    let mut r = ProviderRetry::new();
    let f = failure("context length exceeded", false, true);
    assert_eq!(r.on_error(&f, true), ErrorStep::Fail);
    assert_eq!(r.qualifier(&f), QUALIFIER_NON_RETRYABLE);
}

#[test]
fn rate_limit_switches_once_then_fails_without_cascade() {
    let mut r = ProviderRetry::new();
    let f = failure("HTTP 429", true, false);
    assert_eq!(r.on_error(&f, false), ErrorStep::QueryFallback);
    assert_eq!(r.on_fallback(true), ErrorStep::Switch);
    // The alternate 429s too: no second switch.
    assert_eq!(r.on_error(&f, false), ErrorStep::Fail);
    assert_eq!(r.qualifier(&f), QUALIFIER_RATE_LIMITED);
    assert_eq!(
        r.terminal_event(&f),
        "HTTP 429 — rate limited (429), no alternate provider found. Switch models via the status-bar picker, or configure another endpoint serving this model."
    );
}

#[test]
fn rate_limit_without_alternate_fails_at_once() {
    let mut r = ProviderRetry::new();
    let f = failure("HTTP 429", true, false);
    assert_eq!(r.on_error(&f, false), ErrorStep::QueryFallback);
    assert_eq!(r.on_fallback(false), ErrorStep::Fail);
}

#[test]
fn needs_user_classification_skips_the_retry_ladder() {
    let mut r = ProviderRetry::new();
    let f = failure("401 unauthorized", false, false);
    assert_eq!(r.on_error(&f, true), ErrorStep::Classify);
    assert_eq!(r.on_classified(Some(FailureClass::NeedsUser)), ErrorStep::Fail);
    assert_eq!(r.skip_class(), Some(FailureClass::NeedsUser));
    assert_eq!(r.qualifier(&f), QUALIFIER_NEEDS_USER);
    assert_eq!(
        r.terminal_event(&f),
        format!("401 unauthorized — {QUALIFIER_NEEDS_USER}.")
    );
    assert!(!r.take_pending());
}

#[test]
fn transient_classification_keeps_the_ladder() {
    let mut r = ProviderRetry::new();
    let f = failure("stream reset", false, false);
    assert_eq!(r.on_error(&f, true), ErrorStep::Classify);
    assert_eq!(r.on_classified(Some(FailureClass::Transient)), ErrorStep::Retry { attempt: 1 });
    // Classified once per turn: the next error climbs directly.
    assert_eq!(r.on_error(&f, true), ErrorStep::Retry { attempt: 2 });
    assert_eq!(r.on_error(&f, true), ErrorStep::Fail);
    assert!(r.take_pending());
    assert!(!r.take_pending());
}

#[test]
fn terminal_note_truncates_long_errors() {
    let long = "x".repeat(MAX_PROVIDER_ERROR_NOTE_CHARS + 500);
    let r = ProviderRetry::new();
    let note = r.terminal_note(&failure(&long, false, true));
    let head = "[harness note] The previous LLM request failed terminally (non-retryable provider error): ";
    assert_eq!(note.chars().count(), head.chars().count() + MAX_PROVIDER_ERROR_NOTE_CHARS);
    assert!(note.starts_with(head));
}

#[test]
fn note_texts() {
    assert_eq!(retry_note("HTTP 500", 1), "HTTP 500 — retrying (attempt 1/3)");
    assert_eq!(retry_note("e", 12), "e — retrying (attempt 12/3)");
    assert_eq!(
        fallback_note("test-model", "primary", "fallback"),
        "Rate limited (429) on test-model@primary — switching to alternate provider fallback"
    );
    assert_eq!(compaction_failed("boom"), "context compaction failed: boom");
    assert_eq!(
        checkpoint_pointer(Some("c1")),
        "\npre-compaction context archived — expand_result id=c1 to retrieve dropped detail"
    );
    assert_eq!(checkpoint_pointer(None), "");
}

#[test]
fn failed_summarization_keeps_the_conversation_and_goes_idle() {
    let failed = compaction_outcome(Err("provider down".to_string()));
    assert!(matches!(failed, CompactOutcome::Failed));
    assert!(!applies_summary(&failed));
    assert_eq!(after_compaction(&failed, 0), CompactFollowUp::Idle);
    let stopped = compaction_outcome(Ok(Some(StopReason::Interrupt)));
    assert!(matches!(stopped, CompactOutcome::Stopped(StopReason::Interrupt)));
    assert!(!applies_summary(&stopped));
    let done = compaction_outcome(Ok(None));
    assert!(matches!(done, CompactOutcome::Completed));
    assert!(applies_summary(&done));
}

#[test]
fn compact_failure_sends_start_then_one_transient_error() {
    let events = compaction_events(&Err("boom".to_string()), 500, 0, 1000);
    assert_eq!(
        events,
        vec![
            TaskEvent::CompactStarted,
            TaskEvent::Error { error: "context compaction failed: boom".to_string(), retrying: true },
        ]
    );
}

#[test]
fn compact_interrupted_ends_with_the_interrupted_note() {
    let events = compaction_events(&Ok(Some(StopReason::Interrupt)), 500, 480, 1000);
    assert_eq!(
        events,
        vec![
            TaskEvent::CompactStarted,
            TaskEvent::ContextUsage { used: 480, max: 1000 },
            TaskEvent::Error { error: COMPACTION_INTERRUPTED.to_string(), retrying: true },
        ]
    );
    assert_eq!(COMPACTION_INTERRUPTED, "Compaction interrupted — original conversation kept.");
}

#[test]
fn compact_success_sends_one_compacted_after_the_usage() {
    let events = compaction_events(&Ok(None), 500_000, 24_000, 128_000);
    assert_eq!(
        events,
        vec![
            TaskEvent::CompactStarted,
            TaskEvent::ContextUsage { used: 24_000, max: 128_000 },
            TaskEvent::Compacted { before: 500_000, after: 24_000 },
        ]
    );
}

#[test]
fn exited_is_the_last_event_once() {
    assert_eq!(task_end_events(TaskEnd::Cancelled), vec![TaskEvent::Finished, TaskEvent::Exited]);
    assert_eq!(task_end_events(TaskEnd::InboxClosed), vec![TaskEvent::Exited]);
}

fn steer_text(c: &AgentCommand) -> Option<&str> {
    match c {
        AgentCommand::Suggestion(p) => Some(p.text.as_str()),
        _ => None,
    }
}

#[test]
fn dismissed_steers_are_dropped_before_reinjection() {
    let mut buffered = vec![
        AgentCommand::Suggestion(SteerPayload::from_text("a")),
        AgentCommand::Suggestion(SteerPayload::from_text("b")),
        AgentCommand::Prompt { text: "p".into(), images: vec![] },
        AgentCommand::Suggestion(SteerPayload::from_text("a")),
        AgentCommand::CancelSuggestion("a".into()),
        AgentCommand::CancelSuggestion("zzz".into()),
    ];
    drop_cancelled_steers(&mut buffered);
    assert_eq!(buffered.len(), 3);
    assert_eq!(steer_text(&buffered[0]), Some("b"));
    assert!(matches!(&buffered[1], AgentCommand::Prompt { text, .. } if text == "p"));
    assert_eq!(steer_text(&buffered[2]), Some("a"));
}
