//! Scenarios of the channel values.

use mnemo::runtime::channels::{ContextBreakdown, ParkReason, SteerPayload, UserAnswer};

#[test]
fn context_breakdown_total() {
    let b = ContextBreakdown { system: 10, user: 20, assistant: 30, tool: 40 };
    assert_eq!(b.total(), Some(100));
    assert_eq!(ContextBreakdown::default().total(), Some(0));
    let big = ContextBreakdown { system: u32::MAX, user: 1, assistant: 0, tool: 0 };
    assert_eq!(big.total(), None);
}

#[test]
fn park_reasons_needing_input() {
    assert!(ParkReason::Interrupted.needs_input());
    assert!(ParkReason::BudgetExhausted.needs_input());
    assert!(!ParkReason::WaitingForDescendants.needs_input());
    assert!(!ParkReason::NoWorkExpected.needs_input());
}

#[test]
fn user_answer_choice() {
    assert_eq!(UserAnswer::Choice { index: 1 }.chosen(3), Some(1));
    assert_eq!(UserAnswer::Choice { index: 3 }.chosen(3), None);
    assert_eq!(UserAnswer::Freeform { text: "x".into() }.chosen(3), None);
}

#[test]
fn steer_from_text_has_no_images() {
    let s = SteerPayload::from_text("go");
    assert_eq!(s.text, "go");
    assert!(s.images.is_empty());
}
