//! Scenarios of correction detection.

use mnemo::runtime::correction::{correction_triggers_exec, detect_correction};

#[test]
fn matches_explicit_rule_violations() {
    assert_eq!(detect_correction("you broke the rule"), Some("you broke"));
    assert!(detect_correction("That's not what I asked for").is_some());
    assert!(detect_correction("You didn't follow the instructions").is_some());
    assert!(detect_correction("stop doing that").is_some());
}

#[test]
fn matches_correctness_corrections() {
    assert!(detect_correction("that's wrong, try again").is_some());
    assert!(detect_correction("This is wrong.").is_some());
    assert!(detect_correction("You're wrong about the exit code").is_some());
}

#[test]
fn matches_verification_prompts() {
    assert!(detect_correction("did that land with agent.md?").is_some());
    assert!(detect_correction("did you actually run the tests").is_some());
}

#[test]
fn matches_brevity_nudges() {
    // The actual case that motivated this: the ≤3-line summary rule.
    assert!(detect_correction("your summary is too long").is_some());
    assert!(detect_correction("keep it to 3 lines").is_some());
    assert!(detect_correction("be more concise").is_some());
    // Feedback specifically about the summary output still matches.
    assert!(detect_correction("the summary is too long").is_some());
    assert!(detect_correction("summaries should be shorter").is_some());
    assert!(detect_correction("your summary should be 3 lines").is_some());
}

#[test]
fn benign_summarize_requests_do_not_match() {
    // The bare "summar" stem was too broad — a request to *produce* a
    // summary is not a correction of the agent's output.
    assert_eq!(detect_correction("summarize this file"), None);
    assert_eq!(detect_correction("add a summary field"), None);
    assert_eq!(detect_correction("summarize the last three commits"), None);
    assert_eq!(detect_correction("write a summary for the README"), None);
}

#[test]
fn is_case_insensitive() {
    assert!(detect_correction("THAT'S WRONG").is_some());
    assert!(detect_correction("You Broke The Rule").is_some());
}

#[test]
fn ignores_normal_prompts() {
    assert_eq!(detect_correction("add a spawn_agent tool"), None);
    assert_eq!(detect_correction("run the tests please"), None);
    assert_eq!(detect_correction("refactor the factory"), None);
    assert_eq!(detect_correction("what does this function do?"), None);
}

#[test]
fn returns_first_matched_trigger() {
    // "that's wrong" appears before later triggers; the returned trigger
    // should be a real pattern string for storage context.
    let t = detect_correction("that's wrong and you broke it").unwrap();
    assert!(correction_triggers_exec().contains(&t));
}

#[test]
fn detection_ignores_ascii_case() {
    assert_eq!(detect_correction("THAT'S WRONG"), detect_correction("that's wrong"));
    assert_eq!(detect_correction("That's Wrong."), Some("that's wrong"));
}
