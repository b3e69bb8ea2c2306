//! Scenarios of the safety rules: signatures, approval and rule creation.

use mnemo::safety_rules::{Rule, RuleEntry, RuleKind, SafetyError, SafetyRules, ToolArgs};

fn args(key: &str, value: &str) -> ToolArgs {
    ToolArgs::new().with(key, value)
}

// --- signature ---------------------------------------------------------------

#[test]
fn signature_file_tools_use_path() {
    assert_eq!(SafetyRules::signature("file_write", &args("path", "src/foo.rs")), "file_write:src/foo.rs");
    assert_eq!(SafetyRules::signature("file_edit", &args("path", "a.txt")), "file_edit:a.txt");
    assert_eq!(SafetyRules::signature("file_read", &args("path", "b.rs")), "file_read:b.rs");
    assert_eq!(SafetyRules::signature("file_append", &args("path", "c.md")), "file_append:c.md");
    assert_eq!(
        SafetyRules::signature("convert_line_endings", &args("path", "d.txt")),
        "convert_line_endings:d.txt"
    );
}

#[test]
fn signature_shell_uses_command() {
    assert_eq!(SafetyRules::signature("shell", &args("command", "git status")), "shell:git status");
}

#[test]
fn signature_git_uses_subcommand() {
    assert_eq!(SafetyRules::signature("git", &args("subcommand", "commit")), "git:commit");
}

#[test]
fn signature_git_resolves_action_field() {
    // The subcommand may arrive in the `action` field, or as a branch/stash
    // action name — the signature normalizes to the canonical subcommand so
    // saved rules match swapped calls.
    let a = ToolArgs::new().with("action", "commit").with("message", "x");
    assert_eq!(SafetyRules::signature("git", &a), "git:commit");
    assert_eq!(SafetyRules::signature("git", &args("subcommand", "delete")), "git:branch");
    assert_eq!(SafetyRules::signature("git", &args("action", "pop")), "git:stash");
    // Nothing recognizable → empty key (signature is just "git:").
    assert_eq!(SafetyRules::signature("git", &ToolArgs::new()), "git:");
}

#[test]
fn signature_search_uses_pattern() {
    assert_eq!(SafetyRules::signature("search", &args("pattern", "TODO")), "search:TODO");
    // search_read (the search+read combo) uses the same `pattern` key arg.
    assert_eq!(SafetyRules::signature("search_read", &args("pattern", "TODO")), "search_read:TODO");
}

#[test]
fn signature_unknown_tool_empty_key() {
    assert_eq!(SafetyRules::signature("memory_write", &args("title", "x")), "memory_write:");
}

#[test]
fn signature_missing_key_arg() {
    // The tool is known but the key arg is absent — empty key.
    assert_eq!(SafetyRules::signature("file_write", &ToolArgs::new()), "file_write:");
}

// --- is_safe -----------------------------------------------------------------

#[test]
fn is_safe_false_with_no_rules() {
    let sr = SafetyRules::new();
    assert!(!sr.is_safe("file_write", &args("path", "a.rs")));
}

#[test]
fn is_safe_true_after_add_rule() {
    let mut sr = SafetyRules::new();
    sr.add_rule("file_write", &args("path", "src/foo.rs")).unwrap();
    assert!(sr.is_safe("file_write", &args("path", "src/foo.rs")));
}

#[test]
fn is_safe_false_for_different_path() {
    let mut sr = SafetyRules::new();
    sr.add_rule("file_write", &args("path", "src/foo.rs")).unwrap();
    // A different path should not match the literal rule.
    assert!(!sr.is_safe("file_write", &args("path", "src/bar.rs")));
}

#[test]
fn is_safe_false_for_different_tool() {
    let mut sr = SafetyRules::new();
    sr.add_rule("file_write", &args("path", "x.rs")).unwrap();
    // Same path but different tool — must not match.
    assert!(!sr.is_safe("file_edit", &args("path", "x.rs")));
}

#[test]
fn is_safe_with_regex_pattern_from_entries() {
    // A hand-written rule with a wildcard pattern matches multiple paths.
    let (sr, errors) = SafetyRules::from_entries(vec![RuleEntry {
        tool: "file_write".into(),
        pattern: r"^file_write:src/.*\.rs$".into(),
        kind: RuleKind::Literal,
    }]);
    assert!(errors.is_empty());
    assert!(sr.is_safe("file_write", &args("path", "src/foo.rs")));
    assert!(sr.is_safe("file_write", &args("path", "src/bar.rs")));
    assert!(!sr.is_safe("file_write", &args("path", "src/foo.txt")));
}

// --- add_rule ----------------------------------------------------------------

#[test]
fn add_rule_returns_escaped_pattern() {
    let mut sr = SafetyRules::new();
    let pattern = sr.add_rule("file_write", &args("path", "src/foo.rs")).unwrap();
    // The pattern is an anchored, escaped literal of the signature.
    assert_eq!(pattern, r"^file_write:src/foo\.rs$");
}

#[test]
fn add_rule_duplicate_is_noop() {
    let mut sr = SafetyRules::new();
    sr.add_rule("file_write", &args("path", "a.rs")).unwrap();
    sr.add_rule("file_write", &args("path", "a.rs")).unwrap();
    // Only one rule should be stored.
    assert_eq!(sr.rules().len(), 1);
}

#[test]
fn add_rule_multiple_distinct() {
    let mut sr = SafetyRules::new();
    sr.add_rule("file_write", &args("path", "a.rs")).unwrap();
    sr.add_rule("file_write", &args("path", "b.rs")).unwrap();
    sr.add_rule("shell", &args("command", "ls")).unwrap();
    assert_eq!(sr.rules().len(), 3);
}

// --- add_rule_broad ----------------------------------------------------------

#[test]
fn add_rule_broad_returns_prefix_pattern() {
    let mut sr = SafetyRules::new();
    let pattern = sr.add_rule_broad("file_edit").unwrap();
    // The broad pattern matches any signature for the tool: ^file_edit:
    assert_eq!(pattern, r"^file_edit:");
}

#[test]
fn add_rule_broad_matches_multiple_paths() {
    let mut sr = SafetyRules::new();
    sr.add_rule_broad("file_edit").unwrap();
    assert!(sr.is_safe("file_edit", &args("path", "src/foo.rs")));
    assert!(sr.is_safe("file_edit", &args("path", "other/bar.txt")));
    assert!(sr.is_safe("file_edit", &args("path", "deeply/nested/path.md")));
}

#[test]
fn add_rule_broad_does_not_match_other_tools() {
    let mut sr = SafetyRules::new();
    sr.add_rule_broad("file_edit").unwrap();
    // A broad file_edit rule must not auto-approve file_write or shell.
    assert!(!sr.is_safe("file_write", &args("path", "src/foo.rs")));
    assert!(!sr.is_safe("shell", &args("command", "ls")));
}

#[test]
fn add_rule_broad_duplicate_is_noop() {
    let mut sr = SafetyRules::new();
    sr.add_rule_broad("file_edit").unwrap();
    sr.add_rule_broad("file_edit").unwrap();
    assert_eq!(sr.rules().len(), 1);
}

#[test]
fn add_rule_broad_and_narrow_coexist() {
    // A broad rule and a narrow rule for the same tool are distinct rules
    // (different patterns) and both are stored.
    let mut sr = SafetyRules::new();
    sr.add_rule("file_edit", &args("path", "src/foo.rs")).unwrap();
    sr.add_rule_broad("file_edit").unwrap();
    assert_eq!(sr.rules().len(), 2);
}

// --- parsed entries ----------------------------------------------------------

#[test]
fn missing_file_starts_empty() {
    let sr = SafetyRules::new();
    assert!(sr.rules().is_empty());
}

#[test]
fn write_raw_skips_invalid_regex() {
    // A rule with an invalid regex does not prevent the others: it is
    // skipped (best effort) and the valid rules still work.
    let (sr, errors) = SafetyRules::from_entries(vec![
        RuleEntry { tool: "file_write".into(), pattern: "^file_write:src/.*$".into(), kind: RuleKind::Literal },
        RuleEntry { tool: "shell".into(), pattern: "[invalid".into(), kind: RuleKind::Literal },
    ]);
    // Only the valid rule is in the cache.
    assert_eq!(sr.rules().len(), 1);
    assert_eq!(errors.len(), 1);
    assert!(sr.is_safe("file_write", &args("path", "src/x")));
}

#[test]
fn invalid_regex_entry_skipped_keeps_order() {
    let (sr, _) = SafetyRules::from_entries(vec![
        RuleEntry { tool: "file_write".into(), pattern: "^file_write:ok$".into(), kind: RuleKind::Literal },
        RuleEntry { tool: "shell".into(), pattern: "[broken".into(), kind: RuleKind::Literal },
    ]);
    assert_eq!(sr.rules().len(), 1);
    assert_eq!(sr.rules()[0].tool, "file_write");
    let entries = sr.to_entries();
    assert_eq!(entries.len(), 1);
    assert_eq!(entries[0].pattern, "^file_write:ok$");
}

#[test]
fn rule_new_invalid_regex_errors() {
    let result = Rule::new("shell", "[invalid");
    assert!(result.is_err());
    match result {
        Err(SafetyError::InvalidRegex { pattern, .. }) => assert_eq!(pattern, "[invalid"),
        other => panic!("unexpected {other:?}"),
    }
}

#[test]
fn rule_matches_anchored_pattern() {
    let rule = Rule::new("shell", r"^shell:git .*$").unwrap();
    assert!(rule.matches("shell:git status"));
    assert!(rule.matches("shell:git commit"));
    assert!(!rule.matches("shell:ls"));
}

// --- command-class rules -----------------------------------------------------

fn class_entry() -> RuleEntry {
    RuleEntry { tool: "shell".into(), pattern: "cargo test".into(), kind: RuleKind::CommandClass }
}

#[test]
fn class_rule_approves_same_operation_ignoring_filters() {
    let (sr, _) = SafetyRules::from_entries(vec![class_entry()]);
    assert!(sr.is_safe("shell", &args("command", "cargo test")));
    assert!(sr.is_safe("shell", &args("command", r#"cargo test 2>&1 | Select-String -Pattern "foo""#)));
    assert!(sr.is_safe("shell", &args("command", r#"cargo test 2>&1 | Select-String -Pattern "bar""#)));
}

#[test]
fn class_rule_rejects_chained_and_different_commands() {
    let (sr, _) = SafetyRules::from_entries(vec![class_entry()]);
    assert!(!sr.is_safe("shell", &args("command", "cargo test && rm -rf x")));
    assert!(!sr.is_safe("shell", &args("command", "cargo build")));
    assert!(!sr.is_safe("shell", &args("command", "cargo test123")));
}

#[test]
fn class_rule_and_literal_rule_coexist() {
    let (sr, _) = SafetyRules::from_entries(vec![
        class_entry(),
        RuleEntry { tool: "file_write".into(), pattern: "^file_write:src/.*\\.rs$".into(), kind: RuleKind::Literal },
    ]);
    assert!(sr.is_safe("shell", &args("command", "cargo test")));
    assert!(sr.is_safe("file_write", &args("path", "src/foo.rs")));
    assert!(!sr.is_safe("file_write", &args("path", "src/foo.txt")));
}

#[test]
fn add_rule_class_saves_and_dedupes() {
    let mut sr = SafetyRules::new();
    let class = sr.add_rule_class("shell", &args("command", r#"cargo test 2>&1 | Select-String x"#)).unwrap();
    assert_eq!(class, "cargo test");
    assert_eq!(sr.rules().len(), 1);
    // Adding the same class (via a different variant) is a no-op.
    let class2 = sr.add_rule_class("shell", &args("command", "cargo test")).unwrap();
    assert_eq!(class2, "cargo test");
    assert_eq!(sr.rules().len(), 1, "duplicate class rule should be a no-op");
    // The saved rule approves both variants.
    assert!(sr.is_safe("shell", &args("command", "cargo test")));
    assert!(sr.is_safe("shell", &args("command", r#"cargo test 2>&1 | Select-String y"#)));
}

#[test]
fn add_rule_class_errors_on_unclassifiable() {
    let mut sr = SafetyRules::new();
    // Chained unknown command → can't classify → error.
    let result = sr.add_rule_class("shell", &args("command", "cargo test && rm x"));
    assert!(result.is_err());
    assert_eq!(result, Err(SafetyError::Unclassifiable));
    assert_eq!(sr.rules().len(), 0, "no rule should be saved on error");
}

#[test]
fn add_rule_class_errors_for_non_shell() {
    let mut sr = SafetyRules::new();
    let result = sr.add_rule_class("file_write", &args("path", "x.rs"));
    assert!(result.is_err());
    assert_eq!(result, Err(SafetyError::NotShell));
}

#[test]
fn class_rule_round_trips_through_entries() {
    let mut sr = SafetyRules::new();
    sr.add_rule_class("shell", &args("command", "cargo test")).unwrap();
    let entries = sr.to_entries();
    assert_eq!(entries.len(), 1);
    assert_eq!(entries[0].kind, RuleKind::CommandClass);
    assert_eq!(entries[0].pattern, "cargo test");
    let (sr2, _) = SafetyRules::from_entries(entries);
    assert!(sr2.is_safe("shell", &args("command", "cargo test")));
}

#[test]
fn missing_kind_defaults_to_literal() {
    // A rule written without a kind takes the default kind: a literal rule.
    let (sr, errors) = SafetyRules::from_entries(vec![RuleEntry {
        tool: "shell".into(),
        pattern: "^shell:git status$".into(),
        kind: RuleKind::default(),
    }]);
    assert!(errors.is_empty());
    assert_eq!(sr.rules().len(), 1);
    assert_eq!(sr.rules()[0].kind, RuleKind::Literal);
    assert!(sr.is_safe("shell", &args("command", "git status")));
    assert!(RuleKind::default().is_literal());
    assert!(!RuleKind::CommandClass.is_literal());
}

#[test]
fn error_messages() {
    assert_eq!(SafetyError::NotShell.message(), "command-class rules only apply to the shell tool");
    assert_eq!(
        SafetyError::Unclassifiable.message(),
        "command cannot be classified as safe (chained, unknown, or unparseable)"
    );
    let e = SafetyError::InvalidRegex { pattern: "[x".into(), reason: "unclosed".into() };
    assert_eq!(e.message(), "invalid regex '[x': unclosed");
}

#[test]
fn add_rule_escapes_regex_metacharacters() {
    let mut sr = SafetyRules::new();
    let pattern = sr.add_rule("shell", &args("command", "ls (a|b)*")).unwrap();
    assert_eq!(pattern, r"^shell:ls \(a\|b\)\*$");
    assert!(sr.is_safe("shell", &args("command", "ls (a|b)*")));
    assert!(!sr.is_safe("shell", &args("command", "ls a")));
}
