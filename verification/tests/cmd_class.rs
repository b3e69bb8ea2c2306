//! Scenarios of the shell-command classifier.

use mnemo::safety_rules::cmd_class::{classify, strip_redirections};

// --- basic classification ------------------------------------------------

#[test]
fn simple_command_no_filtering() {
    assert_eq!(classify("cargo test"), Some("cargo test".to_string()));
    assert_eq!(classify("cargo build"), Some("cargo build".to_string()));
    assert_eq!(classify("cargo check"), Some("cargo check".to_string()));
}

#[test]
fn command_with_select_string_filter() {
    // The Select-String pattern is cosmetic — same class as bare command.
    assert_eq!(
        classify(r#"cargo test 2>&1 | Select-String -Pattern "foo""#),
        Some("cargo test".to_string())
    );
    assert_eq!(
        classify(r#"cargo test 2>&1 | Select-String -Pattern "bar""#),
        Some("cargo test".to_string())
    );
    // Both variants classify identically → a single rule covers both.
    let a = classify(r#"cargo test 2>&1 | Select-String -Pattern "x""#);
    let b = classify(r#"cargo test 2>&1 | Select-String -Pattern "y""#);
    assert_eq!(a, b);
}

#[test]
fn cd_then_command() {
    assert_eq!(
        classify("cd frontend; npm run build | Select-Object -Last 5"),
        Some("cd;npm run build".to_string())
    );
    assert_eq!(
        classify("cd src-tauri; cargo test"),
        Some("cd;cargo test".to_string())
    );
}

#[test]
fn git_diff_drops_path_arg() {
    // The specific file is irrelevant to the safety class.
    assert_eq!(classify("git diff a.ts"), Some("git diff".to_string()));
    assert_eq!(classify("git diff b.ts"), Some("git diff".to_string()));
    assert_eq!(classify("git diff"), Some("git diff".to_string()));
    assert_eq!(
        classify("git branch --show-current"),
        Some("git branch".to_string())
    );
    assert_eq!(
        classify("git log --oneline -3"),
        Some("git log".to_string())
    );
}

#[test]
fn get_childitem_classified() {
    assert_eq!(
        classify("Get-ChildItem -Path . -Name | Select-Object -First 20"),
        Some("Get-ChildItem".to_string())
    );
    assert_eq!(classify("Get-Location"), Some("Get-Location".to_string()));
}

#[test]
fn npx_and_npm_keep_tool_and_script() {
    assert_eq!(classify("npx tsc --noEmit"), Some("npx tsc".to_string()));
    assert_eq!(
        classify("npx vite build"),
        Some("npx vite build".to_string())
    );
    assert_eq!(classify("npm run build"), Some("npm run build".to_string()));
    assert_eq!(classify("npm install"), Some("npm install".to_string()));
}

// --- the trailing "exit=$LASTEXITCODE" pattern --------------------------

#[test]
fn trailing_exit_code_string_is_skipped() {
    // The common codebase pattern: `cmd; "exit=$LASTEXITCODE"`. The bare
    // string is a benign output expression — skipped, not unclassifiable.
    assert_eq!(
        classify(r#"cargo test 2>&1 | Out-Null; "exit=$LASTEXITCODE""#),
        Some("cargo test".to_string())
    );
    assert_eq!(
        classify(r#"cd frontend; npx tsc --noEmit; "exit=$LASTEXITCODE""#),
        Some("cd;npx tsc".to_string())
    );
    assert_eq!(
        classify(
            r#"cd frontend; npm run build 2>&1 | Select-Object -Last 30; "exit=$LASTEXITCODE""#
        ),
        Some("cd;npm run build".to_string())
    );
}

// --- fail-safe: unclassifiable → None ------------------------------------

#[test]
fn chained_unknown_command_is_none() {
    // `rm` is not in SAFE_COMMANDS → the whole command is unclassifiable,
    // even though `cargo test` alone would be safe. This is the key
    // chained-command guard.
    assert_eq!(classify("cargo test && rm -rf x"), None);
    assert_eq!(classify("cargo test; rm -rf x"), None);
    assert_eq!(classify("cargo test || rm -rf x"), None);
}

#[test]
fn unrecognized_subcommand_is_none() {
    // `test123` is not a recognized cargo subcommand → None (we can't be
    // sure what operation `cargo test123` is).
    assert_eq!(classify("cargo test123"), None);
}

#[test]
fn non_filter_pipeline_stage_is_none() {
    // A second stage that isn't a known filter cmdlet → unclassifiable.
    assert_eq!(classify("cargo test | somecmd"), None);
}

#[test]
fn assignment_statement_is_none() {
    // PowerShell property assignment — unparseable by this tokenizer.
    assert_eq!(
        classify("(Get-Item x).LastWriteTime = Get-Date; cargo build"),
        None
    );
    // A variable assignment is also unclassifiable (not a benign expr).
    assert_eq!(classify("$output = cargo test"), None);
}

// --- quote handling ------------------------------------------------------

#[test]
fn quoted_semicolon_not_split() {
    // A semicolon inside a double-quoted string is not a statement separator.
    assert_eq!(classify(r#"echo "a;b""#), Some("echo".to_string()));
    assert_eq!(
        classify(r#"git commit -m "a; b; c""#),
        Some("git commit".to_string())
    );
}

#[test]
fn single_quoted_semicolon_not_split() {
    assert_eq!(classify(r#"echo 'a;b'"#), Some("echo".to_string()));
}

// --- edge cases ----------------------------------------------------------

#[test]
fn empty_command_is_none() {
    assert_eq!(classify(""), None);
    assert_eq!(classify("   "), None);
}

#[test]
fn multiple_filters_allowed() {
    // Any number of known filter stages is fine.
    assert_eq!(
        classify("cargo test 2>&1 | Out-String -Stream | Select-String -Pattern x"),
        Some("cargo test".to_string())
    );
}

#[test]
fn redirection_only_stripped() {
    // `2>&1` alone with a command still classifies.
    assert_eq!(classify("cargo test 2>&1"), Some("cargo test".to_string()));
    assert_eq!(
        classify("cargo build 2>&1 | Out-Null"),
        Some("cargo build".to_string())
    );
}

#[test]
fn bare_variable_is_benign() {
    // A bare `$LASTEXITCODE` (no `=`) is a benign output expression.
    assert_eq!(
        classify("cargo test; $LASTEXITCODE"),
        Some("cargo test".to_string())
    );
}

// --- CRITICAL: redirect-stripping must not hide chained commands ---------
// A redirect target must NOT cross statement separators (`;`, `&`) or
// pipes (`|`). Otherwise `cargo test>f;rm -rf x` would have `>f;rm`
// gobbled into one redirect, hiding the chained `rm` and classifying the
// whole thing as `cargo test` (auto-approve bypass).

#[test]
fn redirect_target_does_not_cross_semicolon() {
    assert_eq!(classify("cargo test>f;rm -rf x"), None);
    assert_eq!(classify("cargo test>out.txt;rm -rf x"), None);
}

#[test]
fn redirect_target_does_not_cross_ampersand() {
    assert_eq!(classify("cargo test>f&&rm -rf x"), None);
    assert_eq!(classify("cargo test>out.txt&&rm -rf x"), None);
}

#[test]
fn redirect_target_does_not_cross_pipe() {
    // `>f|rm` — the pipe must still split the pipeline, and `rm` is an
    // unknown non-filter stage → None.
    assert_eq!(classify("cargo test>f|rm"), None);
}

#[test]
fn redirect_inside_quotes_not_stripped() {
    // A `>` inside a quoted string is literal text, not a redirect.
    assert_eq!(classify(r#"echo "a > b""#), Some("echo".to_string()));
    // And a chained command after the closing quote is still seen.
    assert_eq!(classify(r#"echo "a > b"; rm x"#), None);
}

#[test]
fn legit_redirect_with_space_still_classifies() {
    // `cargo test 2>&1` (the common pattern) still works.
    assert_eq!(classify("cargo test 2>&1"), Some("cargo test".to_string()));
    assert_eq!(
        classify("cargo test > out.txt"),
        Some("cargo test".to_string())
    );
    assert_eq!(
        classify("cargo build 2>&1 | Out-Null"),
        Some("cargo build".to_string())
    );
}

// --- A2: auto-approve bypass vectors (all must classify to None) --------

#[test]
fn subexpression_vectors_are_none() {
    // Vector 1: a standalone subexpression statement executes.
    assert_eq!(
        classify("cargo test; $(Remove-Item -Recurse -Force C:\\evil)"),
        None
    );
    // Vector 2: an interpolated double-quoted string executes $(...).
    assert_eq!(
        classify(r#"cargo test; "exit $(Remove-Item -Recurse C:\evil)""#),
        None
    );
    // Vector 3: a subexpression inside an argument.
    assert_eq!(
        classify("cargo test $(Remove-Item -Recurse C:\\evil)"),
        None
    );
    // Vector 4: leading flag collapses the class — must be None, not bare "git".
    assert_eq!(classify(r"git -C ..\other checkout -- ."), None);
}

#[test]
fn leading_flag_makes_command_unclassifiable() {
    // A leading flag after the command means we can't know the real
    // subcommand — must return None, never collapse to bare command.
    assert_eq!(classify("git -c core.autocrlf=false status"), None);
    assert_eq!(classify("cargo --release build"), None);
    assert_eq!(classify("npm --prefix /evil run build"), None);
    assert_eq!(classify("npx --yes some-tool"), None);
}

#[test]
fn subcommand_with_flags_still_classifies() {
    // A recognized subcommand followed by flags is fine — the subcommand
    // is tokens[1] (not a flag), so it classifies normally.
    assert_eq!(
        classify("git branch --show-current"),
        Some("git branch".to_string())
    );
    assert_eq!(
        classify("git log --oneline -3"),
        Some("git log".to_string())
    );
    assert_eq!(classify("npx tsc --noEmit"), Some("npx tsc".to_string()));
}

#[test]
fn token_with_paren_or_backtick_is_none() {
    // Any classified token containing (, ), or backtick → None.
    assert_eq!(classify("cargo test(foo)"), None);
    assert_eq!(classify("cargo test`evil`"), None);
    assert_eq!(classify("git diff a)b"), None);
}

#[test]
fn cd_with_parenthesized_arg_is_none() {
    // A parenthesized argument to `cd` is a subexpression that executes —
    // must be caught (the metachar guard runs BEFORE the cd short-circuit).
    assert_eq!(classify("cd (Remove-Item -Recurse -Force C:\\evil)"), None);
    assert_eq!(classify("cd (evil)"), None);
}

#[test]
fn redirect_target_subexpression_is_none() {
    // A `$(` inside a no-space redirect target is stripped by
    // strip_redirections before the per-statement guard — but the raw
    // command guard at the top of classify() catches it first.
    assert_eq!(classify("cargo test >out$(evil).txt"), None);
    assert_eq!(classify("cargo test>out$(evil).txt"), None);
}

#[test]
fn commit_message_with_parens_prompts() {
    // A commit message containing parens is a common, legitimate pattern,
    // but the metachar guard (which rejects `(` in any token) now makes it
    // unclassifiable → prompts. This is fail-safe (prompts, never
    // auto-approves) and is the documented trade-off of the guard.
    assert_eq!(classify(r#"git commit -m "fix (issue #123)""#), None);
    // A commit message without parens still classifies normally.
    assert_eq!(
        classify(r#"git commit -m "fix issue 123""#),
        Some("git commit".to_string())
    );
}

fn strip(s: &str) -> String {
    strip_redirections(&s.chars().collect()).into_iter().collect()
}

#[test]
fn strip_keeps_redirect_characters_inside_backticks() {
    // A backtick opens a quote context: a `>` after it is not stripped.
    assert_eq!(strip("echo `a>b`"), "echo `a>b`");
    assert_eq!(strip("echo `a` >b"), "echo `a` ");
    assert_eq!(strip("cargo test 2>&1 | x"), "cargo test  | x");
    assert_eq!(strip(r#"echo "a > b""#), r#"echo "a > b""#);
}

#[test]
fn quoted_argument_semicolon_stays_in_the_primary() {
    assert_eq!(classify("npx 'x;y'"), Some("npx x;y".to_string()));
}
