//! Scenarios of PATH adoption.

use mnemo::shell_path::is_adoptable_path;

/// Regression (review F5): a legal PATH containing spaces (e.g.
/// `/Applications/Some App/bin`) must be adoptable — the pre-fix check
/// rejected ANY whitespace and silently kept the bare GUI PATH, the exact
/// failure `inherit_shell_path` exists to fix. The fix must never
/// reappear.
#[test]
fn adoptable_path_allows_spaces() {
    assert!(is_adoptable_path("/usr/bin:/bin:/Applications/Some App/bin"));
    assert!(is_adoptable_path("/usr/local/bin"));
}

/// Empty values and control characters (a rc file echoing into the
/// captured stdout shows up as newlines/garbage) must still be rejected.
/// A whitespace-only value is not a usable PATH either — this assertion
/// was the macOS CI failure of 2026-09-21 (run 35575972400): the predicate
/// checked only `is_empty()`, so `"   "` slipped through. It lives here,
/// platform-neutral, so the Windows leg guards it too.
#[test]
fn adoptable_path_rejects_empty_and_control_characters() {
    assert!(!is_adoptable_path(""));
    assert!(!is_adoptable_path("   "));
    assert!(!is_adoptable_path("\t"));
    assert!(!is_adoptable_path("\n"));
    assert!(!is_adoptable_path("/usr/bin\n/usr/local/bin"));
    assert!(!is_adoptable_path("/usr/bin\u{7}:/bin"));
    assert!(!is_adoptable_path("/usr/bin\t/bin"));
}

/// The trimmed-empty guard must not become a blanket whitespace rejection:
/// a real PATH whose entries merely CONTAIN spaces stays adoptable.
#[test]
fn adoptable_path_keeps_internal_spaces() {
    assert!(is_adoptable_path(" /usr/local/bin"));
    assert!(is_adoptable_path("/Applications/Some App/bin:/usr/bin"));
}
