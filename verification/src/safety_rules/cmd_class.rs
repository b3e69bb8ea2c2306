//! Command classification for `command_class` safety rules.
//!
//! [`classify`] normalizes a shell command into a **safety class**: the
//! primary commands of its statements, ignoring cosmetic output filtering
//! (filter cmdlets such as `Select-String`, redirections such as `2>&1`).
//! Two commands with the same class are equivalent for auto-approval.
//!
//! The classifier is conservative: whatever it cannot classify yields
//! `None`, and a `None` class is never auto-approved. Chained statements
//! (`;`, `&&`, `||`, `&`) are classified one by one and any unclassifiable
//! statement makes the whole command unclassifiable; a pipeline stage after
//! the first must be a known filter cmdlet; a primary command must be known,
//! and so must its subcommand where it takes one; assignments and
//! subexpressions are unclassifiable, while a bare string or variable output
//! expression is skipped.
//!
//! Each executable step below is proved equal to a specification function
//! over `Seq<char>`, and [`spec_classify`] composes them.

use vstd::prelude::*;
use crate::text::{
    char_alphanumeric, chars_of, is_ascii_alnum, contains_lit, eq_lit, has_char, is_alphanumeric, is_ascii_digit,
    is_blank, is_digit, is_whitespace, is_ws, join, join_chars, seq_contains, starts_with,
    string_of, trim, trim_chars, trim_start, trim_start_chars,
};

verus! {

// ---------------------------------------------------------------------------
// Redirection stripping
// ---------------------------------------------------------------------------

/// The first index at or after `j` that is not an ASCII digit.
pub open spec fn skip_digits(s: Seq<char>, j: int) -> int
    decreases s.len() - j,
{
    if 0 <= j < s.len() && is_digit(s[j]) {
        skip_digits(s, j + 1)
    } else {
        j
    }
}

/// A character that may follow `$` in a variable-name redirect target:
/// alphanumeric (`char::is_alphanumeric`, which on ASCII admits exactly the
/// letters and digits) or `_`.
pub open spec fn is_word_char(c: char) -> bool {
    (if c <= '\u{7f}' {
        is_ascii_alnum(c)
    } else {
        char_alphanumeric(c)
    }) || c == '_'
}

/// The first index at or after `j` that is not a variable-name character.
pub open spec fn skip_word(s: Seq<char>, j: int) -> int
    decreases s.len() - j,
{
    if 0 <= j < s.len() && is_word_char(s[j]) {
        skip_word(s, j + 1)
    } else {
        j
    }
}

/// A character that ends a bare-word redirect target: whitespace, a
/// statement separator, a pipe, a quote or another redirect character.
pub open spec fn is_target_stop(c: char) -> bool {
    is_ws(c) || c == ';' || c == '&' || c == '|' || c == '<' || c == '>' || c == '\''
        || c == '"'
}

/// The first index at or after `j` that ends a bare-word target.
pub open spec fn skip_bare(s: Seq<char>, j: int) -> int
    decreases s.len() - j,
{
    if 0 <= j < s.len() && !is_target_stop(s[j]) {
        skip_bare(s, j + 1)
    } else {
        j
    }
}

/// Whether a redirection starts at `i`: a `>`, or a digit directly followed
/// by `>`.
pub open spec fn is_redirect_start(s: Seq<char>, i: int) -> bool {
    0 <= i < s.len() && (s[i] == '>' || (is_digit(s[i]) && i + 1 < s.len() && s[i + 1] == '>'))
}

/// Where the redirection starting at `i` ends: past the operator (`>`,
/// `>>`, `N>`, `N>>`) and its target (`&N`, `$name` or a bare word).
pub open spec fn redirect_end(s: Seq<char>, i: int) -> int {
    let j = if is_digit(s[i]) { i + 2 } else { i + 1 };
    let k = if j < s.len() && s[j] == '>' { j + 1 } else { j };
    if k < s.len() && s[k] == '&' {
        skip_digits(s, k + 1)
    } else if k < s.len() && s[k] == '$' {
        skip_word(s, k + 1)
    } else {
        skip_bare(s, k)
    }
}

pub proof fn lemma_skip_digits(s: Seq<char>, j: int)
    requires
        0 <= j <= s.len(),
    ensures
        j <= skip_digits(s, j) <= s.len(),
        forall|k: int| j <= k < skip_digits(s, j) ==> is_digit(#[trigger] s[k]),
        skip_digits(s, j) < s.len() ==> !is_digit(s[skip_digits(s, j)]),
    decreases s.len() - j,
{
    if j < s.len() && is_digit(s[j]) {
        lemma_skip_digits(s, j + 1);
    }
}

pub proof fn lemma_skip_word(s: Seq<char>, j: int)
    requires
        0 <= j <= s.len(),
    ensures
        j <= skip_word(s, j) <= s.len(),
        forall|k: int| j <= k < skip_word(s, j) ==> is_word_char(#[trigger] s[k]),
    decreases s.len() - j,
{
    if j < s.len() && is_word_char(s[j]) {
        lemma_skip_word(s, j + 1);
    }
}

pub proof fn lemma_skip_bare(s: Seq<char>, j: int)
    requires
        0 <= j <= s.len(),
    ensures
        j <= skip_bare(s, j) <= s.len(),
        forall|k: int| j <= k < skip_bare(s, j) ==> !is_target_stop(#[trigger] s[k]),
    decreases s.len() - j,
{
    if j < s.len() && !is_target_stop(s[j]) {
        lemma_skip_bare(s, j + 1);
    }
}

/// The redirection starting at `i` consumes at least its first character
/// and stays within `s`.
pub proof fn lemma_redirect_end(s: Seq<char>, i: int)
    requires
        is_redirect_start(s, i),
    ensures
        i < redirect_end(s, i) <= s.len(),
{
    let j = if is_digit(s[i]) { i + 2 } else { i + 1 };
    let k = if j < s.len() && s[j] == '>' { j + 1 } else { j };
    if k < s.len() && s[k] == '&' {
        lemma_skip_digits(s, k + 1);
    } else if k < s.len() && s[k] == '$' {
        lemma_skip_word(s, k + 1);
    } else {
        lemma_skip_bare(s, k);
    }
}

/// The output of stripping redirections from position `i` on, with the
/// quote state `sq` (inside `'…'`), `dq` (inside `"…"`) and `bq` (inside
/// `` `…` ``, PowerShell's escape and substitution character, treated as a
/// quote context so that a `>` after a backtick is not stripped).
pub open spec fn strip_from(s: Seq<char>, i: int, sq: bool, dq: bool, bq: bool) -> Seq<char>
    decreases s.len() - i,
{
    if i < 0 || i >= s.len() {
        Seq::empty()
    } else {
        let c = s[i];
        if c == '\'' && !dq && !bq {
            seq![c] + strip_from(s, i + 1, !sq, dq, bq)
        } else if c == '"' && !sq && !bq {
            seq![c] + strip_from(s, i + 1, sq, !dq, bq)
        } else if c == '`' && !sq && !dq {
            seq![c] + strip_from(s, i + 1, sq, dq, !bq)
        } else if !at_top(sq, dq, bq) {
            seq![c] + strip_from(s, i + 1, sq, dq, bq)
        } else if is_redirect_start(s, i) {
            proof {
                lemma_redirect_end(s, i);
            }
            strip_from(s, redirect_end(s, i), sq, dq, bq)
        } else {
            seq![c] + strip_from(s, i + 1, sq, dq, bq)
        }
    }
}

/// `stmt` with its top-level redirections (operator and target) removed.
pub open spec fn strip_redirs(stmt: Seq<char>) -> Seq<char> {
    strip_from(stmt, 0, false, false, false)
}

fn skip_digits_exec(s: &Vec<char>, j: usize) -> (r: usize)
    requires
        j <= s.len(),
    ensures
        r == skip_digits(s@, j as int),
{
    let mut k = j;
    while k < s.len() && is_ascii_digit(s[k])
        invariant
            j <= k <= s.len(),
            skip_digits(s@, k as int) == skip_digits(s@, j as int),
        decreases s.len() - k,
    {
        k = k + 1;
    }
    k
}

fn skip_word_exec(s: &Vec<char>, j: usize) -> (r: usize)
    requires
        j <= s.len(),
    ensures
        r == skip_word(s@, j as int),
{
    let mut k = j;
    while k < s.len() && (is_alphanumeric(s[k]) || s[k] == '_')
        invariant
            j <= k <= s.len(),
            skip_word(s@, k as int) == skip_word(s@, j as int),
        decreases s.len() - k,
    {
        k = k + 1;
    }
    k
}

fn is_target_stop_exec(w: char) -> (r: bool)
    ensures
        r == is_target_stop(w),
{
    is_whitespace(w) || w == ';' || w == '&' || w == '|' || w == '<' || w == '>' || w == '\''
        || w == '"'
}

fn skip_bare_exec(s: &Vec<char>, j: usize) -> (r: usize)
    requires
        j <= s.len(),
    ensures
        r == skip_bare(s@, j as int),
{
    let mut k = j;
    while k < s.len() && !is_target_stop_exec(s[k])
        invariant
            j <= k <= s.len(),
            skip_bare(s@, k as int) == skip_bare(s@, j as int),
        decreases s.len() - k,
    {
        k = k + 1;
    }
    k
}

fn redirect_end_exec(s: &Vec<char>, i: usize) -> (r: usize)
    requires
        is_redirect_start(s@, i as int),
    ensures
        r == redirect_end(s@, i as int),
{
    assert(i < s.len());
    let j = if is_ascii_digit(s[i]) {
        i + 2
    } else {
        i + 1
    };
    let k = if j < s.len() && s[j] == '>' {
        j + 1
    } else {
        j
    };
    if k < s.len() && s[k] == '&' {
        skip_digits_exec(s, k + 1)
    } else if k < s.len() && s[k] == '$' {
        skip_word_exec(s, k + 1)
    } else {
        skip_bare_exec(s, k)
    }
}

/// Removes redirection tokens from a statement so they do not confuse the
/// pipeline parser: `cargo test 2>&1 | x` becomes `cargo test  | x`.
///
/// Quote-aware and separator-safe: nothing inside quotes or backticks is
/// stripped, and a redirect target never extends over `;`, `&`, `|`, `<`,
/// `>`, a quote or whitespace (see [`law_strip_keeps_separators`]).
pub fn strip_redirections(stmt: &Vec<char>) -> (out: Vec<char>)
    ensures
        out@ == strip_redirs(stmt@),
{
    let mut out: Vec<char> = Vec::new();
    let mut i: usize = 0;
    let mut sq = false;
    let mut dq = false;
    let mut bq = false;
    while i < stmt.len()
        invariant
            i <= stmt.len(),
            out@ + strip_from(stmt@, i as int, sq, dq, bq) == strip_redirs(stmt@),
        decreases stmt.len() - i,
    {
        let c = stmt[i];
        if c == '\'' && !dq && !bq {
            sq = !sq;
            out.push(c);
            i = i + 1;
        } else if c == '"' && !sq && !bq {
            dq = !dq;
            out.push(c);
            i = i + 1;
        } else if c == '`' && !sq && !dq {
            bq = !bq;
            out.push(c);
            i = i + 1;
        } else if sq || dq || bq {
            out.push(c);
            i = i + 1;
        } else if c == '>' || (is_ascii_digit(c) && i + 1 < stmt.len() && stmt[i + 1] == '>') {
            proof {
                lemma_redirect_end(stmt@, i as int);
            }
            i = redirect_end_exec(stmt, i);
        } else {
            out.push(c);
            i = i + 1;
        }
    }
    assert(out@ + strip_from(stmt@, i as int, sq, dq, bq) == out@);
    out
}

// ---------------------------------------------------------------------------
// Statements, pipeline stages, tokens
// ---------------------------------------------------------------------------

/// The views of a vector of character vectors.
pub open spec fn views(v: Seq<Vec<char>>) -> Seq<Seq<char>> {
    v.map_values(|p: Vec<char>| p@)
}

/// Whether the quote state is at the top level.
pub open spec fn at_top(sq: bool, dq: bool, bq: bool) -> bool {
    !sq && !dq && !bq
}

/// The statements produced from position `i` on, given the quote state
/// (`'…'`, `"…"`, `` `…` ``) and the statement `cur` collected so far.
///
/// `;`, `&`, `&&` and `||` at the top level end a statement; a single `|`
/// stays in the statement (it is a pipeline pipe). Quote characters toggle
/// their state unless inside another kind of quote, and are kept.
pub open spec fn split_stmts_from(
    s: Seq<char>,
    i: int,
    sq: bool,
    dq: bool,
    bq: bool,
    cur: Seq<char>,
) -> Seq<Seq<char>>
    decreases s.len() - i,
{
    if i < 0 || i >= s.len() {
        seq![cur]
    } else {
        let c = s[i];
        if c == '\'' && !dq && !bq {
            split_stmts_from(s, i + 1, !sq, dq, bq, cur.push(c))
        } else if c == '"' && !sq && !bq {
            split_stmts_from(s, i + 1, sq, !dq, bq, cur.push(c))
        } else if c == '`' && !sq && !dq {
            split_stmts_from(s, i + 1, sq, dq, !bq, cur.push(c))
        } else if at_top(sq, dq, bq) && (c == ';' || c == '&') {
            let n = if c == '&' && i + 1 < s.len() && s[i + 1] == '&' { i + 2 } else { i + 1 };
            seq![cur] + split_stmts_from(s, n, sq, dq, bq, Seq::empty())
        } else if at_top(sq, dq, bq) && c == '|' && i + 1 < s.len() && s[i + 1] == '|' {
            seq![cur] + split_stmts_from(s, i + 2, sq, dq, bq, Seq::empty())
        } else {
            split_stmts_from(s, i + 1, sq, dq, bq, cur.push(c))
        }
    }
}

/// `s` split into statements on the top-level chaining operators.
pub open spec fn split_stmts(s: Seq<char>) -> Seq<Seq<char>> {
    split_stmts_from(s, 0, false, false, false, Seq::empty())
}

/// Splits a command into statements on the chaining operators `;`, `&&`,
/// `||` and `&` (background), respecting quotes. Consecutive separators
/// produce empty statements, which the caller skips.
pub fn split_statements(s: &Vec<char>) -> (parts: Vec<Vec<char>>)
    ensures
        views(parts@) == split_stmts(s@),
{
    let mut parts: Vec<Vec<char>> = Vec::new();
    let mut cur: Vec<char> = Vec::new();
    let mut i: usize = 0;
    let mut sq = false;
    let mut dq = false;
    let mut bq = false;
    while i < s.len()
        invariant
            i <= s.len(),
            views(parts@) + split_stmts_from(s@, i as int, sq, dq, bq, cur@) == split_stmts(s@),
        decreases s.len() - i,
    {
        let c = s[i];
        let ghost (osq, odq, obq, ocur, oparts) = (sq, dq, bq, cur@, views(parts@));
        if c == '\'' && !dq && !bq {
            sq = !sq;
            cur.push(c);
            i = i + 1;
        } else if c == '"' && !sq && !bq {
            dq = !dq;
            cur.push(c);
            i = i + 1;
        } else if c == '`' && !sq && !dq {
            bq = !bq;
            cur.push(c);
            i = i + 1;
        } else if !sq && !dq && !bq && (c == ';' || c == '&') {
            let n = if c == '&' && i + 1 < s.len() && s[i + 1] == '&' {
                i + 2
            } else {
                i + 1
            };
            parts.push(cur);
            cur = Vec::new();
            i = n;
            assert(views(parts@) =~= oparts + seq![ocur]);
        } else if !sq && !dq && !bq && c == '|' && i + 1 < s.len() && s[i + 1] == '|' {
            parts.push(cur);
            cur = Vec::new();
            i = i + 2;
            assert(views(parts@) =~= oparts + seq![ocur]);
        } else {
            cur.push(c);
            i = i + 1;
        }
    }
    let ghost before = views(parts@);
    parts.push(cur);
    assert(views(parts@) =~= before + seq![cur@]);
    parts
}

/// The pipeline stages produced from position `i` on: every `|` outside
/// quotes ends a stage (and is dropped).
pub open spec fn split_pipe_from(
    s: Seq<char>,
    i: int,
    sq: bool,
    dq: bool,
    bq: bool,
    cur: Seq<char>,
) -> Seq<Seq<char>>
    decreases s.len() - i,
{
    if i < 0 || i >= s.len() {
        seq![cur]
    } else {
        let c = s[i];
        if c == '\'' && !dq && !bq {
            split_pipe_from(s, i + 1, !sq, dq, bq, cur.push(c))
        } else if c == '"' && !sq && !bq {
            split_pipe_from(s, i + 1, sq, !dq, bq, cur.push(c))
        } else if c == '`' && !sq && !dq {
            split_pipe_from(s, i + 1, sq, dq, !bq, cur.push(c))
        } else if c == '|' && at_top(sq, dq, bq) {
            seq![cur] + split_pipe_from(s, i + 1, sq, dq, bq, Seq::empty())
        } else {
            split_pipe_from(s, i + 1, sq, dq, bq, cur.push(c))
        }
    }
}

/// `s` split into pipeline stages.
pub open spec fn split_pipe(s: Seq<char>) -> Seq<Seq<char>> {
    split_pipe_from(s, 0, false, false, false, Seq::empty())
}

/// Splits a statement into pipeline stages on `|`, respecting quotes.
pub fn split_pipeline(s: &Vec<char>) -> (parts: Vec<Vec<char>>)
    ensures
        views(parts@) == split_pipe(s@),
{
    let mut parts: Vec<Vec<char>> = Vec::new();
    let mut cur: Vec<char> = Vec::new();
    let mut i: usize = 0;
    let mut sq = false;
    let mut dq = false;
    let mut bq = false;
    while i < s.len()
        invariant
            i <= s.len(),
            views(parts@) + split_pipe_from(s@, i as int, sq, dq, bq, cur@) == split_pipe(s@),
        decreases s.len() - i,
    {
        let c = s[i];
        let ghost (ocur, oparts) = (cur@, views(parts@));
        if c == '\'' && !dq && !bq {
            sq = !sq;
            cur.push(c);
        } else if c == '"' && !sq && !bq {
            dq = !dq;
            cur.push(c);
        } else if c == '`' && !sq && !dq {
            bq = !bq;
            cur.push(c);
        } else if c == '|' && !sq && !dq && !bq {
            parts.push(cur);
            cur = Vec::new();
            assert(views(parts@) =~= oparts + seq![ocur]);
        } else {
            cur.push(c);
        }
        i = i + 1;
    }
    let ghost before = views(parts@);
    parts.push(cur);
    assert(views(parts@) =~= before + seq![cur@]);
    parts
}

/// The tokens produced from position `i` on: whitespace outside quotes
/// separates tokens, quote characters toggle their state and are dropped.
pub open spec fn tokens_from(s: Seq<char>, i: int, sq: bool, dq: bool, cur: Seq<char>) -> Seq<
    Seq<char>,
>
    decreases s.len() - i,
{
    if i < 0 || i >= s.len() {
        if cur.len() > 0 {
            seq![cur]
        } else {
            Seq::empty()
        }
    } else {
        let c = s[i];
        if c == '\'' && !dq {
            tokens_from(s, i + 1, !sq, dq, cur)
        } else if c == '"' && !sq {
            tokens_from(s, i + 1, sq, !dq, cur)
        } else if is_ws(c) && !sq && !dq {
            if cur.len() > 0 {
                seq![cur] + tokens_from(s, i + 1, sq, dq, Seq::empty())
            } else {
                tokens_from(s, i + 1, sq, dq, Seq::empty())
            }
        } else {
            tokens_from(s, i + 1, sq, dq, cur.push(c))
        }
    }
}

/// The whitespace-separated tokens of a pipeline stage, quotes respected.
pub open spec fn tokenize(s: Seq<char>) -> Seq<Seq<char>> {
    tokens_from(s, 0, false, false, Seq::empty())
}

/// Tokenizes a pipeline stage into whitespace-separated tokens, respecting
/// quotes (so `-Pattern "a b"` stays one token). Quote characters are
/// dropped from the token content.
pub fn tokenize_stage(s: &Vec<char>) -> (toks: Vec<Vec<char>>)
    ensures
        views(toks@) == tokenize(s@),
{
    let mut toks: Vec<Vec<char>> = Vec::new();
    let mut cur: Vec<char> = Vec::new();
    let mut i: usize = 0;
    let mut sq = false;
    let mut dq = false;
    while i < s.len()
        invariant
            i <= s.len(),
            views(toks@) + tokens_from(s@, i as int, sq, dq, cur@) == tokenize(s@),
        decreases s.len() - i,
    {
        let c = s[i];
        let ghost (ocur, otoks) = (cur@, views(toks@));
        if c == '\'' && !dq {
            sq = !sq;
        } else if c == '"' && !sq {
            dq = !dq;
        } else if is_whitespace(c) && !sq && !dq {
            if cur.len() > 0 {
                toks.push(cur);
                cur = Vec::new();
                assert(views(toks@) =~= otoks + seq![ocur]);
            } else {
                assert(ocur =~= Seq::<char>::empty());
            }
        } else {
            cur.push(c);
        }
        i = i + 1;
    }
    if cur.len() > 0 {
        let ghost before = views(toks@);
        toks.push(cur);
        assert(views(toks@) =~= before + seq![cur@]);
    } else {
        assert(views(toks@) + Seq::<Seq<char>>::empty() =~= views(toks@));
    }
    toks
}

/// Whether an `=` occurs outside quotes from position `i` on.
pub open spec fn eq_from(s: Seq<char>, i: int, sq: bool, dq: bool) -> bool
    decreases s.len() - i,
{
    if i < 0 || i >= s.len() {
        false
    } else {
        let c = s[i];
        if c == '\'' && !dq {
            eq_from(s, i + 1, !sq, dq)
        } else if c == '"' && !sq {
            eq_from(s, i + 1, sq, !dq)
        } else if c == '=' && !sq && !dq {
            true
        } else {
            eq_from(s, i + 1, sq, dq)
        }
    }
}

/// Whether `s` holds an `=` at the top level (outside quotes).
pub open spec fn top_level_equals(s: Seq<char>) -> bool {
    eq_from(s, 0, false, false)
}

/// Whether `s` holds an `=` outside quotes: `$x` (no) against
/// `$x = cargo test` (yes, an assignment).
pub fn has_top_level_equals(s: &Vec<char>) -> (r: bool)
    ensures
        r == top_level_equals(s@),
{
    let mut i: usize = 0;
    let mut sq = false;
    let mut dq = false;
    while i < s.len()
        invariant
            i <= s.len(),
            eq_from(s@, i as int, sq, dq) == top_level_equals(s@),
        decreases s.len() - i,
    {
        let c = s[i];
        if c == '\'' && !dq {
            sq = !sq;
        } else if c == '"' && !sq {
            dq = !dq;
        } else if c == '=' && !sq && !dq {
            return true;
        }
        i = i + 1;
    }
    false
}

// ---------------------------------------------------------------------------
// Word lists
// ---------------------------------------------------------------------------

/// The views of a list of string literals.
pub open spec fn lit_views(v: Seq<&str>) -> Seq<Seq<char>> {
    v.map_values(|x: &str| x@)
}

/// Primary commands considered safe to classify (the operation itself is
/// trusted; a rule approves the *class*). Any other primary makes the
/// statement unclassifiable.
pub open spec fn safe_commands() -> Seq<&'static str> {
    seq![
        "cargo",
        "rustc",
        "npm",
        "npx",
        "node",
        "git",
        "Get-ChildItem",
        "Get-Location",
        "Get-Item",
        "ls",
        "dir",
        "echo",
        "Write-Output",
    ]
}

/// Subcommands kept in the class of `cargo` and `rustc`.
pub open spec fn cargo_subs() -> Seq<&'static str> {
    seq![
        "test",
        "build",
        "check",
        "clippy",
        "fmt",
        "run",
        "bench",
        "doc",
        "clean",
        "add",
        "rm",
        "init",
        "update",
        "fetch",
        "verify-project",
    ]
}

/// Subcommands kept in the class of `git`.
pub open spec fn git_subs() -> Seq<&'static str> {
    seq![
        "diff",
        "log",
        "status",
        "branch",
        "stash",
        "fetch",
        "pull",
        "show",
        "tag",
        "add",
        "rm",
        "commit",
        "merge",
        "rebase",
        "switch",
        "checkout",
        "restore",
        "reset",
    ]
}

/// Subcommands kept in the class of `npm`.
pub open spec fn npm_subs() -> Seq<&'static str> {
    seq!["run", "install", "uninstall", "update", "test", "ci", "init"]
}

/// Subcommands kept after the tool name of `npx <tool> <sub>`.
pub open spec fn npx_tool_subs() -> Seq<&'static str> {
    seq!["build", "dev", "preview", "test", "lint", "serve"]
}

/// Filter cmdlets allowed as non-first pipeline stages: they only
/// transform output and are ignored for classification.
pub open spec fn filter_cmdlets() -> Seq<&'static str> {
    seq![
        "Select-String",
        "Out-String",
        "Select-Object",
        "Where-Object",
        "Sort-Object",
        "ForEach-Object",
        "Out-Null",
        "Out-Default",
        "Out-Host",
        "Tee-Object",
        "Group-Object",
        "Measure-Object",
    ]
}

fn safe_commands_exec() -> (v: Vec<&'static str>)
    ensures
        v@ == safe_commands(),
{
    let v = vec![
        "cargo",
        "rustc",
        "npm",
        "npx",
        "node",
        "git",
        "Get-ChildItem",
        "Get-Location",
        "Get-Item",
        "ls",
        "dir",
        "echo",
        "Write-Output",
    ];
    assert(v@ =~= safe_commands());
    v
}

fn cargo_subs_exec() -> (v: Vec<&'static str>)
    ensures
        v@ == cargo_subs(),
{
    let v = vec![
        "test",
        "build",
        "check",
        "clippy",
        "fmt",
        "run",
        "bench",
        "doc",
        "clean",
        "add",
        "rm",
        "init",
        "update",
        "fetch",
        "verify-project",
    ];
    assert(v@ =~= cargo_subs());
    v
}

fn git_subs_exec() -> (v: Vec<&'static str>)
    ensures
        v@ == git_subs(),
{
    let v = vec![
        "diff",
        "log",
        "status",
        "branch",
        "stash",
        "fetch",
        "pull",
        "show",
        "tag",
        "add",
        "rm",
        "commit",
        "merge",
        "rebase",
        "switch",
        "checkout",
        "restore",
        "reset",
    ];
    assert(v@ =~= git_subs());
    v
}

fn npm_subs_exec() -> (v: Vec<&'static str>)
    ensures
        v@ == npm_subs(),
{
    let v = vec!["run", "install", "uninstall", "update", "test", "ci", "init"];
    assert(v@ =~= npm_subs());
    v
}

fn npx_tool_subs_exec() -> (v: Vec<&'static str>)
    ensures
        v@ == npx_tool_subs(),
{
    let v = vec!["build", "dev", "preview", "test", "lint", "serve"];
    assert(v@ =~= npx_tool_subs());
    v
}

fn filter_cmdlets_exec() -> (v: Vec<&'static str>)
    ensures
        v@ == filter_cmdlets(),
{
    let v = vec![
        "Select-String",
        "Out-String",
        "Select-Object",
        "Where-Object",
        "Sort-Object",
        "ForEach-Object",
        "Out-Null",
        "Out-Default",
        "Out-Host",
        "Tee-Object",
        "Group-Object",
        "Measure-Object",
    ];
    assert(v@ =~= filter_cmdlets());
    v
}

/// Whether `tok` spells one of `words`.
fn in_words(tok: &Vec<char>, words: &Vec<&'static str>) -> (r: bool)
    ensures
        r == lit_views(words@).contains(tok@),
{
    let mut i: usize = 0;
    while i < words.len()
        invariant
            i <= words.len(),
            forall|j: int| 0 <= j < i ==> words@[j]@ != tok@,
        decreases words.len() - i,
    {
        if eq_lit(tok, words[i]) {
            assert(lit_views(words@)[i as int] == tok@);
            return true;
        }
        i = i + 1;
    }
    assert forall|j: int| 0 <= j < lit_views(words@).len() implies lit_views(words@)[j] != tok@ by {
        assert(lit_views(words@)[j] == words@[j]@);
    }
    false
}

// ---------------------------------------------------------------------------
// Primary command classes
// ---------------------------------------------------------------------------

/// Whether a token is a flag (starts with `-`).
pub open spec fn is_flag(t: Seq<char>) -> bool {
    t.len() > 0 && t[0] == '-'
}

/// `a` and `b` with one space between them.
pub open spec fn spaced(a: Seq<char>, b: Seq<char>) -> Seq<char> {
    a + seq![' '] + b
}

/// `cmd <sub>` where `sub` must be a listed subcommand; a leading flag or an
/// unlisted subcommand is unclassifiable; no second token gives `cmd`.
pub open spec fn with_sub(cmd: Seq<char>, toks: Seq<Seq<char>>, subs: Seq<&str>) -> Option<
    Seq<char>,
> {
    if toks.len() > 1 {
        if !is_flag(toks[1]) && lit_views(subs).contains(toks[1]) {
            Some(spaced(cmd, toks[1]))
        } else {
            None
        }
    } else {
        Some(cmd)
    }
}

/// `npm <sub> [script]`: the subcommand must be listed and not a flag; the
/// script of `npm run <script>` is kept when it is not a flag.
pub open spec fn npm_class(toks: Seq<Seq<char>>) -> Option<Seq<char>> {
    if toks.len() < 2 || is_flag(toks[1]) || !lit_views(npm_subs()).contains(toks[1]) {
        None
    } else if toks[1] == "run"@ && toks.len() > 2 && !is_flag(toks[2]) {
        Some(spaced(spaced(toks[0], toks[1]), toks[2]))
    } else {
        Some(spaced(toks[0], toks[1]))
    }
}

/// `npx <tool> [sub]`: the tool must not be a flag and is kept unvalidated;
/// a listed subcommand after it is kept too.
pub open spec fn npx_class(toks: Seq<Seq<char>>) -> Option<Seq<char>> {
    if toks.len() < 2 || is_flag(toks[1]) {
        None
    } else if toks.len() > 2 && !is_flag(toks[2]) && lit_views(npx_tool_subs()).contains(
        toks[2],
    ) {
        Some(spaced(spaced(toks[0], toks[1]), toks[2]))
    } else {
        Some(spaced(toks[0], toks[1]))
    }
}

/// A token holding a shell metacharacter that could execute or nest
/// commands: `(`, `)` or a backtick.
pub open spec fn has_meta(t: Seq<char>) -> bool {
    t.contains('(') || t.contains(')') || t.contains('`')
}

/// The class of the primary (first) stage of a pipeline.
pub open spec fn primary_class(stage: Seq<char>) -> Option<Seq<char>> {
    let toks = tokenize(stage);
    if toks.len() == 0 {
        None
    } else if exists|k: int| 0 <= k < toks.len() && has_meta(#[trigger] toks[k]) {
        None
    } else {
        let cmd = toks[0];
        if cmd == "cd"@ {
            Some("cd"@)
        } else if !lit_views(safe_commands()).contains(cmd) {
            None
        } else if cmd == "cargo"@ || cmd == "rustc"@ {
            with_sub(cmd, toks, cargo_subs())
        } else if cmd == "git"@ {
            with_sub(cmd, toks, git_subs())
        } else if cmd == "npm"@ {
            npm_class(toks)
        } else if cmd == "npx"@ {
            npx_class(toks)
        } else {
            Some(cmd)
        }
    }
}

/// `a`, a space, then `b`.
fn spaced_exec(a: &Vec<char>, b: &Vec<char>) -> (r: Vec<char>)
    ensures
        r@ == spaced(a@, b@),
{
    let mut r: Vec<char> = Vec::new();
    crate::text::append_chars(&mut r, a);
    r.push(' ');
    crate::text::append_chars(&mut r, b);
    assert(r@ =~= spaced(a@, b@));
    r
}

fn is_flag_exec(t: &Vec<char>) -> (r: bool)
    ensures
        r == is_flag(t@),
{
    t.len() > 0 && t[0] == '-'
}

fn with_subcommand(cmd: &Vec<char>, toks: &Vec<Vec<char>>, subs: &Vec<&'static str>) -> (r:
    Option<Vec<char>>)
    ensures
        opt_view(r) == with_sub(cmd@, views(toks@), subs@),
{
    if toks.len() > 1 {
        let sub = &toks[1];
        if !is_flag_exec(sub) && in_words(sub, subs) {
            Some(spaced_exec(cmd, sub))
        } else {
            None
        }
    } else {
        Some(cmd.clone())
    }
}

fn npm_class_exec(toks: &Vec<Vec<char>>) -> (r: Option<Vec<char>>)
    requires
        toks.len() > 0,
    ensures
        opt_view(r) == npm_class(views(toks@)),
{
    if toks.len() < 2 || is_flag_exec(&toks[1]) {
        return None;
    }
    let subs = npm_subs_exec();
    if !in_words(&toks[1], &subs) {
        return None;
    }
    let base = spaced_exec(&toks[0], &toks[1]);
    if eq_lit(&toks[1], "run") && toks.len() > 2 && !is_flag_exec(&toks[2]) {
        return Some(spaced_exec(&base, &toks[2]));
    }
    Some(base)
}

fn npx_class_exec(toks: &Vec<Vec<char>>) -> (r: Option<Vec<char>>)
    requires
        toks.len() > 0,
    ensures
        opt_view(r) == npx_class(views(toks@)),
{
    if toks.len() < 2 || is_flag_exec(&toks[1]) {
        return None;
    }
    let base = spaced_exec(&toks[0], &toks[1]);
    if toks.len() > 2 && !is_flag_exec(&toks[2]) {
        let subs = npx_tool_subs_exec();
        if in_words(&toks[2], &subs) {
            return Some(spaced_exec(&base, &toks[2]));
        }
    }
    Some(base)
}

/// The view of an optional character vector.
pub open spec fn opt_view(o: Option<Vec<char>>) -> Option<Seq<char>> {
    match o {
        Some(v) => Some(v@),
        None => None,
    }
}

/// Classifies the primary (first) stage of a pipeline: `None` when the
/// command is unknown, has an unlisted subcommand or a leading flag where a
/// subcommand is expected, or any token holds `(`, `)` or a backtick.
pub fn classify_primary(stage: &Vec<char>) -> (r: Option<Vec<char>>)
    ensures
        opt_view(r) == primary_class(stage@),
{
    let toks = tokenize_stage(stage);
    let ghost tv = views(toks@);
    if toks.len() == 0 {
        return None;
    }
    let mut k: usize = 0;
    while k < toks.len()
        invariant
            k <= toks.len(),
            tv == views(toks@),
            tv == tokenize(stage@),
            forall|j: int| 0 <= j < k ==> !has_meta(#[trigger] tv[j]),
        decreases toks.len() - k,
    {
        let t = &toks[k];
        if has_char(t, '(') || has_char(t, ')') || has_char(t, '`') {
            assert(has_meta(tv[k as int]));
            assert(exists|j: int| 0 <= j < tv.len() && has_meta(#[trigger] tv[j]));
            return None;
        }
        k = k + 1;
    }
    let cmd = &toks[0];
    if eq_lit(cmd, "cd") {
        return Some(chars_of("cd"));
    }
    let safe = safe_commands_exec();
    if !in_words(cmd, &safe) {
        return None;
    }
    if eq_lit(cmd, "cargo") || eq_lit(cmd, "rustc") {
        let subs = cargo_subs_exec();
        with_subcommand(cmd, &toks, &subs)
    } else if eq_lit(cmd, "git") {
        let subs = git_subs_exec();
        with_subcommand(cmd, &toks, &subs)
    } else if eq_lit(cmd, "npm") {
        npm_class_exec(&toks)
    } else if eq_lit(cmd, "npx") {
        npx_class_exec(&toks)
    } else {
        Some(cmd.clone())
    }
}

/// Whether a non-first pipeline stage is a known filter cmdlet.
pub open spec fn is_filter(stage: Seq<char>) -> bool {
    let toks = tokenize(stage);
    toks.len() > 0 && lit_views(filter_cmdlets()).contains(toks[0])
}

/// Whether a pipeline stage is a known filter cmdlet (cosmetic output
/// transformation).
pub fn is_filter_stage(stage: &Vec<char>) -> (r: bool)
    ensures
        r == is_filter(stage@),
{
    let toks = tokenize_stage(stage);
    if toks.len() == 0 {
        return false;
    }
    let filters = filter_cmdlets_exec();
    in_words(&toks[0], &filters)
}

// ---------------------------------------------------------------------------
// Statements and whole commands
// ---------------------------------------------------------------------------

/// A benign output expression: a string literal, or a bare variable
/// reference with no top-level `=` (which would make it an assignment).
pub open spec fn is_benign(stmt: Seq<char>) -> bool {
    let s = trim_start(stmt);
    s.len() > 0 && (s[0] == '"' || s[0] == '\'' || (s[0] == '$' && !top_level_equals(s)))
}

/// Whether a statement is a benign output expression — skipped by the
/// classifier: it produces output but runs no command.
pub fn is_benign_expression(stmt: &Vec<char>) -> (r: bool)
    ensures
        r == is_benign(stmt@),
{
    let s = trim_start_chars(stmt);
    if s.len() == 0 {
        return false;
    }
    let c = s[0];
    if c == '"' || c == '\'' {
        true
    } else if c == '$' {
        !has_top_level_equals(&s)
    } else {
        false
    }
}

/// The class of the pipeline `stages` from stage `k` on, where `prim` is the
/// class of the first non-blank stage when one was already seen: the first
/// non-blank stage gives the class and every later non-blank stage must be
/// a filter cmdlet.
pub open spec fn stages_from(stages: Seq<Seq<char>>, k: int, prim: Option<Seq<char>>) -> Option<
    Seq<char>,
>
    decreases stages.len() - k,
{
    if k < 0 || k >= stages.len() {
        prim
    } else {
        let st = trim(stages[k]);
        if st.len() == 0 {
            stages_from(stages, k + 1, prim)
        } else {
            match prim {
                None => match primary_class(st) {
                    None => None,
                    Some(p) => stages_from(stages, k + 1, Some(p)),
                },
                Some(p) => if is_filter(st) {
                    stages_from(stages, k + 1, Some(p))
                } else {
                    None
                },
            }
        }
    }
}

/// The class of a single statement (no chaining operators at the top
/// level): `None` for a statement starting with `(`, one with no non-blank
/// stage, one whose primary is unclassifiable, or one with a non-filter
/// stage after the first.
pub open spec fn statement_class(stmt: Seq<char>) -> Option<Seq<char>> {
    if starts_with(trim_start(stmt), seq!['(']) {
        None
    } else {
        stages_from(split_pipe(stmt), 0, None)
    }
}

/// Classifies a single statement into its primary command class.
pub fn classify_statement(stmt: &Vec<char>) -> (r: Option<Vec<char>>)
    ensures
        opt_view(r) == statement_class(stmt@),
{
    let t = trim_start_chars(stmt);
    if t.len() > 0 && t[0] == '(' {
        assert(t@.take(1) =~= seq!['(']);
        return None;
    }
    assert(!starts_with(t@, seq!['('])) by {
        if t@.len() >= 1 {
            assert(t@.take(1)[0] == t@[0]);
        }
    }
    let stages = split_pipeline(stmt);
    let ghost sv = views(stages@);
    let mut prim: Option<Vec<char>> = None;
    let mut k: usize = 0;
    while k < stages.len()
        invariant
            k <= stages.len(),
            sv == views(stages@),
            sv == split_pipe(stmt@),
            stages_from(sv, k as int, opt_view(prim)) == stages_from(sv, 0, None),
        decreases stages.len() - k,
    {
        let st = trim_chars(&stages[k]);
        assert(st@ == trim(sv[k as int]));
        if st.len() > 0 {
            match prim {
                None => {
                    match classify_primary(&st) {
                        None => {
                            return None;
                        },
                        Some(p) => {
                            prim = Some(p);
                        },
                    }
                },
                Some(p) => {
                    if !is_filter_stage(&st) {
                        return None;
                    }
                    prim = Some(p);
                },
            }
        }
        k = k + 1;
    }
    prim
}

/// What a statement contributes to the class of a command.
pub enum StmtClass {
    /// Blank, or a benign output expression.
    Skip,
    /// Unclassifiable: the whole command is unclassifiable.
    Fail,
    /// A primary command class.
    Class(Seq<char>),
}

/// What the statement `stmt` contributes, once trimmed: blank and benign
/// statements are skipped; a subexpression `$(` anywhere fails.
pub open spec fn stmt_class(stmt: Seq<char>) -> StmtClass {
    let t = trim(stmt);
    if t.len() == 0 {
        StmtClass::Skip
    } else if seq_contains(t, "$("@) {
        StmtClass::Fail
    } else if is_benign(t) {
        StmtClass::Skip
    } else {
        match statement_class(t) {
            None => StmtClass::Fail,
            Some(p) => StmtClass::Class(p),
        }
    }
}

/// The classes of the statements `stmts`, in order, or `None` when one of
/// them is unclassifiable.
pub open spec fn classes_of(stmts: Seq<Seq<char>>) -> Option<Seq<Seq<char>>>
    decreases stmts.len(),
{
    if stmts.len() == 0 {
        Some(Seq::empty())
    } else {
        match classes_of(stmts.drop_last()) {
            None => None,
            Some(ps) => match stmt_class(stmts.last()) {
                StmtClass::Skip => Some(ps),
                StmtClass::Fail => None,
                StmtClass::Class(p) => Some(ps.push(p)),
            },
        }
    }
}

/// The safety class of a shell command: the classes of its statements
/// joined with `;`, or `None` when the command holds a subexpression `$(`,
/// any statement is unclassifiable, or no statement has a class.
pub open spec fn spec_classify(command: Seq<char>) -> Option<Seq<char>> {
    if seq_contains(command, "$("@) {
        None
    } else {
        match classes_of(split_stmts(strip_redirs(command))) {
            None => None,
            Some(ps) => if ps.len() == 0 {
                None
            } else {
                Some(join(ps, seq![';']))
            },
        }
    }
}

/// Once a prefix of the statements is unclassifiable, so are all of them.
pub proof fn lemma_classes_none_extends(stmts: Seq<Seq<char>>, n: int)
    requires
        0 <= n <= stmts.len(),
        classes_of(stmts.take(n)) is None,
    ensures
        classes_of(stmts) is None,
    decreases stmts.len() - n,
{
    if n < stmts.len() {
        assert(stmts.take(n + 1).drop_last() =~= stmts.take(n));
        lemma_classes_none_extends(stmts, n + 1);
    } else {
        assert(stmts.take(n) =~= stmts);
    }
}

/// The view of an optional string.
pub open spec fn opt_string_view(o: Option<String>) -> Option<Seq<char>> {
    match o {
        Some(s) => Some(s@),
        None => None,
    }
}

/// Classifies a shell command into a normalized safety class.
///
/// Returns the primaries of its statements joined with `;` (e.g.
/// `"cargo test"`, `"cd;npm run build"`, `"git diff"`), or `None` when the
/// command cannot be classified. A primary keeps the unquoted text of a
/// quoted argument, which may itself hold a `;` (`npx 'x;y'` gives
/// `"npx x;y"`), so a `;` in a class does not always separate statements.
/// A `None` result is never auto-approved.
pub fn classify(command: &str) -> (r: Option<String>)
    ensures
        opt_string_view(r) == spec_classify(command@),
{
    let cmd = chars_of(command);
    // A PowerShell subexpression `$(...)` executes arbitrary code; the raw
    // command is checked before redirections are stripped, since a redirect
    // target with no space may hide it.
    if contains_lit(&cmd, "$(") {
        return None;
    }
    let stripped = strip_redirections(&cmd);
    let stmts = split_statements(&stripped);
    let ghost sv = views(stmts@);
    let mut prims: Vec<Vec<char>> = Vec::new();
    let mut i: usize = 0;
    while i < stmts.len()
        invariant
            i <= stmts.len(),
            sv == views(stmts@),
            sv == split_stmts(strip_redirs(cmd@)),
            cmd@ == command@,
            !seq_contains(cmd@, "$("@),
            classes_of(sv.take(i as int)) == Some(views(prims@)),
        decreases stmts.len() - i,
    {
        assert(sv.take(i + 1).drop_last() =~= sv.take(i as int));
        assert(sv.take(i + 1).last() == sv[i as int]);
        let ghost before = views(prims@);
        let t = trim_chars(&stmts[i]);
        assert(t@ == trim(sv[i as int]));
        if t.len() == 0 {
            proof {
                crate::text::lemma_trim_empty(sv[i as int]);
            }
        } else if contains_lit(&t, "$(") {
            proof {
                assert(stmt_class(sv[i as int]) is Fail);
                assert(classes_of(sv.take(i + 1)) is None);
                lemma_classes_none_extends(sv, i + 1);
            }
            return None;
        } else if is_benign_expression(&t) {
        } else {
            match classify_statement(&t) {
                None => {
                    proof {
                        assert(stmt_class(sv[i as int]) is Fail);
                        assert(classes_of(sv.take(i + 1)) is None);
                        lemma_classes_none_extends(sv, i + 1);
                    }
                    return None;
                },
                Some(p) => {
                    prims.push(p);
                    assert(views(prims@) =~= before.push(p@));
                },
            }
        }
        i = i + 1;
    }
    assert(sv.take(stmts.len() as int) =~= sv);
    if prims.len() == 0 {
        return None;
    }
    let sep = vec![';'];
    assert(sep@ =~= seq![';']);
    let joined = join_chars(&prims, &sep);
    Some(string_of(&joined))
}

// ---------------------------------------------------------------------------
// Laws
// ---------------------------------------------------------------------------

/// A statement separator or pipeline pipe.
pub open spec fn is_sep(c: char) -> bool {
    c == ';' || c == '|'
}

/// The separators and pipes of `s`, in order.
pub open spec fn seps(s: Seq<char>) -> Seq<char>
    decreases s.len(),
{
    if s.len() == 0 {
        Seq::empty()
    } else {
        (if is_sep(s[0]) {
            seq![s[0]]
        } else {
            Seq::empty()
        }) + seps(s.drop_first())
    }
}

proof fn lemma_seps_add(a: Seq<char>, b: Seq<char>)
    ensures
        seps(a + b) == seps(a) + seps(b),
    decreases a.len(),
{
    if a.len() == 0 {
        assert(a + b =~= b);
        assert(seps(a) + seps(b) =~= seps(b));
    } else {
        assert((a + b).drop_first() =~= a.drop_first() + b);
        assert((a + b)[0] == a[0]);
        lemma_seps_add(a.drop_first(), b);
        let h: Seq<char> = if is_sep(a[0]) {
            seq![a[0]]
        } else {
            Seq::empty()
        };
        assert(h + (seps(a.drop_first()) + seps(b)) =~= (h + seps(a.drop_first())) + seps(b));
    }
}

proof fn lemma_seps_none(a: Seq<char>)
    requires
        forall|k: int| 0 <= k < a.len() ==> !is_sep(#[trigger] a[k]),
    ensures
        seps(a) == Seq::<char>::empty(),
    decreases a.len(),
{
    if a.len() > 0 {
        assert(!is_sep(a[0]));
        assert forall|k: int| 0 <= k < a.drop_first().len() implies !is_sep(
            #[trigger] a.drop_first()[k],
        ) by {
            assert(a.drop_first()[k] == a[k + 1]);
        }
        lemma_seps_none(a.drop_first());
        assert(Seq::<char>::empty() + Seq::<char>::empty() =~= Seq::<char>::empty());
    }
}

/// A redirection (operator and target) holds no separator and no pipe.
proof fn lemma_redirect_no_sep(s: Seq<char>, i: int)
    requires
        is_redirect_start(s, i),
    ensures
        forall|k: int| i <= k < redirect_end(s, i) ==> !is_sep(#[trigger] s[k]),
{
    let j = if is_digit(s[i]) { i + 2 } else { i + 1 };
    let m = if j < s.len() && s[j] == '>' { j + 1 } else { j };
    if m < s.len() && s[m] == '&' {
        lemma_skip_digits(s, m + 1);
    } else if m < s.len() && s[m] == '$' {
        lemma_skip_word(s, m + 1);
        assert forall|k: int| m + 1 <= k < redirect_end(s, i) implies !is_sep(#[trigger] s[k]) by {
            assert(is_word_char(s[k]));
        }
    } else {
        lemma_skip_bare(s, m);
    }
}

proof fn lemma_strip_seps(s: Seq<char>, i: int, sq: bool, dq: bool, bq: bool)
    requires
        0 <= i <= s.len(),
    ensures
        seps(strip_from(s, i, sq, dq, bq)) == seps(s.subrange(i, s.len() as int)),
    decreases s.len() - i,
{
    if i == s.len() {
        assert(s.subrange(i, s.len() as int) =~= Seq::<char>::empty());
    } else {
        let c = s[i];
        let rest = s.subrange(i + 1, s.len() as int);
        assert(s.subrange(i, s.len() as int) =~= seq![c] + rest);
        lemma_seps_add(seq![c], rest);
        if c == '\'' && !dq && !bq {
            lemma_strip_seps(s, i + 1, !sq, dq, bq);
            lemma_seps_add(seq![c], strip_from(s, i + 1, !sq, dq, bq));
        } else if c == '"' && !sq && !bq {
            lemma_strip_seps(s, i + 1, sq, !dq, bq);
            lemma_seps_add(seq![c], strip_from(s, i + 1, sq, !dq, bq));
        } else if c == '`' && !sq && !dq {
            lemma_strip_seps(s, i + 1, sq, dq, !bq);
            lemma_seps_add(seq![c], strip_from(s, i + 1, sq, dq, !bq));
        } else if !at_top(sq, dq, bq) {
            lemma_strip_seps(s, i + 1, sq, dq, bq);
            lemma_seps_add(seq![c], strip_from(s, i + 1, sq, dq, bq));
        } else if is_redirect_start(s, i) {
            let e = redirect_end(s, i);
            lemma_redirect_end(s, i);
            lemma_strip_seps(s, e, sq, dq, bq);
            lemma_redirect_no_sep(s, i);
            let span = s.subrange(i, e);
            assert forall|k: int| 0 <= k < span.len() implies !is_sep(#[trigger] span[k]) by {
                assert(span[k] == s[i + k]);
            }
            lemma_seps_none(span);
            assert(s.subrange(i, s.len() as int) =~= span + s.subrange(e, s.len() as int));
            lemma_seps_add(span, s.subrange(e, s.len() as int));
            assert(Seq::<char>::empty() + seps(s.subrange(e, s.len() as int)) =~= seps(
                s.subrange(e, s.len() as int),
            ));
        } else {
            lemma_strip_seps(s, i + 1, sq, dq, bq);
            lemma_seps_add(seq![c], strip_from(s, i + 1, sq, dq, bq));
        }
    }
}

/// Stripping redirections never removes or adds a statement separator `;`
/// or a pipe `|`: a redirect target cannot swallow a chained command
/// (`cargo test>f;rm -rf x` keeps its `;`).
pub proof fn law_strip_keeps_separators(stmt: Seq<char>)
    ensures
        seps(strip_redirs(stmt)) == seps(stmt),
{
    lemma_strip_seps(stmt, 0, false, false, false);
    assert(stmt.subrange(0, stmt.len() as int) =~= stmt);
}

/// A command holding a subexpression `$(` anywhere is never classified.
pub proof fn law_subexpression_never_classified(command: Seq<char>)
    requires
        seq_contains(command, "$("@),
    ensures
        spec_classify(command) is None,
{
}

proof fn lemma_classes_fail(stmts: Seq<Seq<char>>, k: int)
    requires
        0 <= k < stmts.len(),
        stmt_class(stmts[k]) is Fail,
    ensures
        classes_of(stmts) is None,
{
    assert(stmts.take(k + 1).drop_last() =~= stmts.take(k));
    assert(stmts.take(k + 1).last() == stmts[k]);
    assert(classes_of(stmts.take(k + 1)) is None);
    lemma_classes_none_extends(stmts, k + 1);
}

/// Chaining guard: when any statement of a command is unclassifiable, the
/// whole command is unclassifiable, whatever the other statements are
/// (`cargo test && rm -rf x` has no class).
pub proof fn law_unclassifiable_statement_poisons_command(command: Seq<char>, k: int)
    requires
        0 <= k < split_stmts(strip_redirs(command)).len(),
        stmt_class(split_stmts(strip_redirs(command))[k]) is Fail,
    ensures
        spec_classify(command) is None,
{
    lemma_classes_fail(split_stmts(strip_redirs(command)), k);
}

/// Appending a filter stage (or a blank one) to a pipeline keeps every
/// class the pipeline already had from stage `k` on.
proof fn lemma_filter_stage_keeps_class(
    stages: Seq<Seq<char>>,
    f: Seq<char>,
    k: int,
    prim: Option<Seq<char>>,
)
    requires
        0 <= k <= stages.len(),
        stages_from(stages, k, prim) is Some,
        trim(f).len() == 0 || is_filter(trim(f)),
    ensures
        stages_from(stages.push(f), k, prim) == stages_from(stages, k, prim),
    decreases stages.len() - k,
{
    let longer = stages.push(f);
    if k == stages.len() {
        assert(longer[k] == f);
        assert(stages_from(longer, k + 1, prim) == prim);
        if trim(f).len() != 0 {
            assert(stages_from(longer, k + 1, prim) == prim);
        }
    } else {
        assert(longer[k] == stages[k]);
        let st = trim(stages[k]);
        if st.len() == 0 {
            lemma_filter_stage_keeps_class(stages, f, k + 1, prim);
        } else {
            match prim {
                None => match primary_class(st) {
                    None => {},
                    Some(p) => lemma_filter_stage_keeps_class(stages, f, k + 1, Some(p)),
                },
                Some(p) => if is_filter(st) {
                    lemma_filter_stage_keeps_class(stages, f, k + 1, Some(p));
                },
            }
        }
    }
}

/// Output filtering is cosmetic: piping a classified pipeline into a filter
/// cmdlet (`... | Select-String x`) leaves its class unchanged.
pub proof fn law_filter_stage_keeps_class(stages: Seq<Seq<char>>, f: Seq<char>)
    requires
        stages_from(stages, 0, None) is Some,
        is_filter(trim(f)),
    ensures
        stages_from(stages.push(f), 0, None) == stages_from(stages, 0, None),
{
    lemma_filter_stage_keeps_class(stages, f, 0, None);
}

/// A `git` primary is classified only as `git` alone or as `git` followed
/// by a listed subcommand: a second token that is a flag or a word outside
/// the list (an operation the classifier does not know) leaves the stage
/// without a class, so such a command always prompts.
pub proof fn law_git_class_is_a_listed_subcommand(stage: Seq<char>)
    requires
        tokenize(stage).len() > 0,
        tokenize(stage)[0] == "git"@,
    ensures
        primary_class(stage) matches Some(c) ==> (tokenize(stage).len() == 1 && c == "git"@) || (
        tokenize(stage).len() > 1 && !is_flag(tokenize(stage)[1]) && lit_views(git_subs()).contains(
            tokenize(stage)[1],
        ) && c == "git"@ + seq![' '] + tokenize(stage)[1]),
        tokenize(stage).len() > 1 && !lit_views(git_subs()).contains(tokenize(stage)[1])
            ==> primary_class(stage) is None,
{
    reveal_strlit("git");
    reveal_strlit("cd");
    reveal_strlit("cargo");
    reveal_strlit("rustc");
}

/// `git push` is never classified (pushing is not a listed subcommand),
/// whatever its arguments: a command that pushes always prompts.
pub proof fn law_git_push_is_never_classified(stage: Seq<char>)
    requires
        tokenize(stage).len() > 1,
        tokenize(stage)[0] == "git"@,
        tokenize(stage)[1] == "push"@,
    ensures
        primary_class(stage) is None,
{
    reveal_strlit("push");
    reveal_strlit("diff");
    reveal_strlit("log");
    reveal_strlit("status");
    reveal_strlit("branch");
    reveal_strlit("stash");
    reveal_strlit("fetch");
    reveal_strlit("pull");
    reveal_strlit("show");
    reveal_strlit("tag");
    reveal_strlit("add");
    reveal_strlit("rm");
    reveal_strlit("commit");
    reveal_strlit("merge");
    reveal_strlit("rebase");
    reveal_strlit("switch");
    reveal_strlit("checkout");
    reveal_strlit("restore");
    reveal_strlit("reset");
    let subs = lit_views(git_subs());
    assert(subs =~= seq!["diff"@, "log"@, "status"@, "branch"@, "stash"@, "fetch"@, "pull"@, "show"@, "tag"@, "add"@, "rm"@, "commit"@, "merge"@, "rebase"@, "switch"@, "checkout"@, "restore"@, "reset"@]);
    assert forall|i: int| 0 <= i < subs.len() implies subs[i] != "push"@ by {
        if i == 0 {
            assert(subs[i] == "diff"@);
            assert(subs[i][0] != "push"@[0]);
        } else if i == 1 {
            assert(subs[i] == "log"@);
            assert(subs[i].len() != "push"@.len());
        } else if i == 2 {
            assert(subs[i] == "status"@);
            assert(subs[i].len() != "push"@.len());
        } else if i == 3 {
            assert(subs[i] == "branch"@);
            assert(subs[i].len() != "push"@.len());
        } else if i == 4 {
            assert(subs[i] == "stash"@);
            assert(subs[i].len() != "push"@.len());
        } else if i == 5 {
            assert(subs[i] == "fetch"@);
            assert(subs[i].len() != "push"@.len());
        } else if i == 6 {
            assert(subs[i] == "pull"@);
            assert(subs[i][2] != "push"@[2]);
        } else if i == 7 {
            assert(subs[i] == "show"@);
            assert(subs[i][0] != "push"@[0]);
        } else if i == 8 {
            assert(subs[i] == "tag"@);
            assert(subs[i].len() != "push"@.len());
        } else if i == 9 {
            assert(subs[i] == "add"@);
            assert(subs[i].len() != "push"@.len());
        } else if i == 10 {
            assert(subs[i] == "rm"@);
            assert(subs[i].len() != "push"@.len());
        } else if i == 11 {
            assert(subs[i] == "commit"@);
            assert(subs[i].len() != "push"@.len());
        } else if i == 12 {
            assert(subs[i] == "merge"@);
            assert(subs[i].len() != "push"@.len());
        } else if i == 13 {
            assert(subs[i] == "rebase"@);
            assert(subs[i].len() != "push"@.len());
        } else if i == 14 {
            assert(subs[i] == "switch"@);
            assert(subs[i].len() != "push"@.len());
        } else if i == 15 {
            assert(subs[i] == "checkout"@);
            assert(subs[i].len() != "push"@.len());
        } else if i == 16 {
            assert(subs[i] == "restore"@);
            assert(subs[i].len() != "push"@.len());
        } else if i == 17 {
            assert(subs[i] == "reset"@);
            assert(subs[i].len() != "push"@.len());
        }
    }
    assert(!subs.contains("push"@));
    law_git_class_is_a_listed_subcommand(stage);
}

} // verus!
