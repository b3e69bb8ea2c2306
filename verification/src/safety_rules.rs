//! Safety rules — auto-approval of tool calls by saved rules.
//!
//! A rule has a `tool` name and a `pattern`. For `Literal` rules the pattern
//! is a regex matched against the tool call's **signature**, the string
//! `"<tool>:<key_argument>"`; for `CommandClass` rules (shell only) the
//! pattern is a normalized safety class compared with the
//! [`classify`]-ed command. [`SafetyRules`] holds the current rule set and
//! decides whether a call is auto-approved; reading and writing the rules
//! file is the application shell's business.

pub mod cmd_class;

pub use cmd_class::classify;

use vstd::prelude::*;

use crate::safety_rules::cmd_class::{opt_string_view, spec_classify};
use crate::text::{append_chars, chars_eq, chars_of, eq_lit, push_str, string_of};

verus! {

// ---------------------------------------------------------------------------
// Regular expressions (the `regex` crate)
// ---------------------------------------------------------------------------

/// A regex metacharacter (`regex_syntax::is_meta_character`).
pub open spec fn is_meta(c: char) -> bool {
    c == '\\' || c == '.' || c == '+' || c == '*' || c == '?' || c == '(' || c == ')' || c == '|'
        || c == '[' || c == ']' || c == '{' || c == '}' || c == '^' || c == '$' || c == '#' || c
        == '&' || c == '-' || c == '~'
}

/// `regex::escape`: every metacharacter prefixed with a backslash.
pub open spec fn escape_spec(s: Seq<char>) -> Seq<char>
    decreases s.len(),
{
    if s.len() == 0 {
        Seq::empty()
    } else {
        (if is_meta(s[0]) {
            seq!['\\', s[0]]
        } else {
            seq![s[0]]
        }) + escape_spec(s.drop_first())
    }
}

/// The pattern that matches exactly the text `lit`: `^<escaped lit>$`.
pub open spec fn anchored_literal(lit: Seq<char>) -> Seq<char> {
    seq!['^'] + escape_spec(lit) + seq!['$']
}

/// The pattern that matches every text starting with `lit:`:
/// `^<escaped lit>:`.
pub open spec fn anchored_prefix(lit: Seq<char>) -> Seq<char> {
    seq!['^'] + escape_spec(lit) + seq![':']
}

/// Whether `Regex::new` accepts the pattern.
pub uninterp spec fn regex_compiles(pattern: Seq<char>) -> bool;

/// The result of `Regex::is_match` for a compiled pattern and a haystack.
pub uninterp spec fn regex_matches(pattern: Seq<char>, text: Seq<char>) -> bool;

/// What a compiled `pattern` accepts: an anchored escaped literal accepts
/// exactly its literal, an anchored escaped prefix accepts the texts that
/// start with it, and any other pattern is left to [`regex_matches`].
pub open spec fn regex_accepts(pattern: Seq<char>, text: Seq<char>) -> bool {
    if exists|lit: Seq<char>| pattern == anchored_literal(lit) {
        exists|lit: Seq<char>| pattern == anchored_literal(lit) && text == lit
    } else if exists|lit: Seq<char>| pattern == anchored_prefix(lit) {
        exists|lit: Seq<char>|
            pattern == anchored_prefix(lit) && crate::text::starts_with(text, lit.push(':'))
    } else {
        regex_matches(pattern, text)
    }
}

/// Calls `regex::escape`, which prefixes every regex metacharacter
/// (`regex_syntax::is_meta_character`) with a backslash so that the result
/// matches the text literally.
#[verifier::external_body]
fn regex_escape(text: &str) -> (r: String)
    ensures
        r@ == escape_spec(text@),
{
    regex::escape(text)
}

/// Calls `Regex::new` and reports its error text, if any. The contract names
/// acceptance [`regex_compiles`]; which patterns compile is the regex
/// crate's syntax (and size limits) and is not stated.
#[verifier::external_body]
fn regex_compile_error(pattern: &str) -> (r: Option<String>)
    ensures
        r is None == regex_compiles(pattern@),
{
    match regex::Regex::new(pattern) {
        Ok(_) => None,
        Err(e) => Some(e.to_string()),
    }
}

/// Compiles `pattern` with `Regex::new` and calls `Regex::is_match` on
/// `text`; an uncompilable pattern matches nothing. The contract states the
/// documented meaning of `^` (start of haystack), `$` (end of haystack) and
/// of escaped literals for the two anchored shapes the rules generate, and
/// names the result [`regex_matches`] for every other pattern.
#[verifier::external_body]
fn regex_is_match(pattern: &str, text: &str) -> (b: bool)
    ensures
        b == (regex_compiles(pattern@) && regex_accepts(pattern@, text@)),
        !(exists|lit: Seq<char>| pattern@ == anchored_literal(lit)) && !(exists|lit: Seq<char>|
            pattern@ == anchored_prefix(lit)) ==> b == (regex_compiles(pattern@) && regex_matches(
            pattern@,
            text@,
        )),
{
    match regex::Regex::new(pattern) {
        Ok(re) => re.is_match(text),
        Err(_) => false,
    }
}

// ---------------------------------------------------------------------------
// Rules
// ---------------------------------------------------------------------------

/// The kind of a safety rule — how its `pattern` is interpreted.
///
/// - `Literal` (the default): `pattern` is a regex matched against the tool
///   call's full signature (`"<tool>:<key_argument>"`).
/// - `CommandClass` (shell only): `pattern` is a normalized safety class; a
///   shell call is approved when classifying its command yields the same
///   class.
#[derive(Debug, Clone, Copy, PartialEq, Eq, Structural)]
pub enum RuleKind {
    Literal,
    CommandClass,
}

impl Default for RuleKind {
    fn default() -> (r: Self)
        ensures
            r == RuleKind::Literal,
    {
        RuleKind::Literal
    }
}

impl RuleKind {
    /// Whether this kind is the default `Literal` (a literal rule is stored
    /// without a `kind` field).
    pub fn is_literal(&self) -> (r: bool)
        ensures
            r == (*self == RuleKind::Literal),
    {
        match self {
            RuleKind::Literal => true,
            RuleKind::CommandClass => false,
        }
    }
}

/// Why a rule could not be made.
#[derive(Debug, Clone, PartialEq, Eq)]
pub enum SafetyError {
    /// A literal rule's pattern is not a valid regex.
    InvalidRegex { pattern: String, reason: String },
    /// Command-class rules apply only to the `shell` tool.
    NotShell,
    /// The command has no safety class (chained, unknown or unparseable).
    Unclassifiable,
}

impl SafetyError {
    /// The error message.
    pub fn message(&self) -> (r: String)
        ensures
            match self {
                SafetyError::InvalidRegex { pattern, reason } => r@ == "invalid regex '"@
                    + pattern@ + "': "@ + reason@,
                SafetyError::NotShell => r@ == "command-class rules only apply to the shell tool"@,
                SafetyError::Unclassifiable => r@
                    == "command cannot be classified as safe (chained, unknown, or unparseable)"@,
            },
    {
        let mut v: Vec<char> = Vec::new();
        match self {
            SafetyError::InvalidRegex { pattern, reason } => {
                push_str(&mut v, "invalid regex '");
                push_str(&mut v, pattern.as_str());
                push_str(&mut v, "': ");
                push_str(&mut v, reason.as_str());
            },
            SafetyError::NotShell => {
                push_str(&mut v, "command-class rules only apply to the shell tool");
            },
            SafetyError::Unclassifiable => {
                push_str(
                    &mut v,
                    "command cannot be classified as safe (chained, unknown, or unparseable)",
                );
            },
        }
        string_of(&v)
    }
}

/// A single safety rule: a tool name, a pattern, and how to interpret it.
#[derive(Debug, Clone)]
pub struct Rule {
    /// The tool name this rule applies to (e.g. `"file_write"`).
    pub tool: String,
    /// The regex (source text) of a `Literal` rule, or the normalized safety
    /// class of a `CommandClass` rule.
    pub pattern: String,
    /// How `pattern` is interpreted.
    pub kind: RuleKind,
}

/// The abstract content of a [`Rule`].
pub struct RuleView {
    pub tool: Seq<char>,
    pub pattern: Seq<char>,
    pub kind: RuleKind,
}

impl View for Rule {
    type V = RuleView;

    open spec fn view(&self) -> RuleView {
        RuleView { tool: self.tool@, pattern: self.pattern@, kind: self.kind }
    }
}

/// Whether `r` is a rule that could have been made: a literal rule's
/// pattern compiles.
pub open spec fn rule_valid(r: RuleView) -> bool {
    r.kind == RuleKind::Literal ==> regex_compiles(r.pattern)
}

/// Whether the rule `r` approves a call of `tool` with signature `sig` and
/// key argument `key`: the tools agree, and a literal rule's regex matches
/// the signature, or a command-class rule (shell only) has the class of the
/// command.
pub open spec fn approves(r: RuleView, tool: Seq<char>, sig: Seq<char>, key: Seq<char>) -> bool {
    &&& r.tool == tool
    &&& match r.kind {
        RuleKind::Literal => regex_compiles(r.pattern) && regex_accepts(r.pattern, sig),
        RuleKind::CommandClass => tool == "shell"@ && spec_classify(key) == Some(r.pattern),
    }
}

impl Rule {
    /// Create a `Literal` rule from a tool name and a regex pattern; an
    /// error when the pattern is not a valid regex.
    pub fn new(tool: &str, pattern: &str) -> (r: Result<Rule, SafetyError>)
        ensures
            match r {
                Ok(rule) => regex_compiles(pattern@) && rule.tool@ == tool@ && rule.pattern@
                    == pattern@ && rule.kind == RuleKind::Literal,
                Err(e) => !regex_compiles(pattern@) && (match e {
                    SafetyError::InvalidRegex { pattern: p, .. } => p@ == pattern@,
                    _ => false,
                }),
            },
    {
        match regex_compile_error(pattern) {
            None => Ok(
                Rule {
                    tool: tool.to_owned(),
                    pattern: pattern.to_owned(),
                    kind: RuleKind::Literal,
                },
            ),
            Some(reason) => Err(SafetyError::InvalidRegex { pattern: pattern.to_owned(), reason }),
        }
    }

    /// Create a `CommandClass` rule with the given safety class. No regex is
    /// involved: class rules match by string equality.
    pub fn new_class(tool: &str, class: &str) -> (r: Rule)
        ensures
            r.tool@ == tool@,
            r.pattern@ == class@,
            r.kind == RuleKind::CommandClass,
    {
        Rule { tool: tool.to_owned(), pattern: class.to_owned(), kind: RuleKind::CommandClass }
    }

    /// Whether this rule's regex matches the given signature. A
    /// `CommandClass` rule never matches a signature (its class is
    /// compared by the caller).
    pub fn matches(&self, signature: &str) -> (b: bool)
        ensures
            b == (self.kind == RuleKind::Literal && regex_compiles(self.pattern@) && regex_accepts(
                self.pattern@,
                signature@,
            )),
    {
        match self.kind {
            RuleKind::Literal => regex_is_match(self.pattern.as_str(), signature),
            RuleKind::CommandClass => false,
        }
    }
}

/// A `[[rule]]` entry of the rules file, as parsed.
#[derive(Debug, Clone)]
pub struct RuleEntry {
    pub tool: String,
    pub pattern: String,
    pub kind: RuleKind,
}

// ---------------------------------------------------------------------------
// Tool-call arguments and signatures
// ---------------------------------------------------------------------------

/// The string-valued arguments of a tool call, in order. An argument that
/// is absent or not a string reads as absent.
#[derive(Debug, Clone)]
pub struct ToolArgs {
    pub fields: Vec<(String, String)>,
}

/// The value of the first field named `key`, if any.
pub open spec fn arg_value(fields: Seq<(String, String)>, key: Seq<char>) -> Option<Seq<char>>
    decreases fields.len(),
{
    if fields.len() == 0 {
        None
    } else if fields[0].0@ == key {
        Some(fields[0].1@)
    } else {
        arg_value(fields.drop_first(), key)
    }
}

impl ToolArgs {
    /// No arguments.
    pub fn new() -> (r: Self)
        ensures
            r.fields@.len() == 0,
    {
        ToolArgs { fields: Vec::new() }
    }

    /// These arguments with `key` set to `value` (appended).
    pub fn with(self, key: &str, value: &str) -> (r: Self)
        ensures
            r.fields@.len() == self.fields@.len() + 1,
            forall|i: int| 0 <= i < self.fields@.len() ==> r.fields@[i] == self.fields@[i],
            r.fields@.last().0@ == key@,
            r.fields@.last().1@ == value@,
    {
        let mut fields = self.fields;
        fields.push((key.to_owned(), value.to_owned()));
        ToolArgs { fields }
    }

    /// The value of the argument `key`, if present.
    pub fn get(&self, key: &str) -> (r: Option<String>)
        ensures
            opt_string_view(r) == arg_value(self.fields@, key@),
    {
        let k = chars_of(key);
        let mut i: usize = 0;
        assert(self.fields@.subrange(0, self.fields@.len() as int) =~= self.fields@);
        while i < self.fields.len()
            invariant
                i <= self.fields@.len(),
                k@ == key@,
                arg_value(self.fields@.subrange(i as int, self.fields@.len() as int), key@)
                    == arg_value(self.fields@, key@),
            decreases self.fields.len() - i,
        {
            let ghost rest = self.fields@.subrange(i as int, self.fields@.len() as int);
            assert(rest[0] == self.fields@[i as int]);
            assert(rest.drop_first() =~= self.fields@.subrange(i + 1, self.fields@.len() as int));
            let name = chars_of(self.fields[i].0.as_str());
            if chars_eq(&name, &k) {
                return Some(self.fields[i].1.clone());
            }
            i = i + 1;
        }
        assert(self.fields@.subrange(i as int, self.fields@.len() as int).len() == 0);
        None
    }
}

/// Git actions of the `branch` subcommand.
pub open spec fn branch_actions() -> Seq<&'static str> {
    seq!["create", "delete", "rename"]
}

/// Git actions of the `stash` subcommand.
pub open spec fn stash_actions() -> Seq<&'static str> {
    seq!["push", "pop", "apply", "drop"]
}

/// The canonical git subcommand of a git tool call: the `subcommand`
/// argument, else the `action` argument; a branch action names `branch` and
/// a stash action names `stash`.
pub open spec fn git_subcommand(fields: Seq<(String, String)>) -> Option<Seq<char>> {
    let raw = match arg_value(fields, "subcommand"@) {
        Some(v) => Some(v),
        None => arg_value(fields, "action"@),
    };
    match raw {
        None => None,
        Some(v) => if cmd_class::lit_views(branch_actions()).contains(v) {
            Some("branch"@)
        } else if cmd_class::lit_views(stash_actions()).contains(v) {
            Some("stash"@)
        } else {
            Some(v)
        },
    }
}

/// The tools whose key argument is `path`.
pub open spec fn path_tools() -> Seq<&'static str> {
    seq!["file_read", "file_write", "file_edit", "file_append", "convert_line_endings"]
}

/// The most identifying argument of a tool call: `path` for the file tools,
/// `command` for `shell`, the resolved subcommand for `git`, `pattern` for
/// `search`/`search_read`, and empty for any other tool (or a missing
/// argument).
pub open spec fn key_arg(tool: Seq<char>, fields: Seq<(String, String)>) -> Seq<char> {
    let v = if cmd_class::lit_views(path_tools()).contains(tool) {
        arg_value(fields, "path"@)
    } else if tool == "shell"@ {
        arg_value(fields, "command"@)
    } else if tool == "git"@ {
        git_subcommand(fields)
    } else if tool == "search"@ || tool == "search_read"@ {
        arg_value(fields, "pattern"@)
    } else {
        None
    };
    match v {
        Some(s) => s,
        None => Seq::empty(),
    }
}

/// A tool call's signature: `"<tool>:<key_argument>"`.
pub open spec fn signature_of(tool: Seq<char>, fields: Seq<(String, String)>) -> Seq<char> {
    tool + seq![':'] + key_arg(tool, fields)
}

fn in_list(tok: &Vec<char>, words: &Vec<&'static str>) -> (r: bool)
    ensures
        r == cmd_class::lit_views(words@).contains(tok@),
{
    let mut i: usize = 0;
    while i < words.len()
        invariant
            i <= words.len(),
            forall|j: int| 0 <= j < i ==> words@[j]@ != tok@,
        decreases words.len() - i,
    {
        if eq_lit(tok, words[i]) {
            assert(cmd_class::lit_views(words@)[i as int] == tok@);
            return true;
        }
        i = i + 1;
    }
    assert forall|j: int| 0 <= j < cmd_class::lit_views(words@).len() implies cmd_class::lit_views(
        words@,
    )[j] != tok@ by {
        assert(cmd_class::lit_views(words@)[j] == words@[j]@);
    }
    false
}

/// Resolves the canonical git subcommand of a git tool call.
pub fn resolve_git_subcommand(args: &ToolArgs) -> (r: Option<String>)
    ensures
        opt_string_view(r) == git_subcommand(args.fields@),
{
    let raw = match args.get("subcommand") {
        Some(v) => Some(v),
        None => args.get("action"),
    };
    match raw {
        None => None,
        Some(v) => {
            let cv = chars_of(v.as_str());
            let branch = vec!["create", "delete", "rename"];
            assert(branch@ =~= branch_actions());
            let stash = vec!["push", "pop", "apply", "drop"];
            assert(stash@ =~= stash_actions());
            if in_list(&cv, &branch) {
                Some("branch".to_owned())
            } else if in_list(&cv, &stash) {
                Some("stash".to_owned())
            } else {
                Some(v)
            }
        },
    }
}

/// Extracts the most identifying argument value from a tool call.
pub fn key_argument(tool: &str, args: &ToolArgs) -> (r: String)
    ensures
        r@ == key_arg(tool@, args.fields@),
{
    let t = chars_of(tool);
    let paths = vec!["file_read", "file_write", "file_edit", "file_append", "convert_line_endings"];
    assert(paths@ =~= path_tools());
    let v = if in_list(&t, &paths) {
        args.get("path")
    } else if eq_lit(&t, "shell") {
        args.get("command")
    } else if eq_lit(&t, "git") {
        resolve_git_subcommand(args)
    } else if eq_lit(&t, "search") || eq_lit(&t, "search_read") {
        args.get("pattern")
    } else {
        None
    };
    match v {
        Some(s) => s,
        None => String::new(),
    }
}

// ---------------------------------------------------------------------------
// The rule set
// ---------------------------------------------------------------------------

/// The current safety rules, deciding which tool calls are auto-approved.
#[derive(Debug)]
pub struct SafetyRules {
    cached: Vec<Rule>,
}

impl SafetyRules {
    /// Every rule could have been made: literal patterns compile.
    #[verifier::type_invariant]
    spec fn all_valid(self) -> bool {
        forall|i: int| 0 <= i < self.cached@.len() ==> rule_valid(#[trigger] self.cached@[i]@)
    }

    /// The rules, in order.
    pub closed spec fn view_rules(self) -> Seq<RuleView> {
        self.cached@.map_values(|r: Rule| r@)
    }

    /// Whether some rule approves a call of `tool` with arguments `fields`.
    pub open spec fn approves_call(self, tool: Seq<char>, fields: Seq<(String, String)>) -> bool {
        exists|i: int|
            0 <= i < self.view_rules().len() && approves(
                #[trigger] self.view_rules()[i],
                tool,
                signature_of(tool, fields),
                key_arg(tool, fields),
            )
    }

    /// No rules.
    pub fn new() -> (r: Self)
        ensures
            r.view_rules().len() == 0,
    {
        SafetyRules { cached: Vec::new() }
    }

    /// The rules of the parsed `entries`: command-class entries are always
    /// kept; a literal entry is kept only when its pattern is a valid regex,
    /// and otherwise reported, in order, as an invalid-regex error (best
    /// effort: one bad pattern does not drop the others).
    pub fn from_entries(entries: Vec<RuleEntry>) -> (r: (Self, Vec<SafetyError>))
        ensures
            r.0.view_rules() == kept_rules(entries@),
            r.1@.map_values(|e: SafetyError| invalid_pattern(e)) == rejected_patterns(
                entries@,
            ).map_values(|p: Seq<char>| Some(p)),
    {
        let mut cached: Vec<Rule> = Vec::new();
        let mut errors: Vec<SafetyError> = Vec::new();
        let mut i: usize = 0;
        while i < entries.len()
            invariant
                i <= entries.len(),
                cached@.map_values(|r: Rule| r@) == kept_rules(entries@.take(i as int)),
                forall|k: int| 0 <= k < cached@.len() ==> rule_valid(#[trigger] cached@[k]@),
                errors@.map_values(|e: SafetyError| invalid_pattern(e)) == rejected_patterns(
                    entries@.take(i as int),
                ).map_values(|p: Seq<char>| Some(p)),
            decreases entries.len() - i,
        {
            assert(entries@.take(i + 1).drop_last() =~= entries@.take(i as int));
            let e = &entries[i];
            let ghost before = errors@;
            assert(entries@.take(i + 1).last() == entries@[i as int]);
            match e.kind {
                RuleKind::CommandClass => {
                    cached.push(Rule::new_class(e.tool.as_str(), e.pattern.as_str()));
                },
                RuleKind::Literal => {
                    match Rule::new(e.tool.as_str(), e.pattern.as_str()) {
                        Ok(rule) => cached.push(rule),
                        Err(err) => {
                            assert(invalid_pattern(err) == Some(e.pattern@));
                            errors.push(err);
                            assert(errors@.map_values(|x: SafetyError| invalid_pattern(x))
                                =~= before.map_values(|x: SafetyError| invalid_pattern(x)).push(
                                Some(e.pattern@),
                            ));
                        },
                    }
                },
            }
            i = i + 1;
            assert(cached@.map_values(|r: Rule| r@) =~= kept_rules(entries@.take(i as int)));
            assert(errors@.map_values(|e: SafetyError| invalid_pattern(e)) =~= rejected_patterns(
                entries@.take(i as int),
            ).map_values(|p: Seq<char>| Some(p)));
        }
        assert(entries@.take(entries.len() as int) =~= entries@);
        (SafetyRules { cached }, errors)
    }

    /// The rules as entries of the rules file.
    pub fn to_entries(&self) -> (r: Vec<RuleEntry>)
        ensures
            r@.len() == self.view_rules().len(),
            forall|i: int|
                0 <= i < r@.len() ==> (#[trigger] r@[i]).tool@ == self.view_rules()[i].tool
                    && r@[i].pattern@ == self.view_rules()[i].pattern && r@[i].kind
                    == self.view_rules()[i].kind,
    {
        let mut out: Vec<RuleEntry> = Vec::new();
        let mut i: usize = 0;
        while i < self.cached.len()
            invariant
                i <= self.cached@.len(),
                out@.len() == i,
                forall|k: int|
                    0 <= k < i ==> (#[trigger] out@[k]).tool@ == self.cached@[k].tool@
                        && out@[k].pattern@ == self.cached@[k].pattern@ && out@[k].kind
                        == self.cached@[k].kind,
            decreases self.cached.len() - i,
        {
            let r = &self.cached[i];
            out.push(
                RuleEntry {
                    tool: r.tool.as_str().to_owned(),
                    pattern: r.pattern.as_str().to_owned(),
                    kind: r.kind,
                },
            );
            i = i + 1;
        }
        out
    }

    /// The current rules.
    pub fn rules(&self) -> (r: &Vec<Rule>)
        ensures
            r@.map_values(|x: Rule| x@) == self.view_rules(),
    {
        &self.cached
    }

    /// Compute a tool call's signature: `"<tool>:<key_argument>"`.
    pub fn signature(tool: &str, args: &ToolArgs) -> (r: String)
        ensures
            r@ == signature_of(tool@, args.fields@),
    {
        let mut v = chars_of(tool);
        v.push(':');
        let key = key_argument(tool, args);
        let kv = chars_of(key.as_str());
        append_chars(&mut v, &kv);
        assert(v@ =~= signature_of(tool@, args.fields@));
        string_of(&v)
    }

    /// Whether a tool call is auto-approved by any rule. For each rule of
    /// the call's tool: a `Literal` rule tests its regex against the call's
    /// signature; a `CommandClass` rule (shell only) classifies the command
    /// and compares the class with its pattern — a command without a class
    /// is never approved.
    pub fn is_safe(&self, tool: &str, args: &ToolArgs) -> (r: bool)
        ensures
            r == self.approves_call(tool@, args.fields@),
    {
        let sig = SafetyRules::signature(tool, args);
        let key = key_argument(tool, args);
        let t = chars_of(tool);
        let is_shell = eq_lit(&t, "shell");
        let mut class: Option<Option<String>> = None;
        let mut i: usize = 0;
        while i < self.cached.len()
            invariant
                i <= self.cached@.len(),
                sig@ == signature_of(tool@, args.fields@),
                key@ == key_arg(tool@, args.fields@),
                t@ == tool@,
                is_shell == (tool@ == "shell"@),
                class matches Some(c) ==> opt_string_view(c) == spec_classify(key@),
                forall|k: int|
                    0 <= k < i ==> !approves(
                        #[trigger] self.view_rules()[k],
                        tool@,
                        sig@,
                        key@,
                    ),
            decreases self.cached.len() - i,
        {
            let r = &self.cached[i];
            let rt = chars_of(r.tool.as_str());
            if chars_eq(&rt, &t) {
                let hit = match r.kind {
                    RuleKind::Literal => r.matches(sig.as_str()),
                    RuleKind::CommandClass => {
                        if is_shell {
                            if class.is_none() {
                                class = Some(classify(key.as_str()));
                            }
                            match &class {
                                Some(Some(c)) => {
                                    let cc = chars_of(c.as_str());
                                    let pc = chars_of(r.pattern.as_str());
                                    chars_eq(&cc, &pc)
                                },
                                _ => false,
                            }
                        } else {
                            false
                        }
                    },
                };
                if hit {
                    assert(approves(self.view_rules()[i as int], tool@, sig@, key@));
                    return true;
                }
            }
            i = i + 1;
        }
        false
    }

    /// Whether a rule of `tool` with pattern `pattern` exists (of any
    /// kind, or of `CommandClass` kind when `class_only`).
    fn has_rule(&self, tool: &Vec<char>, pattern: &Vec<char>, class_only: bool) -> (r: bool)
        ensures
            r == exists|i: int|
                0 <= i < self.view_rules().len() && (#[trigger] self.view_rules()[i]).tool
                    == tool@ && self.view_rules()[i].pattern == pattern@ && (class_only
                    ==> self.view_rules()[i].kind == RuleKind::CommandClass),
    {
        let mut i: usize = 0;
        while i < self.cached.len()
            invariant
                i <= self.cached@.len(),
                forall|k: int|
                    0 <= k < i ==> !((#[trigger] self.view_rules()[k]).tool == tool@
                        && self.view_rules()[k].pattern == pattern@ && (class_only
                        ==> self.view_rules()[k].kind == RuleKind::CommandClass)),
            decreases self.cached.len() - i,
        {
            let r = &self.cached[i];
            let rt = chars_of(r.tool.as_str());
            let rp = chars_of(r.pattern.as_str());
            if chars_eq(&rt, tool) && chars_eq(&rp, pattern) && (!class_only || r.kind
                == RuleKind::CommandClass) {
                assert(self.view_rules()[i as int].tool == tool@);
                return true;
            }
            i = i + 1;
        }
        false
    }

    /// Adds `rule` at the end.
    fn push_rule(&mut self, rule: Rule)
        requires
            rule_valid(rule@),
        ensures
            final(self).view_rules() == old(self).view_rules().push(rule@),
    {
        proof {
            use_type_invariant(&*self);
        }
        let mut cached: Vec<Rule> = Vec::new();
        std::mem::swap(&mut cached, &mut self.cached);
        let ghost old_rules = cached@;
        cached.push(rule);
        assert(cached@.map_values(|r: Rule| r@) =~= old_rules.map_values(|r: Rule| r@).push(rule@));
        self.cached = cached;
    }

    /// Add a literal rule for the given tool call: the pattern is the
    /// call's signature, escaped and anchored (`^<escaped signature>$`). If
    /// a rule of that tool with that pattern already exists this is a
    /// no-op. Returns the pattern.
    pub fn add_rule(&mut self, tool: &str, args: &ToolArgs) -> (r: Result<String, SafetyError>)
        ensures
            match r {
                Ok(p) => {
                    &&& p@ == anchored_literal(signature_of(tool@, args.fields@))
                    &&& (exists|i: int|
                        0 <= i < old(self).view_rules().len() && (#[trigger] old(self).view_rules()[i]).tool == tool@ && old(self).view_rules()[i].pattern
                            == p@) ==> final(self).view_rules() == old(self).view_rules()
                    &&& !(exists|i: int|
                        0 <= i < old(self).view_rules().len() && (#[trigger] old(self).view_rules()[i]).tool == tool@ && old(self).view_rules()[i].pattern
                            == p@) ==> final(self).view_rules().len() == old(self).view_rules().len() + 1 && final(self).view_rules().drop_last() == old(self).view_rules() && final(self).view_rules().last().tool == tool@
                        && final(self).view_rules().last().pattern == p@ && final(self).view_rules().last().kind == RuleKind::Literal
                },
                Err(e) => final(self).view_rules() == old(self).view_rules() && !regex_compiles(
                    anchored_literal(signature_of(tool@, args.fields@)),
                ),
            },
            r matches Ok(p) ==> final(self).view_rules() == with_literal_rule(
                old(self).view_rules(),
                tool@,
                p@,
            ),
    {
        let sig = SafetyRules::signature(tool, args);
        let esc = regex_escape(sig.as_str());
        let mut pv: Vec<char> = Vec::new();
        pv.push('^');
        let ev = chars_of(esc.as_str());
        append_chars(&mut pv, &ev);
        pv.push('$');
        assert(pv@ =~= anchored_literal(signature_of(tool@, args.fields@)));
        let pattern = string_of(&pv);
        let t = chars_of(tool);
        if self.has_rule(&t, &pv, false) {
            return Ok(pattern);
        }
        let rule = Rule::new(tool, pattern.as_str())?;
        self.push_rule(rule);
        Ok(pattern)
    }

    /// Add a broad rule approving **any** call of `tool`: the pattern is
    /// the signature prefix `^<escaped tool>:`. If a rule of that tool with
    /// that pattern already exists this is a no-op. Returns the pattern.
    pub fn add_rule_broad(&mut self, tool: &str) -> (r: Result<String, SafetyError>)
        ensures
            match r {
                Ok(p) => {
                    &&& p@ == anchored_prefix(tool@)
                    &&& (exists|i: int|
                        0 <= i < old(self).view_rules().len() && (#[trigger] old(self).view_rules()[i]).tool == tool@ && old(self).view_rules()[i].pattern
                            == p@) ==> final(self).view_rules() == old(self).view_rules()
                    &&& !(exists|i: int|
                        0 <= i < old(self).view_rules().len() && (#[trigger] old(self).view_rules()[i]).tool == tool@ && old(self).view_rules()[i].pattern
                            == p@) ==> final(self).view_rules().len() == old(self).view_rules().len() + 1 && final(self).view_rules().drop_last() == old(self).view_rules() && final(self).view_rules().last().tool == tool@
                        && final(self).view_rules().last().pattern == p@ && final(self).view_rules().last().kind == RuleKind::Literal
                },
                Err(e) => final(self).view_rules() == old(self).view_rules() && !regex_compiles(
                    anchored_prefix(tool@),
                ),
            },
            r matches Ok(p) ==> final(self).view_rules() == with_literal_rule(
                old(self).view_rules(),
                tool@,
                p@,
            ),
    {
        let esc = regex_escape(tool);
        let mut pv: Vec<char> = Vec::new();
        pv.push('^');
        let ev = chars_of(esc.as_str());
        append_chars(&mut pv, &ev);
        pv.push(':');
        assert(pv@ =~= anchored_prefix(tool@));
        let pattern = string_of(&pv);
        let t = chars_of(tool);
        if self.has_rule(&t, &pv, false) {
            return Ok(pattern);
        }
        let rule = Rule::new(tool, pattern.as_str())?;
        self.push_rule(rule);
        Ok(pattern)
    }

    /// Add a `CommandClass` rule for a shell command: the command is
    /// classified and a rule approving every shell call of the same class
    /// is saved. An error for a tool other than `shell` and for a command
    /// without a class. If an identical class rule already exists this is a
    /// no-op. Returns the class.
    pub fn add_rule_class(&mut self, tool: &str, args: &ToolArgs) -> (r: Result<
        String,
        SafetyError,
    >)
        ensures
            tool@ != "shell"@ ==> r == Err::<String, SafetyError>(SafetyError::NotShell),
            tool@ == "shell"@ && spec_classify(key_arg(tool@, args.fields@)) is None ==> r
                == Err::<String, SafetyError>(SafetyError::Unclassifiable),
            r is Err ==> final(self).view_rules() == old(self).view_rules(),
            match r {
                Ok(c) => {
                    &&& tool@ == "shell"@
                    &&& spec_classify(key_arg(tool@, args.fields@)) == Some(c@)
                    &&& (exists|i: int|
                        0 <= i < old(self).view_rules().len() && (#[trigger] old(self).view_rules()[i]).tool == tool@ && old(self).view_rules()[i].pattern
                            == c@ && old(self).view_rules()[i].kind == RuleKind::CommandClass)
                        ==> final(self).view_rules() == old(self).view_rules()
                    &&& !(exists|i: int|
                        0 <= i < old(self).view_rules().len() && (#[trigger] old(self).view_rules()[i]).tool == tool@ && old(self).view_rules()[i].pattern
                            == c@ && old(self).view_rules()[i].kind == RuleKind::CommandClass)
                        ==> final(self).view_rules() == old(self).view_rules().push(
                        final(self).view_rules().last(),
                    ) && final(self).view_rules().last().tool == tool@ && final(self).view_rules().last().pattern == c@ && final(self).view_rules().last().kind
                        == RuleKind::CommandClass
                },
                Err(_) => true,
            },
    {
        let t = chars_of(tool);
        if !eq_lit(&t, "shell") {
            return Err(SafetyError::NotShell);
        }
        let command = key_argument(tool, args);
        let class = match classify(command.as_str()) {
            Some(c) => c,
            None => {
                return Err(SafetyError::Unclassifiable);
            },
        };
        let cv = chars_of(class.as_str());
        if self.has_rule(&t, &cv, true) {
            return Ok(class);
        }
        let rule = Rule::new_class(tool, class.as_str());
        self.push_rule(rule);
        Ok(class)
    }
}

/// The rules kept from the parsed `entries`: command-class entries always,
/// literal entries whose pattern compiles.
pub open spec fn kept_rules(entries: Seq<RuleEntry>) -> Seq<RuleView>
    decreases entries.len(),
{
    if entries.len() == 0 {
        Seq::empty()
    } else {
        let prev = kept_rules(entries.drop_last());
        let e = entries.last();
        match e.kind {
            RuleKind::CommandClass => prev.push(
                RuleView { tool: e.tool@, pattern: e.pattern@, kind: RuleKind::CommandClass },
            ),
            RuleKind::Literal => if regex_compiles(e.pattern@) {
                prev.push(RuleView { tool: e.tool@, pattern: e.pattern@, kind: RuleKind::Literal })
            } else {
                prev
            },
        }
    }
}

/// The patterns of the parsed `entries` that are refused: those of literal
/// entries whose pattern does not compile, in order.
pub open spec fn rejected_patterns(entries: Seq<RuleEntry>) -> Seq<Seq<char>>
    decreases entries.len(),
{
    if entries.len() == 0 {
        Seq::empty()
    } else {
        let prev = rejected_patterns(entries.drop_last());
        let e = entries.last();
        if e.kind == RuleKind::Literal && !regex_compiles(e.pattern@) {
            prev.push(e.pattern@)
        } else {
            prev
        }
    }
}

/// The pattern an error names, for an invalid regex.
pub open spec fn invalid_pattern(e: SafetyError) -> Option<Seq<char>> {
    match e {
        SafetyError::InvalidRegex { pattern, .. } => Some(pattern@),
        _ => None,
    }
}

/// The rules after adding a literal rule of `tool` with `pattern` at the
/// end, unless a rule of that tool with that pattern is already there.
pub open spec fn with_literal_rule(rules: Seq<RuleView>, tool: Seq<char>, pattern: Seq<char>) -> Seq<
    RuleView,
> {
    if exists|i: int|
        0 <= i < rules.len() && (#[trigger] rules[i]).tool == tool && rules[i].pattern == pattern {
        rules
    } else {
        rules.push(RuleView { tool: tool, pattern: pattern, kind: RuleKind::Literal })
    }
}

// ---------------------------------------------------------------------------
// Laws
// ---------------------------------------------------------------------------

/// Whether some rule of `rules` approves a call of `tool` with arguments
/// `fields` (what [`SafetyRules::is_safe`] answers).
pub open spec fn approved_by(rules: Seq<RuleView>, tool: Seq<char>, fields: Seq<(String, String)>) -> bool {
    exists|i: int|
        0 <= i < rules.len() && approves(
            #[trigger] rules[i],
            tool,
            signature_of(tool, fields),
            key_arg(tool, fields),
        )
}

proof fn lemma_prefix_not_literal(lit: Seq<char>)
    ensures
        !(exists|l: Seq<char>| anchored_prefix(lit) == anchored_literal(l)),
{
    if exists|l: Seq<char>| anchored_prefix(lit) == anchored_literal(l) {
        let l = choose|l: Seq<char>| anchored_prefix(lit) == anchored_literal(l);
        let a = anchored_prefix(lit);
        let b = anchored_literal(l);
        assert(a[a.len() - 1] == ':');
        assert(b[b.len() - 1] == '$');
    }
}

/// After `add_rule(tool, args)` succeeds, the same call is approved: the
/// rule set then holds a literal rule of `tool` whose pattern is the
/// anchored, escaped signature of the call — unless a command-class rule of
/// that tool already carried that very pattern (then nothing was added).
pub proof fn law_add_rule_then_safe(
    before: Seq<RuleView>,
    after: Seq<RuleView>,
    tool: Seq<char>,
    fields: Seq<(String, String)>,
)
    requires
        forall|i: int| 0 <= i < before.len() ==> rule_valid(#[trigger] before[i]),
        !(exists|i: int|
            0 <= i < before.len() && (#[trigger] before[i]).tool == tool && before[i].pattern
                == anchored_literal(signature_of(tool, fields)) && before[i].kind
                == RuleKind::CommandClass),
        (exists|i: int|
            0 <= i < before.len() && (#[trigger] before[i]).tool == tool && before[i].pattern
                == anchored_literal(signature_of(tool, fields))) ==> after == before,
        !(exists|i: int|
            0 <= i < before.len() && (#[trigger] before[i]).tool == tool && before[i].pattern
                == anchored_literal(signature_of(tool, fields))) ==> after.len() == before.len() + 1
            && after.drop_last() == before && after.last().tool == tool && after.last().pattern
            == anchored_literal(signature_of(tool, fields)) && after.last().kind
            == RuleKind::Literal && regex_compiles(after.last().pattern),
    ensures
        approved_by(after, tool, fields),
{
    let sig = signature_of(tool, fields);
    let p = anchored_literal(sig);
    if exists|i: int| 0 <= i < before.len() && (#[trigger] before[i]).tool == tool && before[i].pattern == p {
        let i = choose|i: int| 0 <= i < before.len() && (#[trigger] before[i]).tool == tool && before[i].pattern == p;
        assert(rule_valid(before[i]));
        assert(approves(after[i], tool, sig, key_arg(tool, fields)));
    } else {
        let k = after.len() - 1;
        assert(after[k] == after.last());
        assert(approves(after[k], tool, sig, key_arg(tool, fields)));
    }
}

/// A broad rule of `tool` (pattern `^<escaped tool>:`) approves every call
/// of that tool, whatever its arguments.
pub proof fn law_broad_rule_approves_every_call(
    rules: Seq<RuleView>,
    k: int,
    tool: Seq<char>,
    fields: Seq<(String, String)>,
)
    requires
        0 <= k < rules.len(),
        rules[k].tool == tool,
        rules[k].pattern == anchored_prefix(tool),
        rules[k].kind == RuleKind::Literal,
        regex_compiles(rules[k].pattern),
    ensures
        approved_by(rules, tool, fields),
{
    lemma_prefix_not_literal(tool);
    let sig = signature_of(tool, fields);
    assert(sig.take(tool.push(':').len() as int) =~= tool.push(':'));
    assert(approves(rules[k], tool, sig, key_arg(tool, fields)));
}

/// A rule never approves a call of another tool.
pub proof fn law_rule_scoped_to_its_tool(r: RuleView, tool: Seq<char>, sig: Seq<char>, key: Seq<char>)
    requires
        r.tool != tool,
    ensures
        !approves(r, tool, sig, key),
{
}

/// A command without a safety class is never approved by a command-class
/// rule, and a command-class rule never approves a tool other than `shell`.
pub proof fn law_class_rules_need_a_shell_class(
    r: RuleView,
    tool: Seq<char>,
    sig: Seq<char>,
    key: Seq<char>,
)
    requires
        r.kind == RuleKind::CommandClass,
        spec_classify(key) is None || tool != "shell"@,
    ensures
        !approves(r, tool, sig, key),
{
}

/// A command-class rule approves every shell command of its class, so
/// variants that differ only in output filtering are approved together.
pub proof fn law_class_rule_approves_its_class(r: RuleView, sig: Seq<char>, key: Seq<char>)
    requires
        r.kind == RuleKind::CommandClass,
        r.tool == "shell"@,
        spec_classify(key) == Some(r.pattern),
    ensures
        approves(r, "shell"@, sig, key),
{
}

/// Adding a rule is idempotent: adding the same rule (same tool, same
/// pattern) a second time leaves the rules as the first addition left them,
/// so a rule is stored once however often it is added.
pub proof fn law_adding_a_rule_twice_adds_it_once(
    rules: Seq<RuleView>,
    tool: Seq<char>,
    pattern: Seq<char>,
)
    ensures
        with_literal_rule(with_literal_rule(rules, tool, pattern), tool, pattern)
            == with_literal_rule(rules, tool, pattern),
{
    let once = with_literal_rule(rules, tool, pattern);
    if !(exists|i: int|
        0 <= i < rules.len() && (#[trigger] rules[i]).tool == tool && rules[i].pattern == pattern) {
        let k = rules.len() as int;
        assert(once[k].tool == tool && once[k].pattern == pattern);
    }
}

/// A call is approved as soon as any one rule of the set approves it,
/// wherever that rule stands and whatever rules (of the same tool or not)
/// come before it; and only then. So what [`SafetyRules::is_safe`] answers
/// is [`approved_by`] over the whole rule set.
pub proof fn law_any_approving_rule_approves_the_call(
    sr: SafetyRules,
    tool: Seq<char>,
    fields: Seq<(String, String)>,
    k: int,
)
    ensures
        sr.approves_call(tool, fields) == approved_by(sr.view_rules(), tool, fields),
        0 <= k < sr.view_rules().len() && approves(
            sr.view_rules()[k],
            tool,
            signature_of(tool, fields),
            key_arg(tool, fields),
        ) ==> sr.approves_call(tool, fields),
        sr.approves_call(tool, fields) ==> exists|j: int|
            0 <= j < sr.view_rules().len() && approves(
                #[trigger] sr.view_rules()[j],
                tool,
                signature_of(tool, fields),
                key_arg(tool, fields),
            ),
{
}

/// Adding a rule never withdraws an approval: every call approved before
/// [`SafetyRules::add_rule`] (or a broad rule) is approved after it, and
/// the added call is approved too.
pub proof fn law_adding_a_rule_keeps_approvals(
    rules: Seq<RuleView>,
    tool: Seq<char>,
    pattern: Seq<char>,
    other_tool: Seq<char>,
    fields: Seq<(String, String)>,
)
    requires
        approved_by(rules, other_tool, fields),
    ensures
        approved_by(with_literal_rule(rules, tool, pattern), other_tool, fields),
{
    let j = choose|j: int|
        0 <= j < rules.len() && approves(
            #[trigger] rules[j],
            other_tool,
            signature_of(other_tool, fields),
            key_arg(other_tool, fields),
        );
    let after = with_literal_rule(rules, tool, pattern);
    assert(after[j] == rules[j]);
}

} // verus!
