//! Correction detection — flag user prompts that correct the agent.
//!
//! Detection is a pure function over the prompt text: a case-insensitive
//! substring match against a list of correction triggers. It is
//! deliberately conservative: a false positive only stores extra context,
//! whereas a false negative loses a lesson the user tried to teach.

use vstd::prelude::*;

use crate::text::{chars_of, contains_lit, seq_contains};

verus! {

/// Case-insensitive phrases that signal the user is correcting the agent,
/// ordered roughly from explicit rule violations to softer signals.
/// Matching is a plain substring check, so "that's wrong" also matches
/// "that's wrong," and "that's wrong.".
pub open spec fn correction_triggers() -> Seq<&'static str> {
    seq![
        "you broke",
        "you're breaking",
        "you violated",
        "against the rules",
        "broke the rule",
        "didn't follow",
        "did not follow",
        "not what i asked",
        "not what i wanted",
        "that's not what i",
        "you ignored",
        "you didn't do what",
        "you didn't listen",
        "stop doing that",
        "stop breaking",
        "that's wrong",
        "that is wrong",
        "that's incorrect",
        "that is incorrect",
        "that's not right",
        "that is not right",
        "you're wrong",
        "you are wrong",
        "this is wrong",
        "did that land",
        "did it land",
        "did you actually",
        "did you really",
        "are you sure that",
        "too verbose",
        "too long",
        "your summary",
        "the summary",
        "summary is too",
        "summaries should",
        "summary should",
        "shorter",
        "concise",
        "3 lines",
        "three lines",
    ]
}

/// The correction triggers as a vector.
pub fn correction_triggers_exec() -> (v: Vec<&'static str>)
    ensures
        v@ == correction_triggers(),
{
    let v = vec![
        "you broke",
        "you're breaking",
        "you violated",
        "against the rules",
        "broke the rule",
        "didn't follow",
        "did not follow",
        "not what i asked",
        "not what i wanted",
        "that's not what i",
        "you ignored",
        "you didn't do what",
        "you didn't listen",
        "stop doing that",
        "stop breaking",
        "that's wrong",
        "that is wrong",
        "that's incorrect",
        "that is incorrect",
        "that's not right",
        "that is not right",
        "you're wrong",
        "you are wrong",
        "this is wrong",
        "did that land",
        "did it land",
        "did you actually",
        "did you really",
        "are you sure that",
        "too verbose",
        "too long",
        "your summary",
        "the summary",
        "summary is too",
        "summaries should",
        "summary should",
        "shorter",
        "concise",
        "3 lines",
        "three lines",
    ];
    assert(v@ =~= correction_triggers());
    v
}

/// The first trigger, at list position `k` or later, that occurs in
/// `lower`.
pub open spec fn first_trigger_from(lower: Seq<char>, k: int) -> Option<&'static str>
    decreases correction_triggers().len() - k,
{
    if k < 0 || k >= correction_triggers().len() {
        None
    } else if seq_contains(lower, correction_triggers()[k]@) {
        Some(correction_triggers()[k])
    } else {
        first_trigger_from(lower, k + 1)
    }
}

/// The first trigger (in list order) that occurs in `lower`.
pub open spec fn first_trigger(lower: Seq<char>) -> Option<&'static str> {
    first_trigger_from(lower, 0)
}

/// The result of `str::to_lowercase`: the lowercase mapping of the Unicode
/// standard, which may change the length of the text.
pub uninterp spec fn lowercase(s: Seq<char>) -> Seq<char>;

/// Whether every character of `s` is ASCII.
pub open spec fn is_ascii_text(s: Seq<char>) -> bool {
    forall|i: int| 0 <= i < s.len() ==> (#[trigger] s[i]) as u32 <= 0x7f
}

/// The ASCII lowercase of `c`: `A`–`Z` become `a`–`z`, anything else is
/// unchanged.
pub open spec fn ascii_lower_char(c: char) -> char {
    if 'A' <= c && c <= 'Z' {
        ((c as u32) + 32) as char
    } else {
        c
    }
}

/// The ASCII lowercase of `s`, character by character.
pub open spec fn ascii_lower(s: Seq<char>) -> Seq<char> {
    s.map_values(|c: char| ascii_lower_char(c))
}

/// Calls `str::to_lowercase`; the contract names its result [`lowercase`].
/// On ASCII text the Unicode lowercase mapping is the ASCII one: `A`–`Z`
/// become `a`–`z` and every other ASCII character is unchanged.
#[verifier::external_body]
fn to_lowercase(s: &str) -> (r: String)
    ensures
        r@ == lowercase(s@),
        is_ascii_text(s@) ==> r@ == ascii_lower(s@),
{
    s.to_lowercase()
}

/// The first correction trigger that occurs in the already-lowercased
/// prompt `lower`, or `None`.
pub fn find_trigger(lower: &str) -> (r: Option<&'static str>)
    ensures
        r == first_trigger(lower@),
{
    let text = chars_of(lower);
    let triggers = correction_triggers_exec();
    let mut i: usize = 0;
    while i < triggers.len()
        invariant
            i <= triggers.len(),
            triggers@ == correction_triggers(),
            text@ == lower@,
            first_trigger_from(lower@, i as int) == first_trigger(lower@),
        decreases triggers.len() - i,
    {
        if contains_lit(&text, triggers[i]) {
            return Some(triggers[i]);
        }
        i = i + 1;
    }
    None
}

/// Detect whether `text` looks like a user correction.
///
/// Returns `Some(trigger)` with the first matched trigger phrase (in list
/// order) when the lowercased prompt contains one, `None` otherwise. Case
/// does not matter: on ASCII text the result depends only on the ASCII
/// lowercase of the prompt (see [`law_case_does_not_matter`]).
pub fn detect_correction(text: &str) -> (r: Option<&'static str>)
    ensures
        r == first_trigger(lowercase(text@)),
        is_ascii_text(text@) ==> r == first_trigger(ascii_lower(text@)),
{
    let lower = to_lowercase(text);
    find_trigger(lower.as_str())
}

/// Case does not matter: two ASCII prompts that differ only in letter case
/// are detected alike.
pub proof fn law_case_does_not_matter(a: Seq<char>, b: Seq<char>)
    requires
        is_ascii_text(a),
        is_ascii_text(b),
        ascii_lower(a) == ascii_lower(b),
    ensures
        first_trigger(ascii_lower(a)) == first_trigger(ascii_lower(b)),
{
}

/// Whether the trigger at list position `k` occurs in `lower`.
pub open spec fn trigger_occurs(lower: Seq<char>, k: int) -> bool {
    0 <= k < correction_triggers().len() && seq_contains(lower, correction_triggers()[k]@)
}

proof fn lemma_first_trigger_from(lower: Seq<char>, k: int)
    requires
        0 <= k <= correction_triggers().len(),
    ensures
        first_trigger_from(lower, k) is Some <==> exists|j: int| k <= j && #[trigger] trigger_occurs(lower, j),
        forall|j: int|
            k <= j && #[trigger] trigger_occurs(lower, j) && (forall|i: int| k <= i < j ==> !trigger_occurs(lower, i))
                ==> first_trigger_from(lower, k) == Some(correction_triggers()[j]),
    decreases correction_triggers().len() - k,
{
    if k < correction_triggers().len() {
        lemma_first_trigger_from(lower, k + 1);
        if trigger_occurs(lower, k) {
            assert forall|j: int|
                k <= j && #[trigger] trigger_occurs(lower, j) && (forall|i: int| k <= i < j ==> !trigger_occurs(lower, i))
                    implies first_trigger_from(lower, k) == Some(correction_triggers()[j]) by {
                if j > k {
                    assert(!trigger_occurs(lower, k));
                }
            }
        } else {
            assert forall|j: int| k <= j && #[trigger] trigger_occurs(lower, j) implies k + 1 <= j by {}
        }
    }
}

/// Every listed trigger is detected: a correction is found exactly when
/// some trigger of the list occurs in the lowercased prompt, and the one
/// reported is the first of the list that occurs, the last one included.
pub proof fn law_every_listed_trigger_is_detected(lower: Seq<char>)
    ensures
        first_trigger(lower) is Some <==> exists|k: int| #[trigger] trigger_occurs(lower, k),
        forall|k: int|
            #[trigger] trigger_occurs(lower, k) && (forall|i: int| 0 <= i < k ==> !trigger_occurs(lower, i))
                ==> first_trigger(lower) == Some(correction_triggers()[k]),
        first_trigger(lower) matches Some(t) ==> exists|k: int|
            #[trigger] trigger_occurs(lower, k) && correction_triggers()[k] == t,
{
    lemma_first_trigger_from(lower, 0);
    if first_trigger(lower) is Some {
        let k = choose|k: int| 0 <= k && #[trigger] trigger_occurs(lower, k);
        lemma_least_occurring(lower, k);
    }
}

/// Some occurring trigger is the first one that occurs.
proof fn lemma_least_occurring(lower: Seq<char>, k: int)
    requires
        trigger_occurs(lower, k),
    ensures
        exists|j: int|
            #[trigger] trigger_occurs(lower, j) && (forall|i: int| 0 <= i < j ==> !trigger_occurs(lower, i)),
    decreases k,
{
    if exists|i: int| 0 <= i < k && #[trigger] trigger_occurs(lower, i) {
        let i = choose|i: int| 0 <= i < k && #[trigger] trigger_occurs(lower, i);
        lemma_least_occurring(lower, i);
    } else {
        assert(forall|i: int| 0 <= i < k ==> !trigger_occurs(lower, i));
    }
}

} // verus!
