//! Adoption of the login shell's `PATH` — the pure decision logic.
//!
//! GUI apps launched from a desktop do not inherit the user's shell
//! environment, so the app runs the login shell once at startup and adopts
//! its resolved `PATH` — when this predicate accepts the captured value.

use vstd::prelude::*;

use crate::text::{all_ws, chars_of, is_blank, is_control, is_ctrl, trim};

verus! {

/// Whether `value` is usable as a `PATH`: not blank, and free of control
/// characters.
pub open spec fn adoptable(value: Seq<char>) -> bool {
    trim(value).len() != 0 && forall|k: int| 0 <= k < value.len() ==> !is_ctrl(#[trigger] value[k])
}

/// Whether a captured login-shell `PATH` value is safe to adopt.
///
/// Accepts any non-blank value free of control characters. Spaces are
/// legal (`/Applications/Some App/bin`), but a whitespace-only value is not
/// a usable `PATH`. Control characters are rejected because a dotfile that
/// echoes to stdout pollutes the captured value.
pub fn is_adoptable_path(value: &str) -> (r: bool)
    ensures
        r == adoptable(value@),
{
    let v = chars_of(value);
    if is_blank(&v) {
        return false;
    }
    let mut i: usize = 0;
    while i < v.len()
        invariant
            i <= v.len(),
            v@ == value@,
            forall|k: int| 0 <= k < i ==> !is_ctrl(#[trigger] v@[k]),
        decreases v.len() - i,
    {
        if is_control(v[i]) {
            return false;
        }
        i = i + 1;
    }
    true
}

/// A value with at least one non-whitespace character and no control
/// character is adoptable, whatever spaces it holds inside.
pub proof fn law_spaces_are_legal(value: Seq<char>)
    requires
        !all_ws(value),
        forall|k: int| 0 <= k < value.len() ==> !is_ctrl(#[trigger] value[k]),
    ensures
        adoptable(value),
{
    crate::text::lemma_trim_empty(value);
}

} // verus!
