//! Skills — named, activatable overlays on the workflow.
//!
//! A skill is a file-defined bundle of {tool allow-list, prompt, entry and
//! exit states}. Skill files are read and parsed at startup by the
//! application shell, which hands each parsed spec to
//! [`SkillRegistry::load_spec`]; the registry keeps the valid ones by name.

use vstd::prelude::*;

use crate::text::{chars_eq, chars_of, eq_lit, slice_chars};
use crate::workflow::WorkflowState;

verus! {

/// The spec for one skill.
///
/// `available_in` gates which workflow states the skill may be started
/// from. `target_state` is where the workflow lands after `skill_end`.
/// `tools` is the allow-list active while the skill runs. `prompt` is the
/// goal the agent drives toward.
#[derive(Debug, Clone)]
pub struct SkillSpec {
    /// The skill name (matches the file stem). Selects the registry entry.
    pub name: String,
    /// The workflow states this skill may be started from.
    pub available_in: Vec<WorkflowState>,
    /// Where the workflow lands after `skill_end`.
    pub target_state: WorkflowState,
    /// The tool allow-list active while the skill runs.
    pub tools: Vec<String>,
    /// The goal the agent drives toward while the skill is active.
    pub prompt: String,
}

/// Whether `s` is a lifecycle state, the only legal landing state of a
/// skill: `Planning`, `Executing` or `Complete`.
pub open spec fn is_lifecycle_state(s: WorkflowState) -> bool {
    s == WorkflowState::Planning || s == WorkflowState::Executing || s == WorkflowState::Complete
}

/// No two entries of `s` share a name.
pub open spec fn unique_names(s: Seq<SkillSpec>) -> bool {
    forall|i: int, j: int| 0 <= i < j < s.len() ==> #[trigger] s[i].name@ != #[trigger] s[j].name@
}

/// The entry of `s` named `name` (meaningful when there is one).
pub open spec fn seq_lookup(s: Seq<SkillSpec>, name: Seq<char>) -> SkillSpec {
    let i = choose|i: int| 0 <= i < s.len() && s[i].name@ == name;
    s[i]
}

proof fn lemma_seq_lookup(s: Seq<SkillSpec>, j: int)
    requires
        unique_names(s),
        0 <= j < s.len(),
    ensures
        seq_lookup(s, s[j].name@) == s[j],
{
    let n = s[j].name@;
    let i = choose|i: int| 0 <= i < s.len() && s[i].name@ == n;
    assert(0 <= i < s.len() && s[i].name@ == n);
    if i < j {
        assert(s[i].name@ != s[j].name@);
    } else if j < i {
        assert(s[j].name@ != s[i].name@);
    }
}

/// The registry of all loaded skills, keyed by name.
#[derive(Debug)]
pub struct SkillRegistry {
    skills: Vec<SkillSpec>,
}

impl SkillRegistry {
    /// No two skills share a name.
    #[verifier::type_invariant]
    spec fn names_unique(self) -> bool {
        unique_names(self.skills@)
    }

    /// Whether a skill named `name` is registered.
    pub closed spec fn has(self, name: Seq<char>) -> bool {
        exists|i: int| 0 <= i < self.skills@.len() && self.skills@[i].name@ == name
    }

    /// The skill registered under `name` (meaningful when [`Self::has`]).
    pub closed spec fn lookup(self, name: Seq<char>) -> SkillSpec {
        seq_lookup(self.skills@, name)
    }

    /// The number of registered skills.
    pub closed spec fn count(self) -> nat {
        self.skills@.len()
    }

    /// Create an empty registry.
    pub fn new() -> (r: Self)
        ensures
            forall|n: Seq<char>| !r.has(n),
            r.count() == 0,
    {
        SkillRegistry { skills: Vec::new() }
    }

    fn position(&self, name: &str) -> (r: Option<usize>)
        ensures
            match r {
                Some(i) => i < self.skills@.len() && self.skills@[i as int].name@ == name@,
                None => !self.has(name@),
            },
    {
        let key = crate::text::chars_of(name);
        let mut i: usize = 0;
        while i < self.skills.len()
            invariant
                i <= self.skills@.len(),
                key@ == name@,
                forall|j: int| 0 <= j < i ==> self.skills@[j].name@ != name@,
            decreases self.skills.len() - i,
        {
            let n = crate::text::chars_of(self.skills[i].name.as_str());
            if chars_eq(&n, &key) {
                return Some(i);
            }
            i = i + 1;
        }
        None
    }

    /// Insert a skill spec under its name. Returns the prior spec for that
    /// name, if any.
    pub fn insert(&mut self, spec: SkillSpec) -> (prior: Option<SkillSpec>)
        ensures
            final(self).has(spec.name@),
            final(self).lookup(spec.name@) == spec,
            forall|n: Seq<char>| n != spec.name@ ==> (final(self).has(n) == old(self).has(n)),
            forall|n: Seq<char>|
                n != spec.name@ && old(self).has(n) ==> final(self).lookup(n) == old(self).lookup(
                    n,
                ),
            match prior {
                Some(p) => old(self).has(spec.name@) && p == old(self).lookup(spec.name@),
                None => !old(self).has(spec.name@),
            },
    {
        proof {
            use_type_invariant(&*self);
        }
        let ghost key = spec.name@;
        let ghost old_skills = self.skills@;
        match self.position(spec.name.as_str()) {
            Some(i) => {
                let mut skills: Vec<SkillSpec> = Vec::new();
                std::mem::swap(&mut skills, &mut self.skills);
                let prior = skills.remove(i);
                skills.insert(i, spec);
                assert(skills@ =~= old_skills.update(i as int, spec));
                assert(unique_names(skills@)) by {
                    assert forall|a: int, b: int| 0 <= a < b < skills@.len() implies #[trigger] skills@[a].name@
                        != #[trigger] skills@[b].name@ by {
                        if a != i && b != i {
                            assert(old_skills[a].name@ != old_skills[b].name@);
                        } else if a == i {
                            assert(old_skills[a].name@ != old_skills[b].name@);
                        } else {
                            assert(old_skills[a].name@ != old_skills[b].name@);
                        }
                    }
                }
                proof {
                    lemma_seq_lookup(skills@, i as int);
                    assert forall|n: Seq<char>| n != key && (exists|j: int| 0 <= j < old_skills.len() && old_skills[j].name@ == n)
                        implies seq_lookup(skills@, n) == seq_lookup(old_skills, n) by {
                        let j = choose|j: int| 0 <= j < old_skills.len() && old_skills[j].name@ == n;
                        lemma_seq_lookup(old_skills, j);
                        lemma_seq_lookup(skills@, j);
                    }
                }
                self.skills = skills;
                assert(self.skills@ == old_skills.update(i as int, spec));
                assert forall|n: Seq<char>| n != key implies (self.has(n) == (exists|j: int|
                    0 <= j < old_skills.len() && old_skills[j].name@ == n)) by {
                    if exists|j: int| 0 <= j < old_skills.len() && old_skills[j].name@ == n {
                        let j = choose|j: int| 0 <= j < old_skills.len() && old_skills[j].name@ == n;
                        assert(self.skills@[j].name@ == n);
                    }
                }
                assert(self.has(key)) by {
                    assert(self.skills@[i as int].name@ == key);
                }
                Some(prior)
            },
            None => {
                let mut skills: Vec<SkillSpec> = Vec::new();
                std::mem::swap(&mut skills, &mut self.skills);
                skills.push(spec);
                assert(skills@ == old_skills.push(spec));
                assert(unique_names(skills@)) by {
                    assert forall|a: int, b: int| 0 <= a < b < skills@.len() implies #[trigger] skills@[a].name@
                        != #[trigger] skills@[b].name@ by {
                        if b == old_skills.len() {
                            assert(old_skills[a].name@ != key);
                        } else {
                            assert(old_skills[a].name@ != old_skills[b].name@);
                        }
                    }
                }
                proof {
                    lemma_seq_lookup(skills@, old_skills.len() as int);
                    assert forall|n: Seq<char>| n != key && (exists|j: int| 0 <= j < old_skills.len() && old_skills[j].name@ == n)
                        implies seq_lookup(skills@, n) == seq_lookup(old_skills, n) by {
                        let j = choose|j: int| 0 <= j < old_skills.len() && old_skills[j].name@ == n;
                        lemma_seq_lookup(old_skills, j);
                        lemma_seq_lookup(skills@, j);
                    }
                }
                self.skills = skills;
                assert(self.skills@ == old_skills.push(spec));
                assert(self.has(key)) by {
                    assert(self.skills@[old_skills.len() as int].name@ == key);
                }
                assert forall|n: Seq<char>| n != key implies (self.has(n) == (exists|j: int|
                    0 <= j < old_skills.len() && old_skills[j].name@ == n)) by {
                    if exists|j: int| 0 <= j < old_skills.len() && old_skills[j].name@ == n {
                        let j = choose|j: int| 0 <= j < old_skills.len() && old_skills[j].name@ == n;
                        assert(self.skills@[j].name@ == n);
                    }
                }
                None
            },
        }
    }
    /// Look up a skill by name.
    pub fn get(&self, name: &str) -> (r: Option<&SkillSpec>)
        ensures
            match r {
                Some(spec) => self.has(name@) && *spec == self.lookup(name@),
                None => !self.has(name@),
            },
    {
        proof {
            use_type_invariant(self);
        }
        match self.position(name) {
            Some(i) => {
                proof {
                    lemma_seq_lookup(self.skills@, i as int);
                }
                Some(&self.skills[i])
            },
            None => None,
        }
    }

    /// All loaded skills.
    pub fn iter(&self) -> (r: &[SkillSpec])
        ensures
            r@.len() == self.count(),
            forall|k: int|
                0 <= k < r@.len() ==> self.has(#[trigger] r@[k].name@) && self.lookup(r@[k].name@)
                    == r@[k],
            forall|n: Seq<char>| #[trigger] self.has(n) ==> exists|k: int| 0 <= k < r@.len() && r@[k].name@ == n,
    {
        proof {
            use_type_invariant(self);
            assert forall|k: int| 0 <= k < self.skills@.len() implies self.has(
                #[trigger] self.skills@[k].name@,
            ) && self.lookup(self.skills@[k].name@) == self.skills@[k] by {
                lemma_seq_lookup(self.skills@, k);
            }
        }
        self.skills.as_slice()
    }

    /// Whether the skill `name` is available in the given workflow state
    /// (the state is in the skill's `available_in` list); `false` for an
    /// unknown skill.
    pub fn is_available_in(&self, name: &str, state: WorkflowState) -> (r: bool)
        ensures
            r == (self.has(name@) && self.lookup(name@).available_in@.contains(state)),
    {
        match self.get(name) {
            Some(spec) => {
                let mut i: usize = 0;
                while i < spec.available_in.len()
                    invariant
                        i <= spec.available_in@.len(),
                        self.has(name@),
                        *spec == self.lookup(name@),
                        forall|j: int| 0 <= j < i ==> spec.available_in@[j] != state,
                    decreases spec.available_in.len() - i,
                {
                    if spec.available_in[i] == state {
                        assert(spec.available_in@[i as int] == state);
                        return true;
                    }
                    i = i + 1;
                }
                false
            },
            None => false,
        }
    }

    /// Admit a parsed skill spec at load time: kept (under its name,
    /// replacing an earlier one) only when its `target_state` is a
    /// lifecycle state — `Skill` is an overlay and `Subagent` a role state,
    /// neither a legal landing state. Returns whether it was kept.
    pub fn load_spec(&mut self, spec: SkillSpec) -> (kept: bool)
        ensures
            kept == is_lifecycle_state(spec.target_state),
            kept ==> final(self).has(spec.name@) && final(self).lookup(spec.name@) == spec,
            forall|n: Seq<char>| n != spec.name@ || !kept ==> (final(self).has(n) == old(self).has(n)),
            forall|n: Seq<char>|
                (n != spec.name@ || !kept) && old(self).has(n) ==> final(self).lookup(n) == old(
                    self,
                ).lookup(n),
    {
        match spec.target_state {
            WorkflowState::Planning | WorkflowState::Executing | WorkflowState::Complete => {
                self.insert(spec);
                true
            },
            _ => false,
        }
    }
}

/// Whether a file name has the extension `toml`: it ends in `.toml` after
/// a non-empty stem (so `.toml` alone is a hidden file without extension).
pub open spec fn has_toml_extension(name: Seq<char>) -> bool {
    name.len() >= 6 && name.subrange(name.len() - 5, name.len() as int) == ".toml"@
}

/// Whether the file `name` in the skills directory holds a skill: only
/// `.toml` files do.
pub fn is_skill_file_name(name: &str) -> (r: bool)
    ensures
        r == has_toml_extension(name@),
{
    let v = chars_of(name);
    if v.len() < 6 {
        return false;
    }
    let tail = slice_chars(&v, v.len() - 5, v.len());
    eq_lit(&tail, ".toml")
}

} // verus!
