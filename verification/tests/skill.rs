//! Scenarios of the skill registry.

use mnemo::skill::{is_skill_file_name, SkillRegistry, SkillSpec};
use mnemo::workflow::WorkflowState;

fn merge_to_main() -> SkillSpec {
    SkillSpec {
        name: "merge_to_main".to_string(),
        available_in: vec![WorkflowState::Complete, WorkflowState::Planning],
        target_state: WorkflowState::Planning,
        tools: vec!["git".to_string()],
        prompt: "Merge.".to_string(),
    }
}

#[test]
fn is_available_in_checks_the_list() {
    let mut reg = SkillRegistry::new();
    assert!(reg.load_spec(merge_to_main()));
    assert!(reg.is_available_in("merge_to_main", WorkflowState::Complete));
    assert!(reg.is_available_in("merge_to_main", WorkflowState::Planning));
    assert!(!reg.is_available_in("merge_to_main", WorkflowState::Executing));
    assert!(!reg.is_available_in("nonexistent", WorkflowState::Complete));
}

#[test]
fn load_spec_skips_skill_with_non_lifecycle_target_state() {
    let mut reg = SkillRegistry::new();
    let mut bad = merge_to_main();
    bad.name = "bad".to_string();
    bad.target_state = WorkflowState::Skill;
    assert!(!reg.load_spec(bad.clone()));
    bad.target_state = WorkflowState::Subagent;
    assert!(!reg.load_spec(bad));
    assert!(reg.get("bad").is_none());
    assert!(reg.load_spec(merge_to_main()));
    assert_eq!(reg.iter().len(), 1);
}

#[test]
fn insert_replaces_and_returns_prior() {
    let mut reg = SkillRegistry::new();
    assert!(reg.insert(merge_to_main()).is_none());
    let mut newer = merge_to_main();
    newer.prompt = "Merge again.".to_string();
    let prior = reg.insert(newer).unwrap();
    assert_eq!(prior.prompt, "Merge.");
    assert_eq!(reg.get("merge_to_main").unwrap().prompt, "Merge again.");
    assert_eq!(reg.iter().len(), 1);
}

#[test]
fn only_toml_files_hold_skills() {
    assert!(is_skill_file_name("merge_to_main.toml"));
    assert!(is_skill_file_name("a.b.toml"));
    assert!(!is_skill_file_name(".toml"));
    assert!(!is_skill_file_name("notes.md"));
    assert!(!is_skill_file_name("skill.toml.bak"));
    assert!(!is_skill_file_name("toml"));
}
