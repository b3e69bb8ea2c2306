//! Scenarios of the agent registry.

use mnemo::runtime::channels::AgentCommand;
use mnemo::runtime::manager::{AgentHandle, AgentManager};
use mnemo::runtime::DescendantTracker;

fn handle(id: u64, name: &str) -> (AgentHandle, tokio::sync::mpsc::Receiver<AgentCommand>) {
    let (tx, rx) = tokio::sync::mpsc::channel(4);
    (AgentHandle::new(id, name.to_string(), tx), rx)
}

#[test]
fn next_id_increments() {
    let mut mgr = AgentManager::new();
    assert_eq!(mgr.next_id(), 1);
    assert_eq!(mgr.next_id(), 2);
    assert_eq!(mgr.next_id(), 3);
}

#[test]
fn send_to_unknown_agent_fails() {
    let mgr = AgentManager::new();
    let result = mgr.send(999, AgentCommand::Cancel);
    assert!(matches!(result, Err(AgentCommand::Cancel)));
}

#[test]
fn send_routes_to_the_agent_inbox() {
    let mut mgr = AgentManager::new();
    let (h, mut rx) = handle(1, "main");
    mgr.register(h);
    assert!(mgr.send(1, AgentCommand::Compact).is_ok());
    assert!(matches!(rx.try_recv(), Ok(AgentCommand::Compact)));
    // A closed inbox hands the command back.
    drop(rx);
    assert!(matches!(mgr.send(1, AgentCommand::Clear), Err(AgentCommand::Clear)));
}

#[test]
fn running_state_starts_false_and_is_settable() {
    let mut mgr = AgentManager::new();
    let (h, _rx) = handle(1, "main");
    mgr.register(h);
    assert_eq!(mgr.list().len(), 1);
    assert!(!mgr.get(1).unwrap().is_running());
    mgr.set_running(1, true);
    assert!(mgr.get(1).unwrap().is_running());
    mgr.set_running(1, false);
    assert!(!mgr.get(1).unwrap().is_running());
}

#[test]
fn remove_drops_dead_agent_from_list() {
    let mut mgr = AgentManager::new();
    let (h, _rx) = handle(1, "main");
    mgr.register(h);
    assert_eq!(mgr.len(), 1);
    mgr.remove(1);
    assert_eq!(mgr.len(), 0);
    assert!(mgr.list().is_empty());
    assert!(mgr.get(1).is_none());
    assert!(mgr.is_empty());
}

#[test]
fn has_ever_started_latches_on_first_run_and_never_clears() {
    let mut mgr = AgentManager::new();
    let (h, _rx) = handle(1, "child");
    mgr.register(h);
    let h = mgr.get(1).unwrap();
    assert!(!h.is_running() && !h.has_ever_started(), "pending");
    mgr.set_running(1, true);
    let h = mgr.get(1).unwrap();
    assert!(h.is_running() && h.has_ever_started(), "running");
    mgr.set_running(1, false);
    let h = mgr.get(1).unwrap();
    assert!(!h.is_running() && h.has_ever_started(), "idle after running");
}

#[test]
fn set_running_for_unknown_agent_is_noop() {
    let mut mgr = AgentManager::new();
    mgr.set_running(42, true);
    assert!(mgr.is_empty());
}

#[test]
fn parent_id_is_none_by_default_and_some_after_with_parent() {
    let mut mgr = AgentManager::new();
    let (main, _r1) = handle(1, "main");
    let (child, _r2) = handle(2, "child");
    mgr.register(main);
    mgr.register(child.with_parent(1).with_role(Some("inspector".to_string())));
    assert_eq!(mgr.parent_id(1), None, "main agent has no parent");
    assert_eq!(mgr.parent_id(2), Some(1));
    assert_eq!(mgr.parent_id(999), None, "unknown agent has no parent");
    assert_eq!(mgr.role(2), Some("inspector".to_string()));
    assert_eq!(mgr.role(1), None);
}

#[test]
fn main_agent_id_is_the_parentless_agent_with_smallest_id() {
    let mut mgr = AgentManager::new();
    let (a, _r1) = handle(3, "late main");
    let (b, _r2) = handle(1, "main");
    let (c, _r3) = handle(2, "child");
    mgr.register(a);
    mgr.register(c.with_parent(1));
    mgr.register(b);
    assert_eq!(mgr.main_agent_id(), Some(1));
    let ids: Vec<u64> = mgr.list().iter().map(|h| h.id).collect();
    assert_eq!(ids, vec![1, 2, 3]);
}

#[test]
fn main_agent_id_none_when_only_subagents_registered() {
    let mut mgr = AgentManager::new();
    let (c, _r) = handle(2, "child");
    mgr.register(c.with_parent(1));
    assert_eq!(mgr.main_agent_id(), None);
}

#[test]
fn has_running_descendants_only_for_running_children() {
    let mut mgr = AgentManager::new();
    let (m, _r1) = handle(1, "main");
    let (c, _r2) = handle(2, "child");
    let (g, _r3) = handle(3, "grandchild");
    mgr.register(m);
    mgr.register(c.with_parent(1));
    mgr.register(g.with_parent(2));
    assert!(!mgr.has_running_descendants(1), "nothing running yet");
    mgr.set_running(2, true);
    assert!(mgr.has_running_descendants(1), "direct child running");
    mgr.set_running(2, false);
    mgr.set_running(3, true);
    assert!(mgr.has_running_descendants(1), "grandchild running");
    assert!(DescendantTracker::has_running_descendants(&mgr, 1));
    mgr.set_running(3, false);
    assert!(!mgr.has_running_descendants(1), "all descendants idle");
    mgr.set_running(1, true);
    assert!(!mgr.has_running_descendants(1), "self is not a descendant");
}

#[test]
fn register_replaces_an_earlier_handle_with_the_same_id() {
    let mut mgr = AgentManager::new();
    let (a, _r1) = handle(1, "first");
    let (b, _r2) = handle(1, "second");
    mgr.register(a);
    mgr.register(b);
    assert_eq!(mgr.len(), 1);
    assert_eq!(mgr.get(1).unwrap().name, "second");
}
