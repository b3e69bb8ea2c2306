//! The agent registry: which agents exist, who spawned whom, who runs.
//!
//! The application shell spawns agents as tasks and records every agent
//! here with the sending half of its inbox; [`AgentManager`] routes
//! commands to agents and makes the decisions that read the registry (the
//! main agent, running descendants, the parent to notify).

use vstd::prelude::*;

use std::collections::HashMap;

use crate::runtime::channels::AgentCommand;
use crate::runtime::AgentId;
use vstd::std_specs::hash::spec_hash_map_iter;
use vstd::std_specs::iter::IteratorSpec;

verus! {

broadcast use vstd::std_specs::hash::group_hash_axioms;

/// The sending half of a tokio bounded channel.
#[verifier::external_type_specification]
#[verifier::external_body]
#[verifier::reject_recursive_types(T)]
pub struct ExTokioSender<T>(tokio::sync::mpsc::Sender<T>);

/// Calls `tokio::sync::mpsc::Sender::try_send`. Whether the command is
/// accepted depends on the channel's state at the time (full or closed);
/// when it is refused, tokio hands the same command back in the error.
#[verifier::external_body]
fn try_send_command(tx: &tokio::sync::mpsc::Sender<AgentCommand>, cmd: AgentCommand) -> (r: Result<
    (),
    AgentCommand,
>)
    ensures
        r matches Err(c) ==> c == cmd,
{
    match tx.try_send(cmd) {
        Ok(()) => Ok(()),
        Err(tokio::sync::mpsc::error::TrySendError::Full(c)) => Err(c),
        Err(tokio::sync::mpsc::error::TrySendError::Closed(c)) => Err(c),
    }
}

/// An agent's record in the registry.
#[derive(Debug)]
pub struct AgentHandle {
    pub id: AgentId,
    pub name: String,
    /// The sending half of the agent's inbox.
    pub command_tx: tokio::sync::mpsc::Sender<AgentCommand>,
    /// Whether the agent is currently running a turn.
    pub running: bool,
    /// Whether this agent has ever begun a turn — set by the first
    /// `set_running(true)` and never cleared. Distinguishes a freshly
    /// spawned agent whose first turn has not started (pending) from one
    /// that ran and went idle.
    pub has_ever_started: bool,
    /// The agent that spawned this one via the `spawn_agent` tool, if any.
    pub parent_id: Option<AgentId>,
    /// The role the agent was spawned with, which constrains its tool
    /// surface (a read-only role for a sub-agent that only inspects).
    pub role: Option<String>,
}

impl AgentHandle {
    /// Create a handle for a freshly spawned agent: not running, never
    /// started, no parent, no role.
    pub fn new(id: AgentId, name: String, command_tx: tokio::sync::mpsc::Sender<AgentCommand>) -> (r:
        Self)
        ensures
            r.id == id,
            r.name == name,
            r.command_tx == command_tx,
            !r.running,
            !r.has_ever_started,
            r.parent_id is None,
            r.role is None,
    {
        AgentHandle {
            id,
            name,
            command_tx,
            running: false,
            has_ever_started: false,
            parent_id: None,
            role: None,
        }
    }

    /// Set the parent agent id (the agent that spawned this one).
    pub fn with_parent(self, parent_id: AgentId) -> (r: Self)
        ensures
            r == (AgentHandle { parent_id: Some(parent_id), ..self }),
    {
        AgentHandle { parent_id: Some(parent_id), ..self }
    }

    /// Set the spawn role.
    pub fn with_role(self, role: Option<String>) -> (r: Self)
        ensures
            r == (AgentHandle { role: role, ..self }),
    {
        AgentHandle { role, ..self }
    }

    /// Whether the agent is currently running a turn.
    pub fn is_running(&self) -> (r: bool)
        ensures
            r == self.running,
    {
        self.running
    }

    /// Whether the agent has ever begun a turn. `false` only for an agent
    /// spawned but not yet started.
    pub fn has_ever_started(&self) -> (r: bool)
        ensures
            r == self.has_ever_started,
    {
        self.has_ever_started
    }

    /// Set the running flag. The first `true` also latches
    /// `has_ever_started`, which is never cleared afterwards.
    pub fn set_running(&mut self, running: bool)
        ensures
            final(self).running == running,
            final(self).has_ever_started == (old(self).has_ever_started || running),
            final(self).id == old(self).id,
            final(self).name == old(self).name,
            final(self).command_tx == old(self).command_tx,
            final(self).parent_id == old(self).parent_id,
            final(self).role == old(self).role,
    {
        self.running = running;
        if running {
            self.has_ever_started = true;
        }
    }
}

/// Whether every agent of `m` is recorded under its own id.
pub open spec fn keyed_by_id(m: Map<AgentId, AgentHandle>) -> bool {
    forall|k: AgentId| #[trigger] m.contains_key(k) ==> m[k].id == k
}

/// Whether walking at most `n` parent links up from `cur` in `m` reaches
/// `ancestor`.
pub open spec fn reaches(m: Map<AgentId, AgentHandle>, cur: AgentId, ancestor: AgentId, n: nat) -> bool
    decreases n,
{
    if n == 0 || !m.contains_key(cur) {
        false
    } else {
        match m[cur].parent_id {
            Some(p) => p == ancestor || reaches(m, p, ancestor, (n - 1) as nat),
            None => false,
        }
    }
}

/// The registry of agents, keyed by id.
#[derive(Debug)]
pub struct AgentManager {
    agents: HashMap<AgentId, AgentHandle>,
    next_id: AgentId,
}

/// The entries of a map walk name each key once, with its value.
proof fn lemma_walk_keys_distinct(
    m: Map<AgentId, AgentHandle>,
    s: Seq<(&AgentId, &AgentHandle)>,
    i: int,
    j: int,
)
    requires
        s.no_duplicates(),
        forall|x: int| 0 <= x < s.len() ==> m.contains_key(*s[x].0) && m[*s[x].0] == *s[x].1,
        0 <= i < s.len(),
        0 <= j < s.len(),
        i != j,
    ensures
        *s[i].0 != *s[j].0,
{
    if *s[i].0 == *s[j].0 {
        assert(m[*s[i].0] == *s[i].1);
        assert(m[*s[j].0] == *s[j].1);
        assert(s[i] == s[j]);
    }
}

/// Whether `s` is a walk of the map `m`: its entries are distinct, name
/// every agent of `m`, each under its own id, with its record.
pub open spec fn walk_of(m: Map<AgentId, AgentHandle>, s: Seq<(&AgentId, &AgentHandle)>) -> bool {
    &&& keyed_by_id(m)
    &&& s.no_duplicates()
    &&& s.len() == m.dom().len()
    &&& forall|x: int| 0 <= x < s.len() ==> m.contains_key(*s[x].0) && m[*s[x].0] == *s[x].1
}

/// Whether `r` lists, in increasing id order, exactly the records of the
/// first `n` entries of the walk `s`.
pub open spec fn listed_upto(
    m: Map<AgentId, AgentHandle>,
    s: Seq<(&AgentId, &AgentHandle)>,
    r: Seq<&AgentHandle>,
    n: int,
) -> bool {
    &&& r.len() == n
    &&& forall|a: int, b: int| 0 <= a < b < r.len() ==> r[a].id < r[b].id
    &&& forall|x: int|
        0 <= x < r.len() ==> m.contains_key(#[trigger] r[x].id) && *r[x] == m[r[x].id] && exists|j: int|
            0 <= j < n && *(#[trigger] s[j]).0 == r[x].id
    &&& forall|j: int|
        0 <= j < n ==> exists|x: int| 0 <= x < r.len() && (#[trigger] r[x]).id == *(#[trigger] s[j]).0
}

/// The position in the id-sorted `r` where `id` belongs: after every
/// smaller id.
fn sorted_position(r: &Vec<&AgentHandle>, id: AgentId) -> (pos: usize)
    requires
        forall|a: int, b: int| 0 <= a < b < r@.len() ==> r@[a].id < r@[b].id,
    ensures
        pos <= r@.len(),
        forall|x: int| 0 <= x < pos ==> r@[x].id < id,
        forall|x: int| pos <= x < r@.len() ==> r@[x].id >= id,
{
    let mut pos: usize = 0;
    while pos < r.len() && r[pos].id < id
        invariant
            pos <= r@.len(),
            forall|a: int, b: int| 0 <= a < b < r@.len() ==> r@[a].id < r@[b].id,
            forall|x: int| 0 <= x < pos ==> r@[x].id < id,
        decreases r.len() - pos,
    {
        pos = pos + 1;
    }
    proof {
        assert forall|x: int| pos <= x < r@.len() implies r@[x].id >= id by {
            if x > pos {
                assert(r@[pos as int].id < r@[x].id);
            }
        }
    }
    pos
}

/// The next entry's id is larger than every listed id from `pos` on: the
/// walk names each id once.
proof fn lemma_next_id_is_new(
    m: Map<AgentId, AgentHandle>,
    s: Seq<(&AgentId, &AgentHandle)>,
    n: int,
    r: Seq<&AgentHandle>,
    pos: int,
)
    requires
        walk_of(m, s),
        0 <= n < s.len(),
        listed_upto(m, s, r, n),
        0 <= pos <= r.len(),
        forall|x: int| pos <= x < r.len() ==> r[x].id >= *s[n].0,
    ensures
        forall|x: int| pos <= x < r.len() ==> r[x].id > *s[n].0,
{
    assert forall|x: int| pos <= x < r.len() implies r[x].id > *s[n].0 by {
        let j = choose|j: int| 0 <= j < n && *(#[trigger] s[j]).0 == r[x].id;
        lemma_walk_keys_distinct(m, s, j, n);
    }
}

/// Inserting `h` at a position that splits smaller from larger ids keeps a
/// list strictly sorted by id.
proof fn lemma_insert_keeps_order(r: Seq<&AgentHandle>, pos: int, h: &AgentHandle)
    requires
        forall|a: int, b: int| 0 <= a < b < r.len() ==> r[a].id < r[b].id,
        0 <= pos <= r.len(),
        forall|x: int| 0 <= x < pos ==> r[x].id < h.id,
        forall|x: int| pos <= x < r.len() ==> r[x].id > h.id,
    ensures
        forall|a: int, b: int|
            0 <= a < b < r.insert(pos, h).len() ==> r.insert(pos, h)[a].id < r.insert(pos, h)[b].id,
{
    let q = r.insert(pos, h);
    assert forall|a: int, b: int| 0 <= a < b < q.len() implies q[a].id < q[b].id by {
        if b < pos {
            assert(r[a].id < r[b].id);
        } else if a > pos {
            assert(r[a - 1].id < r[b - 1].id);
        } else if a == pos {
            assert(r[b - 1].id > h.id);
        } else if b == pos {
            assert(r[a].id < h.id);
        } else {
            assert(r[a].id < h.id);
            assert(r[b - 1].id > h.id);
        }
    }
}

/// After the insertion every listed record is a registered agent's record
/// and comes from the first `n + 1` entries of the walk.
proof fn lemma_list_step_records(
    m: Map<AgentId, AgentHandle>,
    s: Seq<(&AgentId, &AgentHandle)>,
    n: int,
    r: Seq<&AgentHandle>,
    pos: int,
    h: &AgentHandle,
)
    requires
        walk_of(m, s),
        0 <= n < s.len(),
        s[n].1 == h,
        h.id == *s[n].0,
        0 <= pos <= r.len(),
        listed_upto(m, s, r, n),
    ensures
        forall|x: int|
            0 <= x < r.insert(pos, h).len() ==> m.contains_key(#[trigger] r.insert(pos, h)[x].id)
                && *r.insert(pos, h)[x] == m[r.insert(pos, h)[x].id] && exists|j: int|
                0 <= j < n + 1 && *(#[trigger] s[j]).0 == r.insert(pos, h)[x].id,
{
    let q = r.insert(pos, h);
    assert forall|x: int| 0 <= x < q.len() implies m.contains_key(#[trigger] q[x].id) && *q[x] == m[q[x].id]
        && exists|j: int| 0 <= j < n + 1 && *(#[trigger] s[j]).0 == q[x].id by {
        if x < pos {
            assert(q[x] == r[x]);
            let j = choose|j: int| 0 <= j < n && *(#[trigger] s[j]).0 == r[x].id;
            assert(*s[j].0 == q[x].id);
        } else if x > pos {
            assert(q[x] == r[x - 1]);
            let j = choose|j: int| 0 <= j < n && *(#[trigger] s[j]).0 == r[x - 1].id;
            assert(*s[j].0 == q[x].id);
        } else {
            assert(q[x] == h);
            assert(m[*s[n].0] == *h);
            assert(*s[n].0 == q[x].id);
        }
    }
}

/// After the insertion each of the first `n + 1` entries of the walk is
/// listed.
proof fn lemma_list_step_cover(
    m: Map<AgentId, AgentHandle>,
    s: Seq<(&AgentId, &AgentHandle)>,
    n: int,
    r: Seq<&AgentHandle>,
    pos: int,
    h: &AgentHandle,
)
    requires
        0 <= n < s.len(),
        h.id == *s[n].0,
        0 <= pos <= r.len(),
        listed_upto(m, s, r, n),
    ensures
        forall|j: int|
            0 <= j < n + 1 ==> exists|x: int|
                0 <= x < r.insert(pos, h).len() && (#[trigger] r.insert(pos, h)[x]).id == *(
                #[trigger] s[j]).0,
{
    let q = r.insert(pos, h);
    assert forall|j: int| 0 <= j < n + 1 implies exists|x: int|
        0 <= x < q.len() && (#[trigger] q[x]).id == *(#[trigger] s[j]).0 by {
        if j == n {
            assert(q[pos].id == *s[j].0);
        } else {
            let x = choose|x: int| 0 <= x < r.len() && (#[trigger] r[x]).id == *(#[trigger] s[j]).0;
            if x < pos {
                assert(q[x] == r[x]);
            } else {
                assert(q[x + 1] == r[x]);
            }
        }
    }
}

/// Inserting the record of the walk's next entry at its sorted position
/// extends the listing by that entry.
proof fn lemma_list_step(
    m: Map<AgentId, AgentHandle>,
    s: Seq<(&AgentId, &AgentHandle)>,
    n: int,
    r: Seq<&AgentHandle>,
    pos: int,
    h: &AgentHandle,
)
    requires
        walk_of(m, s),
        0 <= n < s.len(),
        s[n].1 == h,
        listed_upto(m, s, r, n),
        0 <= pos <= r.len(),
        forall|x: int| 0 <= x < pos ==> r[x].id < h.id,
        forall|x: int| pos <= x < r.len() ==> r[x].id >= h.id,
    ensures
        listed_upto(m, s, r.insert(pos, h), n + 1),
{
    assert(m[*s[n].0] == *h);
    assert(h.id == *s[n].0);
    lemma_next_id_is_new(m, s, n, r, pos);
    lemma_insert_keeps_order(r, pos, h);
    lemma_list_step_records(m, s, n, r, pos, h);
    lemma_list_step_cover(m, s, n, r, pos, h);
}

impl AgentManager {
    #[verifier::type_invariant]
    spec fn keyed(self) -> bool {
        keyed_by_id(self.agents@)
    }

    /// The registered agents, by id.
    pub closed spec fn agents_view(self) -> Map<AgentId, AgentHandle> {
        self.agents@
    }

    /// The id the next call of [`Self::next_id`] hands out.
    pub closed spec fn spec_next_id(self) -> AgentId {
        self.next_id
    }

    /// Whether agent `id` is registered.
    pub open spec fn has(self, id: AgentId) -> bool {
        self.agents_view().contains_key(id)
    }

    /// The record of the registered agent `id`.
    pub open spec fn lookup(self, id: AgentId) -> AgentHandle {
        self.agents_view()[id]
    }

    /// Whether `candidate` descends from `ancestor` along the parent links
    /// (child, grandchild, …), walking at most as many links as there are
    /// agents so a cyclic chain cannot loop.
    pub open spec fn descends(self, candidate: AgentId, ancestor: AgentId) -> bool {
        reaches(self.agents_view(), candidate, ancestor, self.agents_view().len())
    }

    /// An empty registry whose first id is 1.
    pub fn new() -> (r: Self)
        ensures
            r.agents_view() == Map::<AgentId, AgentHandle>::empty(),
            r.spec_next_id() == 1,
    {
        AgentManager { agents: HashMap::new(), next_id: 1 }
    }

    /// Allocate the next agent id (ids count up from 1, wrapping at the end
    /// of the `u64` range).
    pub fn next_id(&mut self) -> (r: AgentId)
        ensures
            r == old(self).spec_next_id(),
            final(self).spec_next_id() == (if r == u64::MAX { 0 } else { (r + 1) as u64 }),
            final(self).agents_view() == old(self).agents_view(),
    {
        proof {
            use_type_invariant(&*self);
        }
        let r = self.next_id;
        self.next_id = if r == u64::MAX {
            0
        } else {
            r + 1
        };
        r
    }

    /// Register an agent handle under its id, replacing an earlier one with
    /// the same id.
    pub fn register(&mut self, handle: AgentHandle)
        ensures
            final(self).agents_view() == old(self).agents_view().insert(handle.id, handle),
            final(self).spec_next_id() == old(self).spec_next_id(),
    {
        proof {
            use_type_invariant(&*self);
        }
        let mut agents: HashMap<AgentId, AgentHandle> = HashMap::new();
        std::mem::swap(&mut agents, &mut self.agents);
        let id = handle.id;
        agents.insert(id, handle);
        self.agents = agents;
    }

    /// Sends a command to agent `id`'s inbox. An unknown agent refuses
    /// it; a known one may refuse it too (its inbox is full or closed).
    /// A refused command comes back unchanged in the error.
    pub fn send(&self, id: AgentId, cmd: AgentCommand) -> (r: Result<(), AgentCommand>)
        ensures
            !self.has(id) ==> r == Err::<(), AgentCommand>(cmd),
            r matches Err(c) ==> c == cmd,
    {
        match self.get(id) {
            Some(h) => try_send_command(&h.command_tx, cmd),
            None => Err(cmd),
        }
    }

    /// All agent handles, in increasing id order.
    pub fn list(&self) -> (r: Vec<&AgentHandle>)
        ensures
            r@.len() == self.agents_view().len(),
            forall|k: int|
                0 <= k < r@.len() ==> self.has(#[trigger] r@[k].id) && *r@[k] == self.lookup(
                    r@[k].id,
                ),
            forall|id: AgentId| #[trigger] self.has(id) ==> exists|k: int| 0 <= k < r@.len() && r@[k].id == id,
            forall|i: int, j: int| 0 <= i < j < r@.len() ==> r@[i].id < r@[j].id,
    {
        proof {
            use_type_invariant(self);
        }
        let ghost m = self.agents@;
        let ghost s = spec_hash_map_iter(&self.agents).remaining();
        let ghost mut n: int = 0;
        let mut r: Vec<&AgentHandle> = Vec::new();
        for (k, h) in it: self.agents.iter()
            invariant
                it.seq() == s,
                n == it.index(),
                m == self.agents@,
                walk_of(m, s),
                listed_upto(m, s, r@, n),
        {
            assert(s[n] == (k, h));
            let pos = sorted_position(&r, h.id);
            proof {
                lemma_list_step(m, s, n, r@, pos as int, h);
            }
            r.insert(pos, h);
            proof {
                n = n + 1;
            }
        }
        proof {
            assert(n == s.len());
            assert forall|id: AgentId| #[trigger] self.has(id) implies exists|k: int|
                0 <= k < r@.len() && r@[k].id == id by {
                assert(s.contains((&id, &m[id])));
                let j = choose|j: int| 0 <= j < s.len() && s[j] == (&id, &m[id]);
                assert(*s[j].0 == id);
            }
        }
        r
    }

    /// Get an agent handle by id.
    pub fn get(&self, id: AgentId) -> (r: Option<&AgentHandle>)
        ensures
            match r {
                Some(h) => self.has(id) && *h == self.lookup(id),
                None => !self.has(id),
            },
    {
        self.agents.get(&id)
    }

    /// The parent agent that spawned the given agent, if any; `None` for
    /// the main/UI agents and for unknown ids.
    pub fn parent_id(&self, id: AgentId) -> (r: Option<AgentId>)
        ensures
            r == (if self.has(id) { self.lookup(id).parent_id } else { None }),
    {
        match self.get(id) {
            Some(h) => h.parent_id,
            None => None,
        }
    }

    /// The role the given agent was spawned with, if any.
    pub fn role(&self, id: AgentId) -> (r: Option<String>)
        ensures
            r == (if self.has(id) { self.lookup(id).role } else { None }),
    {
        match self.get(id) {
            Some(h) => match &h.role {
                Some(role) => Some(role.clone()),
                None => None,
            },
            None => None,
        }
    }

    /// Mark an agent as running (or not). No-op for an unknown agent.
    pub fn set_running(&mut self, id: AgentId, running: bool)
        ensures
            final(self).agents_view() == (if old(self).has(id) {
                old(self).agents_view().insert(
                    id,
                    AgentHandle {
                        running: running,
                        has_ever_started: old(self).lookup(id).has_ever_started || running,
                        ..old(self).lookup(id)
                    },
                )
            } else {
                old(self).agents_view()
            }),
            final(self).spec_next_id() == old(self).spec_next_id(),
    {
        proof {
            use_type_invariant(&*self);
        }
        let mut agents: HashMap<AgentId, AgentHandle> = HashMap::new();
        std::mem::swap(&mut agents, &mut self.agents);
        let ghost before = agents@;
        match agents.remove(&id) {
            Some(mut h) => {
                h.set_running(running);
                agents.insert(id, h);
                assert(agents@ =~= before.insert(id, h));
            },
            None => {
                assert(agents@ =~= before);
            },
        }
        self.agents = agents;
    }

    /// Remove an agent (after it exits).
    pub fn remove(&mut self, id: AgentId)
        ensures
            final(self).agents_view() == old(self).agents_view().remove(id),
            final(self).spec_next_id() == old(self).spec_next_id(),
    {
        proof {
            use_type_invariant(&*self);
        }
        let mut agents: HashMap<AgentId, AgentHandle> = HashMap::new();
        std::mem::swap(&mut agents, &mut self.agents);
        let ghost before = agents@;
        agents.remove(&id);
        assert(agents@ =~= before.remove(id));
        self.agents = agents;
    }

    /// The id of the main agent: the agent without a parent that has the
    /// smallest id. `None` when no parentless agent is registered.
    /// Sub-agents (with a recorded parent) are never returned.
    pub fn main_agent_id(&self) -> (r: Option<AgentId>)
        ensures
            match r {
                Some(m) => self.has(m) && self.lookup(m).parent_id is None && forall|x: AgentId|
                    #[trigger] self.has(x) && self.lookup(x).parent_id is None ==> m <= x,
                None => forall|x: AgentId| #[trigger] self.has(x) ==> self.lookup(x).parent_id is Some,
            },
    {
        proof {
            use_type_invariant(self);
        }
        let ghost m = self.agents@;
        let ghost s = spec_hash_map_iter(&self.agents).remaining();
        let ghost mut n: int = 0;
        let mut best: Option<AgentId> = None;
        for (k, h) in it: self.agents.iter()
            invariant
                it.seq() == s,
                n == it.index(),
                m == self.agents@,
                keyed_by_id(m),
                s.len() == m.dom().len(),
                forall|x: int| 0 <= x < s.len() ==> m.contains_key(*s[x].0) && m[*s[x].0] == *s[x].1,
                match best {
                    Some(b) => m.contains_key(b) && m[b].parent_id is None && forall|j: int|
                        0 <= j < n && (#[trigger] s[j]).1.parent_id is None ==> b <= *s[j].0,
                    None => forall|j: int| 0 <= j < n ==> (#[trigger] s[j]).1.parent_id is Some,
                },
        {
            assert(s[n] == (k, h));
            assert(h.id == *k);
            if h.parent_id.is_none() {
                match best {
                    Some(b) => {
                        if *k < b {
                            best = Some(*k);
                        }
                    },
                    None => {
                        best = Some(*k);
                    },
                }
            }
            proof {
                n = n + 1;
            }
        }
        proof {
            assert(n == s.len());
            assert forall|x: AgentId| #[trigger] self.has(x) implies exists|j: int|
                0 <= j < s.len() && *s[j].0 == x && *s[j].1 == m[x] by {
                assert(s.contains((&x, &m[x])));
                let j = choose|j: int| 0 <= j < s.len() && s[j] == (&x, &m[x]);
                assert(*s[j].0 == x);
            }
        }
        best
    }

    /// Whether `candidate` is a descendant of `ancestor` via the parent
    /// chain (child, parent, grandparent, …), bounded by the number of
    /// registered agents so a cyclic chain cannot loop.
    pub fn is_descendant_of(&self, candidate: AgentId, ancestor: AgentId) -> (r: bool)
        ensures
            r == self.descends(candidate, ancestor),
    {
        let mut current = candidate;
        let mut n: usize = 0;
        let len = self.agents.len();
        while n < len
            invariant
                n <= len,
                len == self.agents_view().len(),
                reaches(self.agents_view(), current, ancestor, (len - n) as nat) == self.descends(
                    candidate,
                    ancestor,
                ),
            decreases len - n,
        {
            match self.parent_id(current) {
                Some(parent) => {
                    if parent == ancestor {
                        return true;
                    }
                    current = parent;
                },
                None => {
                    return false;
                },
            }
            n = n + 1;
        }
        false
    }

    /// Whether any registered agent is a running descendant of `id`
    /// (a direct child, or a child of a child, …).
    pub fn has_running_descendants(&self, id: AgentId) -> (r: bool)
        ensures
            r == exists|x: AgentId|
                #[trigger] self.has(x) && self.lookup(x).running && self.descends(x, id),
    {
        proof {
            use_type_invariant(self);
        }
        let ghost m = self.agents@;
        let ghost s = spec_hash_map_iter(&self.agents).remaining();
        let ghost mut n: int = 0;
        let mut found = false;
        for (k, h) in it: self.agents.iter()
            invariant
                it.seq() == s,
                n == it.index(),
                m == self.agents@,
                keyed_by_id(m),
                s.len() == m.dom().len(),
                forall|x: int| 0 <= x < s.len() ==> m.contains_key(*s[x].0) && m[*s[x].0] == *s[x].1,
                found == exists|j: int|
                    0 <= j < n && (#[trigger] s[j]).1.running && self.descends(*s[j].0, id),
        {
            assert(s[n] == (k, h));
            if h.running && self.is_descendant_of(*k, id) {
                found = true;
            }
            proof {
                n = n + 1;
            }
        }
        proof {
            assert(n == s.len());
            if found {
                let j = choose|j: int| 0 <= j < n && (#[trigger] s[j]).1.running && self.descends(*s[j].0, id);
                assert(self.has(*s[j].0));
            }
            if exists|x: AgentId| #[trigger] self.has(x) && self.lookup(x).running && self.descends(x, id) {
                let x = choose|x: AgentId| #[trigger] self.has(x) && self.lookup(x).running && self.descends(x, id);
                assert(s.contains((&x, &m[x])));
                let j = choose|j: int| 0 <= j < s.len() && s[j] == (&x, &m[x]);
                assert(*s[j].0 == x);
            }
        }
        found
    }

    /// Number of registered agents.
    pub fn len(&self) -> (r: usize)
        ensures
            r == self.agents_view().len(),
    {
        self.agents.len()
    }

    /// Whether no agent is registered.
    pub fn is_empty(&self) -> (r: bool)
        ensures
            r == (self.agents_view().len() == 0),
    {
        proof {
            use_type_invariant(self);
        }
        self.agents.len() == 0
    }
}

/// A registered agent whose parent is `a` descends from `a`.
pub proof fn law_child_is_descendant(m: Map<AgentId, AgentHandle>, c: AgentId, a: AgentId)
    requires
        m.dom().finite(),
        m.contains_key(c),
        m[c].parent_id == Some(a),
    ensures
        reaches(m, c, a, m.len()),
{
    assert(m.dom().remove(c).len() + 1 == m.dom().len());
}

/// A registered agent whose registered parent's parent is `a` (a
/// grandchild) descends from `a` too.
pub proof fn law_grandchild_is_descendant(
    m: Map<AgentId, AgentHandle>,
    c: AgentId,
    p: AgentId,
    a: AgentId,
)
    requires
        m.dom().finite(),
        m.contains_key(c),
        m[c].parent_id == Some(p),
        m.contains_key(p),
        m[p].parent_id == Some(a),
    ensures
        reaches(m, c, a, m.len()),
{
    let d = m.dom();
    assert(d.remove(c).len() + 1 == d.len());
    if p != a {
        assert(c != p);
        assert(d.remove(c).contains(p));
        assert(d.remove(c).remove(p).len() + 1 == d.remove(c).len());
        assert(reaches(m, p, a, (m.len() - 1) as nat));
    }
}

} // verus!
