//! What an agent's tools know about the agent.

use std::any::TypeId;
use std::sync::Arc;

use vstd::prelude::*;

use crate::json::{Json, JsonTree};
use crate::maps;
use crate::maps::StringMap;
use crate::text;

verus! {

// ---------------------------------------------------------------------------
// Resources
// ---------------------------------------------------------------------------

/// The identity of a type.
#[verifier::external_type_specification]
#[verifier::external_body]
pub struct ExTypeId(TypeId);

/// Compares two types by `==` of `std::any::TypeId`: the identities are equal
/// exactly if the types are.
#[verifier::external_body]
fn same_type(a: &TypeId, b: &TypeId) -> (r: bool)
    ensures
        r == (*a == *b),
{
    a == b
}

/// A copy of a shared value, by `clone` of `std::sync::Arc`: it shares the value.
#[verifier::external_body]
fn share<R>(a: &Arc<R>) -> (r: Arc<R>)
    ensures
        r == *a,
{
    a.clone()
}

/// Shared values, one for each type of them.
pub struct ResourceMap<R> {
    entries: Vec<(TypeId, Arc<R>)>,
}

/// Whether an entry of a list is for a type.
spec fn keyed<R>(entries: Seq<(TypeId, Arc<R>)>, i: int, kind: TypeId) -> bool {
    0 <= i < entries.len() && entries[i].0 == kind
}

impl<R> Default for ResourceMap<R> {
    fn default() -> (r: ResourceMap<R>)
        ensures
            r@ == Map::<TypeId, Arc<R>>::empty(),
    {
        ResourceMap::new()
    }
}

impl<R> ResourceMap<R> {
    #[verifier::type_invariant]
    spec fn distinct(self) -> bool {
        forall|i: int, j: int|
            0 <= i < j < self.entries@.len() ==> (#[trigger] self.entries@[i]).0 != (
            #[trigger] self.entries@[j]).0
    }

    /// The values by their types.
    pub closed spec fn view(&self) -> Map<TypeId, Arc<R>> {
        Map::new(
            |k: TypeId| exists|i: int| keyed(self.entries@, i, k),
            |k: TypeId| self.entries@[choose|i: int| keyed(self.entries@, i, k)].1,
        )
    }

    /// No values.
    pub fn new() -> (r: ResourceMap<R>)
        ensures
            r@ == Map::<TypeId, Arc<R>>::empty(),
    {
        let r = ResourceMap { entries: Vec::new() };
        assert(r@ =~= Map::empty()) by {
            assert forall|k: TypeId| !r@.dom().contains(k) by {
                assert(!exists|i: int| keyed(r.entries@, i, k));
            }
        }
        r
    }

    /// The place of a type.
    fn place(&self, kind: &TypeId) -> (r: Option<usize>)
        ensures
            match r {
                Some(i) => keyed(self.entries@, i as int, *kind) && self@.dom().contains(*kind)
                    && self@[*kind] == self.entries@[i as int].1,
                None => !self@.dom().contains(*kind) && forall|i: int|
                    !keyed(self.entries@, i, *kind),
            },
    {
        let mut i: usize = 0;
        while i < self.entries.len()
            invariant
                i <= self.entries.len(),
                forall|j: int| 0 <= j < i ==> (#[trigger] self.entries@[j]).0 != *kind,
            decreases self.entries.len() - i,
        {
            if same_type(&self.entries[i].0, kind) {
                proof {
                    use_type_invariant(self);
                    assert(keyed(self.entries@, i as int, *kind));
                    let c = choose|j: int| keyed(self.entries@, j, *kind);
                    assert(c == i);
                }
                return Some(i);
            }
            i += 1;
        }
        None
    }

    /// Puts a value in, in place of another of its type.
    pub fn insert(&mut self, kind: TypeId, value: R)
        ensures
            final(self)@ == old(self)@.insert(kind, Arc::new(value)),
    {
        self.insert_arc(kind, Arc::new(value));
    }

    /// Puts a shared value in, in place of another of its type.
    pub fn insert_arc(&mut self, kind: TypeId, value: Arc<R>)
        ensures
            final(self)@ == old(self)@.insert(kind, value),
    {
        proof {
            use_type_invariant(&*self);
        }
        self.remove(&kind);
        let ghost mid = self@;
        proof {
            use_type_invariant(&*self);
        }
        let mut entries: Vec<(TypeId, Arc<R>)> = Vec::new();
        std::mem::swap(&mut entries, &mut self.entries);
        let ghost was = entries@;
        proof {
            assert forall|j: int| 0 <= j < was.len() implies (#[trigger] was[j]).0 != kind by {
                if was[j].0 == kind {
                    assert(keyed(was, j, kind));
                    assert(mid.dom().contains(kind));
                }
            }
        }
        entries.push((kind, value));
        self.entries = entries;
        proof {
            assert forall|k: TypeId| #[trigger]
                self@.dom().contains(k) == mid.insert(kind, value).dom().contains(k) by {
                if k == kind {
                    assert(keyed(entries@, was.len() as int, k));
                } else {
                    if exists|j: int| keyed(was, j, k) {
                        let j = choose|j: int| keyed(was, j, k);
                        assert(keyed(entries@, j, k));
                    }
                    if exists|j: int| keyed(entries@, j, k) {
                        let j = choose|j: int| keyed(entries@, j, k);
                        assert(keyed(was, j, k));
                    }
                }
            }
            assert forall|k: TypeId| #[trigger] self@.dom().contains(k) implies self@[k]
                == mid.insert(kind, value)[k] by {
                let j = choose|j: int| keyed(entries@, j, k);
                if k != kind {
                    assert(keyed(was, j, k));
                    let j2 = choose|j: int| keyed(was, j, k);
                    assert(j == j2);
                }
            }
            assert(self@ =~= mid.insert(kind, value));
            assert(mid.insert(kind, value) =~= old(self)@.insert(kind, value));
        }
    }

    /// The value of a type.
    pub fn get(&self, kind: &TypeId) -> (r: Option<Arc<R>>)
        ensures
            match r {
                Some(v) => self@.dom().contains(*kind) && self@[*kind] == v,
                None => !self@.dom().contains(*kind),
            },
    {
        match self.place(kind) {
            Some(i) => Some(share(&self.entries[i].1)),
            None => None,
        }
    }

    /// Whether there is a value of a type.
    pub fn contains(&self, kind: &TypeId) -> (r: bool)
        ensures
            r == self@.dom().contains(*kind),
    {
        self.place(kind).is_some()
    }

    /// Takes the value of a type out.
    pub fn remove(&mut self, kind: &TypeId) -> (r: Option<Arc<R>>)
        ensures
            final(self)@ == old(self)@.remove(*kind),
            match r {
                Some(v) => old(self)@.dom().contains(*kind) && old(self)@[*kind] == v,
                None => !old(self)@.dom().contains(*kind),
            },
    {
        proof {
            use_type_invariant(&*self);
        }
        match self.place(kind) {
            Some(i) => {
                let mut entries: Vec<(TypeId, Arc<R>)> = Vec::new();
                std::mem::swap(&mut entries, &mut self.entries);
                let ghost was = entries@;
                let e = entries.remove(i);
                self.entries = entries;
                proof {
                    assert forall|k: TypeId| #[trigger]
                        self@.dom().contains(k) == old(self)@.remove(*kind).dom().contains(k) by {
                        if k != *kind && exists|j: int| keyed(was, j, k) {
                            let j = choose|j: int| keyed(was, j, k);
                            let j2 = if j < i {
                                j
                            } else {
                                j - 1
                            };
                            assert(keyed(entries@, j2, k));
                        }
                        if exists|j: int| keyed(entries@, j, k) {
                            let j = choose|j: int| keyed(entries@, j, k);
                            let j2 = if j < i {
                                j
                            } else {
                                j + 1
                            };
                            assert(keyed(was, j2, k));
                        }
                    }
                    assert forall|k: TypeId| #[trigger] self@.dom().contains(k) implies self@[k]
                        == old(self)@.remove(*kind)[k] by {
                        let j = choose|j: int| keyed(entries@, j, k);
                        let j2 = if j < i {
                            j
                        } else {
                            j + 1
                        };
                        assert(keyed(was, j2, k));
                        let j3 = choose|j: int| keyed(was, j, k);
                        assert(j2 == j3);
                    }
                    assert(self@ =~= old(self)@.remove(*kind));
                }
                Some(e.1)
            },
            None => {
                assert(self@ =~= old(self)@.remove(*kind));
                None
            },
        }
    }

    /// How many values there are.
    pub fn len(&self) -> (r: usize)
        ensures
            r == self@.dom().len(),
            self@.dom().finite(),
    {
        proof {
            use_type_invariant(self);
            let kinds = Seq::new(self.entries@.len(), |i: int| self.entries@[i].0);
            assert forall|i: int, j: int|
                0 <= i < kinds.len() && 0 <= j < kinds.len() && i != j implies kinds[i]
                != kinds[j] by {
                if i < j {
                    assert(self.entries@[i].0 != self.entries@[j].0);
                } else {
                    assert(self.entries@[j].0 != self.entries@[i].0);
                }
            }
            assert(kinds.no_duplicates());
            kinds.unique_seq_to_set();
            assert forall|k: TypeId| kinds.to_set().contains(k) == self@.dom().contains(k) by {
                if kinds.contains(k) {
                    let i = choose|i: int| 0 <= i < kinds.len() && kinds[i] == k;
                    assert(keyed(self.entries@, i, k));
                }
                if self@.dom().contains(k) {
                    let i = choose|i: int| keyed(self.entries@, i, k);
                    assert(kinds[i] == k);
                }
            }
            assert(kinds.to_set() =~= self@.dom());
        }
        self.entries.len()
    }

    /// Whether there are no values.
    pub fn is_empty(&self) -> (r: bool)
        ensures
            r == (self@.dom().len() == 0),
            self@.dom().finite(),
    {
        self.len() == 0
    }

    /// Takes all values out.
    pub fn clear(&mut self)
        ensures
            final(self)@ == Map::<TypeId, Arc<R>>::empty(),
    {
        self.entries = Vec::new();
        assert(self@ =~= Map::empty()) by {
            assert forall|k: TypeId| !self@.dom().contains(k) by {
                assert(!exists|i: int| keyed(self.entries@, i, k));
            }
        }
    }

    /// A map that shares the same values.
    pub fn copy(&self) -> (r: ResourceMap<R>)
        ensures
            r@ == self@,
    {
        let mut entries: Vec<(TypeId, Arc<R>)> = Vec::new();
        let mut i: usize = 0;
        while i < self.entries.len()
            invariant
                i <= self.entries.len(),
                entries@ == self.entries@.take(i as int),
            decreases self.entries.len() - i,
        {
            entries.push((self.entries[i].0, share(&self.entries[i].1)));
            i += 1;
            assert(entries@ =~= self.entries@.take(i as int));
        }
        assert(entries@ =~= self.entries@);
        proof {
            use_type_invariant(self);
        }
        ResourceMap { entries }
    }
}

// ---------------------------------------------------------------------------
// The context of an agent
// ---------------------------------------------------------------------------

/// What an agent's tools know about the agent.
pub struct AgentContext<R> {
    pub session_id: String,
    pub agent_type: String,
    pub name: String,
    pub description: String,
    /// The session of the agent that started this one.
    pub parent_session_id: Option<String>,
    /// The use of a tool that started this agent.
    pub parent_tool_use_id: Option<String>,
    pub current_turn: usize,
    /// The use of a tool that is under way.
    pub current_tool_use_id: Option<String>,
    pub metadata: StringMap<Json>,
    pub resources: ResourceMap<R>,
}

/// What an agent's tools know about the agent.
#[verifier::ext_equal]
pub struct ContextModel<R> {
    pub session_id: Seq<char>,
    pub agent_type: Seq<char>,
    pub name: Seq<char>,
    pub description: Seq<char>,
    pub parent_session_id: Option<Seq<char>>,
    pub parent_tool_use_id: Option<Seq<char>>,
    pub current_turn: nat,
    pub current_tool_use_id: Option<Seq<char>>,
    pub metadata: Map<Seq<char>, JsonTree>,
    pub resources: Map<TypeId, Arc<R>>,
}

/// The context of an agent that nothing has happened to yet.
pub open spec fn fresh_context<R>(
    session_id: Seq<char>,
    agent_type: Seq<char>,
    name: Seq<char>,
    description: Seq<char>,
) -> ContextModel<R> {
    ContextModel {
        session_id,
        agent_type,
        name,
        description,
        parent_session_id: None,
        parent_tool_use_id: None,
        current_turn: 0,
        current_tool_use_id: None,
        metadata: Map::empty(),
        resources: Map::empty(),
    }
}

impl<R> AgentContext<R> {
    /// What the context holds.
    pub open spec fn view(&self) -> ContextModel<R> {
        ContextModel {
            session_id: self.session_id@,
            agent_type: self.agent_type@,
            name: self.name@,
            description: self.description@,
            parent_session_id: text::opt_view(self.parent_session_id),
            parent_tool_use_id: text::opt_view(self.parent_tool_use_id),
            current_turn: self.current_turn as nat,
            current_tool_use_id: text::opt_view(self.current_tool_use_id),
            metadata: maps::tree_map(self.metadata@),
            resources: self.resources@,
        }
    }

    /// The context of an agent that no other agent started.
    pub fn new(session_id: &str, agent_type: &str, name: &str, description: &str) -> (r:
        AgentContext<R>)
        ensures
            r@ == fresh_context::<R>(session_id@, agent_type@, name@, description@),
    {
        let r = AgentContext {
            session_id: session_id.to_string(),
            agent_type: agent_type.to_string(),
            name: name.to_string(),
            description: description.to_string(),
            parent_session_id: None,
            parent_tool_use_id: None,
            current_turn: 0,
            current_tool_use_id: None,
            metadata: StringMap::new(),
            resources: ResourceMap::new(),
        };
        assert(r@.metadata =~= Map::empty());
        r
    }

    /// The context of an agent that another agent started.
    pub fn new_subagent(
        session_id: &str,
        agent_type: &str,
        name: &str,
        description: &str,
        parent_session_id: &str,
        parent_tool_use_id: &str,
    ) -> (r: AgentContext<R>)
        ensures
            r@ == (ContextModel {
                parent_session_id: Some(parent_session_id@),
                parent_tool_use_id: Some(parent_tool_use_id@),
                ..fresh_context::<R>(session_id@, agent_type@, name@, description@)
            }),
    {
        let r = AgentContext {
            parent_session_id: Some(parent_session_id.to_string()),
            parent_tool_use_id: Some(parent_tool_use_id.to_string()),
            ..AgentContext::new(session_id, agent_type, name, description)
        };
        r
    }

    /// Whether another agent started this one.
    pub fn is_subagent(&self) -> (r: bool)
        ensures
            r == (self@.parent_session_id is Some),
    {
        self.parent_session_id.is_some()
    }

    /// Counts a turn.
    pub fn next_turn(&mut self)
        requires
            old(self).current_turn < usize::MAX,
        ensures
            final(self)@ == (ContextModel { current_turn: old(self)@.current_turn + 1, ..old(self)@
            }),
    {
        self.current_turn = self.current_turn + 1;
    }

    /// The context for a use of a tool. It shares the resources.
    pub fn with_tool_use_id(&self, tool_use_id: &str) -> (r: AgentContext<R>)
        ensures
            r@ == (ContextModel { current_tool_use_id: Some(tool_use_id@), ..self@ }),
    {
        AgentContext { current_tool_use_id: Some(tool_use_id.to_string()), ..self.copy() }
    }

    /// The same context. It shares the resources.
    pub fn copy(&self) -> (r: AgentContext<R>)
        ensures
            r@ == self@,
    {
        AgentContext {
            session_id: self.session_id.clone(),
            agent_type: self.agent_type.clone(),
            name: self.name.clone(),
            description: self.description.clone(),
            parent_session_id: text::copy_opt(&self.parent_session_id),
            parent_tool_use_id: text::copy_opt(&self.parent_tool_use_id),
            current_turn: self.current_turn,
            current_tool_use_id: text::copy_opt(&self.current_tool_use_id),
            metadata: maps::copy_values(&self.metadata),
            resources: self.resources.copy(),
        }
    }

    /// The use of a tool is over.
    pub fn clear_tool_use_id(&mut self)
        ensures
            final(self)@ == (ContextModel { current_tool_use_id: None, ..old(self)@ }),
    {
        self.current_tool_use_id = None;
    }

    /// Puts a value under a key.
    pub fn set_metadata(&mut self, key: &str, value: Json)
        ensures
            final(self)@ == (ContextModel {
                metadata: old(self)@.metadata.insert(key@, value@),
                ..old(self)@
            }),
    {
        let _ = self.metadata.insert(key.to_string(), value);
        assert(self@.metadata =~= old(self)@.metadata.insert(key@, value@));
    }

    /// The value under a key.
    pub fn get_metadata(&self, key: &str) -> (r: Option<&Json>)
        ensures
            match r {
                Some(v) => self@.metadata.dom().contains(key@) && self@.metadata[key@] == v@,
                None => !self@.metadata.dom().contains(key@),
            },
    {
        self.metadata.get(key)
    }

    /// The text under a key.
    pub fn get_metadata_str(&self, key: &str) -> (r: Option<&str>)
        ensures
            match r {
                Some(s) => self@.metadata.dom().contains(key@) && self@.metadata[key@]
                    == JsonTree::Text(s@),
                None => !self@.metadata.dom().contains(key@) || !(self@.metadata[key@] is Text),
            },
    {
        match self.metadata.get(key) {
            Some(v) => match v.as_text() {
                Some(s) => Some(s.as_str()),
                None => None,
            },
            None => None,
        }
    }

    /// Takes the value under a key out.
    pub fn remove_metadata(&mut self, key: &str) -> (r: Option<Json>)
        ensures
            final(self)@ == (ContextModel {
                metadata: old(self)@.metadata.remove(key@),
                ..old(self)@
            }),
            match r {
                Some(v) => old(self)@.metadata.dom().contains(key@) && old(self)@.metadata[key@]
                    == v@,
                None => !old(self)@.metadata.dom().contains(key@),
            },
    {
        let r = self.metadata.remove(key);
        assert(self@.metadata =~= old(self)@.metadata.remove(key@));
        r
    }

    /// Whether there is a value under a key.
    pub fn has_metadata(&self, key: &str) -> (r: bool)
        ensures
            r == self@.metadata.dom().contains(key@),
    {
        self.metadata.contains_key(key)
    }

    /// Puts a resource in, in place of another of its type.
    pub fn insert_resource(&mut self, kind: TypeId, value: R)
        ensures
            final(self)@ == (ContextModel {
                resources: old(self)@.resources.insert(kind, Arc::new(value)),
                ..old(self)@
            }),
    {
        self.resources.insert(kind, value);
    }

    /// Puts a shared resource in, in place of another of its type.
    pub fn insert_resource_arc(&mut self, kind: TypeId, value: Arc<R>)
        ensures
            final(self)@ == (ContextModel {
                resources: old(self)@.resources.insert(kind, value),
                ..old(self)@
            }),
    {
        self.resources.insert_arc(kind, value);
    }

    /// The resource of a type.
    pub fn get_resource(&self, kind: &TypeId) -> (r: Option<Arc<R>>)
        ensures
            match r {
                Some(v) => self@.resources.dom().contains(*kind) && self@.resources[*kind] == v,
                None => !self@.resources.dom().contains(*kind),
            },
    {
        self.resources.get(kind)
    }

    /// Whether there is a resource of a type.
    pub fn has_resource(&self, kind: &TypeId) -> (r: bool)
        ensures
            r == self@.resources.dom().contains(*kind),
    {
        self.resources.contains(kind)
    }

    /// Takes the resource of a type out.
    pub fn remove_resource(&mut self, kind: &TypeId) -> (r: Option<Arc<R>>)
        ensures
            final(self)@ == (ContextModel {
                resources: old(self)@.resources.remove(*kind),
                ..old(self)@
            }),
            match r {
                Some(v) => old(self)@.resources.dom().contains(*kind) && old(self)@.resources[*kind]
                    == v,
                None => !old(self)@.resources.dom().contains(*kind),
            },
    {
        self.resources.remove(kind)
    }
}

impl<R> Default for AgentContext<R> {
    fn default() -> (r: AgentContext<R>)
        ensures
            r@ == fresh_context::<R>(
                "unknown"@,
                "unknown"@,
                "Unnamed Agent"@,
                "No description"@,
            ),
    {
        AgentContext::new("unknown", "unknown", "Unnamed Agent", "No description")
    }
}

// ---------------------------------------------------------------------------
// Laws
// ---------------------------------------------------------------------------

/// A resource is found again until another of its type is put in, and resources of
/// other types stay as they were.
pub proof fn resources_keep_apart<R>(
    c: ContextModel<R>,
    kind: TypeId,
    other: TypeId,
    value: Arc<R>,
)
    requires
        kind != other,
    ensures
        ({
            let after = ContextModel { resources: c.resources.insert(kind, value), ..c };
            &&& after.resources.dom().contains(kind)
            &&& after.resources[kind] == value
            &&& after.resources.dom().contains(other) == c.resources.dom().contains(other)
            &&& c.resources.dom().contains(other) ==> after.resources[other]
                == c.resources[other]
        }),
{
}

/// What is put under a key is found under it, and nothing else changes; what is
/// taken out is gone.
pub proof fn metadata_reads_back<R>(
    c: ContextModel<R>,
    key: Seq<char>,
    other: Seq<char>,
    value: JsonTree,
)
    requires
        key != other,
    ensures
        ({
            let put = ContextModel { metadata: c.metadata.insert(key, value), ..c };
            let out = ContextModel { metadata: put.metadata.remove(key), ..put };
            &&& put.metadata.dom().contains(key) && put.metadata[key] == value
            &&& put.metadata.dom().contains(other) == c.metadata.dom().contains(other)
            &&& c.metadata.dom().contains(other) ==> put.metadata[other] == c.metadata[other]
            &&& !out.metadata.dom().contains(key)
        }),
{
}

/// A new context is that of its session, before the first turn, with nothing under way.
pub proof fn new_contexts_are_bare<R>(
    session_id: Seq<char>,
    agent_type: Seq<char>,
    name: Seq<char>,
    description: Seq<char>,
)
    ensures
        ({
            let c = fresh_context::<R>(session_id, agent_type, name, description);
            &&& c.session_id == session_id && c.agent_type == agent_type
            &&& c.name == name && c.description == description
            &&& c.parent_session_id is None && c.parent_tool_use_id is None
            &&& c.current_turn == 0
            &&& c.current_tool_use_id is None
            &&& c.metadata == Map::<Seq<char>, JsonTree>::empty()
            &&& c.resources == Map::<TypeId, Arc<R>>::empty()
        }),
{
}

} // verus!
