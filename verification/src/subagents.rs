//! The agents that an agent started.

use vstd::prelude::*;

use crate::maps::StringMap;
use crate::text;

verus! {

/// What became of an agent that has ended.
#[derive(Debug)]
pub struct CompletedSubAgent {
    pub session_id: String,
    pub agent_type: String,
    pub result: Option<String>,
    pub success: bool,
    pub error: Option<String>,
}

/// What became of an agent that has ended.
pub struct CompletedModel {
    pub session_id: Seq<char>,
    pub agent_type: Seq<char>,
    pub result: Option<Seq<char>>,
    pub success: bool,
    pub error: Option<Seq<char>>,
}

impl View for CompletedSubAgent {
    type V = CompletedModel;

    open spec fn view(&self) -> CompletedModel {
        CompletedModel {
            session_id: self.session_id@,
            agent_type: self.agent_type@,
            result: text::opt_view(self.result),
            success: self.success,
            error: text::opt_view(self.error),
        }
    }
}

impl CompletedSubAgent {
    /// The same.
    pub fn copy(&self) -> (r: CompletedSubAgent)
        ensures
            r@ == self@,
    {
        CompletedSubAgent {
            session_id: self.session_id.clone(),
            agent_type: self.agent_type.clone(),
            result: text::copy_opt(&self.result),
            success: self.success,
            error: text::copy_opt(&self.error),
        }
    }
}

/// The agents that an agent started: those that run, each with a handle, and those
/// that have ended.
pub struct SubAgentManager<H> {
    active: StringMap<H>,
    completed: StringMap<CompletedSubAgent>,
}

/// The agents that an agent started.
#[verifier::ext_equal]
pub struct SubAgentModel<H> {
    pub active: Map<Seq<char>, H>,
    pub completed: Map<Seq<char>, CompletedModel>,
}

/// The agents with one more that runs.
pub open spec fn registered<H>(m: SubAgentModel<H>, id: Seq<char>, handle: H) -> SubAgentModel<H> {
    SubAgentModel { active: m.active.insert(id, handle), ..m }
}

/// The agents with one that has ended.
pub open spec fn ended<H>(m: SubAgentModel<H>, c: CompletedModel) -> SubAgentModel<H> {
    SubAgentModel {
        active: m.active.remove(c.session_id),
        completed: m.completed.insert(c.session_id, c),
    }
}

/// The agents without one.
pub open spec fn forgotten<H>(m: SubAgentModel<H>, id: Seq<char>) -> SubAgentModel<H> {
    SubAgentModel { active: m.active.remove(id), completed: m.completed.remove(id) }
}

/// Whether an agent is known.
pub open spec fn known<H>(m: SubAgentModel<H>, id: Seq<char>) -> bool {
    m.active.dom().contains(id) || m.completed.dom().contains(id)
}

/// The names in a list of agents.
pub open spec fn pair_names<H>(v: Seq<(String, &H)>) -> Seq<Seq<char>> {
    Seq::new(v.len(), |i: int| v[i].0@)
}

impl<H> Default for SubAgentManager<H> {
    fn default() -> (r: SubAgentManager<H>)
        ensures
            r@ == (SubAgentModel::<H> { active: Map::empty(), completed: Map::empty() }),
    {
        SubAgentManager::new()
    }
}

impl<H> SubAgentManager<H> {
    /// The agents.
    pub closed spec fn view(&self) -> SubAgentModel<H> {
        SubAgentModel {
            active: self.active@,
            completed: self.completed@.map_values(|c: CompletedSubAgent| c@),
        }
    }

    /// No agents.
    pub fn new() -> (r: SubAgentManager<H>)
        ensures
            r@ == (SubAgentModel::<H> { active: Map::empty(), completed: Map::empty() }),
    {
        let r = SubAgentManager { active: StringMap::new(), completed: StringMap::new() };
        assert(r@.completed =~= Map::empty());
        r
    }

    /// Notes an agent that was started.
    pub fn register(&mut self, session_id: &str, handle: H)
        ensures
            final(self)@ == registered(old(self)@, session_id@, handle),
    {
        let _ = self.active.insert(session_id.to_string(), handle);
    }

    /// The handle of an agent that runs.
    pub fn get(&self, session_id: &str) -> (r: Option<&H>)
        ensures
            match r {
                Some(h) => self@.active.dom().contains(session_id@) && self@.active[session_id@]
                    == *h,
                None => !self@.active.dom().contains(session_id@),
            },
    {
        self.active.get(session_id)
    }

    /// Whether an agent is known.
    pub fn is_known(&self, session_id: &str) -> (r: bool)
        ensures
            r == known(self@, session_id@),
    {
        self.active.contains_key(session_id) || self.completed.contains_key(session_id)
    }

    /// Whether an agent runs.
    pub fn is_active(&self, session_id: &str) -> (r: bool)
        ensures
            r == self@.active.dom().contains(session_id@),
    {
        self.active.contains_key(session_id)
    }

    /// The names of the agents that run.
    pub fn active_session_ids(&self) -> (r: Vec<String>)
        ensures
            text::views(r@).no_duplicates(),
            forall|k: Seq<char>| text::views(r@).contains(k) == self@.active.dom().contains(k),
    {
        self.active.names()
    }

    /// The agents that run, each with its handle.
    pub fn active_subagents(&self) -> (r: Vec<(String, &H)>)
        ensures
            pair_names(r@).no_duplicates(),
            forall|k: Seq<char>| pair_names(r@).contains(k) == self@.active.dom().contains(k),
            forall|i: int| 0 <= i < r@.len() ==> *(#[trigger] r@[i]).1 == self@.active[r@[i].0@],
    {
        let names = self.active.names();
        let ghost all = text::views(names@);
        let mut r: Vec<(String, &H)> = Vec::new();
        let mut i: usize = 0;
        while i < names.len()
            invariant
                i <= names.len(),
                all == text::views(names@),
                forall|k: Seq<char>| all.contains(k) == self@.active.dom().contains(k),
                pair_names(r@) == all.take(i as int),
                forall|j: int|
                    0 <= j < r@.len() ==> *(#[trigger] r@[j]).1 == self@.active[r@[j].0@],
            decreases names.len() - i,
        {
            let ghost was = pair_names(r@);
            assert(all.contains(all[i as int]));
            if let Some(h) = self.active.get(names[i].as_str()) {
                r.push((names[i].clone(), h));
                assert(pair_names(r@) =~= was.push(all[i as int]));
            }
            i += 1;
            assert(all.take(i as int) =~= was.push(all[i - 1]));
        }
        assert(all.take(i as int) =~= all);
        r
    }

    /// How many agents run.
    pub fn active_count(&self) -> (r: usize)
        ensures
            r == self@.active.dom().len(),
    {
        self.active.len()
    }

    /// Notes that an agent has ended.
    pub fn mark_completed(
        &mut self,
        session_id: &str,
        agent_type: &str,
        result: Option<String>,
        success: bool,
        error: Option<String>,
    )
        ensures
            final(self)@ == ended(
                old(self)@,
                CompletedModel {
                    session_id: session_id@,
                    agent_type: agent_type@,
                    result: text::opt_view(result),
                    success,
                    error: text::opt_view(error),
                },
            ),
    {
        let _ = self.active.remove(session_id);
        let c = CompletedSubAgent {
            session_id: session_id.to_string(),
            agent_type: agent_type.to_string(),
            result,
            success,
            error,
        };
        let _ = self.completed.insert(session_id.to_string(), c);
        assert(self@ =~= ended(old(self)@, c@));
    }

    /// What became of an agent that has ended.
    pub fn get_completed(&self, session_id: &str) -> (r: Option<CompletedSubAgent>)
        ensures
            match r {
                Some(c) => self@.completed.dom().contains(session_id@)
                    && self@.completed[session_id@] == c@,
                None => !self@.completed.dom().contains(session_id@),
            },
    {
        match self.completed.get(session_id) {
            Some(c) => Some(c.copy()),
            None => None,
        }
    }

    /// What became of the agents that have ended, one for each of their names.
    pub fn completed_subagents(&self) -> (r: Vec<CompletedSubAgent>)
        ensures
            exists|names: Seq<Seq<char>>| #[trigger]
                lists(self@.completed, names, completed_views(r@)),
    {
        let names = self.completed.names();
        let ghost all = text::views(names@);
        let mut r: Vec<CompletedSubAgent> = Vec::new();
        let mut i: usize = 0;
        while i < names.len()
            invariant
                i <= names.len(),
                all == text::views(names@),
                forall|k: Seq<char>| all.contains(k) == self@.completed.dom().contains(k),
                r@.len() == i,
                forall|j: int|
                    0 <= j < i ==> (#[trigger] completed_views(r@)[j]) == self@.completed[all[j]],
            decreases names.len() - i,
        {
            let ghost was = completed_views(r@);
            assert(all.contains(all[i as int]));
            if let Some(c) = self.completed.get(names[i].as_str()) {
                r.push(c.copy());
                assert(completed_views(r@) =~= was.push(self@.completed[all[i as int]]));
            }
            i += 1;
        }
        assert(lists(self@.completed, all, completed_views(r@)));
        r
    }

    /// How many agents are known.
    pub fn total_count(&self) -> (r: usize)
        requires
            self@.active.dom().len() + self@.completed.dom().len() <= usize::MAX,
        ensures
            r == self@.active.dom().len() + self@.completed.dom().len(),
    {
        assert(self@.completed.dom() =~= self.completed@.dom());
        self.active.len() + self.completed.len()
    }

    /// Forgets an agent.
    pub fn remove(&mut self, session_id: &str)
        ensures
            final(self)@ == forgotten(old(self)@, session_id@),
    {
        let _ = self.active.remove(session_id);
        let _ = self.completed.remove(session_id);
        assert(self@ =~= forgotten(old(self)@, session_id@));
    }

    /// Forgets the agents that have ended.
    pub fn clear_completed(&mut self)
        ensures
            final(self)@ == (SubAgentModel { completed: Map::empty(), ..old(self)@ }),
    {
        self.completed.clear();
        assert(self@.completed =~= Map::empty());
    }
}

/// What became of the agents of a list.
pub open spec fn completed_views(v: Seq<CompletedSubAgent>) -> Seq<CompletedModel> {
    Seq::new(v.len(), |i: int| v[i]@)
}

/// Whether a list holds the values of a map in the order of some names, each once.
pub open spec fn lists(
    m: Map<Seq<char>, CompletedModel>,
    names: Seq<Seq<char>>,
    v: Seq<CompletedModel>,
) -> bool {
    &&& names.no_duplicates()
    &&& forall|k: Seq<char>| names.contains(k) == m.dom().contains(k)
    &&& v.len() == names.len()
    &&& forall|i: int| 0 <= i < v.len() ==> (#[trigger] v[i]) == m[names[i]]
}

// ---------------------------------------------------------------------------
// Laws
// ---------------------------------------------------------------------------

/// An agent that has ended runs no more, and is still known by what became of it.
pub proof fn ending_is_remembered<H>(m: SubAgentModel<H>, c: CompletedModel)
    ensures
        !ended(m, c).active.dom().contains(c.session_id),
        known(ended(m, c), c.session_id),
        ended(m, c).completed[c.session_id] == c,
{
}

/// An agent that is forgotten is not known; the others are as they were.
pub proof fn forgetting_is_complete<H>(m: SubAgentModel<H>, id: Seq<char>, other: Seq<char>)
    requires
        other != id,
    ensures
        !known(forgotten(m, id), id),
        known(forgotten(m, id), other) == known(m, other),
{
}

/// Whether no agent both runs and has ended.
pub open spec fn apart<H>(m: SubAgentModel<H>) -> bool {
    forall|k: Seq<char>|
        !(#[trigger] m.active.dom().contains(k) && #[trigger] m.completed.dom().contains(k))
}

/// As long as agents are started under new names, none both runs and has ended.
pub proof fn agents_run_or_have_ended<H>(m: SubAgentModel<H>, id: Seq<char>, h: H, c: CompletedModel)
    requires
        apart(m),
    ensures
        !known(m, id) ==> apart(registered(m, id, h)),
        apart(ended(m, c)),
        apart(forgotten(m, id)),
{
}

/// An agent that is registered runs, under its name, beside those that run.
pub proof fn registered_agents_run<H>(
    m: SubAgentModel<H>,
    id: Seq<char>,
    other: Seq<char>,
    handle: H,
)
    requires
        other != id,
    ensures
        registered(m, id, handle).active.dom().contains(id),
        registered(m, id, handle).active[id] == handle,
        registered(m, id, handle).active.dom().contains(other) == m.active.dom().contains(other),
        m.active.dom().contains(other) ==> registered(m, id, handle).active[other]
            == m.active[other],
        registered(m, id, handle).completed == m.completed,
        known(registered(m, id, handle), id),
{
}

/// That an agent ends or is forgotten leaves the others as they are.
pub proof fn other_agents_are_left_alone<H>(
    m: SubAgentModel<H>,
    c: CompletedModel,
    other: Seq<char>,
)
    requires
        other != c.session_id,
    ensures
        ended(m, c).active.dom().contains(other) == m.active.dom().contains(other),
        m.active.dom().contains(other) ==> ended(m, c).active[other] == m.active[other],
        ended(m, c).completed.dom().contains(other) == m.completed.dom().contains(other),
        m.completed.dom().contains(other) ==> ended(m, c).completed[other] == m.completed[other],
        m.active.dom().contains(other) ==> forgotten(m, c.session_id).active[other]
            == m.active[other],
        m.completed.dom().contains(other) ==> forgotten(m, c.session_id).completed[other]
            == m.completed[other],
{
}

} // verus!
