//! What is known about a session beside its messages.

use vstd::prelude::*;

use crate::json::{Json, JsonTree};
use crate::maps;
use crate::maps::StringMap;
use crate::text;

verus! {

/// A point in time: seconds since the beginning of 1970, and nanoseconds.
#[derive(Debug, Clone, Copy, PartialEq, Eq, Structural)]
pub struct Timestamp {
    pub secs: i64,
    pub nanos: u32,
}

/// The time, by `chrono::Utc::now`. What it is depends on when it is asked.
#[verifier::external_body]
fn now() -> (r: Timestamp) {
    let t = chrono::Utc::now();
    Timestamp { secs: t.timestamp(), nanos: t.timestamp_subsec_nanos() }
}

/// What is known about a session.
pub struct SessionMetadata {
    pub session_id: String,
    pub agent_type: String,
    pub name: String,
    pub description: String,
    /// A name for the conversation, by what it is about.
    pub conversation_name: Option<String>,
    /// The session of the agent that started this one.
    pub parent_session_id: Option<String>,
    /// The use of a tool that started this session.
    pub parent_tool_use_id: Option<String>,
    /// The sessions of the agents that this one started.
    pub child_session_ids: Vec<String>,
    pub model: String,
    pub provider: String,
    pub created_at: Timestamp,
    pub updated_at: Timestamp,
    pub custom: StringMap<Json>,
}

/// What is known about a session.
#[verifier::ext_equal]
pub struct MetaModel {
    pub session_id: Seq<char>,
    pub agent_type: Seq<char>,
    pub name: Seq<char>,
    pub description: Seq<char>,
    pub conversation_name: Option<Seq<char>>,
    pub parent_session_id: Option<Seq<char>>,
    pub parent_tool_use_id: Option<Seq<char>>,
    pub child_session_ids: Seq<Seq<char>>,
    pub model: Seq<char>,
    pub provider: Seq<char>,
    pub created_at: Timestamp,
    pub updated_at: Timestamp,
    pub custom: Map<Seq<char>, JsonTree>,
}

/// What is known about a session that was made just now.
pub open spec fn fresh(
    session_id: Seq<char>,
    agent_type: Seq<char>,
    name: Seq<char>,
    description: Seq<char>,
    now: Timestamp,
) -> MetaModel {
    MetaModel {
        session_id,
        agent_type,
        name,
        description,
        conversation_name: None,
        parent_session_id: None,
        parent_tool_use_id: None,
        child_session_ids: seq![],
        model: seq![],
        provider: seq![],
        created_at: now,
        updated_at: now,
        custom: Map::empty(),
    }
}

/// What is known about a session that another agent started just now.
pub open spec fn fresh_child(
    session_id: Seq<char>,
    agent_type: Seq<char>,
    name: Seq<char>,
    description: Seq<char>,
    parent_session_id: Seq<char>,
    parent_tool_use_id: Seq<char>,
    now: Timestamp,
) -> MetaModel {
    MetaModel {
        parent_session_id: Some(parent_session_id),
        parent_tool_use_id: Some(parent_tool_use_id),
        ..fresh(session_id, agent_type, name, description, now)
    }
}

impl SessionMetadata {
    /// What is known.
    pub open spec fn view(&self) -> MetaModel {
        MetaModel {
            session_id: self.session_id@,
            agent_type: self.agent_type@,
            name: self.name@,
            description: self.description@,
            conversation_name: text::opt_view(self.conversation_name),
            parent_session_id: text::opt_view(self.parent_session_id),
            parent_tool_use_id: text::opt_view(self.parent_tool_use_id),
            child_session_ids: text::views(self.child_session_ids@),
            model: self.model@,
            provider: self.provider@,
            created_at: self.created_at,
            updated_at: self.updated_at,
            custom: maps::tree_map(self.custom@),
        }
    }

    /// A session that is made now.
    pub fn new(session_id: &str, agent_type: &str, name: &str, description: &str) -> (r:
        SessionMetadata)
        ensures
            r@ == fresh(session_id@, agent_type@, name@, description@, r.created_at),
    {
        SessionMetadata::new_at(session_id, agent_type, name, description, now())
    }

    /// A session that is made at some time.
    pub fn new_at(
        session_id: &str,
        agent_type: &str,
        name: &str,
        description: &str,
        now: Timestamp,
    ) -> (r: SessionMetadata)
        ensures
            r@ == fresh(session_id@, agent_type@, name@, description@, now),
    {
        let r = SessionMetadata {
            session_id: session_id.to_string(),
            agent_type: agent_type.to_string(),
            name: name.to_string(),
            description: description.to_string(),
            conversation_name: None,
            parent_session_id: None,
            parent_tool_use_id: None,
            child_session_ids: Vec::new(),
            model: String::new(),
            provider: String::new(),
            created_at: now,
            updated_at: now,
            custom: StringMap::new(),
        };
        assert(r@ =~= fresh(session_id@, agent_type@, name@, description@, now));
        r
    }

    /// A session that another agent starts now.
    pub fn new_subagent(
        session_id: &str,
        agent_type: &str,
        name: &str,
        description: &str,
        parent_session_id: &str,
        parent_tool_use_id: &str,
    ) -> (r: SessionMetadata)
        ensures
            r@ == fresh_child(
                session_id@,
                agent_type@,
                name@,
                description@,
                parent_session_id@,
                parent_tool_use_id@,
                r.created_at,
            ),
    {
        SessionMetadata {
            parent_session_id: Some(parent_session_id.to_string()),
            parent_tool_use_id: Some(parent_tool_use_id.to_string()),
            ..SessionMetadata::new_at(session_id, agent_type, name, description, now())
        }
    }

    /// Whether another agent started the session.
    pub fn is_subagent(&self) -> (r: bool)
        ensures
            r == (self@.parent_session_id is Some),
    {
        self.parent_session_id.is_some()
    }

    /// Notes that the session changed now.
    pub fn touch(&mut self)
        ensures
            final(self)@ == (MetaModel { updated_at: final(self).updated_at, ..old(self)@ }),
    {
        self.touch_at(now());
    }

    /// Notes that the session changed at some time.
    pub fn touch_at(&mut self, now: Timestamp)
        ensures
            final(self)@ == (MetaModel { updated_at: now, ..old(self)@ }),
    {
        self.updated_at = now;
    }

    /// The session with a model.
    pub fn with_model(self, model: &str) -> (r: SessionMetadata)
        ensures
            r@ == (MetaModel { model: model@, ..self@ }),
    {
        SessionMetadata { model: model.to_string(), ..self }
    }

    /// The session with a provider.
    pub fn with_provider(self, provider: &str) -> (r: SessionMetadata)
        ensures
            r@ == (MetaModel { provider: provider@, ..self@ }),
    {
        SessionMetadata { provider: provider.to_string(), ..self }
    }

    /// Notes the session of an agent that this one started.
    pub fn add_child(&mut self, child_session_id: &str)
        ensures
            final(self)@ == (MetaModel {
                child_session_ids: old(self)@.child_session_ids.push(child_session_id@),
                updated_at: final(self).updated_at,
                ..old(self)@
            }),
    {
        self.child_session_ids.push(child_session_id.to_string());
        assert(self@.child_session_ids =~= old(self)@.child_session_ids.push(child_session_id@));
        self.touch();
    }

    /// Names the conversation.
    pub fn set_conversation_name(&mut self, name: &str)
        ensures
            final(self)@ == (MetaModel {
                conversation_name: Some(name@),
                updated_at: final(self).updated_at,
                ..old(self)@
            }),
    {
        self.conversation_name = Some(name.to_string());
        self.touch();
    }

    /// The name of the conversation.
    pub fn conversation_name(&self) -> (r: Option<&str>)
        ensures
            text::opt_str_view(r) == self@.conversation_name,
    {
        match &self.conversation_name {
            Some(s) => Some(s.as_str()),
            None => None,
        }
    }

    /// Whether the conversation has a name.
    pub fn has_conversation_name(&self) -> (r: bool)
        ensures
            r == (self@.conversation_name is Some),
    {
        self.conversation_name.is_some()
    }

    /// Puts a value under a key.
    pub fn set_custom(&mut self, key: &str, value: Json)
        ensures
            final(self)@ == (MetaModel {
                custom: old(self)@.custom.insert(key@, value@),
                updated_at: final(self).updated_at,
                ..old(self)@
            }),
    {
        let _ = self.custom.insert(key.to_string(), value);
        assert(self@.custom =~= old(self)@.custom.insert(key@, value@));
        self.touch();
    }

    /// The value under a key.
    pub fn get_custom(&self, key: &str) -> (r: Option<&Json>)
        ensures
            match r {
                Some(v) => self@.custom.dom().contains(key@) && self@.custom[key@] == v@,
                None => !self@.custom.dom().contains(key@),
            },
    {
        self.custom.get(key)
    }

    /// The same.
    pub fn copy(&self) -> (r: SessionMetadata)
        ensures
            r@ == self@,
    {
        SessionMetadata {
            session_id: self.session_id.clone(),
            agent_type: self.agent_type.clone(),
            name: self.name.clone(),
            description: self.description.clone(),
            conversation_name: text::copy_opt(&self.conversation_name),
            parent_session_id: text::copy_opt(&self.parent_session_id),
            parent_tool_use_id: text::copy_opt(&self.parent_tool_use_id),
            child_session_ids: text::copy_all(&self.child_session_ids),
            model: self.model.clone(),
            provider: self.provider.clone(),
            created_at: self.created_at,
            updated_at: self.updated_at,
            custom: maps::copy_values(&self.custom),
        }
    }
}

// ---------------------------------------------------------------------------
// Laws
// ---------------------------------------------------------------------------

/// A new session has the name, the type and the words that it was made with, was made and
/// changed at the same time, and has nothing else.
pub proof fn new_sessions_start_bare(
    id: Seq<char>,
    agent_type: Seq<char>,
    name: Seq<char>,
    description: Seq<char>,
    now: Timestamp,
)
    ensures
        ({
            let m = fresh(id, agent_type, name, description, now);
            &&& m.session_id == id && m.agent_type == agent_type
            &&& m.name == name && m.description == description
            &&& m.created_at == now && m.updated_at == now
            &&& m.conversation_name is None
            &&& m.parent_session_id is None && m.parent_tool_use_id is None
            &&& m.child_session_ids.len() == 0
            &&& m.model.len() == 0 && m.provider.len() == 0
            &&& m.custom == Map::<Seq<char>, JsonTree>::empty()
        }),
{
}

/// A session that an agent starts is new in the same way, and knows who started it.
pub proof fn started_sessions_know_who_started_them(
    id: Seq<char>,
    agent_type: Seq<char>,
    name: Seq<char>,
    description: Seq<char>,
    parent: Seq<char>,
    tool_use_id: Seq<char>,
    now: Timestamp,
)
    ensures
        ({
            let m = fresh_child(id, agent_type, name, description, parent, tool_use_id, now);
            &&& m.parent_session_id == Some(parent)
            &&& m.parent_tool_use_id == Some(tool_use_id)
            &&& m.session_id == id && m.agent_type == agent_type
            &&& m.name == name && m.description == description
            &&& m.created_at == now && m.updated_at == now
            &&& m.conversation_name is None
            &&& m.child_session_ids.len() == 0
            &&& m.model.len() == 0 && m.provider.len() == 0
            &&& m.custom == Map::<Seq<char>, JsonTree>::empty()
        }),
{
}

} // verus!
