//! Sessions: conversations, what is known about them, and where they are kept.

use vstd::prelude::*;

use crate::errors::{ErrorModel, FrameworkError};
use crate::json::Json;
use crate::maps::StringMap;
use crate::messages;
use crate::messages::{Message, MessageModel};
use crate::metadata;
use crate::metadata::{MetaModel, SessionMetadata, Timestamp};
use crate::text;

verus! {

// ---------------------------------------------------------------------------
// What is kept
// ---------------------------------------------------------------------------

/// What is kept of a session.
pub struct StoredSession {
    pub metadata: SessionMetadata,
    pub messages: Vec<Message>,
    pub system_prompt: String,
}

/// What is kept of a session.
#[verifier::ext_equal]
pub struct StoredModel {
    pub metadata: MetaModel,
    pub messages: Seq<MessageModel>,
    pub system_prompt: Seq<char>,
}

/// The sessions that are kept, by their names.
pub type Store = Map<Seq<char>, StoredModel>;

impl StoredSession {
    /// What is kept.
    pub open spec fn view(&self) -> StoredModel {
        StoredModel {
            metadata: self.metadata@,
            messages: messages::message_views(self.messages@),
            system_prompt: self.system_prompt@,
        }
    }
}

/// The sessions with what is known about one of them. A session that was not kept
/// before has no messages and no system prompt.
pub open spec fn with_metadata(st: Store, m: MetaModel) -> Store {
    st.insert(
        m.session_id,
        if st.dom().contains(m.session_id) {
            StoredModel { metadata: m, ..st[m.session_id] }
        } else {
            StoredModel { metadata: m, messages: seq![], system_prompt: seq![] }
        },
    )
}

/// The sessions with the system prompt of one of them.
pub open spec fn with_prompt(st: Store, id: Seq<char>, prompt: Seq<char>) -> Store {
    st.insert(id, StoredModel { system_prompt: prompt, ..st[id] })
}

/// The sessions with the messages of one of them.
pub open spec fn with_messages(st: Store, id: Seq<char>, messages: Seq<MessageModel>) -> Store {
    st.insert(id, StoredModel { messages, ..st[id] })
}

/// Whether each session is kept under its own name.
pub open spec fn filed(st: Store) -> bool {
    forall|k: Seq<char>| #[trigger] st.dom().contains(k) ==> st[k].metadata.session_id == k
}

/// Whether a session was not started by another agent.
pub open spec fn top_level(s: StoredModel) -> bool {
    s.metadata.parent_session_id is None
}

/// Whether a session belongs to a list of sessions.
pub open spec fn listed(st: Store, top_level_only: bool, id: Seq<char>) -> bool {
    st.dom().contains(id) && (top_level_only ==> top_level(st[id]))
}

/// Where sessions are kept.
pub struct SessionStorage {
    sessions: StringMap<StoredSession>,
}

impl SessionStorage {
    /// The sessions.
    pub closed spec fn view(&self) -> Store {
        self.sessions@.map_values(|s: StoredSession| s@)
    }

    /// No sessions.
    pub fn new() -> (r: SessionStorage)
        ensures
            r@ == Map::<Seq<char>, StoredModel>::empty(),
    {
        let r = SessionStorage { sessions: StringMap::new() };
        assert(r@ =~= Map::empty());
        r
    }

    /// Keeps a session, in place of one of the same name.
    pub fn put(&mut self, id: &str, s: StoredSession)
        ensures
            final(self)@ == old(self)@.insert(id@, s@),
    {
        let _ = self.sessions.insert(id.to_string(), s);
        assert(self@ =~= old(self)@.insert(id@, s@));
    }

    /// Takes a session out.
    fn take(&mut self, id: &str) -> (r: Option<StoredSession>)
        ensures
            final(self)@ == old(self)@.remove(id@),
            match r {
                Some(s) => old(self)@.dom().contains(id@) && old(self)@[id@] == s@,
                None => !old(self)@.dom().contains(id@) && final(self)@ == old(self)@,
            },
    {
        let r = self.sessions.remove(id);
        assert(self@ =~= old(self)@.remove(id@));
        if r.is_none() {
            assert(self@ =~= old(self)@);
        }
        r
    }

    /// Keeps what is known about a session.
    pub fn save_metadata(&mut self, m: &SessionMetadata)
        ensures
            final(self)@ == with_metadata(old(self)@, m@),
    {
        let s = match self.take(m.session_id.as_str()) {
            Some(s) => StoredSession { metadata: m.copy(), ..s },
            None => {
                let s = StoredSession {
                    metadata: m.copy(),
                    messages: Vec::new(),
                    system_prompt: String::new(),
                };
                assert(s@.messages =~= seq![]);
                assert(s@.system_prompt =~= seq![]);
                s
            },
        };
        self.put(m.session_id.as_str(), s);
        assert(self@ =~= with_metadata(old(self)@, m@));
    }

    /// Keeps the system prompt of a session.
    pub fn save_system_prompt(&mut self, id: &str, prompt: &str) -> (r: Result<(), FrameworkError>)
        ensures
            match r {
                Ok(_) => old(self)@.dom().contains(id@) && final(self)@ == with_prompt(
                    old(self)@,
                    id@,
                    prompt@,
                ),
                Err(e) => !old(self)@.dom().contains(id@) && e@ == ErrorModel::SessionNotFound(id@)
                    && final(self)@ == old(self)@,
            },
    {
        match self.take(id) {
            Some(s) => {
                self.put(id, StoredSession { system_prompt: prompt.to_string(), ..s });
                assert(self@ =~= with_prompt(old(self)@, id@, prompt@));
                Ok(())
            },
            None => Err(FrameworkError::SessionNotFound(id.to_string())),
        }
    }

    /// Keeps one more message of a session.
    pub fn append_message(&mut self, id: &str, message: &Message) -> (r: Result<
        (),
        FrameworkError,
    >)
        ensures
            match r {
                Ok(_) => old(self)@.dom().contains(id@) && final(self)@ == with_messages(
                    old(self)@,
                    id@,
                    old(self)@[id@].messages.push(message@),
                ),
                Err(e) => !old(self)@.dom().contains(id@) && e@ == ErrorModel::SessionNotFound(id@)
                    && final(self)@ == old(self)@,
            },
    {
        match self.take(id) {
            Some(s) => {
                let mut messages = s.messages;
                let ghost was = messages::message_views(messages@);
                messages.push(message.copy());
                assert(messages::message_views(messages@) =~= was.push(message@));
                self.put(
                    id,
                    StoredSession {
                        metadata: s.metadata,
                        messages,
                        system_prompt: s.system_prompt,
                    },
                );
                assert(self@ =~= with_messages(old(self)@, id@, was.push(message@)));
                Ok(())
            },
            None => Err(FrameworkError::SessionNotFound(id.to_string())),
        }
    }

    /// Keeps the messages of a session, in place of those it had.
    pub fn save_messages(&mut self, id: &str, messages: &Vec<Message>) -> (r: Result<
        (),
        FrameworkError,
    >)
        ensures
            match r {
                Ok(_) => old(self)@.dom().contains(id@) && final(self)@ == with_messages(
                    old(self)@,
                    id@,
                    messages::message_views(messages@),
                ),
                Err(e) => !old(self)@.dom().contains(id@) && e@ == ErrorModel::SessionNotFound(id@)
                    && final(self)@ == old(self)@,
            },
    {
        match self.take(id) {
            Some(s) => {
                self.put(id, StoredSession { messages: Message::copy_all(messages), ..s });
                assert(self@ =~= with_messages(
                    old(self)@,
                    id@,
                    messages::message_views(messages@),
                ));
                Ok(())
            },
            None => Err(FrameworkError::SessionNotFound(id.to_string())),
        }
    }

    /// What is known about a session.
    pub fn load_metadata(&self, id: &str) -> (r: Result<SessionMetadata, FrameworkError>)
        ensures
            match r {
                Ok(m) => self@.dom().contains(id@) && m@ == self@[id@].metadata,
                Err(e) => !self@.dom().contains(id@) && e@ == ErrorModel::SessionNotFound(id@),
            },
    {
        match self.sessions.get(id) {
            Some(s) => Ok(s.metadata.copy()),
            None => Err(FrameworkError::SessionNotFound(id.to_string())),
        }
    }

    /// The messages of a session.
    pub fn load_messages(&self, id: &str) -> (r: Result<Vec<Message>, FrameworkError>)
        ensures
            match r {
                Ok(v) => self@.dom().contains(id@) && messages::message_views(v@)
                    == self@[id@].messages,
                Err(e) => !self@.dom().contains(id@) && e@ == ErrorModel::SessionNotFound(id@),
            },
    {
        match self.sessions.get(id) {
            Some(s) => Ok(Message::copy_all(&s.messages)),
            None => Err(FrameworkError::SessionNotFound(id.to_string())),
        }
    }

    /// The system prompt of a session.
    pub fn load_system_prompt(&self, id: &str) -> (r: Result<String, FrameworkError>)
        ensures
            match r {
                Ok(s) => self@.dom().contains(id@) && s@ == self@[id@].system_prompt,
                Err(e) => !self@.dom().contains(id@) && e@ == ErrorModel::SessionNotFound(id@),
            },
    {
        match self.sessions.get(id) {
            Some(s) => Ok(s.system_prompt.clone()),
            None => Err(FrameworkError::SessionNotFound(id.to_string())),
        }
    }

    /// Drops a session.
    pub fn delete_session(&mut self, id: &str) -> (r: Result<(), FrameworkError>)
        ensures
            final(self)@ == old(self)@.remove(id@),
            match r {
                Ok(_) => old(self)@.dom().contains(id@),
                Err(e) => !old(self)@.dom().contains(id@) && e@ == ErrorModel::SessionNotFound(id@),
            },
    {
        match self.take(id) {
            Some(_) => Ok(()),
            None => Err(FrameworkError::SessionNotFound(id.to_string())),
        }
    }

    /// Whether a session is kept.
    pub fn session_exists(&self, id: &str) -> (r: bool)
        ensures
            r == self@.dom().contains(id@),
    {
        self.sessions.contains_key(id)
    }

    /// The names of the sessions.
    pub fn list_sessions(&self) -> (r: Vec<String>)
        ensures
            text::views(r@).no_duplicates(),
            forall|k: Seq<char>| text::views(r@).contains(k) <==> listed(self@, false, k),
    {
        self.list_sessions_filtered(false)
    }

    /// The names of the sessions, of all or of those that no other agent started.
    pub fn list_sessions_filtered(&self, top_level_only: bool) -> (r: Vec<String>)
        ensures
            text::views(r@).no_duplicates(),
            forall|k: Seq<char>| text::views(r@).contains(k) <==> listed(self@, top_level_only, k),
    {
        let names = self.sessions.names();
        let ghost all = text::views(names@);
        let mut r: Vec<String> = Vec::new();
        let mut i: usize = 0;
        while i < names.len()
            invariant
                i <= names.len(),
                all == text::views(names@),
                all.no_duplicates(),
                forall|k: Seq<char>| all.contains(k) == self.sessions@.dom().contains(k),
                text::views(r@).no_duplicates(),
                forall|k: Seq<char>|
                    text::views(r@).contains(k) <==> all.take(i as int).contains(k) && listed(
                        self@,
                        top_level_only,
                        k,
                    ),
            decreases names.len() - i,
        {
            let ghost was = text::views(r@);
            let ghost key = all[i as int];
            let ghost before = all.take(i as int);
            let ghost after = all.take(i + 1);
            proof {
                assert(all.contains(key));
                assert(after =~= before.push(key));
                assert(!before.contains(key)) by {
                    if before.contains(key) {
                        let j = choose|j: int| 0 <= j < before.len() && before[j] == key;
                        assert(all[j] == all[i as int]);
                    }
                }
                assert forall|k: Seq<char>| after.contains(k) == (before.contains(k) || k
                    == key) by {
                    contains_push(before, key, k);
                }
            }
            if let Some(s) = self.sessions.get(names[i].as_str()) {
                assert(self@.dom().contains(key) && self@[key] == s@);
                if !top_level_only || !s.metadata.is_subagent() {
                    r.push(names[i].clone());
                    proof {
                        assert(text::views(r@) =~= was.push(key));
                        assert forall|k: Seq<char>| was.push(key).contains(k) == (was.contains(k)
                            || k == key) by {
                            contains_push(was, key, k);
                        }
                        assert(!was.contains(key));
                        assert(was.push(key).no_duplicates()) by {
                            assert forall|a: int, b: int|
                                0 <= a < was.push(key).len() && 0 <= b < was.push(key).len() && a
                                    != b implies was.push(key)[a] != was.push(key)[b] by {
                                if a == was.len() {
                                    assert(was.contains(was[b]));
                                } else if b == was.len() {
                                    assert(was.contains(was[a]));
                                }
                            }
                        }
                    }
                }
            }
            proof {
                assert forall|k: Seq<char>|
                    text::views(r@).contains(k) <==> after.contains(k) && listed(
                        self@,
                        top_level_only,
                        k,
                    ) by {
                    assert(was.contains(k) <==> before.contains(k) && listed(
                        self@,
                        top_level_only,
                        k,
                    ));
                    assert(after.contains(k) == (before.contains(k) || k == key));
                }
            }
            i += 1;
        }
        assert(all.take(i as int) =~= all);
        r
    }

    /// The names of the sessions that no other agent started.
    pub fn list_top_level_sessions(&self) -> (r: Vec<String>)
        ensures
            text::views(r@).no_duplicates(),
            forall|k: Seq<char>| text::views(r@).contains(k) <==> listed(self@, true, k),
    {
        self.list_sessions_filtered(true)
    }

    /// The sessions and what is known about them, of all or of those that no other
    /// agent started.
    pub fn list_sessions_with_metadata(&self, top_level_only: bool) -> (r: Vec<
        (String, SessionMetadata),
    >)
        ensures
            entry_names(r@).no_duplicates(),
            forall|k: Seq<char>| entry_names(r@).contains(k) <==> listed(self@, top_level_only, k),
            forall|i: int|
                0 <= i < r@.len() ==> (#[trigger] r@[i]).1@ == self@[r@[i].0@].metadata,
    {
        let names = self.list_sessions_filtered(top_level_only);
        let ghost all = text::views(names@);
        let mut r: Vec<(String, SessionMetadata)> = Vec::new();
        let mut i: usize = 0;
        while i < names.len()
            invariant
                i <= names.len(),
                all == text::views(names@),
                forall|k: Seq<char>| all.contains(k) <==> listed(self@, top_level_only, k),
                entry_names(r@) == all.take(i as int),
                forall|j: int|
                    0 <= j < r@.len() ==> (#[trigger] r@[j]).1@ == self@[r@[j].0@].metadata,
            decreases names.len() - i,
        {
            let ghost was = entry_names(r@);
            assert(all.contains(all[i as int]));
            if let Ok(m) = self.load_metadata(names[i].as_str()) {
                r.push((names[i].clone(), m));
                assert(entry_names(r@) =~= was.push(all[i as int]));
            }
            i += 1;
            assert(all.take(i as int) =~= was.push(all[i - 1]));
        }
        assert(all.take(i as int) =~= all);
        r
    }
}

/// The names in a list of sessions.
pub open spec fn entry_names(v: Seq<(String, SessionMetadata)>) -> Seq<Seq<char>> {
    Seq::new(v.len(), |i: int| v[i].0@)
}

/// What a sequence with one more element contains.
proof fn contains_push(s: Seq<Seq<char>>, x: Seq<char>, k: Seq<char>)
    ensures
        s.push(x).contains(k) == (s.contains(k) || k == x),
{
    if s.contains(k) {
        let j = choose|j: int| 0 <= j < s.len() && s[j] == k;
        assert(s.push(x)[j] == k);
    }
    if k == x {
        assert(s.push(x)[s.len() as int] == k);
    }
}

// ---------------------------------------------------------------------------
// Sessions
// ---------------------------------------------------------------------------

/// A session: a conversation, and what is known about it.
pub struct AgentSession {
    pub metadata: SessionMetadata,
    pub messages: Vec<Message>,
    system_prompt: String,
}

/// The sessions with one that is made.
pub open spec fn created(st: Store, m: MetaModel, prompt: Seq<char>) -> Store {
    with_prompt(with_metadata(st, m), m.session_id, prompt)
}

/// The sessions with a child noted for one of them, at some time.
pub open spec fn linked(st: Store, parent: Seq<char>, child: Seq<char>, now: Timestamp) -> Store {
    if st.dom().contains(parent) {
        let m = st[parent].metadata;
        with_metadata(
            st,
            MetaModel {
                child_session_ids: m.child_session_ids.push(child),
                updated_at: now,
                ..m
            },
        )
    } else {
        st
    }
}

/// A session that changed at some time.
pub open spec fn touched(s: StoredModel, now: Timestamp) -> StoredModel {
    StoredModel { metadata: MetaModel { updated_at: now, ..s.metadata }, ..s }
}

/// A session with one more message.
pub open spec fn said(s: StoredModel, m: MessageModel, now: Timestamp) -> StoredModel {
    touched(StoredModel { messages: s.messages.push(m), ..s }, now)
}

/// The sessions with one more message of one of them. What is known about the
/// session is kept as the session has it.
pub open spec fn message_kept(st: Store, s: StoredModel, m: MessageModel) -> Store {
    let id = s.metadata.session_id;
    with_metadata(with_messages(st, id, st[id].messages.push(m)), s.metadata)
}

/// The sessions with one that is saved.
pub open spec fn saved(st: Store, s: StoredModel) -> Store {
    with_messages(with_metadata(st, s.metadata), s.metadata.session_id, s.messages)
}

impl AgentSession {
    /// The session.
    pub closed spec fn view(&self) -> StoredModel {
        StoredModel {
            metadata: self.metadata@,
            messages: messages::message_views(self.messages@),
            system_prompt: self.system_prompt@,
        }
    }

    /// A session without messages.
    fn blank(metadata: SessionMetadata, system_prompt: &str) -> (r: AgentSession)
        ensures
            r@ == (StoredModel {
                metadata: metadata@,
                messages: seq![],
                system_prompt: system_prompt@,
            }),
            r.metadata == metadata,
    {
        let r = AgentSession {
            metadata,
            messages: Vec::new(),
            system_prompt: system_prompt.to_string(),
        };
        assert(r@.messages =~= seq![]);
        r
    }

    /// Makes a session, and keeps it.
    pub fn new_with_storage(
        session_id: &str,
        agent_type: &str,
        name: &str,
        description: &str,
        system_prompt: &str,
        storage: &mut SessionStorage,
    ) -> (r: AgentSession)
        ensures
            r@ == (StoredModel {
                metadata: metadata::fresh(
                    session_id@,
                    agent_type@,
                    name@,
                    description@,
                    r@.metadata.created_at,
                ),
                messages: seq![],
                system_prompt: system_prompt@,
            }),
            final(storage)@ == created(old(storage)@, r@.metadata, system_prompt@),
    {
        let metadata = SessionMetadata::new(session_id, agent_type, name, description);
        storage.save_metadata(&metadata);
        let _ = storage.save_system_prompt(metadata.session_id.as_str(), system_prompt);
        AgentSession::blank(metadata, system_prompt)
    }

    /// Makes a session that another agent starts, keeps it, and notes it with the
    /// session of that agent, where that is kept.
    pub fn new_subagent_with_storage(
        session_id: &str,
        agent_type: &str,
        name: &str,
        description: &str,
        system_prompt: &str,
        parent_session_id: &str,
        parent_tool_use_id: &str,
        storage: &mut SessionStorage,
    ) -> (r: AgentSession)
        ensures
            r@ == (StoredModel {
                metadata: metadata::fresh_child(
                    session_id@,
                    agent_type@,
                    name@,
                    description@,
                    parent_session_id@,
                    parent_tool_use_id@,
                    r@.metadata.created_at,
                ),
                messages: seq![],
                system_prompt: system_prompt@,
            }),
            exists|now: Timestamp|
                final(storage)@ == #[trigger] linked(
                    created(old(storage)@, r@.metadata, system_prompt@),
                    parent_session_id@,
                    session_id@,
                    now,
                ),
    {
        let metadata = SessionMetadata::new_subagent(
            session_id,
            agent_type,
            name,
            description,
            parent_session_id,
            parent_tool_use_id,
        );
        storage.save_metadata(&metadata);
        let _ = storage.save_system_prompt(metadata.session_id.as_str(), system_prompt);
        let ghost mid = storage@;
        assert(mid == created(old(storage)@, metadata@, system_prompt@));
        let ghost mut when = metadata.created_at;
        if let Ok(parent) = storage.load_metadata(parent_session_id) {
            let mut parent = parent;
            parent.add_child(metadata.session_id.as_str());
            storage.save_metadata(&parent);
            proof {
                when = parent.updated_at;
            }
        }
        assert(storage@ == linked(mid, parent_session_id@, session_id@, when));
        AgentSession::blank(metadata, system_prompt)
    }

    /// A session that is kept.
    pub fn load_with_storage(session_id: &str, storage: &SessionStorage) -> (r: Result<
        AgentSession,
        FrameworkError,
    >)
        ensures
            match r {
                Ok(s) => storage@.dom().contains(session_id@) && s@ == storage@[session_id@],
                Err(e) => !storage@.dom().contains(session_id@) && e@
                    == ErrorModel::SessionNotFound(session_id@),
            },
    {
        let metadata = match storage.load_metadata(session_id) {
            Ok(m) => m,
            Err(e) => return Err(e),
        };
        let messages = match storage.load_messages(session_id) {
            Ok(m) => m,
            Err(e) => return Err(e),
        };
        let system_prompt = match storage.load_system_prompt(session_id) {
            Ok(s) => s,
            Err(e) => return Err(e),
        };
        let r = AgentSession { metadata, messages, system_prompt };
        assert(r@ =~= storage@[session_id@]);
        Ok(r)
    }

    /// The name of the session.
    pub fn session_id(&self) -> (r: &str)
        ensures
            r@ == self@.metadata.session_id,
    {
        self.metadata.session_id.as_str()
    }

    /// The type of agent.
    pub fn agent_type(&self) -> (r: &str)
        ensures
            r@ == self@.metadata.agent_type,
    {
        self.metadata.agent_type.as_str()
    }

    /// The name of the agent.
    pub fn name(&self) -> (r: &str)
        ensures
            r@ == self@.metadata.name,
    {
        self.metadata.name.as_str()
    }

    /// What the agent does.
    pub fn description(&self) -> (r: &str)
        ensures
            r@ == self@.metadata.description,
    {
        self.metadata.description.as_str()
    }

    /// The system prompt.
    pub fn system_prompt(&self) -> (r: &str)
        ensures
            r@ == self@.system_prompt,
    {
        self.system_prompt.as_str()
    }

    /// Changes the system prompt, and keeps it, where the session is kept.
    pub fn update_system_prompt(&mut self, prompt: &str, storage: &mut SessionStorage) -> (r:
        Result<(), FrameworkError>)
        ensures
            final(self)@ == (StoredModel { system_prompt: prompt@, ..old(self)@ }),
            ({
                let id = old(self)@.metadata.session_id;
                match r {
                    Ok(_) => old(storage)@.dom().contains(id) && final(storage)@ == with_prompt(
                        old(storage)@,
                        id,
                        prompt@,
                    ),
                    Err(e) => !old(storage)@.dom().contains(id) && e@
                        == ErrorModel::SessionNotFound(id) && final(storage)@ == old(storage)@,
                }
            }),
    {
        self.system_prompt = prompt.to_string();
        storage.save_system_prompt(self.metadata.session_id.as_str(), self.system_prompt.as_str())
    }

    /// Whether another agent started the session.
    pub fn is_subagent(&self) -> (r: bool)
        ensures
            r == !top_level(self@),
    {
        self.metadata.is_subagent()
    }

    /// The session of the agent that started this one.
    pub fn parent_session_id(&self) -> (r: Option<&str>)
        ensures
            text::opt_str_view(r) == self@.metadata.parent_session_id,
    {
        match &self.metadata.parent_session_id {
            Some(s) => Some(s.as_str()),
            None => None,
        }
    }

    /// The use of a tool for which this session was started.
    pub fn parent_tool_use_id(&self) -> (r: Option<&str>)
        ensures
            text::opt_str_view(r) == self@.metadata.parent_tool_use_id,
    {
        match &self.metadata.parent_tool_use_id {
            Some(s) => Some(s.as_str()),
            None => None,
        }
    }

    /// The sessions of the agents that this one started.
    pub fn child_session_ids(&self) -> (r: &Vec<String>)
        ensures
            text::views(r@) == self@.metadata.child_session_ids,
    {
        &self.metadata.child_session_ids
    }

    /// Adds a message, and keeps it. Where the session is not kept, nothing
    /// changes.
    pub fn add_message(&mut self, message: Message, storage: &mut SessionStorage) -> (r: Result<
        (),
        FrameworkError,
    >)
        ensures
            ({
                let id = old(self)@.metadata.session_id;
                match r {
                    Ok(_) => {
                        &&& old(storage)@.dom().contains(id)
                        &&& final(self)@ == said(
                            old(self)@,
                            message@,
                            final(self)@.metadata.updated_at,
                        )
                        &&& final(storage)@ == message_kept(old(storage)@, final(self)@, message@)
                    },
                    Err(e) => {
                        &&& !old(storage)@.dom().contains(id)
                        &&& e@ == ErrorModel::SessionNotFound(id)
                        &&& final(self)@ == old(self)@
                        &&& final(storage)@ == old(storage)@
                    },
                }
            }),
    {
        match storage.append_message(self.metadata.session_id.as_str(), &message) {
            Ok(_) => {},
            Err(e) => return Err(e),
        }
        self.messages.push(message);
        assert(self@.messages =~= old(self)@.messages.push(message@));
        self.metadata.touch();
        storage.save_metadata(&self.metadata);
        Ok(())
    }

    /// The messages.
    pub fn history(&self) -> (r: &Vec<Message>)
        ensures
            messages::message_views(r@) == self@.messages,
    {
        &self.messages
    }

    /// The messages, to be changed.
    pub fn history_mut(&mut self) -> (r: &mut Vec<Message>)
        ensures
            messages::message_views(r@) == old(self)@.messages,
            final(self)@ == (StoredModel {
                messages: messages::message_views(final(r)@),
                ..old(self)@
            }),
    {
        &mut self.messages
    }

    /// Keeps what is known about the session and its messages, in place of what was
    /// kept.
    pub fn save(&mut self, storage: &mut SessionStorage)
        ensures
            final(self)@ == touched(old(self)@, final(self)@.metadata.updated_at),
            final(storage)@ == saved(old(storage)@, final(self)@),
    {
        self.metadata.touch();
        storage.save_metadata(&self.metadata);
        let _ = storage.save_messages(self.metadata.session_id.as_str(), &self.messages);
    }

    /// Goes back to what is kept of the session. Where nothing is, the session stays
    /// as it is.
    pub fn reload(&mut self, storage: &SessionStorage) -> (r: Result<(), FrameworkError>)
        ensures
            ({
                let id = old(self)@.metadata.session_id;
                match r {
                    Ok(_) => storage@.dom().contains(id) && final(self)@ == storage@[id],
                    Err(e) => {
                        &&& !storage@.dom().contains(id)
                        &&& e@ == ErrorModel::SessionNotFound(id)
                        &&& final(self)@ == old(self)@
                    },
                }
            }),
    {
        match AgentSession::load_with_storage(self.metadata.session_id.as_str(), storage) {
            Ok(s) => {
                *self = s;
                Ok(())
            },
            Err(e) => Err(e),
        }
    }

    /// Drops what is kept of the session.
    pub fn delete(self, storage: &mut SessionStorage) -> (r: Result<(), FrameworkError>)
        ensures
            ({
                let id = self@.metadata.session_id;
                &&& final(storage)@ == old(storage)@.remove(id)
                &&& match r {
                    Ok(_) => old(storage)@.dom().contains(id),
                    Err(e) => !old(storage)@.dom().contains(id) && e@
                        == ErrorModel::SessionNotFound(id),
                }
            }),
    {
        storage.delete_session(self.metadata.session_id.as_str())
    }

    /// Changes the model.
    pub fn set_model(&mut self, model: &str)
        ensures
            final(self)@ == (StoredModel {
                metadata: MetaModel {
                    model: model@,
                    updated_at: final(self)@.metadata.updated_at,
                    ..old(self)@.metadata
                },
                ..old(self)@
            }),
    {
        self.metadata.model = model.to_string();
        self.metadata.touch();
    }

    /// The model.
    pub fn model(&self) -> (r: &str)
        ensures
            r@ == self@.metadata.model,
    {
        self.metadata.model.as_str()
    }

    /// Changes the provider.
    pub fn set_provider(&mut self, provider: &str)
        ensures
            final(self)@ == (StoredModel {
                metadata: MetaModel {
                    provider: provider@,
                    updated_at: final(self)@.metadata.updated_at,
                    ..old(self)@.metadata
                },
                ..old(self)@
            }),
    {
        self.metadata.provider = provider.to_string();
        self.metadata.touch();
    }

    /// The provider.
    pub fn provider(&self) -> (r: &str)
        ensures
            r@ == self@.metadata.provider,
    {
        self.metadata.provider.as_str()
    }

    /// Names the conversation, and keeps what is known about the session.
    pub fn set_conversation_name(&mut self, name: &str, storage: &mut SessionStorage)
        ensures
            final(self)@ == (StoredModel {
                metadata: MetaModel {
                    conversation_name: Some(name@),
                    updated_at: final(self)@.metadata.updated_at,
                    ..old(self)@.metadata
                },
                ..old(self)@
            }),
            final(storage)@ == with_metadata(old(storage)@, final(self)@.metadata),
    {
        self.metadata.set_conversation_name(name);
        storage.save_metadata(&self.metadata);
    }

    /// The name of the conversation.
    pub fn conversation_name(&self) -> (r: Option<&str>)
        ensures
            text::opt_str_view(r) == self@.metadata.conversation_name,
    {
        self.metadata.conversation_name()
    }

    /// Whether the conversation has a name.
    pub fn has_conversation_name(&self) -> (r: bool)
        ensures
            r == (self@.metadata.conversation_name is Some),
    {
        self.metadata.has_conversation_name()
    }

    /// Puts a value under a key.
    pub fn set_custom(&mut self, key: &str, value: Json)
        ensures
            final(self)@ == (StoredModel {
                metadata: MetaModel {
                    custom: old(self)@.metadata.custom.insert(key@, value@),
                    updated_at: final(self)@.metadata.updated_at,
                    ..old(self)@.metadata
                },
                ..old(self)@
            }),
    {
        self.metadata.set_custom(key, value);
    }

    /// The value under a key.
    pub fn get_custom(&self, key: &str) -> (r: Option<&Json>)
        ensures
            match r {
                Some(v) => self@.metadata.custom.dom().contains(key@)
                    && self@.metadata.custom[key@] == v@,
                None => !self@.metadata.custom.dom().contains(key@),
            },
    {
        self.metadata.get_custom(key)
    }

    /// The names of the sessions that are kept.
    pub fn list_all_with_storage(storage: &SessionStorage) -> (r: Vec<String>)
        ensures
            text::views(r@).no_duplicates(),
            forall|k: Seq<char>| text::views(r@).contains(k) <==> listed(storage@, false, k),
    {
        storage.list_sessions()
    }

    /// The names of the sessions that are kept, of all or of those that no other
    /// agent started.
    pub fn list_filtered_with_storage(top_level_only: bool, storage: &SessionStorage) -> (r: Vec<
        String,
    >)
        ensures
            text::views(r@).no_duplicates(),
            forall|k: Seq<char>|
                text::views(r@).contains(k) <==> listed(storage@, top_level_only, k),
    {
        storage.list_sessions_filtered(top_level_only)
    }

    /// The names of the sessions that are kept and that no other agent started.
    pub fn list_top_level_with_storage(storage: &SessionStorage) -> (r: Vec<String>)
        ensures
            text::views(r@).no_duplicates(),
            forall|k: Seq<char>| text::views(r@).contains(k) <==> listed(storage@, true, k),
    {
        storage.list_top_level_sessions()
    }

    /// The sessions that are kept, and what is known about them.
    pub fn list_with_metadata_and_storage(top_level_only: bool, storage: &SessionStorage) -> (r:
        Vec<(String, SessionMetadata)>)
        ensures
            entry_names(r@).no_duplicates(),
            forall|k: Seq<char>|
                entry_names(r@).contains(k) <==> listed(storage@, top_level_only, k),
            forall|i: int|
                0 <= i < r@.len() ==> (#[trigger] r@[i]).1@ == storage@[r@[i].0@].metadata,
    {
        storage.list_sessions_with_metadata(top_level_only)
    }

    /// The messages of a session that is kept.
    pub fn get_history_with_storage(session_id: &str, storage: &SessionStorage) -> (r: Result<
        Vec<Message>,
        FrameworkError,
    >)
        ensures
            match r {
                Ok(v) => storage@.dom().contains(session_id@) && messages::message_views(v@)
                    == storage@[session_id@].messages,
                Err(e) => !storage@.dom().contains(session_id@) && e@
                    == ErrorModel::SessionNotFound(session_id@),
            },
    {
        storage.load_messages(session_id)
    }

    /// What is known about a session that is kept.
    pub fn get_metadata_with_storage(session_id: &str, storage: &SessionStorage) -> (r: Result<
        SessionMetadata,
        FrameworkError,
    >)
        ensures
            match r {
                Ok(m) => storage@.dom().contains(session_id@) && m@
                    == storage@[session_id@].metadata,
                Err(e) => !storage@.dom().contains(session_id@) && e@
                    == ErrorModel::SessionNotFound(session_id@),
            },
    {
        storage.load_metadata(session_id)
    }

    /// Whether a session is kept.
    pub fn exists_with_storage(session_id: &str, storage: &SessionStorage) -> (r: bool)
        ensures
            r == storage@.dom().contains(session_id@),
    {
        storage.session_exists(session_id)
    }
}

// ---------------------------------------------------------------------------
// Laws
// ---------------------------------------------------------------------------

/// Whether what is kept of a session is the session.
pub open spec fn in_step(st: Store, s: StoredModel) -> bool {
    let id = s.metadata.session_id;
    st.dom().contains(id) && st[id] == s
}

/// A session that is made under a new name is kept as it is.
pub proof fn new_sessions_are_kept(st: Store, m: MetaModel, prompt: Seq<char>)
    requires
        !st.dom().contains(m.session_id),
    ensures
        in_step(
            created(st, m, prompt),
            StoredModel { metadata: m, messages: seq![], system_prompt: prompt },
        ),
{
}

/// What is said in a session is kept: it loads back as it is, message for message.
pub proof fn messages_are_kept(st: Store, s: StoredModel, m: MessageModel, now: Timestamp)
    requires
        in_step(st, s),
    ensures
        in_step(message_kept(st, said(s, m, now), m), said(s, m, now)),
{
    assert(message_kept(st, said(s, m, now), m)[s.metadata.session_id] =~= said(s, m, now));
}

/// Whatever was done to the messages and to what is known of a session, saving keeps
/// it, and loads back as it is.
pub proof fn saved_sessions_load_back(st: Store, s: StoredModel, was: StoredModel)
    requires
        in_step(st, was),
        was.metadata.session_id == s.metadata.session_id,
        was.system_prompt == s.system_prompt,
    ensures
        in_step(saved(st, s), s),
{
    assert(saved(st, s)[s.metadata.session_id] =~= s);
}

/// Saving what was just saved changes nothing.
pub proof fn saving_twice_is_saving_once(st: Store, s: StoredModel)
    ensures
        saved(saved(st, s), s) == saved(st, s),
{
    assert(saved(saved(st, s), s) =~= saved(st, s));
}

/// Sessions do not get into each other's way: what is done with one leaves what is
/// kept of another as it was.
pub proof fn sessions_keep_apart(
    st: Store,
    s: StoredModel,
    m: MessageModel,
    prompt: Seq<char>,
    other: Seq<char>,
)
    requires
        other != s.metadata.session_id,
        st.dom().contains(other),
    ensures
        created(st, s.metadata, prompt).dom().contains(other),
        created(st, s.metadata, prompt)[other] == st[other],
        message_kept(st, s, m)[other] == st[other],
        saved(st, s)[other] == st[other],
        with_prompt(st, s.metadata.session_id, prompt)[other] == st[other],
        st.remove(s.metadata.session_id)[other] == st[other],
{
}

/// An agent that another starts is known to both: its session names the other's,
/// and the other's session, where it is kept, names it. It is not among the
/// sessions that no other agent started.
pub proof fn parents_know_their_children(
    st: Store,
    m: MetaModel,
    prompt: Seq<char>,
    parent: Seq<char>,
    now: Timestamp,
)
    requires
        filed(st),
        m.parent_session_id == Some(parent),
        st.dom().contains(parent),
        parent != m.session_id,
    ensures
        ({
            let st2 = linked(created(st, m, prompt), parent, m.session_id, now);
            &&& st2[m.session_id].metadata == m
            &&& st2[parent].metadata.child_session_ids
                == st[parent].metadata.child_session_ids.push(m.session_id)
            &&& st2[parent].messages == st[parent].messages
            &&& !listed(st2, true, m.session_id)
            &&& listed(st2, false, m.session_id)
        }),
{
    let st1 = created(st, m, prompt);
    assert(st1[parent] == st[parent]);
    assert(st[parent].metadata.session_id == parent);
}

/// Each session stays under its own name.
pub proof fn sessions_stay_filed(
    st: Store,
    m: MetaModel,
    prompt: Seq<char>,
    parent: Seq<char>,
    now: Timestamp,
)
    requires
        filed(st),
    ensures
        filed(with_metadata(st, m)),
        filed(created(st, m, prompt)),
        filed(linked(created(st, m, prompt), parent, m.session_id, now)),
{
    let a = with_metadata(st, m);
    assert forall|k: Seq<char>| #[trigger]
        a.dom().contains(k) implies a[k].metadata.session_id == k by {
        if k != m.session_id {
            assert(st.dom().contains(k));
        }
    }
    let b = created(st, m, prompt);
    assert forall|k: Seq<char>| #[trigger]
        b.dom().contains(k) implies b[k].metadata.session_id == k by {
        assert(a.dom().contains(k));
    }
    let c = linked(b, parent, m.session_id, now);
    assert forall|k: Seq<char>| #[trigger]
        c.dom().contains(k) implies c[k].metadata.session_id == k by {
        if b.dom().contains(parent) && k != parent {
            assert(b.dom().contains(k));
        }
    }
}

/// What is said goes after what was said, the session was changed then, and the rest of it
/// stays; in the store the same message goes after those that are there.
pub proof fn messages_go_last(st: Store, s: StoredModel, m: MessageModel, now: Timestamp)
    requires
        st.dom().contains(s.metadata.session_id),
    ensures
        said(s, m, now).messages == s.messages.push(m),
        said(s, m, now).system_prompt == s.system_prompt,
        said(s, m, now).metadata == (MetaModel { updated_at: now, ..s.metadata }),
        touched(s, now).messages == s.messages,
        touched(s, now).system_prompt == s.system_prompt,
        touched(s, now).metadata == (MetaModel { updated_at: now, ..s.metadata }),
        message_kept(st, s, m)[s.metadata.session_id].messages
            == st[s.metadata.session_id].messages.push(m),
        message_kept(st, s, m)[s.metadata.session_id].metadata == s.metadata,
        message_kept(st, s, m)[s.metadata.session_id].system_prompt
            == st[s.metadata.session_id].system_prompt,
{
}

/// What is stored of a session is replaced by what is put, and the rest of it stays.
pub proof fn what_is_put_is_stored(
    st: Store,
    m: MetaModel,
    id: Seq<char>,
    prompt: Seq<char>,
    messages: Seq<MessageModel>,
)
    requires
        st.dom().contains(id),
        m.session_id == id,
    ensures
        with_metadata(st, m)[id].metadata == m,
        with_metadata(st, m)[id].messages == st[id].messages,
        with_metadata(st, m)[id].system_prompt == st[id].system_prompt,
        with_prompt(st, id, prompt)[id].system_prompt == prompt,
        with_prompt(st, id, prompt)[id].metadata == st[id].metadata,
        with_prompt(st, id, prompt)[id].messages == st[id].messages,
        with_messages(st, id, messages)[id].messages == messages,
        with_messages(st, id, messages)[id].metadata == st[id].metadata,
        with_messages(st, id, messages)[id].system_prompt == st[id].system_prompt,
{
}

/// All stored sessions are listed, or those that no other session started.
pub proof fn stored_sessions_are_listed(st: Store, id: Seq<char>)
    ensures
        listed(st, false, id) == st.dom().contains(id),
        listed(st, true, id) == (st.dom().contains(id) && st[id].metadata.parent_session_id
            is None),
{
}

/// A parent that is not stored is left alone; one that is stored keeps its children, in the
/// order in which they were started, and was changed then.
pub proof fn children_go_last(st: Store, parent: Seq<char>, child: Seq<char>, now: Timestamp)
    requires
        filed(st),
    ensures
        !st.dom().contains(parent) ==> linked(st, parent, child, now) == st,
        st.dom().contains(parent) ==> {
            let m = st[parent].metadata;
            let after = linked(st, parent, child, now)[parent];
            &&& after.metadata == (MetaModel {
                child_session_ids: m.child_session_ids.push(child),
                updated_at: now,
                ..m
            })
            &&& after.messages == st[parent].messages
            &&& after.system_prompt == st[parent].system_prompt
        },
{
}

} // verus!
