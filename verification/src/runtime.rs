//! The agents that run, and how they are reached.

use vstd::prelude::*;

use crate::context;
use crate::context::{AgentContext, ContextModel};
use crate::errors::{ErrorModel, FrameworkError};
use crate::internals::{AgentInternals, InternalsModel};
use crate::json::{Json, JsonTree};
use crate::maps::StringMap;
use crate::metadata;
use crate::metadata::{MetaModel, Timestamp};
use crate::output::{InputMessage, InputModel, ToolResult};
use crate::permissions;
use crate::permissions::{
    Book, CheckResult, GlobalPermissions, GlobalRef, ManagerModel, PermissionManager,
    PermissionRule, PermissionScope, RuleModel, SharedPermissions,
};
use crate::sessions;
use crate::sessions::{AgentSession, SessionStorage, StoredModel};
use crate::state::{AgentState, StateModel};
use crate::text;

verus! {

// ---------------------------------------------------------------------------
// Handles
// ---------------------------------------------------------------------------

/// An agent from without.
#[derive(Debug)]
pub struct AgentHandle {
    session_id: String,
}

/// Why a message did not reach an agent.
#[derive(Debug, Clone, Copy, PartialEq, Eq, Structural)]
pub enum SendFailure {
    /// Too many messages wait.
    Full,
    /// The agent is gone.
    Closed,
}

/// The key under which a session says that no permission is asked for.
pub const SKIP_KEY: &'static str = "dangerous_skip_permissions";

/// Whether a session says that no permission is asked for.
pub open spec fn skips_permissions(s: StoredModel) -> bool {
    s.metadata.custom.dom().contains(SKIP_KEY@) && s.metadata.custom[SKIP_KEY@] == JsonTree::Bool(
        true,
    )
}

/// A session with a value under a key, which changed at some time.
pub open spec fn with_custom(s: StoredModel, key: Seq<char>, value: JsonTree, now: Timestamp) -> StoredModel {
    StoredModel {
        metadata: MetaModel {
            custom: s.metadata.custom.insert(key, value),
            updated_at: now,
            ..s.metadata
        },
        ..s
    }
}

impl AgentHandle {
    /// The name of the session.
    pub closed spec fn view(&self) -> Seq<char> {
        self.session_id@
    }

    /// The handle of an agent.
    pub fn new(session_id: &str) -> (r: AgentHandle)
        ensures
            r@ == session_id@,
    {
        AgentHandle { session_id: session_id.to_string() }
    }

    /// The name of the session.
    pub fn session_id(&self) -> (r: &str)
        ensures
            r@ == self@,
    {
        self.session_id.as_str()
    }

    /// The message that hands input to the agent.
    pub fn send_input(&self, input: &str) -> (r: InputMessage)
        ensures
            r@ == InputModel::UserInput(input@),
    {
        InputMessage::UserInput(input.to_string())
    }

    /// The message that hands the agent what a tool returned.
    pub fn send_tool_result(&self, tool_use_id: &str, result: ToolResult) -> (r: InputMessage)
        ensures
            r@ == (InputModel::ToolResult { tool_use_id: tool_use_id@, result: result@ }),
    {
        InputMessage::ToolResult { tool_use_id: tool_use_id.to_string(), result }
    }

    /// The message that tells the agent whether it may use a tool.
    pub fn send_permission_response(&self, tool_name: &str, allowed: bool, remember: bool) -> (r:
        InputMessage)
        ensures
            r@ == (InputModel::PermissionResponse { tool_name: tool_name@, allowed, remember }),
    {
        InputMessage::PermissionResponse { tool_name: tool_name.to_string(), allowed, remember }
    }

    /// The message that tells the agent that another has ended.
    pub fn send_subagent_complete(&self, session_id: &str, result: Option<String>) -> (r:
        InputMessage)
        ensures
            r@ == (InputModel::SubAgentComplete {
                session_id: session_id@,
                result: text::opt_view(result),
            }),
    {
        InputMessage::SubAgentComplete { session_id: session_id.to_string(), result }
    }

    /// The message that has the agent stop what it does.
    pub fn interrupt(&self) -> (r: InputMessage)
        ensures
            r@ == InputModel::Interrupt,
    {
        InputMessage::Interrupt
    }

    /// The message that has the agent end.
    pub fn shutdown(&self) -> (r: InputMessage)
        ensures
            r@ == InputModel::Shutdown,
    {
        InputMessage::Shutdown
    }

    /// What comes of a message that was sent, and reached the agent or not.
    pub fn send(reached: bool) -> (r: Result<(), FrameworkError>)
        ensures
            match r {
                Ok(_) => reached,
                Err(e) => !reached && e@ == ErrorModel::ChannelClosed,
            },
    {
        if reached {
            Ok(())
        } else {
            Err(FrameworkError::ChannelClosed)
        }
    }

    /// What comes of a message that was sent without waiting.
    pub fn try_send(outcome: Result<(), SendFailure>) -> (r: Result<(), FrameworkError>)
        ensures
            match (outcome, r) {
                (Ok(_), Ok(_)) => true,
                (Err(SendFailure::Full), Err(e)) => e@ == ErrorModel::SendError("Channel full"@),
                (Err(SendFailure::Closed), Err(e)) => e@ == ErrorModel::ChannelClosed,
                _ => false,
            },
    {
        match outcome {
            Ok(_) => Ok(()),
            Err(SendFailure::Full) => Err(FrameworkError::SendError("Channel full".to_string())),
            Err(SendFailure::Closed) => Err(FrameworkError::ChannelClosed),
        }
    }

    /// Whether an agent waits for input.
    pub fn is_idle(state: &AgentState) -> (r: bool)
        ensures
            r == (state@ is Idle),
    {
        matches!(state, AgentState::Idle)
    }

    /// Whether an agent works on its input.
    pub fn is_processing(state: &AgentState) -> (r: bool)
        ensures
            r == (state@ is Processing),
    {
        matches!(state, AgentState::Processing)
    }

    /// Whether an agent has done its work.
    pub fn is_done(state: &AgentState) -> (r: bool)
        ensures
            r == (state@ is Done),
    {
        matches!(state, AgentState::Done)
    }

    /// Whether an agent failed.
    pub fn is_error(state: &AgentState) -> (r: bool)
        ensures
            r == (state@ is Error),
    {
        matches!(state, AgentState::Error { .. })
    }

    /// Whether an agent has not ended.
    pub fn is_running(state: &AgentState) -> (r: bool)
        ensures
            r == !(state@ is Done || state@ is Error),
    {
        !state.is_terminal()
    }

    /// Puts a value under a key of a session, and keeps the session.
    pub fn set_custom_metadata(
        session: &mut AgentSession,
        storage: &mut SessionStorage,
        key: &str,
        value: Json,
    )
        ensures
            final(session)@ == with_custom(
                old(session)@,
                key@,
                value@,
                final(session)@.metadata.updated_at,
            ),
            final(storage)@ == sessions::saved(old(storage)@, final(session)@),
    {
        session.set_custom(key, value);
        session.save(storage);
    }

    /// The value under a key of a session.
    pub fn get_custom_metadata(session: &AgentSession, key: &str) -> (r: Option<Json>)
        ensures
            match r {
                Some(v) => session@.metadata.custom.dom().contains(key@)
                    && session@.metadata.custom[key@] == v@,
                None => !session@.metadata.custom.dom().contains(key@),
            },
    {
        match session.get_custom(key) {
            Some(v) => Some(v.copy()),
            None => None,
        }
    }

    /// Says whether permission is asked for in a session, and keeps the session.
    pub fn set_dangerous_skip_permissions(
        session: &mut AgentSession,
        storage: &mut SessionStorage,
        enabled: bool,
    )
        ensures
            final(session)@ == with_custom(
                old(session)@,
                SKIP_KEY@,
                JsonTree::Bool(enabled),
                final(session)@.metadata.updated_at,
            ),
            final(storage)@ == sessions::saved(old(storage)@, final(session)@),
    {
        AgentHandle::set_custom_metadata(session, storage, SKIP_KEY, Json::Bool(enabled));
    }

    /// Whether a session says that no permission is asked for.
    pub fn is_dangerous_skip_permissions_enabled(session: &AgentSession) -> (r: bool)
        ensures
            r == skips_permissions(session@),
    {
        match session.get_custom(SKIP_KEY) {
            Some(Json::Bool(b)) => *b,
            _ => false,
        }
    }
}

// ---------------------------------------------------------------------------
// The runtime
// ---------------------------------------------------------------------------

/// The agents that run, each with a handle, and the set of rules that they share.
pub struct AgentRuntime<H> {
    agents: StringMap<H>,
    shared: SharedPermissions,
    global: GlobalRef,
}

/// The agents that run, and the set of rules that they share among all sets of rules.
#[verifier::ext_equal]
pub struct RuntimeModel<H> {
    pub agents: Map<Seq<char>, H>,
    pub shared: Book,
    pub global: GlobalRef,
}

/// An agent that is about to run in a session. Its parent, if it has one, is that of the
/// session.
pub open spec fn newborn<R, H>(
    s: StoredModel,
    global: GlobalRef,
    local_rules: Seq<RuleModel>,
) -> InternalsModel<R, H> {
    InternalsModel {
        context: ContextModel {
            parent_session_id: s.metadata.parent_session_id,
            parent_tool_use_id: s.metadata.parent_tool_use_id,
            ..context::fresh_context(
                s.metadata.session_id,
                s.metadata.agent_type,
                s.metadata.name,
                s.metadata.description,
            )
        },
        permissions: ManagerModel {
            global,
            local: local_rules,
            session: seq![],
            interactive: true,
            agent_type: s.metadata.agent_type,
        },
        subagents: None,
        state: StateModel::Idle,
        outbox: seq![],
    }
}

/// The runtime with one more agent.
pub open spec fn started<H>(m: RuntimeModel<H>, id: Seq<char>, handle: H) -> RuntimeModel<H> {
    RuntimeModel { agents: m.agents.insert(id, handle), ..m }
}

/// The runtime without an agent.
pub open spec fn stopped<H>(m: RuntimeModel<H>, id: Seq<char>) -> RuntimeModel<H> {
    RuntimeModel { agents: m.agents.remove(id), ..m }
}

/// A runtime without agents, which share some rules.
pub open spec fn idle<H>(rules: Seq<RuleModel>) -> RuntimeModel<H> {
    RuntimeModel { agents: Map::empty(), shared: seq![rules], global: GlobalRef { place: 0 } }
}

impl<H> Default for AgentRuntime<H> {
    fn default() -> (r: AgentRuntime<H>)
        ensures
            r@ == idle::<H>(seq![]),
    {
        AgentRuntime::new()
    }
}

impl<H> AgentRuntime<H> {
    /// The agents and the rules.
    pub closed spec fn view(&self) -> RuntimeModel<H> {
        RuntimeModel { agents: self.agents@, shared: self.shared@, global: self.global }
    }

    /// No agents, which share no rules.
    pub fn new() -> (r: AgentRuntime<H>)
        ensures
            r@ == idle::<H>(seq![]),
    {
        AgentRuntime::sharing(GlobalPermissions::new())
    }

    /// No agents, which share some rules.
    pub fn with_global_rules(rules: Vec<PermissionRule>) -> (r: AgentRuntime<H>)
        ensures
            r@ == idle::<H>(permissions::rule_views(rules@)),
    {
        AgentRuntime::sharing(GlobalPermissions::with_rules(rules))
    }

    fn sharing(rules: GlobalPermissions) -> (r: AgentRuntime<H>)
        ensures
            r@ == idle::<H>(rules@),
    {
        let mut shared = SharedPermissions::new();
        let global = shared.share(rules);
        let r = AgentRuntime { agents: StringMap::new(), shared, global };
        assert(r@ =~= idle::<H>(rules@));
        r
    }

    /// The set of rules that the agents share.
    pub fn global_permissions(&self) -> (r: GlobalRef)
        ensures
            r == self@.global,
    {
        self.global
    }

    /// All sets of rules.
    pub fn shared(&self) -> (r: &SharedPermissions)
        ensures
            r@ == self@.shared,
    {
        &self.shared
    }

    /// All sets of rules, to be changed.
    pub fn shared_mut(&mut self) -> (r: &mut SharedPermissions)
        ensures
            r@ == old(self)@.shared,
            final(self)@ == (RuntimeModel { shared: final(r)@, ..old(self)@ }),
    {
        &mut self.shared
    }

    /// Notes an agent that starts in a session, and gives the agent from within.
    pub fn spawn<R>(&mut self, session: &AgentSession, handle: H) -> (r: AgentInternals<R, H>)
        ensures
            r@ == newborn::<R, H>(session@, old(self)@.global, seq![]),
            final(self)@ == started(old(self)@, session@.metadata.session_id, handle),
    {
        let none: Vec<PermissionRule> = Vec::new();
        assert(permissions::rule_views(none@) =~= seq![]);
        self.spawn_with_local_rules(session, none, handle)
    }

    /// Notes an agent that starts in a session with rules for its type, and gives the
    /// agent from within.
    pub fn spawn_with_local_rules<R>(
        &mut self,
        session: &AgentSession,
        local_rules: Vec<PermissionRule>,
        handle: H,
    ) -> (r: AgentInternals<R, H>)
        ensures
            r@ == newborn::<R, H>(
                session@,
                old(self)@.global,
                permissions::rule_views(local_rules@),
            ),
            final(self)@ == started(old(self)@, session@.metadata.session_id, handle),
    {
        let context = AgentContext {
            parent_session_id: text::copy_opt_str(session.parent_session_id()),
            parent_tool_use_id: text::copy_opt_str(session.parent_tool_use_id()),
            ..AgentContext::new(
                session.session_id(),
                session.agent_type(),
                session.name(),
                session.description(),
            )
        };
        let permissions = PermissionManager::with_local_rules(
            self.global,
            session.agent_type(),
            local_rules,
        );
        let internals = AgentInternals::new(context, permissions, AgentState::Idle);
        let _ = self.agents.insert(session.session_id().to_string(), handle);
        internals
    }

    /// Makes a session for an agent that another starts, notes the agent, and gives its
    /// session and the agent from within.
    pub fn spawn_subagent<R>(
        &mut self,
        session_id: &str,
        agent_type: &str,
        name: &str,
        description: &str,
        system_prompt: &str,
        parent_session_id: &str,
        parent_tool_use_id: &str,
        storage: &mut SessionStorage,
        handle: H,
    ) -> (r: (AgentSession, AgentInternals<R, H>))
        ensures
            (r.0)@ == (StoredModel {
                metadata: metadata::fresh_child(
                    session_id@,
                    agent_type@,
                    name@,
                    description@,
                    parent_session_id@,
                    parent_tool_use_id@,
                    (r.0)@.metadata.created_at,
                ),
                messages: seq![],
                system_prompt: system_prompt@,
            }),
            exists|now: Timestamp|
                final(storage)@ == #[trigger] sessions::linked(
                    sessions::created(old(storage)@, (r.0)@.metadata, system_prompt@),
                    parent_session_id@,
                    session_id@,
                    now,
                ),
            (r.1)@ == newborn::<R, H>((r.0)@, old(self)@.global, seq![]),
            final(self)@ == started(old(self)@, session_id@, handle),
    {
        let session = AgentSession::new_subagent_with_storage(
            session_id,
            agent_type,
            name,
            description,
            system_prompt,
            parent_session_id,
            parent_tool_use_id,
            storage,
        );
        let internals = self.spawn(&session, handle);
        (session, internals)
    }

    /// Notes that an agent has ended.
    pub fn finished(&mut self, session_id: &str)
        ensures
            final(self)@ == stopped(old(self)@, session_id@),
    {
        let _ = self.agents.remove(session_id);
    }

    /// The handle of an agent that runs.
    pub fn get(&self, session_id: &str) -> (r: Option<&H>)
        ensures
            match r {
                Some(h) => self@.agents.dom().contains(session_id@) && self@.agents[session_id@]
                    == *h,
                None => !self@.agents.dom().contains(session_id@),
            },
    {
        self.agents.get(session_id)
    }

    /// Whether an agent runs.
    pub fn is_running(&self, session_id: &str) -> (r: bool)
        ensures
            r == self@.agents.dom().contains(session_id@),
    {
        self.agents.contains_key(session_id)
    }

    /// How many agents run.
    pub fn count(&self) -> (r: usize)
        ensures
            r == self@.agents.dom().len(),
    {
        self.agents.len()
    }

    /// The names of the agents that run.
    pub fn list_running(&self) -> (r: Vec<String>)
        ensures
            text::views(r@).no_duplicates(),
            forall|k: Seq<char>| text::views(r@).contains(k) == self@.agents.dom().contains(k),
    {
        self.agents.names()
    }

    /// The message that has an agent end.
    pub fn shutdown(&self, session_id: &str) -> (r: Result<InputMessage, FrameworkError>)
        ensures
            match r {
                Ok(m) => self@.agents.dom().contains(session_id@) && m@ == InputModel::Shutdown,
                Err(e) => !self@.agents.dom().contains(session_id@) && e@
                    == ErrorModel::AgentNotRunning(session_id@),
            },
    {
        if self.agents.contains_key(session_id) {
            Ok(InputMessage::Shutdown)
        } else {
            Err(FrameworkError::AgentNotRunning(session_id.to_string()))
        }
    }

    /// The message that has an agent stop what it does.
    pub fn interrupt(&self, session_id: &str) -> (r: Result<InputMessage, FrameworkError>)
        ensures
            match r {
                Ok(m) => self@.agents.dom().contains(session_id@) && m@ == InputModel::Interrupt,
                Err(e) => !self@.agents.dom().contains(session_id@) && e@
                    == ErrorModel::AgentNotRunning(session_id@),
            },
    {
        if self.agents.contains_key(session_id) {
            Ok(InputMessage::Interrupt)
        } else {
            Err(FrameworkError::AgentNotRunning(session_id.to_string()))
        }
    }

    /// The messages that have all agents end, one for each.
    pub fn shutdown_all(&self) -> (r: Vec<(String, InputMessage)>)
        ensures
            message_names(r@).no_duplicates(),
            forall|k: Seq<char>| message_names(r@).contains(k) == self@.agents.dom().contains(k),
            forall|i: int| 0 <= i < r@.len() ==> (#[trigger] r@[i]).1@ == InputModel::Shutdown,
    {
        let names = self.list_running();
        let ghost all = text::views(names@);
        let mut r: Vec<(String, InputMessage)> = Vec::new();
        let mut i: usize = 0;
        while i < names.len()
            invariant
                i <= names.len(),
                all == text::views(names@),
                message_names(r@) == all.take(i as int),
                forall|j: int| 0 <= j < r@.len() ==> (#[trigger] r@[j]).1@ == InputModel::Shutdown,
            decreases names.len() - i,
        {
            let ghost was = message_names(r@);
            r.push((names[i].clone(), InputMessage::Shutdown));
            assert(message_names(r@) =~= was.push(all[i as int]));
            i += 1;
            assert(all.take(i as int) =~= was.push(all[i - 1]));
        }
        assert(all.take(i as int) =~= all);
        r
    }
}

/// The names in a list of messages.
pub open spec fn message_names(v: Seq<(String, InputMessage)>) -> Seq<Seq<char>> {
    Seq::new(v.len(), |i: int| v[i].0@)
}

// ---------------------------------------------------------------------------
// Laws
// ---------------------------------------------------------------------------

/// An agent runs from when it is started until it has ended; that does not touch the
/// others.
pub proof fn agents_run_until_they_end<H>(
    m: RuntimeModel<H>,
    id: Seq<char>,
    handle: H,
    other: Seq<char>,
)
    requires
        other != id,
    ensures
        started(m, id, handle).agents.dom().contains(id),
        started(m, id, handle).agents[id] == handle,
        !stopped(started(m, id, handle), id).agents.dom().contains(id),
        stopped(started(m, id, handle), id).agents.dom().contains(other)
            == m.agents.dom().contains(other),
        stopped(started(m, id, handle), id).shared == m.shared,
        stopped(started(m, id, handle), id).global == m.global,
{
}

/// A rule that one agent adds for all agents holds at once for every agent of the runtime,
/// whenever it was started.
pub proof fn agents_share_their_rules<R, H>(
    m: RuntimeModel<H>,
    s: StoredModel,
    other: StoredModel,
    rule: RuleModel,
    tool: Seq<char>,
    input: Seq<char>,
)
    requires
        m.global.place < m.shared.len(),
        permissions::rule_matches(rule, tool, input),
    ensures
        permissions::checked(
            newborn::<R, H>(other, m.global, seq![]).permissions,
            permissions::rule_added(
                newborn::<R, H>(s, m.global, seq![]).permissions,
                m.shared,
                rule,
                PermissionScope::Global,
            ).1,
            tool,
            input,
        ) == CheckResult::Allowed,
{
    permissions::global_rules_hold_for_every_agent(
        newborn::<R, H>(s, m.global, seq![]).permissions,
        newborn::<R, H>(other, m.global, seq![]).permissions,
        m.shared,
        rule,
        tool,
        input,
    );
}

/// An agent that another starts knows which agent started it, and for which use of a tool.
pub proof fn a_started_agent_knows_its_parent<R, H>(
    id: Seq<char>,
    agent_type: Seq<char>,
    name: Seq<char>,
    description: Seq<char>,
    parent: Seq<char>,
    tool_use_id: Seq<char>,
    system_prompt: Seq<char>,
    now: Timestamp,
    global: GlobalRef,
)
    ensures
        ({
            let s = StoredModel {
                metadata: metadata::fresh_child(
                    id,
                    agent_type,
                    name,
                    description,
                    parent,
                    tool_use_id,
                    now,
                ),
                messages: seq![],
                system_prompt,
            };
            let c = newborn::<R, H>(s, global, seq![]).context;
            c.parent_session_id == Some(parent) && c.parent_tool_use_id == Some(tool_use_id)
        }),
{
}

/// Whether permission is asked for in a session reads back as it was said, and is kept
/// with the session.
pub proof fn the_switch_reads_back(
    st: sessions::Store,
    s: StoredModel,
    enabled: bool,
    now: Timestamp,
)
    requires
        sessions::in_step(st, s),
    ensures
        ({
            let s2 = with_custom(s, SKIP_KEY@, JsonTree::Bool(enabled), now);
            &&& skips_permissions(s2) == enabled
            &&& sessions::in_step(sessions::saved(st, s2), s2)
        }),
{
    let s2 = with_custom(s, SKIP_KEY@, JsonTree::Bool(enabled), now);
    sessions::saved_sessions_load_back(st, s2, s);
}

/// A new agent is the one of its session, waits for input, may ask the user, has the rules
/// that it was given and none of its own, and has sent nothing.
pub proof fn new_agents_wait<R, H>(s: StoredModel, global: GlobalRef, rules: Seq<RuleModel>)
    ensures
        ({
            let m = newborn::<R, H>(s, global, rules);
            &&& m.context.session_id == s.metadata.session_id
            &&& m.context.agent_type == s.metadata.agent_type
            &&& m.context.name == s.metadata.name
            &&& m.context.description == s.metadata.description
            &&& m.context.parent_session_id == s.metadata.parent_session_id
            &&& m.context.parent_tool_use_id == s.metadata.parent_tool_use_id
            &&& m.context.current_turn == 0
            &&& m.context.current_tool_use_id is None
            &&& m.permissions.global == global
            &&& m.permissions.local == rules
            &&& m.permissions.session.len() == 0
            &&& m.permissions.interactive
            &&& m.permissions.agent_type == s.metadata.agent_type
            &&& m.subagents is None
            &&& m.state == StateModel::Idle
            &&& m.outbox.len() == 0
        }),
{
}

/// A runtime starts with the rules that it was given, under one name, and without agents.
pub proof fn runtimes_start_idle<H>(rules: Seq<RuleModel>)
    ensures
        idle::<H>(rules).agents == Map::<Seq<char>, H>::empty(),
        permissions::rules_at(idle::<H>(rules).shared, idle::<H>(rules).global) == rules,
        idle::<H>(rules).global.place < idle::<H>(rules).shared.len(),
{
}

/// What is noted of a session under a name reads back, and nothing else but the time of the
/// change is different.
pub proof fn notes_read_back(
    s: StoredModel,
    key: Seq<char>,
    other: Seq<char>,
    value: JsonTree,
    now: Timestamp,
)
    requires
        other != key,
    ensures
        ({
            let after = with_custom(s, key, value, now);
            &&& after.metadata.custom.dom().contains(key)
            &&& after.metadata.custom[key] == value
            &&& after.metadata.custom.dom().contains(other)
                == s.metadata.custom.dom().contains(other)
            &&& s.metadata.custom.dom().contains(other) ==> after.metadata.custom[other]
                == s.metadata.custom[other]
            &&& after.metadata.updated_at == now
            &&& after.metadata.session_id == s.metadata.session_id
            &&& after.messages == s.messages
            &&& after.system_prompt == s.system_prompt
        }),
{
}

/// Permissions are skipped by a session that has noted so under its name, and by no other.
pub proof fn permissions_are_skipped_as_noted(s: StoredModel)
    ensures
        skips_permissions(s) <==> (s.metadata.custom.dom().contains(
            "dangerous_skip_permissions"@,
        ) && s.metadata.custom["dangerous_skip_permissions"@] == JsonTree::Bool(true)),
{
}

} // verus!
