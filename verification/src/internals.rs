//! An agent from within: what it knows, what it may do, and what it sends out.

use vstd::prelude::*;

use crate::context::{AgentContext, ContextModel};
use crate::errors::{ErrorModel, FrameworkError};
use crate::json::{Json, JsonTree};
use crate::loop_client::UserQuestionWire;
use crate::metadata;
use crate::metadata::Timestamp;
use crate::output;
use crate::output::{
    ChunkModel, InputMessage, InputModel, OutputChunk, ToolResult, ToolResultModel,
};
use crate::permissions;
use crate::permissions::{
    Book, CheckResult, ManagerModel, PermissionManager, PermissionRule, PermissionScope, RuleModel,
    SharedPermissions,
};
use crate::runtime;
use crate::runtime::AgentRuntime;
use crate::sessions;
use crate::sessions::{AgentSession, SessionStorage, StoredModel};
use crate::state::{AgentState, StateModel};
use crate::subagents;
use crate::subagents::{CompletedModel, SubAgentManager, SubAgentModel};
use crate::text;

verus! {

/// An agent from within. What it sends out waits in the outbox. What keeps track of
/// the agents that it starts is made when it starts the first.
pub struct AgentInternals<R, H> {
    pub context: AgentContext<R>,
    pub permissions: PermissionManager,
    pub subagents: Option<SubAgentManager<H>>,
    pub state: AgentState,
    pub outbox: Vec<OutputChunk>,
}

/// An agent from within.
#[verifier::ext_equal]
pub struct InternalsModel<R, H> {
    pub context: ContextModel<R>,
    pub permissions: ManagerModel,
    pub subagents: Option<SubAgentModel<H>>,
    pub state: StateModel,
    pub outbox: Seq<ChunkModel>,
}

/// An agent that sent something out.
pub open spec fn sent<R, H>(m: InternalsModel<R, H>, chunk: ChunkModel) -> InternalsModel<R, H> {
    InternalsModel { outbox: m.outbox.push(chunk), ..m }
}

/// An agent that is in another state and says so.
pub open spec fn moved<R, H>(m: InternalsModel<R, H>, s: StateModel) -> InternalsModel<R, H> {
    sent(InternalsModel { state: s, ..m }, ChunkModel::StateChange(s))
}

/// What comes of the wish to use a tool.
#[derive(Debug, Clone, Copy, PartialEq, Eq, Structural)]
pub enum PermissionStep {
    /// The tool may be used, or not.
    Decided(bool),
    /// The user was asked.
    Asked,
}

/// The question whether a tool may be used.
pub open spec fn permission_question(
    tool_name: Seq<char>,
    action: Seq<char>,
    input: Seq<char>,
) -> ChunkModel {
    ChunkModel::PermissionRequest { tool_name, action, input, details: None }
}

/// What comes of what the user answers to the question whether a tool may be used;
/// no answer means that the user is gone. An answer about another tool, and anything
/// that is no answer, is a no.
pub open spec fn permission_answer(tool_name: Seq<char>, answer: Option<InputModel>) -> Result<
    bool,
    ErrorModel,
> {
    match answer {
        Some(InputModel::PermissionResponse { tool_name: t, allowed, .. }) => Ok(
            t == tool_name && allowed,
        ),
        Some(InputModel::Shutdown) => Err(ErrorModel::Shutdown),
        Some(InputModel::Interrupt) => Err(ErrorModel::Interrupted),
        None => Err(ErrorModel::ChannelClosed),
        _ => Ok(false),
    }
}

/// Whether an answer is a yes that is to be remembered.
pub open spec fn lasting_yes(tool_name: Seq<char>, answer: Option<InputModel>) -> bool {
    match answer {
        Some(InputModel::PermissionResponse { tool_name: t, allowed, remember }) => t == tool_name
            && allowed && remember,
        _ => false,
    }
}

/// An agent that may use a tool for the rest of the session.
pub open spec fn permitted<R, H>(m: InternalsModel<R, H>, tool_name: Seq<char>) -> InternalsModel<
    R,
    H,
> {
    InternalsModel {
        permissions: ManagerModel {
            session: m.permissions.session.push(permissions::tool_rule(tool_name)),
            ..m.permissions
        },
        ..m
    }
}

/// The agents that are kept track of: none, where nothing keeps track of them yet.
pub open spec fn tracked_by<H>(subagents: Option<SubAgentModel<H>>) -> SubAgentModel<H> {
    match subagents {
        Some(m) => m,
        None => SubAgentModel { active: Map::empty(), completed: Map::empty() },
    }
}

/// An agent that started another, keeps track of it and says so.
pub open spec fn spawned<R, H>(
    m: InternalsModel<R, H>,
    session_id: Seq<char>,
    agent_type: Seq<char>,
    handle: H,
) -> InternalsModel<R, H> {
    sent(
        InternalsModel {
            subagents: Some(subagents::registered(tracked_by(m.subagents), session_id, handle)),
            ..m
        },
        ChunkModel::SubAgentSpawned { session_id, agent_type },
    )
}

/// What an agent may have been answered.
pub open spec fn opt_input(m: Option<InputMessage>) -> Option<InputModel> {
    match m {
        Some(m) => Some(m@),
        None => None,
    }
}

/// What comes of what the user answers to some questions.
pub open spec fn question_answer(request_id: Seq<char>, answer: Option<InputModel>) -> Result<
    Seq<(String, String)>,
    ErrorModel,
> {
    match answer {
        Some(InputModel::UserQuestionResponse { request_id: id, answers }) => if id == request_id {
            Ok(answers)
        } else {
            Err(
                ErrorModel::Other(
                    "Mismatched request ID: expected "@ + request_id + ", got "@ + id,
                ),
            )
        },
        Some(InputModel::Interrupt) => Err(ErrorModel::Interrupted),
        Some(InputModel::Shutdown) => Err(ErrorModel::Shutdown),
        None => Err(ErrorModel::ChannelClosed),
        _ => Err(ErrorModel::Other("Unexpected message while waiting for user response"@)),
    }
}

impl<R, H> AgentInternals<R, H> {
    /// The agent.
    pub open spec fn view(&self) -> InternalsModel<R, H> {
        InternalsModel {
            context: self.context@,
            permissions: self.permissions@,
            subagents: match self.subagents {
                Some(manager) => Some(manager@),
                None => None,
            },
            state: self.state@,
            outbox: output::chunk_views(self.outbox@),
        }
    }

    /// An agent in a state that has started no other.
    pub fn new(
        context: AgentContext<R>,
        permissions: PermissionManager,
        state: AgentState,
    ) -> (r: AgentInternals<R, H>)
        ensures
            r@ == (InternalsModel::<R, H> {
                context: context@,
                permissions: permissions@,
                subagents: None,
                state: state@,
                outbox: seq![],
            }),
    {
        let r = AgentInternals {
            context,
            permissions,
            subagents: None,
            state,
            outbox: Vec::new(),
        };
        assert(r@.outbox =~= seq![]);
        r
    }

    // -----------------------------------------------------------------------
    // Input and output
    // -----------------------------------------------------------------------

    /// What came in, or that the other side is gone.
    pub fn receive_or_err(received: Option<InputMessage>) -> (r: Result<
        InputMessage,
        FrameworkError,
    >)
        ensures
            match (received, r) {
                (Some(m), Ok(n)) => m == n,
                (None, Err(e)) => e@ == ErrorModel::ChannelClosed,
                _ => false,
            },
    {
        match received {
            Some(m) => Ok(m),
            None => Err(FrameworkError::ChannelClosed),
        }
    }

    /// Sends something out.
    pub fn send(&mut self, chunk: OutputChunk)
        ensures
            final(self)@ == sent(old(self)@, chunk@),
    {
        self.outbox.push(chunk);
        assert(self@.outbox =~= old(self)@.outbox.push(chunk@));
    }

    /// Takes what waits to be sent out.
    pub fn take_outbox(&mut self) -> (r: Vec<OutputChunk>)
        ensures
            output::chunk_views(r@) == old(self)@.outbox,
            final(self)@ == (InternalsModel { outbox: seq![], ..old(self)@ }),
    {
        let mut r: Vec<OutputChunk> = Vec::new();
        std::mem::swap(&mut r, &mut self.outbox);
        assert(self@.outbox =~= seq![]);
        r
    }

    /// Sends a piece of text.
    pub fn send_text(&mut self, text: &str)
        ensures
            final(self)@ == sent(old(self)@, ChunkModel::TextDelta(text@)),
    {
        self.send(OutputChunk::TextDelta(text.to_string()));
    }

    /// Sends a piece of a thought.
    pub fn send_thinking(&mut self, text: &str)
        ensures
            final(self)@ == sent(old(self)@, ChunkModel::ThinkingDelta(text@)),
    {
        self.send(OutputChunk::ThinkingDelta(text.to_string()));
    }

    /// Sends a whole thought.
    pub fn send_thinking_complete(&mut self, full_text: &str)
        ensures
            final(self)@ == sent(old(self)@, ChunkModel::ThinkingComplete(full_text@)),
    {
        self.send(OutputChunk::ThinkingComplete(full_text.to_string()));
    }

    /// Sends a whole text.
    pub fn send_text_complete(&mut self, full_text: &str)
        ensures
            final(self)@ == sent(old(self)@, ChunkModel::TextComplete(full_text@)),
    {
        self.send(OutputChunk::TextComplete(full_text.to_string()));
    }

    /// Sends how things stand.
    pub fn send_status(&mut self, status: &str)
        ensures
            final(self)@ == sent(old(self)@, ChunkModel::Status(status@)),
    {
        self.send(OutputChunk::Status(status.to_string()));
    }

    /// Sends what went wrong.
    pub fn send_error(&mut self, error: &str)
        ensures
            final(self)@ == sent(old(self)@, ChunkModel::Error(error@)),
    {
        self.send(OutputChunk::Error(error.to_string()));
    }

    /// Sends that all is done.
    pub fn send_done(&mut self)
        ensures
            final(self)@ == sent(old(self)@, ChunkModel::Done),
    {
        self.send(OutputChunk::Done);
    }

    /// Sends that a tool starts.
    pub fn send_tool_start(&mut self, id: &str, name: &str, input: Json)
        ensures
            final(self)@ == sent(
                old(self)@,
                ChunkModel::ToolStart { id: id@, name: name@, input: input@ },
            ),
    {
        self.send(
            OutputChunk::ToolStart { id: id.to_string(), name: name.to_string(), input },
        );
    }

    /// Sends what a tool returned.
    pub fn send_tool_end(&mut self, id: &str, result: ToolResult)
        ensures
            final(self)@ == sent(old(self)@, ChunkModel::ToolEnd { id: id@, result: result@ }),
    {
        self.send(OutputChunk::ToolEnd { id: id.to_string(), result });
    }

    /// Sends the question whether a tool may be used.
    pub fn send_permission_request(
        &mut self,
        tool_name: &str,
        action: &str,
        input: &str,
        details: Option<String>,
    )
        ensures
            final(self)@ == sent(
                old(self)@,
                ChunkModel::PermissionRequest {
                    tool_name: tool_name@,
                    action: action@,
                    input: input@,
                    details: text::opt_view(details),
                },
            ),
    {
        self.send(
            OutputChunk::PermissionRequest {
                tool_name: tool_name.to_string(),
                action: action.to_string(),
                input: input.to_string(),
                details,
            },
        );
    }

    // -----------------------------------------------------------------------
    // States
    // -----------------------------------------------------------------------

    /// Goes into another state, and says so.
    pub fn set_state(&mut self, new_state: AgentState)
        ensures
            final(self)@ == moved(old(self)@, new_state@),
    {
        self.state = new_state.copy();
        self.send(OutputChunk::StateChange(new_state));
    }

    /// Goes into another state, and does not say so.
    pub fn set_state_silent(&mut self, new_state: AgentState)
        ensures
            final(self)@ == (InternalsModel { state: new_state@, ..old(self)@ }),
    {
        self.state = new_state;
    }

    /// The state.
    pub fn state(&self) -> (r: AgentState)
        ensures
            r@ == self@.state,
    {
        self.state.copy()
    }

    /// Waits for input.
    pub fn set_idle(&mut self)
        ensures
            final(self)@ == moved(old(self)@, StateModel::Idle),
    {
        self.set_state(AgentState::Idle);
    }

    /// Works on its input.
    pub fn set_processing(&mut self)
        ensures
            final(self)@ == moved(old(self)@, StateModel::Processing),
    {
        self.set_state(AgentState::Processing);
    }

    /// Has done its work.
    pub fn set_done(&mut self)
        ensures
            final(self)@ == moved(old(self)@, StateModel::Done),
    {
        self.set_state(AgentState::Done);
    }

    /// Failed.
    pub fn set_error(&mut self, message: &str)
        ensures
            final(self)@ == moved(old(self)@, StateModel::Error { message: message@ }),
    {
        self.set_state(AgentState::error(message));
    }

    /// Waits for the user to permit something.
    pub fn set_waiting_for_permission(&mut self)
        ensures
            final(self)@ == moved(old(self)@, StateModel::WaitingForPermission),
    {
        self.set_state(AgentState::WaitingForPermission);
    }

    /// Runs a tool.
    pub fn set_executing_tool(&mut self, tool_name: &str, tool_use_id: &str)
        ensures
            final(self)@ == moved(
                old(self)@,
                StateModel::ExecutingTool { tool_name: tool_name@, tool_use_id: tool_use_id@ },
            ),
    {
        self.set_state(AgentState::executing_tool(tool_name, tool_use_id));
    }

    /// Waits for another agent.
    pub fn set_waiting_for_subagent(&mut self, session_id: &str)
        ensures
            final(self)@ == moved(
                old(self)@,
                StateModel::WaitingForSubAgent { session_id: session_id@ },
            ),
    {
        self.set_state(AgentState::waiting_for_subagent(session_id));
    }

    /// Waits for the user's answers.
    pub fn set_waiting_for_user_input(&mut self, request_id: &str)
        ensures
            final(self)@ == moved(
                old(self)@,
                StateModel::WaitingForUserInput { request_id: request_id@ },
            ),
    {
        self.set_state(AgentState::waiting_for_user_input(request_id));
    }

    // -----------------------------------------------------------------------
    // Context
    // -----------------------------------------------------------------------

    /// The name of the session.
    pub fn session_id(&self) -> (r: &str)
        ensures
            r@ == self@.context.session_id,
    {
        self.context.session_id.as_str()
    }

    /// The type of agent.
    pub fn agent_type(&self) -> (r: &str)
        ensures
            r@ == self@.context.agent_type,
    {
        self.context.agent_type.as_str()
    }

    /// Counts a turn.
    pub fn next_turn(&mut self)
        requires
            old(self).context.current_turn < usize::MAX,
        ensures
            final(self)@ == (InternalsModel {
                context: ContextModel {
                    current_turn: old(self)@.context.current_turn + 1,
                    ..old(self)@.context
                },
                ..old(self)@
            }),
    {
        self.context.next_turn();
    }

    /// The context for a use of a tool.
    pub fn context_for_tool(&self, tool_use_id: &str) -> (r: AgentContext<R>)
        ensures
            r@ == (ContextModel { current_tool_use_id: Some(tool_use_id@), ..self@.context }),
    {
        self.context.with_tool_use_id(tool_use_id)
    }

    // -----------------------------------------------------------------------
    // Permissions
    // -----------------------------------------------------------------------

    /// Whether a tool may be used.
    pub fn check_permission(&self, shared: &SharedPermissions, tool_name: &str, input: &str) -> (r:
        CheckResult)
        ensures
            r == permissions::checked(self@.permissions, shared@, tool_name@, input@),
    {
        self.permissions.check(shared, tool_name, input)
    }

    /// Whether a tool may be used, by the rules; where they say nothing and there is
    /// a user, the user is asked.
    pub fn request_permission(
        &mut self,
        shared: &SharedPermissions,
        tool_name: &str,
        action_description: &str,
        input: &str,
    ) -> (r: PermissionStep)
        ensures
            match permissions::checked(old(self)@.permissions, shared@, tool_name@, input@) {
                CheckResult::Allowed => r == PermissionStep::Decided(true) && final(self)@ == old(
                    self,
                )@,
                CheckResult::Denied => r == PermissionStep::Decided(false) && final(self)@ == old(
                    self,
                )@,
                CheckResult::AskUser => r == PermissionStep::Asked && final(self)@ == moved(
                    sent(
                        old(self)@,
                        permission_question(tool_name@, action_description@, input@),
                    ),
                    StateModel::WaitingForPermission,
                ),
            },
    {
        match self.permissions.check(shared, tool_name, input) {
            CheckResult::Allowed => PermissionStep::Decided(true),
            CheckResult::Denied => PermissionStep::Decided(false),
            CheckResult::AskUser => {
                self.send_permission_request(tool_name, action_description, input, None);
                self.set_waiting_for_permission();
                PermissionStep::Asked
            },
        }
    }

    /// Takes in what the user answers to the question whether a tool may be used.
    pub fn permission_answered(&mut self, tool_name: &str, answer: Option<InputMessage>) -> (r:
        Result<bool, FrameworkError>)
        ensures
            match (r, permission_answer(tool_name@, opt_input(answer))) {
                (Ok(a), Ok(b)) => a == b,
                (Err(a), Err(b)) => a@ == b,
                _ => false,
            },
            final(self)@ == (if lasting_yes(tool_name@, opt_input(answer)) {
                permitted(old(self)@, tool_name@)
            } else {
                old(self)@
            }),
    {
        match answer {
            Some(InputMessage::PermissionResponse { tool_name: t, allowed, remember }) => {
                if text::same(t.as_str(), tool_name) {
                    if remember && allowed {
                        self.permissions.add_session_rule(PermissionRule::allow_tool(tool_name));
                    }
                    Ok(allowed)
                } else {
                    Ok(false)
                }
            },
            Some(InputMessage::Shutdown) => Err(FrameworkError::Shutdown),
            Some(InputMessage::Interrupt) => Err(FrameworkError::Interrupted),
            None => Err(FrameworkError::ChannelClosed),
            _ => Ok(false),
        }
    }

    /// Adds a rule.
    pub fn add_permission_rule(
        &mut self,
        shared: &mut SharedPermissions,
        rule: PermissionRule,
        scope: PermissionScope,
    )
        ensures
            ({
                let (m, g) = permissions::rule_added(
                    old(self)@.permissions,
                    old(shared)@,
                    rule@,
                    scope,
                );
                &&& final(self)@ == (InternalsModel { permissions: m, ..old(self)@ })
                &&& final(shared)@ == g
            }),
    {
        self.permissions.add_rule(shared, rule, scope);
    }

    /// Whether there is a user to ask.
    pub fn is_interactive(&self) -> (r: bool)
        ensures
            r == self@.permissions.interactive,
    {
        self.permissions.is_interactive()
    }

    /// Says whether there is a user to ask.
    pub fn set_interactive(&mut self, interactive: bool)
        ensures
            final(self)@ == (InternalsModel {
                permissions: ManagerModel { interactive, ..old(self)@.permissions },
                ..old(self)@
            }),
    {
        self.permissions.set_interactive(interactive);
    }

    // -----------------------------------------------------------------------
    // Questions
    // -----------------------------------------------------------------------

    /// Asks the user some questions.
    pub fn ask_user_question(&mut self, request_id: &str, questions: Vec<UserQuestionWire>)
        ensures
            final(self)@ == moved(
                sent(
                    old(self)@,
                    ChunkModel::AskUserQuestion {
                        request_id: request_id@,
                        questions: output::question_views(questions@),
                    },
                ),
                StateModel::WaitingForUserInput { request_id: request_id@ },
            ),
    {
        self.send(
            OutputChunk::AskUserQuestion { request_id: request_id.to_string(), questions },
        );
        self.set_waiting_for_user_input(request_id);
    }

    /// Takes in what the user answers to some questions.
    pub fn questions_answered(request_id: &str, answer: Option<InputMessage>) -> (r: Result<
        Vec<(String, String)>,
        FrameworkError,
    >)
        ensures
            match (r, question_answer(request_id@, opt_input(answer))) {
                (Ok(a), Ok(b)) => a@ == b,
                (Err(a), Err(b)) => a@ == b,
                _ => false,
            },
    {
        match answer {
            Some(InputMessage::UserQuestionResponse { request_id: id, answers }) => {
                if text::same(id.as_str(), request_id) {
                    Ok(answers)
                } else {
                    Err(
                        FrameworkError::Other(
                            text::cat4(
                                "Mismatched request ID: expected ",
                                request_id,
                                ", got ",
                                id.as_str(),
                            ),
                        ),
                    )
                }
            },
            Some(InputMessage::Interrupt) => Err(FrameworkError::Interrupted),
            Some(InputMessage::Shutdown) => Err(FrameworkError::Shutdown),
            None => Err(FrameworkError::ChannelClosed),
            _ => Err(
                FrameworkError::Other(
                    "Unexpected message while waiting for user response".to_string(),
                ),
            ),
        }
    }

    // -----------------------------------------------------------------------
    // Other agents
    // -----------------------------------------------------------------------

    /// Notes an agent that was started, and says so.
    pub fn subagent_spawned(&mut self, session_id: &str, agent_type: &str, handle: H)
        ensures
            final(self)@ == spawned(old(self)@, session_id@, agent_type@, handle),
    {
        let mut manager = match self.subagents.take() {
            Some(manager) => manager,
            None => SubAgentManager::new(),
        };
        manager.register(session_id, handle);
        self.subagents = Some(manager);
        self.send(
            OutputChunk::SubAgentSpawned {
                session_id: session_id.to_string(),
                agent_type: agent_type.to_string(),
            },
        );
    }

    /// Starts another agent for a use of a tool: its session is made and linked with that of
    /// this agent, the runtime and this agent note it, and this agent says so. What comes
    /// back is the session and the other agent from within.
    pub fn spawn_subagent(
        &mut self,
        runtime: &mut AgentRuntime<H>,
        session_id: &str,
        agent_type: &str,
        name: &str,
        description: &str,
        system_prompt: &str,
        tool_use_id: &str,
        storage: &mut SessionStorage,
        handle: H,
        kept: H,
    ) -> (r: (AgentSession, AgentInternals<R, H>))
        ensures
            (r.0)@ == (StoredModel {
                metadata: metadata::fresh_child(
                    session_id@,
                    agent_type@,
                    name@,
                    description@,
                    old(self)@.context.session_id,
                    tool_use_id@,
                    (r.0)@.metadata.created_at,
                ),
                messages: seq![],
                system_prompt: system_prompt@,
            }),
            exists|now: Timestamp|
                final(storage)@ == #[trigger] sessions::linked(
                    sessions::created(old(storage)@, (r.0)@.metadata, system_prompt@),
                    old(self)@.context.session_id,
                    session_id@,
                    now,
                ),
            (r.1)@ == runtime::newborn::<R, H>((r.0)@, old(runtime)@.global, seq![]),
            final(runtime)@ == runtime::started(old(runtime)@, session_id@, handle),
            final(self)@ == spawned(old(self)@, session_id@, agent_type@, kept),
    {
        let r = runtime.spawn_subagent(
            session_id,
            agent_type,
            name,
            description,
            system_prompt,
            self.context.session_id.as_str(),
            tool_use_id,
            storage,
            handle,
        );
        self.subagent_spawned(session_id, agent_type, kept);
        r
    }

    /// What keeps track of the agents that this one started; nothing, where it has
    /// started none.
    pub fn subagent_manager(&self) -> (r: Option<&SubAgentManager<H>>)
        ensures
            match (r, self@.subagents) {
                (Some(manager), Some(m)) => manager@ == m,
                (None, None) => true,
                _ => false,
            },
    {
        self.subagents.as_ref()
    }

    /// The handle of an agent that runs.
    pub fn get_subagent(&self, session_id: &str) -> (r: Option<&H>)
        ensures
            match r {
                Some(h) => tracked_by(self@.subagents).active.dom().contains(session_id@)
                    && tracked_by(self@.subagents).active[session_id@] == *h,
                None => !tracked_by(self@.subagents).active.dom().contains(session_id@),
            },
    {
        match &self.subagents {
            Some(manager) => manager.get(session_id),
            None => None,
        }
    }

    /// The names of the agents that run.
    pub fn active_subagents(&self) -> (r: Vec<String>)
        ensures
            text::views(r@).no_duplicates(),
            forall|k: Seq<char>|
                text::views(r@).contains(k) == tracked_by(self@.subagents).active.dom().contains(k),
    {
        match &self.subagents {
            Some(manager) => manager.active_session_ids(),
            None => {
                let none: Vec<String> = Vec::new();
                assert(text::views(none@) =~= seq![]);
                none
            },
        }
    }

    /// Notes that an agent has ended, and says so. Of what type it was is not known.
    /// An agent that has started no other does nothing.
    pub fn mark_subagent_completed(
        &mut self,
        session_id: &str,
        result: Option<String>,
        success: bool,
        error: Option<String>,
    )
        ensures
            final(self)@ == match old(self)@.subagents {
                Some(m) => sent(
                    InternalsModel {
                        subagents: Some(
                            subagents::ended(
                                m,
                                CompletedModel {
                                    session_id: session_id@,
                                    agent_type: "unknown"@,
                                    result: text::opt_view(result),
                                    success,
                                    error: text::opt_view(error),
                                },
                            ),
                        ),
                        ..old(self)@
                    },
                    ChunkModel::SubAgentComplete {
                        session_id: session_id@,
                        result: text::opt_view(result),
                    },
                ),
                None => old(self)@,
            },
    {
        if let Some(mut manager) = self.subagents.take() {
            let told = text::copy_opt(&result);
            manager.mark_completed(session_id, "unknown", result, success, error);
            self.subagents = Some(manager);
            self.send(
                OutputChunk::SubAgentComplete { session_id: session_id.to_string(), result: told },
            );
        }
    }
}

// ---------------------------------------------------------------------------
// Tools
// ---------------------------------------------------------------------------

/// Runs tools for an agent. No permission is asked for.
pub struct ToolExecutor;

/// What a tool returned, or that it failed.
pub open spec fn outcome_of(outcome: Result<ToolResult, String>) -> ToolResultModel {
    match outcome {
        Ok(r) => r@,
        Err(e) => ToolResultModel { text: "Tool execution failed: "@ + e@, is_error: true },
    }
}

/// An agent that starts a tool.
pub open spec fn tool_begun<R, H>(
    m: InternalsModel<R, H>,
    tool_name: Seq<char>,
    tool_id: Seq<char>,
    input: JsonTree,
) -> InternalsModel<R, H> {
    sent(
        moved(
            InternalsModel {
                context: ContextModel { current_tool_use_id: Some(tool_id), ..m.context },
                ..m
            },
            StateModel::ExecutingTool { tool_name, tool_use_id: tool_id },
        ),
        ChunkModel::ToolStart { id: tool_id, name: tool_name, input },
    )
}

/// An agent whose tool has returned.
pub open spec fn tool_ended<R, H>(
    m: InternalsModel<R, H>,
    tool_id: Seq<char>,
    result: ToolResultModel,
) -> InternalsModel<R, H> {
    let told = sent(m, ChunkModel::ToolEnd { id: tool_id, result });
    InternalsModel {
        context: ContextModel { current_tool_use_id: None, ..told.context },
        ..told
    }
}

impl ToolExecutor {
    /// Notes that a tool starts, and says so.
    pub fn begin<R, H>(
        internals: &mut AgentInternals<R, H>,
        tool_name: &str,
        tool_id: &str,
        input: &Json,
    )
        ensures
            final(internals)@ == tool_begun(old(internals)@, tool_name@, tool_id@, input@),
    {
        internals.context.current_tool_use_id = Some(tool_id.to_string());
        internals.set_executing_tool(tool_name, tool_id);
        internals.send_tool_start(tool_id, tool_name, input.copy());
    }

    /// Notes what a tool returned, and says so.
    pub fn finish<R, H>(
        internals: &mut AgentInternals<R, H>,
        tool_id: &str,
        outcome: Result<ToolResult, String>,
    ) -> (r: ToolResult)
        ensures
            r@ == outcome_of(outcome),
            final(internals)@ == tool_ended(old(internals)@, tool_id@, outcome_of(outcome)),
    {
        let result = match outcome {
            Ok(r) => r,
            Err(e) => ToolResult::error(
                text::cat2("Tool execution failed: ", e.as_str()).as_str(),
            ),
        };
        internals.send_tool_end(tool_id, result.copy());
        internals.context.clear_tool_use_id();
        result
    }
}

// ---------------------------------------------------------------------------
// Laws
// ---------------------------------------------------------------------------

/// An agent says in which state it is: the last state it told is the state it is in.
pub proof fn the_state_is_told<R, H>(m: InternalsModel<R, H>, s: StateModel)
    ensures
        moved(m, s).state == s,
        moved(m, s).outbox.last() == ChunkModel::StateChange(s),
        moved(m, s).outbox.drop_last() == m.outbox,
{
    assert(moved(m, s).outbox.drop_last() =~= m.outbox);
}

/// Once the user has said yes for good, the tool may be used with any input, and the
/// user is not asked again.
pub proof fn the_user_is_asked_once<R, H>(
    m: InternalsModel<R, H>,
    book: Book,
    tool: Seq<char>,
    input: Seq<char>,
)
    ensures
        permissions::checked(permitted(m, tool).permissions, book, tool, input)
            == CheckResult::Allowed,
{
    permissions::added_rules_take_effect(
        m.permissions,
        book,
        permissions::tool_rule(tool),
        PermissionScope::Session,
        tool,
        input,
    );
}

/// Only a yes that names the tool lets it be used; a yes for another tool does not.
pub proof fn only_a_yes_is_a_yes(tool: Seq<char>, answer: Option<InputModel>)
    ensures
        permission_answer(tool, answer) == Ok::<bool, ErrorModel>(true) <==> (answer matches Some(
            InputModel::PermissionResponse { tool_name: t, allowed, .. },
        ) && t == tool && allowed),
        lasting_yes(tool, answer) ==> permission_answer(tool, answer) == Ok::<bool, ErrorModel>(
            true,
        ),
{
}

/// A tool that starts and returns is told once each, in this order, and is then no
/// longer under way.
pub proof fn tools_are_told_from_start_to_end<R, H>(
    m: InternalsModel<R, H>,
    name: Seq<char>,
    id: Seq<char>,
    input: JsonTree,
    result: ToolResultModel,
)
    ensures
        ({
            let after = tool_ended(tool_begun(m, name, id, input), id, result);
            &&& after.outbox == m.outbox + seq![
                ChunkModel::StateChange(
                    StateModel::ExecutingTool { tool_name: name, tool_use_id: id },
                ),
                ChunkModel::ToolStart { id, name, input },
                ChunkModel::ToolEnd { id, result },
            ]
            &&& after.context == (ContextModel { current_tool_use_id: None, ..m.context })
            &&& after.permissions == m.permissions
            &&& after.subagents == m.subagents
        }),
{
    let after = tool_ended(tool_begun(m, name, id, input), id, result);
    assert(after.outbox =~= m.outbox + seq![
        ChunkModel::StateChange(StateModel::ExecutingTool { tool_name: name, tool_use_id: id }),
        ChunkModel::ToolStart { id, name, input },
        ChunkModel::ToolEnd { id, result },
    ]);
}

/// What is sent goes out last, and nothing else changes.
pub proof fn what_is_sent_goes_out<R, H>(m: InternalsModel<R, H>, chunk: ChunkModel)
    ensures
        sent(m, chunk).outbox == m.outbox.push(chunk),
        sent(m, chunk).state == m.state,
        sent(m, chunk).context == m.context,
        sent(m, chunk).permissions == m.permissions,
        sent(m, chunk).subagents == m.subagents,
{
}

/// The user is asked about the tool, what it is to do and its input.
pub proof fn the_question_names_the_tool(
    tool: Seq<char>,
    action: Seq<char>,
    input: Seq<char>,
)
    ensures
        permission_question(tool, action, input) == (ChunkModel::PermissionRequest {
            tool_name: tool,
            action,
            input,
            details: None,
        }),
{
}

/// An answer for another tool, or something else that is said, is a no; an agent that is to
/// stop or whose user is gone says so.
pub proof fn other_answers_are_told_apart(
    tool: Seq<char>,
    other: Seq<char>,
    allowed: bool,
    remember: bool,
    said: Seq<char>,
)
    requires
        other != tool,
    ensures
        permission_answer(
            tool,
            Some((InputModel::PermissionResponse { tool_name: other, allowed, remember })),
        ) == Ok::<bool, ErrorModel>(false),
        permission_answer(
            tool,
            Some((InputModel::PermissionResponse { tool_name: tool, allowed: false, remember })),
        ) == Ok::<bool, ErrorModel>(false),
        permission_answer(tool, Some(InputModel::Shutdown)) == Err::<bool, ErrorModel>(
            ErrorModel::Shutdown,
        ),
        permission_answer(tool, Some(InputModel::Interrupt)) == Err::<bool, ErrorModel>(
            ErrorModel::Interrupted,
        ),
        permission_answer(tool, None) == Err::<bool, ErrorModel>(ErrorModel::ChannelClosed),
        lasting_yes(
            tool,
            Some((InputModel::PermissionResponse { tool_name: tool, allowed, remember })),
        ) == (allowed && remember),
        !lasting_yes(
            tool,
            Some((InputModel::PermissionResponse { tool_name: other, allowed, remember })),
        ),
{
}

/// The answers to the questions that were asked are taken as they are; answers to other
/// questions, and anything else, are failures that say what went wrong.
pub proof fn answers_are_for_their_questions(
    id: Seq<char>,
    other: Seq<char>,
    answers: Seq<(String, String)>,
)
    requires
        other != id,
    ensures
        question_answer(id, Some((InputModel::UserQuestionResponse { request_id: id, answers })))
            == Ok::<Seq<(String, String)>, ErrorModel>(answers),
        question_answer(
            id,
            Some((InputModel::UserQuestionResponse { request_id: other, answers })),
        ) == Err::<Seq<(String, String)>, ErrorModel>(
            ErrorModel::Other("Mismatched request ID: expected "@ + id + ", got "@ + other),
        ),
        question_answer(id, Some(InputModel::Interrupt)) == Err::<
            Seq<(String, String)>,
            ErrorModel,
        >(ErrorModel::Interrupted),
        question_answer(id, Some(InputModel::Shutdown)) == Err::<
            Seq<(String, String)>,
            ErrorModel,
        >(ErrorModel::Shutdown),
        question_answer(id, None) == Err::<Seq<(String, String)>, ErrorModel>(
            ErrorModel::ChannelClosed,
        ),
        question_answer(
            id,
            Some(
                (InputModel::PermissionResponse {
                    tool_name: other,
                    allowed: true,
                    remember: true,
                }),
            ),
        ) == Err::<Seq<(String, String)>, ErrorModel>(
            ErrorModel::Other("Unexpected message while waiting for user response"@),
        ),
{
}

/// An agent that is started runs among those of its parent, which says so.
pub proof fn started_agents_are_told<R, H>(
    m: InternalsModel<R, H>,
    id: Seq<char>,
    other: Seq<char>,
    agent_type: Seq<char>,
    handle: H,
)
    requires
        other != id,
    ensures
        ({
            let after = spawned(m, id, agent_type, handle);
            &&& after.outbox == m.outbox.push(
                ChunkModel::SubAgentSpawned { session_id: id, agent_type },
            )
            &&& (after.subagents matches Some(now) && now.active.dom().contains(id)
                && now.active[id] == handle)
            &&& (m.subagents matches Some(was) ==> {
                &&& after.subagents->0.active.dom().contains(other)
                    == was.active.dom().contains(other)
                &&& after.subagents->0.completed == was.completed
            })
            &&& m.subagents is None ==> !after.subagents->0.active.dom().contains(other)
                && after.subagents->0.completed == Map::<Seq<char>, CompletedModel>::empty()
            &&& after.state == m.state
            &&& after.context == m.context
            &&& after.permissions == m.permissions
        }),
{
}

/// What a tool returned is told as it is; a tool that could not run is told as a failure,
/// with why.
pub proof fn outcomes_are_told(result: ToolResult, why: String)
    ensures
        outcome_of(Ok(result)) == result@,
        outcome_of(Err(why)).is_error,
        outcome_of(Err(why)).text == "Tool execution failed: "@ + why@,
{
}

/// A yes for good is kept as a rule of the session for that tool, and nothing else changes.
pub proof fn a_yes_for_good_is_a_rule<R, H>(m: InternalsModel<R, H>, tool: Seq<char>)
    ensures
        permitted(m, tool).permissions.session == m.permissions.session.push(
            RuleModel {
                rule_type: permissions::RuleType::AllowTool,
                tool_name: tool,
                prefix: None,
            },
        ),
        permitted(m, tool).permissions.local == m.permissions.local,
        permitted(m, tool).permissions.global == m.permissions.global,
        permitted(m, tool).permissions.interactive == m.permissions.interactive,
        permitted(m, tool).outbox == m.outbox,
        permitted(m, tool).state == m.state,
{
}

} // verus!
