//! What an agent is doing.

use vstd::prelude::*;

use crate::text;

verus! {

/// What an agent is doing.
#[derive(Debug, Clone, PartialEq)]
pub enum AgentState {
    /// It waits for input.
    Idle,
    /// It works on its input.
    Processing,
    /// It waits for the user to permit something.
    WaitingForPermission,
    /// It waits for the user's answers.
    WaitingForUserInput { request_id: String },
    /// It runs a tool.
    ExecutingTool { tool_name: String, tool_use_id: String },
    /// It waits for another agent.
    WaitingForSubAgent { session_id: String },
    /// It has done its work.
    Done,
    /// It failed.
    Error { message: String },
}

/// What an agent is doing.
pub enum StateModel {
    Idle,
    Processing,
    WaitingForPermission,
    WaitingForUserInput { request_id: Seq<char> },
    ExecutingTool { tool_name: Seq<char>, tool_use_id: Seq<char> },
    WaitingForSubAgent { session_id: Seq<char> },
    Done,
    Error { message: Seq<char> },
}

impl View for AgentState {
    type V = StateModel;

    open spec fn view(&self) -> StateModel {
        match self {
            AgentState::Idle => StateModel::Idle,
            AgentState::Processing => StateModel::Processing,
            AgentState::WaitingForPermission => StateModel::WaitingForPermission,
            AgentState::WaitingForUserInput { request_id } => StateModel::WaitingForUserInput {
                request_id: request_id@,
            },
            AgentState::ExecutingTool { tool_name, tool_use_id } => StateModel::ExecutingTool {
                tool_name: tool_name@,
                tool_use_id: tool_use_id@,
            },
            AgentState::WaitingForSubAgent { session_id } => StateModel::WaitingForSubAgent {
                session_id: session_id@,
            },
            AgentState::Done => StateModel::Done,
            AgentState::Error { message } => StateModel::Error { message: message@ },
        }
    }
}

/// Whether an agent has ended.
pub open spec fn terminal(s: StateModel) -> bool {
    s is Done || s is Error
}

/// Whether an agent works.
pub open spec fn active(s: StateModel) -> bool {
    s is Processing || s is ExecutingTool || s is WaitingForSubAgent
}

/// Whether an agent waits for the user.
pub open spec fn waiting(s: StateModel) -> bool {
    s is Idle || s is WaitingForPermission || s is WaitingForUserInput
}

/// What is shown of a state.
pub open spec fn shown(s: StateModel) -> Seq<char> {
    match s {
        StateModel::Idle => "Idle"@,
        StateModel::Processing => "Processing"@,
        StateModel::WaitingForPermission => "Waiting for permission"@,
        StateModel::WaitingForUserInput { request_id } => "Waiting for user input: "@ + request_id,
        StateModel::ExecutingTool { tool_name, .. } => "Executing tool: "@ + tool_name,
        StateModel::WaitingForSubAgent { session_id } => "Waiting for subagent: "@ + session_id,
        StateModel::Done => "Done"@,
        StateModel::Error { message } => "Error: "@ + message,
    }
}

impl AgentState {
    /// Whether the agent has ended.
    pub fn is_terminal(&self) -> (r: bool)
        ensures
            r == terminal(self@),
    {
        matches!(self, AgentState::Done | AgentState::Error { .. })
    }

    /// Whether the agent works.
    pub fn is_active(&self) -> (r: bool)
        ensures
            r == active(self@),
    {
        matches!(
            self,
            AgentState::Processing
                | AgentState::ExecutingTool { .. }
                | AgentState::WaitingForSubAgent { .. }
        )
    }

    /// Whether the agent waits for the user.
    pub fn is_waiting(&self) -> (r: bool)
        ensures
            r == waiting(self@),
    {
        matches!(
            self,
            AgentState::Idle
                | AgentState::WaitingForPermission
                | AgentState::WaitingForUserInput { .. }
        )
    }

    /// The state of an agent that failed.
    pub fn error(msg: &str) -> (r: AgentState)
        ensures
            r@ == (StateModel::Error { message: msg@ }),
    {
        AgentState::Error { message: msg.to_string() }
    }

    /// The state of an agent that runs a tool.
    pub fn executing_tool(name: &str, id: &str) -> (r: AgentState)
        ensures
            r@ == (StateModel::ExecutingTool { tool_name: name@, tool_use_id: id@ }),
    {
        AgentState::ExecutingTool { tool_name: name.to_string(), tool_use_id: id.to_string() }
    }

    /// The state of an agent that waits for another.
    pub fn waiting_for_subagent(session_id: &str) -> (r: AgentState)
        ensures
            r@ == (StateModel::WaitingForSubAgent { session_id: session_id@ }),
    {
        AgentState::WaitingForSubAgent { session_id: session_id.to_string() }
    }

    /// The state of an agent that waits for the user's answers.
    pub fn waiting_for_user_input(request_id: &str) -> (r: AgentState)
        ensures
            r@ == (StateModel::WaitingForUserInput { request_id: request_id@ }),
    {
        AgentState::WaitingForUserInput { request_id: request_id.to_string() }
    }

    /// What is shown of the state.
    pub fn to_string(&self) -> (r: String)
        ensures
            r@ == shown(self@),
    {
        match self {
            AgentState::Idle => "Idle".to_string(),
            AgentState::Processing => "Processing".to_string(),
            AgentState::WaitingForPermission => "Waiting for permission".to_string(),
            AgentState::WaitingForUserInput { request_id } => text::cat2(
                "Waiting for user input: ",
                request_id.as_str(),
            ),
            AgentState::ExecutingTool { tool_name, .. } => text::cat2(
                "Executing tool: ",
                tool_name.as_str(),
            ),
            AgentState::WaitingForSubAgent { session_id } => text::cat2(
                "Waiting for subagent: ",
                session_id.as_str(),
            ),
            AgentState::Done => "Done".to_string(),
            AgentState::Error { message } => text::cat2("Error: ", message.as_str()),
        }
    }

    /// The same state.
    pub fn copy(&self) -> (r: AgentState)
        ensures
            r@ == self@,
    {
        match self {
            AgentState::Idle => AgentState::Idle,
            AgentState::Processing => AgentState::Processing,
            AgentState::WaitingForPermission => AgentState::WaitingForPermission,
            AgentState::WaitingForUserInput { request_id } => AgentState::WaitingForUserInput {
                request_id: request_id.clone(),
            },
            AgentState::ExecutingTool { tool_name, tool_use_id } => AgentState::ExecutingTool {
                tool_name: tool_name.clone(),
                tool_use_id: tool_use_id.clone(),
            },
            AgentState::WaitingForSubAgent { session_id } => AgentState::WaitingForSubAgent {
                session_id: session_id.clone(),
            },
            AgentState::Done => AgentState::Done,
            AgentState::Error { message } => AgentState::Error { message: message.clone() },
        }
    }
}

impl Default for AgentState {
    fn default() -> (r: AgentState)
        ensures
            r@ == StateModel::Idle,
    {
        AgentState::Idle
    }
}

/// An agent has ended, works, or waits for the user, and never two of these at
/// once.
pub proof fn one_of_three(s: StateModel)
    ensures
        terminal(s) || active(s) || waiting(s),
        !(terminal(s) && active(s)),
        !(terminal(s) && waiting(s)),
        !(active(s) && waiting(s)),
{
}

/// Each state says what it is, with the name that goes with it.
pub proof fn states_say_what_they_are(name: Seq<char>, id: Seq<char>)
    ensures
        shown(StateModel::Idle) == "Idle"@,
        shown(StateModel::Processing) == "Processing"@,
        shown(StateModel::WaitingForPermission) == "Waiting for permission"@,
        shown(StateModel::WaitingForUserInput { request_id: id }) == "Waiting for user input: "@
            + id,
        shown(StateModel::ExecutingTool { tool_name: name, tool_use_id: id })
            == "Executing tool: "@ + name,
        shown(StateModel::WaitingForSubAgent { session_id: id }) == "Waiting for subagent: "@ + id,
        shown(StateModel::Done) == "Done"@,
        shown(StateModel::Error { message: name }) == "Error: "@ + name,
{
}

/// An agent that is done or failed has ended; one that works, runs a tool or waits for
/// another agent is at work; the others wait for the user.
pub proof fn states_are_told_apart(name: Seq<char>, id: Seq<char>)
    ensures
        waiting(StateModel::Idle),
        waiting(StateModel::WaitingForPermission),
        waiting(StateModel::WaitingForUserInput { request_id: id }),
        active(StateModel::Processing),
        active(StateModel::ExecutingTool { tool_name: name, tool_use_id: id }),
        active(StateModel::WaitingForSubAgent { session_id: id }),
        terminal(StateModel::Done),
        terminal(StateModel::Error { message: name }),
{
}

} // verus!
