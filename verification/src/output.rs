//! What goes into an agent, and what comes out of it.

use vstd::prelude::*;

use crate::json::{Json, JsonTree};
use crate::loop_client::{QuestionModel, UserQuestionWire};
use crate::state::{AgentState, StateModel};
use crate::text;

verus! {

/// What a tool returned.
#[derive(Debug)]
pub struct ToolResult {
    pub text: String,
    pub is_error: bool,
}

/// What a tool returned.
pub struct ToolResultModel {
    pub text: Seq<char>,
    pub is_error: bool,
}

impl View for ToolResult {
    type V = ToolResultModel;

    open spec fn view(&self) -> ToolResultModel {
        ToolResultModel { text: self.text@, is_error: self.is_error }
    }
}

impl ToolResult {
    /// What a tool returned that failed.
    pub fn error(text: &str) -> (r: ToolResult)
        ensures
            r@ == (ToolResultModel { text: text@, is_error: true }),
    {
        ToolResult { text: text.to_string(), is_error: true }
    }

    /// The same.
    pub fn copy(&self) -> (r: ToolResult)
        ensures
            r@ == self@,
    {
        ToolResult { text: self.text.clone(), is_error: self.is_error }
    }
}

/// What goes into an agent.
pub enum InputMessage {
    UserInput(String),
    ToolResult { tool_use_id: String, result: ToolResult },
    PermissionResponse { tool_name: String, allowed: bool, remember: bool },
    SubAgentComplete { session_id: String, result: Option<String> },
    UserQuestionResponse { request_id: String, answers: Vec<(String, String)> },
    Interrupt,
    Shutdown,
}

/// What goes into an agent.
pub enum InputModel {
    UserInput(Seq<char>),
    ToolResult { tool_use_id: Seq<char>, result: ToolResultModel },
    PermissionResponse { tool_name: Seq<char>, allowed: bool, remember: bool },
    SubAgentComplete { session_id: Seq<char>, result: Option<Seq<char>> },
    UserQuestionResponse { request_id: Seq<char>, answers: Seq<(String, String)> },
    Interrupt,
    Shutdown,
}

impl View for InputMessage {
    type V = InputModel;

    open spec fn view(&self) -> InputModel {
        match self {
            InputMessage::UserInput(s) => InputModel::UserInput(s@),
            InputMessage::ToolResult { tool_use_id, result } => InputModel::ToolResult {
                tool_use_id: tool_use_id@,
                result: result@,
            },
            InputMessage::PermissionResponse { tool_name, allowed, remember } => {
                InputModel::PermissionResponse {
                    tool_name: tool_name@,
                    allowed: *allowed,
                    remember: *remember,
                }
            },
            InputMessage::SubAgentComplete { session_id, result } => InputModel::SubAgentComplete {
                session_id: session_id@,
                result: text::opt_view(*result),
            },
            InputMessage::UserQuestionResponse { request_id, answers } => {
                InputModel::UserQuestionResponse { request_id: request_id@, answers: answers@ }
            },
            InputMessage::Interrupt => InputModel::Interrupt,
            InputMessage::Shutdown => InputModel::Shutdown,
        }
    }
}

/// A piece of what comes out of an agent.
#[allow(inconsistent_fields)]
pub enum OutputChunk {
    TextDelta(String),
    TextComplete(String),
    ThinkingDelta(String),
    ThinkingComplete(String),
    ToolStart { id: String, name: String, input: Json },
    ToolProgress { id: String, output: String },
    ToolEnd { id: String, result: ToolResult },
    PermissionRequest { tool_name: String, action: String, input: String, details: Option<String> },
    AskUserQuestion { request_id: String, questions: Vec<UserQuestionWire> },
    Status(String),
    StateChange(AgentState),
    SubAgentSpawned { session_id: String, agent_type: String },
    SubAgentOutput { session_id: String, chunk: Box<OutputChunk> },
    SubAgentComplete { session_id: String, result: Option<String> },
    Error(String),
    Done,
}

/// A piece of what comes out of an agent.
#[allow(inconsistent_fields)]
pub enum ChunkModel {
    TextDelta(Seq<char>),
    TextComplete(Seq<char>),
    ThinkingDelta(Seq<char>),
    ThinkingComplete(Seq<char>),
    ToolStart { id: Seq<char>, name: Seq<char>, input: JsonTree },
    ToolProgress { id: Seq<char>, output: Seq<char> },
    ToolEnd { id: Seq<char>, result: ToolResultModel },
    PermissionRequest {
        tool_name: Seq<char>,
        action: Seq<char>,
        input: Seq<char>,
        details: Option<Seq<char>>,
    },
    AskUserQuestion { request_id: Seq<char>, questions: Seq<QuestionModel> },
    Status(Seq<char>),
    StateChange(StateModel),
    SubAgentSpawned { session_id: Seq<char>, agent_type: Seq<char> },
    SubAgentOutput { session_id: Seq<char>, chunk: Box<ChunkModel> },
    SubAgentComplete { session_id: Seq<char>, result: Option<Seq<char>> },
    Error(Seq<char>),
    Done,
}

/// The questions of a list.
pub open spec fn question_views(v: Seq<UserQuestionWire>) -> Seq<QuestionModel> {
    Seq::new(v.len(), |i: int| v[i]@)
}

impl OutputChunk {
    /// The piece.
    pub open spec fn view(&self) -> ChunkModel
        decreases self,
    {
        match self {
            OutputChunk::TextDelta(s) => ChunkModel::TextDelta(s@),
            OutputChunk::TextComplete(s) => ChunkModel::TextComplete(s@),
            OutputChunk::ThinkingDelta(s) => ChunkModel::ThinkingDelta(s@),
            OutputChunk::ThinkingComplete(s) => ChunkModel::ThinkingComplete(s@),
            OutputChunk::ToolStart { id, name, input } => ChunkModel::ToolStart {
                id: id@,
                name: name@,
                input: input@,
            },
            OutputChunk::ToolProgress { id, output } => ChunkModel::ToolProgress {
                id: id@,
                output: output@,
            },
            OutputChunk::ToolEnd { id, result } => ChunkModel::ToolEnd { id: id@, result: result@ },
            OutputChunk::PermissionRequest { tool_name, action, input, details } => {
                ChunkModel::PermissionRequest {
                    tool_name: tool_name@,
                    action: action@,
                    input: input@,
                    details: text::opt_view(*details),
                }
            },
            OutputChunk::AskUserQuestion { request_id, questions } => ChunkModel::AskUserQuestion {
                request_id: request_id@,
                questions: question_views(questions@),
            },
            OutputChunk::Status(s) => ChunkModel::Status(s@),
            OutputChunk::StateChange(s) => ChunkModel::StateChange(s@),
            OutputChunk::SubAgentSpawned { session_id, agent_type } => {
                ChunkModel::SubAgentSpawned { session_id: session_id@, agent_type: agent_type@ }
            },
            OutputChunk::SubAgentOutput { session_id, chunk } => ChunkModel::SubAgentOutput {
                session_id: session_id@,
                chunk: Box::new(chunk.view()),
            },
            OutputChunk::SubAgentComplete { session_id, result } => ChunkModel::SubAgentComplete {
                session_id: session_id@,
                result: text::opt_view(*result),
            },
            OutputChunk::Error(s) => ChunkModel::Error(s@),
            OutputChunk::Done => ChunkModel::Done,
        }
    }
}

/// The pieces of a list.
pub open spec fn chunk_views(v: Seq<OutputChunk>) -> Seq<ChunkModel> {
    Seq::new(v.len(), |i: int| v[i]@)
}

} // verus!
