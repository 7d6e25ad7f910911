//! What can go wrong with agents and their sessions.

use vstd::prelude::*;

verus! {

/// What went wrong.
#[derive(Debug)]
pub enum FrameworkError {
    /// The other side is gone.
    ChannelClosed,
    /// The agent is to end.
    Shutdown,
    /// The agent is to stop what it does.
    Interrupted,
    /// A message could not be sent.
    SendError(String),
    /// There is no such agent.
    AgentNotRunning(String),
    /// There is no such session.
    SessionNotFound(String),
    /// Something else.
    Other(String),
}

/// What went wrong.
pub enum ErrorModel {
    ChannelClosed,
    Shutdown,
    Interrupted,
    SendError(Seq<char>),
    AgentNotRunning(Seq<char>),
    SessionNotFound(Seq<char>),
    Other(Seq<char>),
}

impl View for FrameworkError {
    type V = ErrorModel;

    open spec fn view(&self) -> ErrorModel {
        match self {
            FrameworkError::ChannelClosed => ErrorModel::ChannelClosed,
            FrameworkError::Shutdown => ErrorModel::Shutdown,
            FrameworkError::Interrupted => ErrorModel::Interrupted,
            FrameworkError::SendError(s) => ErrorModel::SendError(s@),
            FrameworkError::AgentNotRunning(s) => ErrorModel::AgentNotRunning(s@),
            FrameworkError::SessionNotFound(s) => ErrorModel::SessionNotFound(s@),
            FrameworkError::Other(s) => ErrorModel::Other(s@),
        }
    }
}

} // verus!
