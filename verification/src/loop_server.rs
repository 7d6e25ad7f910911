//! The agent daemon's side of a connection: what its requests do to the
//! sessions, and what they are answered with.

use vstd::prelude::*;

use crate::maps::StringMap;
use crate::messages;
use crate::messages::{Message, MessageModel};
use crate::text;

verus! {

// ---------------------------------------------------------------------------
// Requests and answers
// ---------------------------------------------------------------------------

/// How a session is run, as a client says it.
#[derive(Clone, Copy, Debug, PartialEq, Eq, Structural)]
pub struct LoopConfig {
    pub stream: bool,
    pub think: bool,
    pub no_cache: bool,
}

/// A request of a client.
pub struct ClientRequest {
    pub msg_type: String,
    pub session_id: Option<String>,
    pub content: Option<String>,
    pub config: Option<LoopConfig>,
    pub request_id: Option<String>,
    pub answers: Option<Vec<(String, String)>>,
    pub model: Option<String>,
    pub max_tokens: Option<u32>,
}

/// How the agent of a session is set up. Without a word on prompt caching it
/// stays as the agent has it.
#[derive(Clone, Copy, Debug, PartialEq, Eq, Structural)]
pub struct AgentSetup {
    pub streaming: bool,
    pub prompt_caching: Option<bool>,
    pub thinking: Option<u32>,
    pub skip_permissions: bool,
}

/// What the daemon tells a client.
pub enum Notice {
    Created { session_id: String, session_name: String },
    SessionList { sessions: Vec<String> },
    SessionResumed { session_id: String, session_name: String },
    ModelChanged { model: String },
    SessionCompacted { session_id: String },
    SystemMsg { message: String },
}

/// What the daemon tells a client.
pub enum NoticeModel {
    Created { session_id: Seq<char>, session_name: Seq<char> },
    SessionList { sessions: Seq<Seq<char>> },
    SessionResumed { session_id: Seq<char>, session_name: Seq<char> },
    ModelChanged { model: Seq<char> },
    SessionCompacted { session_id: Seq<char> },
    SystemMsg { message: Seq<char> },
}

impl View for Notice {
    type V = NoticeModel;

    open spec fn view(&self) -> NoticeModel {
        match self {
            Notice::Created { session_id, session_name } => NoticeModel::Created {
                session_id: session_id@,
                session_name: session_name@,
            },
            Notice::SessionList { sessions } => NoticeModel::SessionList {
                sessions: text::views(sessions@),
            },
            Notice::SessionResumed { session_id, session_name } => NoticeModel::SessionResumed {
                session_id: session_id@,
                session_name: session_name@,
            },
            Notice::ModelChanged { model } => NoticeModel::ModelChanged { model: model@ },
            Notice::SessionCompacted { session_id } => NoticeModel::SessionCompacted {
                session_id: session_id@,
            },
            Notice::SystemMsg { message } => NoticeModel::SystemMsg { message: message@ },
        }
    }
}

/// What the daemon does for a request.
pub enum LoopAction {
    /// Make a session.
    CreateSession { session_id: String },
    /// Start the agent of a session, and hand its output to the client.
    Spawn { session_id: String, setup: AgentSetup },
    /// Tell the client something.
    Tell(Notice),
    /// Hand input to an agent.
    SendInput { session_id: String, content: String },
    /// Hand the user's answers to an agent.
    SendAnswers { session_id: String, request_id: String, answers: Vec<(String, String)> },
    /// Look for the saved sessions.
    ListSessions,
    /// Look whether a session is saved.
    CheckSession { session_id: String },
    /// Load a session.
    LoadSession { session_id: String },
    /// Load the messages of a session.
    LoadHistory { session_id: String },
    /// Change the model.
    ChangeModel { model: String, max_tokens: u32 },
    /// Interrupt an agent and let go of it.
    Drop { session_id: String },
    /// Shut an agent down.
    Shutdown { session_id: String },
}

/// What the daemon does for a request.
pub enum ActionModel {
    CreateSession { session_id: Seq<char> },
    Spawn { session_id: Seq<char>, setup: AgentSetup },
    Tell(NoticeModel),
    SendInput { session_id: Seq<char>, content: Seq<char> },
    SendAnswers { session_id: Seq<char>, request_id: Seq<char>, answers: Seq<(String, String)> },
    ListSessions,
    CheckSession { session_id: Seq<char> },
    LoadSession { session_id: Seq<char> },
    LoadHistory { session_id: Seq<char> },
    ChangeModel { model: Seq<char>, max_tokens: u32 },
    Drop { session_id: Seq<char> },
    Shutdown { session_id: Seq<char> },
}

impl View for LoopAction {
    type V = ActionModel;

    open spec fn view(&self) -> ActionModel {
        match self {
            LoopAction::CreateSession { session_id } => ActionModel::CreateSession {
                session_id: session_id@,
            },
            LoopAction::Spawn { session_id, setup } => ActionModel::Spawn {
                session_id: session_id@,
                setup: *setup,
            },
            LoopAction::Tell(n) => ActionModel::Tell(n@),
            LoopAction::SendInput { session_id, content } => ActionModel::SendInput {
                session_id: session_id@,
                content: content@,
            },
            LoopAction::SendAnswers { session_id, request_id, answers } => ActionModel::SendAnswers {
                session_id: session_id@,
                request_id: request_id@,
                answers: answers@,
            },
            LoopAction::ListSessions => ActionModel::ListSessions,
            LoopAction::CheckSession { session_id } => ActionModel::CheckSession {
                session_id: session_id@,
            },
            LoopAction::LoadSession { session_id } => ActionModel::LoadSession {
                session_id: session_id@,
            },
            LoopAction::LoadHistory { session_id } => ActionModel::LoadHistory {
                session_id: session_id@,
            },
            LoopAction::ChangeModel { model, max_tokens } => ActionModel::ChangeModel {
                model: model@,
                max_tokens: *max_tokens,
            },
            LoopAction::Drop { session_id } => ActionModel::Drop { session_id: session_id@ },
            LoopAction::Shutdown { session_id } => ActionModel::Shutdown {
                session_id: session_id@,
            },
        }
    }
}

/// What a list of actions does.
pub open spec fn action_views(v: Seq<LoopAction>) -> Seq<ActionModel> {
    Seq::new(v.len(), |i: int| v[i]@)
}

// ---------------------------------------------------------------------------
// The connection
// ---------------------------------------------------------------------------

/// What a connection waits for.
pub enum Pending {
    /// A request.
    Idle,
    /// A session to be made.
    Creating { session_id: String, setup: AgentSetup, content: Option<String> },
    /// The saved sessions.
    Listing,
    /// Whether a session is saved that is to be resumed.
    Checking { session_id: String },
    /// A session to be loaded that is to be resumed.
    Resuming { session_id: String },
    /// The messages of a session that was resumed.
    Replaying { session_id: String },
    /// A session to be loaded that is compacted.
    Compacting { session_id: String },
}

/// What a connection waits for.
pub enum PendingModel {
    Idle,
    Creating { session_id: Seq<char>, setup: AgentSetup, content: Option<Seq<char>> },
    Listing,
    Checking { session_id: Seq<char> },
    Resuming { session_id: Seq<char> },
    Replaying { session_id: Seq<char> },
    Compacting { session_id: Seq<char> },
}

impl View for Pending {
    type V = PendingModel;

    open spec fn view(&self) -> PendingModel {
        match self {
            Pending::Idle => PendingModel::Idle,
            Pending::Creating { session_id, setup, content } => PendingModel::Creating {
                session_id: session_id@,
                setup: *setup,
                content: text::opt_view(*content),
            },
            Pending::Listing => PendingModel::Listing,
            Pending::Checking { session_id } => PendingModel::Checking { session_id: session_id@ },
            Pending::Resuming { session_id } => PendingModel::Resuming { session_id: session_id@ },
            Pending::Replaying { session_id } => PendingModel::Replaying {
                session_id: session_id@,
            },
            Pending::Compacting { session_id } => PendingModel::Compacting {
                session_id: session_id@,
            },
        }
    }
}

/// A connection: the sessions that were started on it, and what it waits for.
pub struct Connection {
    pub sessions: StringMap<()>,
    pub pending: Pending,
}

/// A connection: the names of its sessions, and what it waits for.
#[verifier::ext_equal]
pub struct ConnectionModel {
    pub sessions: Set<Seq<char>>,
    pub pending: PendingModel,
}

impl View for Connection {
    type V = ConnectionModel;

    open spec fn view(&self) -> ConnectionModel {
        ConnectionModel { sessions: self.sessions@.dom(), pending: self.pending@ }
    }
}

/// What a connection learns.
pub enum LoopEvent {
    /// A request came.
    Request(ClientRequest),
    /// The session was made, or not.
    SessionCreated { ok: bool },
    /// The saved sessions; none, where they could not be listed.
    SessionNames(Vec<String>),
    /// Whether the session is saved.
    SessionExists(bool),
    /// The session was loaded, or why not.
    SessionLoaded(Result<(), String>),
    /// The messages of the session, where they could be loaded.
    History(Option<Vec<Message>>),
}

/// What becomes of a connection, and what the daemon does.
pub type Outcome = (ConnectionModel, Seq<ActionModel>);

/// The setup of an agent that a client asks for.
pub open spec fn setup_for(config: Option<LoopConfig>) -> AgentSetup {
    match config {
        Some(c) => AgentSetup {
            streaming: c.stream,
            prompt_caching: Some(!c.no_cache),
            thinking: if c.think {
                Some(16000u32)
            } else {
                None
            },
            skip_permissions: true,
        },
        None => AgentSetup {
            streaming: false,
            prompt_caching: Some(true),
            thinking: None,
            skip_permissions: true,
        },
    }
}

/// The setup of an agent of a session that is loaded.
pub open spec fn loaded_setup() -> AgentSetup {
    AgentSetup { streaming: true, prompt_caching: None, thinking: None, skip_permissions: true }
}

/// The input that goes to an agent, where there is any.
pub open spec fn input_actions(session_id: Seq<char>, content: Option<Seq<char>>) -> Seq<
    ActionModel,
> {
    match content {
        Some(s) => if s.len() > 0 {
            seq![ActionModel::SendInput { session_id, content: s }]
        } else {
            seq![]
        },
        None => seq![],
    }
}

/// The notice that a session is there.
pub open spec fn created_notice(session_id: Seq<char>) -> ActionModel {
    ActionModel::Tell(NoticeModel::Created { session_id, session_name: session_id })
}

/// The notice that a session was resumed.
pub open spec fn resumed_notice(session_id: Seq<char>) -> ActionModel {
    ActionModel::Tell(NoticeModel::SessionResumed { session_id, session_name: session_id })
}

/// A message to the client.
pub open spec fn message(s: Seq<char>) -> ActionModel {
    ActionModel::Tell(NoticeModel::SystemMsg { message: s })
}

/// What a request for a session does. Types that are not known do nothing.
pub open spec fn request_for(c: ConnectionModel, req: ClientRequest, sid: Seq<char>) -> Outcome {
    let t = req.msg_type@;
    let known = c.sessions.contains(sid);
    if t == "run"@ || t == "message"@ {
        if known {
            (c, input_actions(sid, text::opt_view(req.content)))
        } else {
            (
                ConnectionModel {
                    pending: PendingModel::Creating {
                        session_id: sid,
                        setup: setup_for(req.config),
                        content: text::opt_view(req.content),
                    },
                    ..c
                },
                seq![ActionModel::CreateSession { session_id: sid }],
            )
        }
    } else if t == "ask_response"@ {
        match (req.request_id, req.answers) {
            (Some(id), Some(answers)) => if known {
                (
                    c,
                    seq![
                        ActionModel::SendAnswers {
                            session_id: sid,
                            request_id: id@,
                            answers: answers@,
                        },
                    ],
                )
            } else {
                (c, seq![])
            },
            _ => (c, seq![]),
        }
    } else if t == "new_session"@ || t == "new"@ {
        (c, seq![created_notice(sid)])
    } else if t == "list_sessions"@ {
        (ConnectionModel { pending: PendingModel::Listing, ..c }, seq![ActionModel::ListSessions])
    } else if t == "resume_session"@ {
        (
            ConnectionModel { pending: PendingModel::Checking { session_id: sid }, ..c },
            seq![ActionModel::CheckSession { session_id: sid }],
        )
    } else if t == "set_model"@ {
        match req.model {
            Some(model) => (
                c,
                seq![
                    ActionModel::ChangeModel {
                        model: model@,
                        max_tokens: match req.max_tokens {
                            Some(n) => n,
                            None => 16384,
                        },
                    },
                    ActionModel::Tell(NoticeModel::ModelChanged { model: model@ }),
                ],
            ),
            None => (c, seq![]),
        }
    } else if t == "compact"@ {
        (
            ConnectionModel {
                sessions: c.sessions.remove(sid),
                pending: PendingModel::Compacting { session_id: sid },
            },
            (if known {
                seq![ActionModel::Drop { session_id: sid }]
            } else {
                seq![]
            }) + seq![ActionModel::LoadSession { session_id: sid }],
        )
    } else {
        (c, seq![])
    }
}

/// What a request does. One without a session does nothing.
pub open spec fn on_request(c: ConnectionModel, req: ClientRequest) -> Outcome {
    match req.session_id {
        Some(sid) => if sid@.len() > 0 {
            request_for(c, req, sid@)
        } else {
            (c, seq![])
        },
        None => (c, seq![]),
    }
}

/// The messages of a session, told to the client: those of the user, and those
/// of the agent that have text.
pub open spec fn replayed(messages: Seq<MessageModel>) -> Seq<ActionModel>
    decreases messages.len(),
{
    if messages.len() == 0 {
        seq![]
    } else {
        let m = messages.last();
        let s = messages::text_of(m.content);
        let before = replayed(messages.drop_last());
        if m.role == "user"@ {
            before.push(message("[History] User: "@ + s))
        } else if m.role == "assistant"@ && s.len() > 0 {
            before.push(message("[History] Assistant: "@ + s))
        } else {
            before
        }
    }
}

/// The connection without anything it waits for.
pub open spec fn idle(c: ConnectionModel) -> ConnectionModel {
    ConnectionModel { pending: PendingModel::Idle, ..c }
}

/// What a connection does with what it learns. What it does not wait for does
/// nothing.
pub open spec fn on_event(c: ConnectionModel, event: LoopEvent) -> Outcome {
    match (c.pending, event) {
        (PendingModel::Idle, LoopEvent::Request(req)) => on_request(c, req),
        (
            PendingModel::Creating { session_id, setup, content },
            LoopEvent::SessionCreated { ok },
        ) => if ok {
            (
                ConnectionModel { sessions: c.sessions.insert(session_id), ..idle(c) },
                seq![ActionModel::Spawn { session_id, setup }, created_notice(session_id)]
                    + input_actions(session_id, content),
            )
        } else {
            (idle(c), seq![])
        },
        (PendingModel::Listing, LoopEvent::SessionNames(names)) => (
            idle(c),
            seq![ActionModel::Tell(NoticeModel::SessionList { sessions: text::views(names@) })],
        ),
        (PendingModel::Checking { session_id }, LoopEvent::SessionExists(exists)) => if !exists {
            (idle(c), seq![message("Session '"@ + session_id + "' not found"@)])
        } else if c.sessions.contains(session_id) {
            (
                ConnectionModel { pending: PendingModel::Replaying { session_id }, ..c },
                seq![resumed_notice(session_id), ActionModel::LoadHistory { session_id }],
            )
        } else {
            (
                ConnectionModel { pending: PendingModel::Resuming { session_id }, ..c },
                seq![ActionModel::LoadSession { session_id }],
            )
        },
        (PendingModel::Resuming { session_id }, LoopEvent::SessionLoaded(loaded)) => match loaded {
            Ok(_) => (
                ConnectionModel {
                    sessions: c.sessions.insert(session_id),
                    pending: PendingModel::Replaying { session_id },
                },
                seq![
                    ActionModel::Spawn { session_id, setup: loaded_setup() },
                    resumed_notice(session_id),
                    ActionModel::LoadHistory { session_id },
                ],
            ),
            Err(e) => (idle(c), seq![message("Cannot resume session: "@ + e@)]),
        },
        (PendingModel::Replaying { session_id }, LoopEvent::History(history)) => (
            idle(c),
            match history {
                Some(messages) => replayed(messages::message_views(messages@)),
                None => seq![],
            },
        ),
        (PendingModel::Compacting { session_id }, LoopEvent::SessionLoaded(loaded)) => match loaded {
            Ok(_) => (
                ConnectionModel { sessions: c.sessions.insert(session_id), ..idle(c) },
                seq![
                    ActionModel::Spawn { session_id, setup: loaded_setup() },
                    ActionModel::Tell(NoticeModel::SessionCompacted { session_id }),
                    message("Session '"@ + session_id + "' compacted and re-created"@),
                ],
            ),
            Err(e) => (idle(c), seq![message("Cannot compact session: "@ + e@)]),
        },
        _ => (c, seq![]),
    }
}

// ---------------------------------------------------------------------------
// The steps
// ---------------------------------------------------------------------------

/// Whether a step leads to a connection, with some actions.
spec fn leads(want: Outcome, after: ConnectionModel, actions: Seq<ActionModel>) -> bool {
    after =~= want.0 && actions =~= want.1
}

/// The setup of an agent that a client asks for.
fn setup(config: Option<LoopConfig>) -> (r: AgentSetup)
    ensures
        r == setup_for(config),
{
    match config {
        Some(c) => AgentSetup {
            streaming: c.stream,
            prompt_caching: Some(!c.no_cache),
            thinking: if c.think {
                Some(16000)
            } else {
                None
            },
            skip_permissions: true,
        },
        None => AgentSetup {
            streaming: false,
            prompt_caching: Some(true),
            thinking: None,
            skip_permissions: true,
        },
    }
}

/// The setup of an agent of a session that is loaded.
fn setup_of_loaded() -> (r: AgentSetup)
    ensures
        r == loaded_setup(),
{
    AgentSetup { streaming: true, prompt_caching: None, thinking: None, skip_permissions: true }
}

/// Hands input to an agent, where there is any.
fn push_input(actions: &mut Vec<LoopAction>, session_id: &str, content: Option<String>)
    ensures
        action_views(final(actions)@) == action_views(old(actions)@) + input_actions(
            session_id@,
            text::opt_view(content),
        ),
{
    let ghost was = action_views(actions@);
    if let Some(s) = content {
        if !text::is_empty(s.as_str()) {
            actions.push(LoopAction::SendInput { session_id: copy(session_id), content: s });
            assert(action_views(actions@) =~= was.push(
                ActionModel::SendInput { session_id: session_id@, content: s@ },
            ));
        }
    }
    assert(action_views(actions@) =~= was + input_actions(session_id@, text::opt_view(content)));
}

/// A copy of a text.
fn copy(s: &str) -> (r: String)
    ensures
        r@ == s@,
{
    s.to_string()
}

/// A message to the client.
fn tell(s: String) -> (r: LoopAction)
    ensures
        r@ == message(s@),
{
    LoopAction::Tell(Notice::SystemMsg { message: s })
}

/// Tells the client the messages of a session.
pub fn replay(messages: &Vec<Message>) -> (r: Vec<LoopAction>)
    ensures
        action_views(r@) == replayed(messages::message_views(messages@)),
{
    let mut r: Vec<LoopAction> = Vec::new();
    let ghost all = messages::message_views(messages@);
    let mut i: usize = 0;
    assert(action_views(r@) =~= replayed(all.take(0)));
    while i < messages.len()
        invariant
            i <= messages.len(),
            all == messages::message_views(messages@),
            action_views(r@) == replayed(all.take(i as int)),
        decreases messages.len() - i,
    {
        let m = &messages[i];
        proof {
            assert(all.take(i + 1).drop_last() =~= all.take(i as int));
            assert(all.take(i + 1).last() == m@);
        }
        let s = m.text();
        let ghost was = action_views(r@);
        if text::same(m.role.as_str(), "user") {
            r.push(tell(text::cat2("[History] User: ", s.as_str())));
            assert(action_views(r@) =~= was.push(message("[History] User: "@ + s@)));
        } else if text::same(m.role.as_str(), "assistant") && !text::is_empty(s.as_str()) {
            r.push(tell(text::cat2("[History] Assistant: ", s.as_str())));
            assert(action_views(r@) =~= was.push(message("[History] Assistant: "@ + s@)));
        }
        i += 1;
    }
    assert(all.take(i as int) =~= all);
    r
}

impl Connection {
    /// A connection that has no sessions yet.
    pub fn new() -> (r: Connection)
        ensures
            r@ == (ConnectionModel { sessions: Set::empty(), pending: PendingModel::Idle }),
    {
        let r = Connection { sessions: StringMap::new(), pending: Pending::Idle };
        assert(r@.sessions =~= Set::empty());
        r
    }

    /// What a request for a session does.
    fn request(&mut self, req: ClientRequest, sid: &str) -> (r: Vec<LoopAction>)
        ensures
            leads(request_for(old(self)@, req, sid@), final(self)@, action_views(r@)),
    {
        let mut r: Vec<LoopAction> = Vec::new();
        let t = req.msg_type.as_str();
        if text::same(t, "run") || text::same(t, "message") {
            if self.sessions.contains_key(sid) {
                push_input(&mut r, sid, req.content);
            } else {
                r.push(LoopAction::CreateSession { session_id: copy(sid) });
                self.pending = Pending::Creating {
                    session_id: copy(sid),
                    setup: setup(req.config),
                    content: req.content,
                };
            }
        } else if text::same(t, "ask_response") {
            if let (Some(id), Some(answers)) = (req.request_id, req.answers) {
                if self.sessions.contains_key(sid) {
                    r.push(
                        LoopAction::SendAnswers { session_id: copy(sid), request_id: id, answers },
                    );
                }
            }
        } else if text::same(t, "new_session") || text::same(t, "new") {
            r.push(
                LoopAction::Tell(Notice::Created { session_id: copy(sid), session_name: copy(sid) }),
            );
        } else if text::same(t, "list_sessions") {
            r.push(LoopAction::ListSessions);
            self.pending = Pending::Listing;
        } else if text::same(t, "resume_session") {
            r.push(LoopAction::CheckSession { session_id: copy(sid) });
            self.pending = Pending::Checking { session_id: copy(sid) };
        } else if text::same(t, "set_model") {
            if let Some(model) = req.model {
                let max_tokens: u32 = match req.max_tokens {
                    Some(n) => n,
                    None => 16384,
                };
                r.push(LoopAction::ChangeModel { model: copy(model.as_str()), max_tokens });
                r.push(LoopAction::Tell(Notice::ModelChanged { model }));
            }
        } else if text::same(t, "compact") {
            if self.sessions.remove(sid).is_some() {
                r.push(LoopAction::Drop { session_id: copy(sid) });
            }
            r.push(LoopAction::LoadSession { session_id: copy(sid) });
            self.pending = Pending::Compacting { session_id: copy(sid) };
        }
        r
    }

    /// Takes what the connection waits for, and waits for nothing.
    fn take_pending(&mut self) -> (r: Pending)
        ensures
            r == old(self).pending,
            final(self)@ == idle(old(self)@),
            final(self).sessions == old(self).sessions,
    {
        let mut p = Pending::Idle;
        std::mem::swap(&mut p, &mut self.pending);
        p
    }

    /// What the connection does with what it learns.
    pub fn step(&mut self, event: LoopEvent) -> (r: Vec<LoopAction>)
        ensures
            final(self)@ == on_event(old(self)@, event).0,
            action_views(r@) == on_event(old(self)@, event).1,
    {
        let mut r: Vec<LoopAction> = Vec::new();
        match event {
            LoopEvent::Request(req) => {
                if let Pending::Idle = self.pending {
                    let sid = match &req.session_id {
                        Some(s) => copy(s.as_str()),
                        None => {
                            assert(action_views(r@) =~= seq![]);
                            return r;
                        },
                    };
                    if !text::is_empty(sid.as_str()) {
                        r = self.request(req, sid.as_str());
                    }
                }
            },
            LoopEvent::SessionCreated { ok } => {
                if let Pending::Creating { .. } = &self.pending {
                    if let Pending::Creating { session_id, setup, content } = self.take_pending() {
                        if ok {
                            r.push(LoopAction::Spawn { session_id: copy(session_id.as_str()), setup });
                            r.push(
                                LoopAction::Tell(
                                    Notice::Created {
                                        session_id: copy(session_id.as_str()),
                                        session_name: copy(session_id.as_str()),
                                    },
                                ),
                            );
                            assert(action_views(r@) =~= seq![
                                ActionModel::Spawn { session_id: session_id@, setup },
                                created_notice(session_id@),
                            ]);
                            push_input(&mut r, session_id.as_str(), content);
                            self.sessions.insert(session_id, ());
                            assert(self@.sessions =~= old(self)@.sessions.insert(session_id@));
                        }
                    }
                }
            },
            LoopEvent::SessionNames(names) => {
                if let Pending::Listing = self.pending {
                    self.pending = Pending::Idle;
                    r.push(LoopAction::Tell(Notice::SessionList { sessions: names }));
                }
            },
            LoopEvent::SessionExists(exists) => {
                if let Pending::Checking { .. } = &self.pending {
                    if let Pending::Checking { session_id } = self.take_pending() {
                        if !exists {
                            r.push(
                                tell(text::cat3("Session '", session_id.as_str(), "' not found")),
                            );
                        } else if self.sessions.contains_key(session_id.as_str()) {
                            push_resumed(&mut r, session_id.as_str());
                            self.pending = Pending::Replaying { session_id };
                        } else {
                            r.push(LoopAction::LoadSession { session_id: copy(session_id.as_str()) });
                            self.pending = Pending::Resuming { session_id };
                        }
                    }
                }
            },
            LoopEvent::SessionLoaded(loaded) => {
                r = self.loaded(loaded);
            },
            LoopEvent::History(history) => {
                if let Pending::Replaying { .. } = &self.pending {
                    self.pending = Pending::Idle;
                    if let Some(messages) = history {
                        r = replay(&messages);
                    }
                }
            },
        }
        assert(self@ =~= on_event(old(self)@, event).0);
        assert(action_views(r@) =~= on_event(old(self)@, event).1);
        r
    }

    /// What the connection does when a session was loaded, or not.
    fn loaded(&mut self, loaded: Result<(), String>) -> (r: Vec<LoopAction>)
        ensures
            leads(
                on_event(old(self)@, LoopEvent::SessionLoaded(loaded)),
                final(self)@,
                action_views(r@),
            ),
    {
        let mut r: Vec<LoopAction> = Vec::new();
        match &self.pending {
            Pending::Resuming { .. } => {
                if let Pending::Resuming { session_id } = self.take_pending() {
                    match loaded {
                        Ok(_) => {
                            r.push(
                                LoopAction::Spawn {
                                    session_id: copy(session_id.as_str()),
                                    setup: setup_of_loaded(),
                                },
                            );
                            push_resumed(&mut r, session_id.as_str());
                            self.sessions.insert(copy(session_id.as_str()), ());
                            self.pending = Pending::Replaying { session_id };
                            assert(self@.sessions =~= old(self)@.sessions.insert(session_id@));
                        },
                        Err(e) => {
                            r.push(tell(text::cat2("Cannot resume session: ", e.as_str())));
                        },
                    }
                }
            },
            Pending::Compacting { .. } => {
                if let Pending::Compacting { session_id } = self.take_pending() {
                    match loaded {
                        Ok(_) => {
                            let sid = session_id.as_str();
                            r.push(
                                LoopAction::Spawn { session_id: copy(sid), setup: setup_of_loaded() },
                            );
                            r.push(
                                LoopAction::Tell(Notice::SessionCompacted { session_id: copy(sid) }),
                            );
                            r.push(
                                tell(text::cat3("Session '", sid, "' compacted and re-created")),
                            );
                            self.sessions.insert(copy(sid), ());
                            assert(self@.sessions =~= old(self)@.sessions.insert(session_id@));
                        },
                        Err(e) => {
                            r.push(tell(text::cat2("Cannot compact session: ", e.as_str())));
                        },
                    }
                }
            },
            _ => {},
        }
        r
    }

    /// The client is gone: every agent is shut down, and the connection is as new.
    pub fn close(&mut self) -> (r: Vec<LoopAction>)
        ensures
            final(self)@ == (ConnectionModel { sessions: Set::empty(), pending: PendingModel::Idle }),
            action_views(r@).no_duplicates(),
            forall|a: ActionModel|
                action_views(r@).contains(a) <==> (a is Shutdown && old(self)@.sessions.contains(
                    a->Shutdown_session_id,
                )),
    {
        let names = self.sessions.names();
        let ghost ids = text::views(names@);
        let mut r: Vec<LoopAction> = Vec::new();
        let mut i: usize = 0;
        while i < names.len()
            invariant
                i <= names.len(),
                ids == text::views(names@),
                r.len() == i,
                forall|j: int|
                    0 <= j < i ==> (#[trigger] action_views(r@)[j]) == (ActionModel::Shutdown {
                        session_id: ids[j],
                    }),
            decreases names.len() - i,
        {
            let ghost was = action_views(r@);
            r.push(LoopAction::Shutdown { session_id: copy(names[i].as_str()) });
            assert(action_views(r@) =~= was.push(ActionModel::Shutdown { session_id: ids[i as int] }));
            i += 1;
        }
        self.sessions.clear();
        self.pending = Pending::Idle;
        assert(self@.sessions =~= Set::empty());
        proof {
            let acts = action_views(r@);
            assert forall|a: ActionModel|
                acts.contains(a) <==> (a is Shutdown && old(self)@.sessions.contains(
                    a->Shutdown_session_id,
                )) by {
                if acts.contains(a) {
                    let j = choose|j: int| 0 <= j < acts.len() && acts[j] == a;
                    assert(ids.contains(ids[j]));
                }
                if a is Shutdown && old(self)@.sessions.contains(a->Shutdown_session_id) {
                    assert(ids.contains(a->Shutdown_session_id));
                    let j = choose|j: int| 0 <= j < ids.len() && ids[j] == a->Shutdown_session_id;
                    assert(acts[j] == a);
                }
            }
            assert forall|j: int, k: int|
                0 <= j < acts.len() && 0 <= k < acts.len() && j != k implies acts[j] != acts[k] by {
                assert(ids[j] != ids[k]);
            }
        }
        r
    }
}

/// Tells the client that a session was resumed, and looks for its messages.
fn push_resumed(actions: &mut Vec<LoopAction>, session_id: &str)
    ensures
        action_views(final(actions)@) == action_views(old(actions)@) + seq![
            resumed_notice(session_id@),
            ActionModel::LoadHistory { session_id: session_id@ },
        ],
{
    actions.push(
        LoopAction::Tell(
            Notice::SessionResumed { session_id: copy(session_id), session_name: copy(session_id) },
        ),
    );
    actions.push(LoopAction::LoadHistory { session_id: copy(session_id) });
    assert(action_views(actions@) =~= action_views(old(actions)@) + seq![
        resumed_notice(session_id@),
        ActionModel::LoadHistory { session_id: session_id@ },
    ]);
}

// ---------------------------------------------------------------------------
// Settings
// ---------------------------------------------------------------------------

/// How long an answer of the model may be, in tokens.
pub const MAX_TOKENS: u32 = 16384;

/// Where the model is reached, and with which key.
pub struct Auth {
    pub api_key: String,
    pub base_url: String,
}

/// Where the model is reached, by what the environment says. Without a key it
/// is not.
pub fn auth(api_key: Option<String>, base_url: Option<String>) -> (r: Result<Auth, String>)
    ensures
        match (api_key, r) {
            (Some(key), Ok(a)) => a.api_key@ == key@ && a.base_url@ == match base_url {
                Some(url) => url@,
                None => "https://api.openai.com/v1/chat/completions"@,
            },
            (None, Err(e)) => e@ == "OPENAI_API_KEY environment variable not set"@,
            _ => false,
        },
{
    match api_key {
        Some(api_key) => {
            let base_url = match base_url {
                Some(url) => url,
                None => copy("https://api.openai.com/v1/chat/completions"),
            };
            Ok(Auth { api_key, base_url })
        },
        None => Err(copy("OPENAI_API_KEY environment variable not set")),
    }
}

/// The model, by what the environment says.
pub fn model_name(model: Option<String>) -> (r: String)
    ensures
        r@ == match model {
            Some(m) => m@,
            None => "gpt-4o"@,
        },
{
    match model {
        Some(m) => m,
        None => copy("gpt-4o"),
    }
}

// ---------------------------------------------------------------------------
// Laws
// ---------------------------------------------------------------------------

/// A request that names no session changes nothing and is not answered.
pub proof fn nameless_requests_do_nothing(c: ConnectionModel, req: ClientRequest)
    requires
        text::opt_view(req.session_id) is None || text::opt_view(req.session_id)->0.len() == 0,
    ensures
        on_event(c, LoopEvent::Request(req)) == (c, Seq::<ActionModel>::empty()),
{
    assert(on_event(c, LoopEvent::Request(req)).1 =~= Seq::<ActionModel>::empty());
}

/// Whether a request hands input to a session.
pub open spec fn runs(req: ClientRequest, sid: Seq<char>) -> bool {
    &&& req.msg_type@ == "run"@ || req.msg_type@ == "message"@
    &&& text::opt_view(req.session_id) == Some(sid)
}

/// A session is made for its first input alone: once it was made, further input
/// goes to the agent that is there.
pub proof fn a_session_is_made_once(c: ConnectionModel, first: ClientRequest, second: ClientRequest, sid: Seq<char>)
    requires
        c.pending is Idle,
        sid.len() > 0,
        runs(first, sid),
        runs(second, sid),
    ensures
        ({
            let c1 = if c.sessions.contains(sid) {
                on_event(c, LoopEvent::Request(first)).0
            } else {
                on_event(
                    on_event(c, LoopEvent::Request(first)).0,
                    LoopEvent::SessionCreated { ok: true },
                ).0
            };
            &&& c1.pending is Idle
            &&& c1.sessions.contains(sid)
            &&& on_event(c1, LoopEvent::Request(second)) == (
                c1,
                input_actions(sid, text::opt_view(second.content)),
            )
        }),
{
}

/// Whether a request compacts a session.
pub open spec fn compacts(event: LoopEvent, sid: Seq<char>) -> bool {
    match event {
        LoopEvent::Request(req) => req.msg_type@ == "compact"@ && text::opt_view(req.session_id) == Some(
            sid,
        ),
        _ => false,
    }
}

/// A session that is there stays there until it is compacted.
pub proof fn only_compacting_lets_go(c: ConnectionModel, event: LoopEvent, sid: Seq<char>)
    requires
        c.sessions.contains(sid),
        !compacts(event, sid),
    ensures
        on_event(c, event).0.sessions.contains(sid),
{
}

/// Agents are started, and given input or answers, for sessions that are then
/// there.
pub proof fn agents_belong_to_sessions(c: ConnectionModel, event: LoopEvent, i: int)
    requires
        0 <= i < on_event(c, event).1.len(),
    ensures
        match on_event(c, event).1[i] {
            ActionModel::Spawn { session_id, .. } => on_event(c, event).0.sessions.contains(
                session_id,
            ),
            ActionModel::SendInput { session_id, .. } => on_event(c, event).0.sessions.contains(
                session_id,
            ),
            ActionModel::SendAnswers { session_id, .. } => on_event(c, event).0.sessions.contains(
                session_id,
            ),
            _ => true,
        },
{
    if let LoopEvent::History(Some(messages)) = event {
        replaying_only_tells(messages::message_views(messages@), i);
    }
}

/// Messages of a session are only told.
proof fn replaying_only_tells(messages: Seq<MessageModel>, i: int)
    ensures
        0 <= i < replayed(messages).len() ==> replayed(messages)[i] is Tell,
    decreases messages.len(),
{
    if messages.len() > 0 {
        replaying_only_tells(messages.drop_last(), i);
    }
}

/// How many answers a connection waits for at most.
pub open spec fn awaited(p: PendingModel) -> nat {
    match p {
        PendingModel::Idle => 0,
        PendingModel::Creating { .. } => 1,
        PendingModel::Listing => 1,
        PendingModel::Checking { .. } => 3,
        PendingModel::Resuming { .. } => 2,
        PendingModel::Replaying { .. } => 1,
        PendingModel::Compacting { .. } => 1,
    }
}

/// A connection that waits comes nearer to the next request with each answer;
/// what it does not wait for changes nothing.
pub proof fn every_wait_ends(c: ConnectionModel, event: LoopEvent)
    requires
        !(c.pending is Idle),
    ensures
        awaited(on_event(c, event).0.pending) < awaited(c.pending) || on_event(c, event) == (
            c,
            Seq::<ActionModel>::empty(),
        ),
{
}

/// Whether a request is of a type and names a session.
pub open spec fn asks_for(req: ClientRequest, kind: Seq<char>, sid: Seq<char>) -> bool {
    &&& req.msg_type@ == kind
    &&& req.session_id matches Some(id) && id@ == sid
    &&& sid.len() > 0
}

/// The names of the types of requests differ.
proof fn request_names_differ()
    ensures
        "run"@ != "message"@,
        "run"@ != "ask_response"@,
        "run"@ != "new_session"@,
        "run"@ != "new"@,
        "run"@ != "list_sessions"@,
        "run"@ != "resume_session"@,
        "run"@ != "set_model"@,
        "run"@ != "compact"@,
        "message"@ != "ask_response"@,
        "message"@ != "new_session"@,
        "message"@ != "new"@,
        "message"@ != "list_sessions"@,
        "message"@ != "resume_session"@,
        "message"@ != "set_model"@,
        "message"@ != "compact"@,
        "ask_response"@ != "new_session"@,
        "ask_response"@ != "new"@,
        "ask_response"@ != "list_sessions"@,
        "ask_response"@ != "resume_session"@,
        "ask_response"@ != "set_model"@,
        "ask_response"@ != "compact"@,
        "new_session"@ != "new"@,
        "new_session"@ != "list_sessions"@,
        "new_session"@ != "resume_session"@,
        "new_session"@ != "set_model"@,
        "new_session"@ != "compact"@,
        "new"@ != "list_sessions"@,
        "new"@ != "resume_session"@,
        "new"@ != "set_model"@,
        "new"@ != "compact"@,
        "list_sessions"@ != "resume_session"@,
        "list_sessions"@ != "set_model"@,
        "list_sessions"@ != "compact"@,
        "resume_session"@ != "set_model"@,
        "resume_session"@ != "compact"@,
        "set_model"@ != "compact"@,
{
    reveal_strlit("run");
    reveal_strlit("message");
    reveal_strlit("ask_response");
    reveal_strlit("new_session");
    reveal_strlit("new");
    reveal_strlit("list_sessions");
    reveal_strlit("resume_session");
    reveal_strlit("set_model");
    reveal_strlit("compact");
    assert("run"@.len() == 3 && "run"@[0] == 'r');
    assert("message"@.len() == 7 && "message"@[0] == 'm');
    assert("ask_response"@.len() == 12 && "ask_response"@[0] == 'a');
    assert("new_session"@.len() == 11 && "new_session"@[0] == 'n');
    assert("new"@.len() == 3 && "new"@[0] == 'n');
    assert("list_sessions"@.len() == 13 && "list_sessions"@[0] == 'l');
    assert("resume_session"@.len() == 14 && "resume_session"@[0] == 'r');
    assert("set_model"@.len() == 9 && "set_model"@[0] == 's');
    assert("compact"@.len() == 7 && "compact"@[0] == 'c');
}

/// A new session that is asked for is acknowledged at once, with one notice under the name
/// that was asked for; the connection stays as it was.
pub proof fn new_sessions_are_acknowledged(c: ConnectionModel, req: ClientRequest, sid: Seq<char>)
    requires
        c.pending is Idle,
        asks_for(req, "new_session"@, sid) || asks_for(req, "new"@, sid),
    ensures
        on_event(c, LoopEvent::Request(req)).0 == c,
        on_event(c, LoopEvent::Request(req)).1 == seq![
            ActionModel::Tell(NoticeModel::Created { session_id: sid, session_name: sid }),
        ],
{
    request_names_differ();
}

/// The first input for a session makes the session. Once it was made, its agent is started
/// as the request asks for, the client is told, and the agent gets the input.
pub proof fn first_input_starts_an_agent(
    c: ConnectionModel,
    req: ClientRequest,
    sid: Seq<char>,
    content: Seq<char>,
)
    requires
        c.pending is Idle,
        asks_for(req, "run"@, sid) || asks_for(req, "message"@, sid),
        !c.sessions.contains(sid),
        text::opt_view(req.content) == Some(content),
        content.len() > 0,
    ensures
        ({
            let (c1, first) = on_event(c, LoopEvent::Request(req));
            let (c2, second) = on_event(c1, LoopEvent::SessionCreated { ok: true });
            let (c3, third) = on_event(c1, LoopEvent::SessionCreated { ok: false });
            &&& first == seq![ActionModel::CreateSession { session_id: sid }]
            &&& second.len() == 3
            &&& second[0] matches ActionModel::Spawn { session_id, setup } && session_id == sid && {
                &&& setup.skip_permissions
                &&& req.config matches Some(k) ==> setup.streaming == k.stream
                    && setup.prompt_caching == Some(!k.no_cache) && (k.think ==> setup.thinking
                    == Some(16000u32)) && (!k.think ==> setup.thinking is None)
                &&& req.config is None ==> !setup.streaming && setup.prompt_caching == Some(true)
                    && setup.thinking is None
            }
            &&& second[1] == ActionModel::Tell(
                NoticeModel::Created { session_id: sid, session_name: sid },
            )
            &&& second[2] == (ActionModel::SendInput { session_id: sid, content })
            &&& c2.pending is Idle
            &&& c2.sessions == c.sessions.insert(sid)
            &&& third.len() == 0
            &&& c3 == c
        }),
{
    request_names_differ();
    let c1 = on_event(c, LoopEvent::Request(req)).0;
    assert(on_event(c1, LoopEvent::SessionCreated { ok: false }).0 =~= c);
}

/// Input for a session that is there goes to its agent, and nothing else is done; input
/// without text does nothing.
pub proof fn input_goes_to_the_agent(c: ConnectionModel, req: ClientRequest, sid: Seq<char>)
    requires
        c.pending is Idle,
        asks_for(req, "run"@, sid) || asks_for(req, "message"@, sid),
        c.sessions.contains(sid),
    ensures
        on_event(c, LoopEvent::Request(req)).0 == c,
        text::opt_view(req.content) matches Some(s) ==> s.len() > 0 ==> on_event(
            c,
            LoopEvent::Request(req),
        ).1 == seq![ActionModel::SendInput { session_id: sid, content: s }],
        text::opt_view(req.content) is None ==> on_event(c, LoopEvent::Request(req)).1.len() == 0,
{
    request_names_differ();
}

/// The user's answers go to the agent of their session, under the question that they
/// answer.
pub proof fn answers_go_to_the_agent(
    c: ConnectionModel,
    req: ClientRequest,
    sid: Seq<char>,
    id: String,
    answers: Vec<(String, String)>,
)
    requires
        c.pending is Idle,
        asks_for(req, "ask_response"@, sid),
        req.request_id == Some(id),
        req.answers == Some(answers),
    ensures
        on_event(c, LoopEvent::Request(req)).0 == c,
        c.sessions.contains(sid) ==> on_event(c, LoopEvent::Request(req)).1 == seq![
            ActionModel::SendAnswers { session_id: sid, request_id: id@, answers: answers@ },
        ],
        !c.sessions.contains(sid) ==> on_event(c, LoopEvent::Request(req)).1.len() == 0,
{
    request_names_differ();
}

/// A client that asks for the saved sessions is told their names, all of them and in the
/// order in which they were found.
pub proof fn saved_sessions_are_listed(
    c: ConnectionModel,
    req: ClientRequest,
    sid: Seq<char>,
    names: Vec<String>,
)
    requires
        c.pending is Idle,
        asks_for(req, "list_sessions"@, sid),
    ensures
        ({
            let (c1, first) = on_event(c, LoopEvent::Request(req));
            let (c2, second) = on_event(c1, LoopEvent::SessionNames(names));
            &&& first == seq![ActionModel::ListSessions]
            &&& second.len() == 1
            &&& second[0] matches ActionModel::Tell(NoticeModel::SessionList { sessions })
                && sessions.len() == names@.len() && forall|i: int|
                0 <= i < names@.len() ==> #[trigger] sessions[i] == names@[i]@
            &&& c2 == c
        }),
{
    request_names_differ();
    let c1 = on_event(c, LoopEvent::Request(req)).0;
    assert(on_event(c1, LoopEvent::SessionNames(names)).0 =~= c);
}

/// A saved session that a client resumes is loaded, its agent is started, the client is
/// told, and then told what was said in it. One that is not saved, or cannot be loaded, is
/// reported, and nothing is started.
pub proof fn saved_sessions_are_resumed(
    c: ConnectionModel,
    req: ClientRequest,
    sid: Seq<char>,
    loaded: Result<(), String>,
    history: Vec<Message>,
)
    requires
        c.pending is Idle,
        asks_for(req, "resume_session"@, sid),
        !c.sessions.contains(sid),
    ensures
        ({
            let (c1, first) = on_event(c, LoopEvent::Request(req));
            let (c2, second) = on_event(c1, LoopEvent::SessionExists(true));
            let (c3, third) = on_event(c2, LoopEvent::SessionLoaded(loaded));
            let (c4, fourth) = on_event(c3, LoopEvent::History(Some(history)));
            let (gone, why) = on_event(c1, LoopEvent::SessionExists(false));
            &&& first == seq![ActionModel::CheckSession { session_id: sid }]
            &&& second == seq![ActionModel::LoadSession { session_id: sid }]
            &&& match loaded {
                Ok(_) => {
                    &&& third.len() == 3
                    &&& third[0] matches ActionModel::Spawn { session_id, setup } && session_id
                        == sid && setup.streaming
                    &&& third[1] == ActionModel::Tell(
                        NoticeModel::SessionResumed { session_id: sid, session_name: sid },
                    )
                    &&& third[2] == (ActionModel::LoadHistory { session_id: sid })
                    &&& fourth == replayed(messages::message_views(history@))
                    &&& c4.pending is Idle
                    &&& c4.sessions == c.sessions.insert(sid)
                },
                Err(e) => c3 == c && third == seq![
                    ActionModel::Tell(
                        NoticeModel::SystemMsg { message: "Cannot resume session: "@ + e@ },
                    ),
                ],
            }
            &&& gone == c
            &&& why == seq![
                ActionModel::Tell(
                    NoticeModel::SystemMsg { message: "Session '"@ + sid + "' not found"@ },
                ),
            ]
        }),
{
    request_names_differ();
    let c1 = on_event(c, LoopEvent::Request(req)).0;
    assert(on_event(c1, LoopEvent::SessionExists(false)).0 =~= c);
    let c2 = on_event(c1, LoopEvent::SessionExists(true)).0;
    if loaded is Err {
        assert(on_event(c2, LoopEvent::SessionLoaded(loaded)).0 =~= c);
    }
}

/// A session that is there already is resumed without starting its agent again.
pub proof fn running_sessions_are_resumed_as_they_are(
    c: ConnectionModel,
    req: ClientRequest,
    sid: Seq<char>,
)
    requires
        c.pending is Idle,
        asks_for(req, "resume_session"@, sid),
        c.sessions.contains(sid),
    ensures
        ({
            let c1 = on_event(c, LoopEvent::Request(req)).0;
            let (c2, second) = on_event(c1, LoopEvent::SessionExists(true));
            &&& second == seq![
                ActionModel::Tell(
                    NoticeModel::SessionResumed { session_id: sid, session_name: sid },
                ),
                ActionModel::LoadHistory { session_id: sid },
            ]
            &&& c2.sessions == c.sessions
        }),
{
    request_names_differ();
}

/// What was said in a session is told message by message, in its order: what the user said,
/// and what the agent said, where it said anything.
pub proof fn history_is_told_in_order(messages: Seq<MessageModel>, m: MessageModel)
    ensures
        ({
            let s = messages::text_of(m.content);
            let before = replayed(messages);
            let after = replayed(messages.push(m));
            &&& m.role == "user"@ ==> after == before.push(
                ActionModel::Tell(NoticeModel::SystemMsg { message: "[History] User: "@ + s }),
            )
            &&& m.role == "assistant"@ && s.len() > 0 ==> after == before.push(
                ActionModel::Tell(
                    NoticeModel::SystemMsg { message: "[History] Assistant: "@ + s },
                ),
            )
            &&& m.role != "user"@ && m.role != "assistant"@ ==> after == before
        }),
        replayed(Seq::empty()).len() == 0,
{
    reveal_strlit("user");
    reveal_strlit("assistant");
    assert("user"@.len() == 4 && "assistant"@.len() == 9);
    assert(messages.push(m).drop_last() =~= messages);
}

/// A client that changes the model has it changed, to the model that it names and with the
/// limit that it names, and is told.
pub proof fn models_are_changed_as_asked(
    c: ConnectionModel,
    req: ClientRequest,
    sid: Seq<char>,
    name: String,
)
    requires
        c.pending is Idle,
        asks_for(req, "set_model"@, sid),
        req.model == Some(name),
    ensures
        ({
            let (c1, actions) = on_event(c, LoopEvent::Request(req));
            &&& c1 == c
            &&& actions.len() == 2
            &&& actions[0] matches ActionModel::ChangeModel { model, max_tokens } && model == name@
                && (req.max_tokens matches Some(n) ==> max_tokens == n) && (req.max_tokens is None
                ==> max_tokens == 16384)
            &&& actions[1] == ActionModel::Tell(NoticeModel::ModelChanged { model: name@ })
        }),
{
    request_names_differ();
}

/// A session that is compacted is let go of, loaded anew and started again, and the client
/// is told; where it cannot be loaded, that is told.
pub proof fn sessions_are_compacted_as_asked(
    c: ConnectionModel,
    req: ClientRequest,
    sid: Seq<char>,
    loaded: Result<(), String>,
)
    requires
        c.pending is Idle,
        asks_for(req, "compact"@, sid),
    ensures
        ({
            let (c1, first) = on_event(c, LoopEvent::Request(req));
            let (c2, second) = on_event(c1, LoopEvent::SessionLoaded(loaded));
            &&& c.sessions.contains(sid) ==> first == seq![
                ActionModel::Drop { session_id: sid },
                ActionModel::LoadSession { session_id: sid },
            ]
            &&& !c.sessions.contains(sid) ==> first == seq![
                ActionModel::LoadSession { session_id: sid },
            ]
            &&& !c1.sessions.contains(sid)
            &&& c2.pending is Idle
            &&& match loaded {
                Ok(_) => {
                    &&& second.len() == 3
                    &&& second[0] matches ActionModel::Spawn { session_id, .. } && session_id == sid
                    &&& second[1] == ActionModel::Tell(
                        NoticeModel::SessionCompacted { session_id: sid },
                    )
                    &&& second[2] == ActionModel::Tell(
                        NoticeModel::SystemMsg {
                            message: "Session '"@ + sid + "' compacted and re-created"@,
                        },
                    )
                    &&& c2.sessions.contains(sid)
                },
                Err(e) => second == seq![
                    ActionModel::Tell(
                        NoticeModel::SystemMsg { message: "Cannot compact session: "@ + e@ },
                    ),
                ],
            }
        }),
{
    request_names_differ();
    let first = on_event(c, LoopEvent::Request(req)).1;
    if c.sessions.contains(sid) {
        assert(first =~= seq![
            ActionModel::Drop { session_id: sid },
            ActionModel::LoadSession { session_id: sid },
        ]);
    } else {
        assert(first =~= seq![ActionModel::LoadSession { session_id: sid }]);
    }
}

/// A request of another type changes nothing and is not answered.
pub proof fn other_requests_do_nothing(c: ConnectionModel, req: ClientRequest)
    requires
        c.pending is Idle,
        req.msg_type@ != "run"@,
        req.msg_type@ != "message"@,
        req.msg_type@ != "ask_response"@,
        req.msg_type@ != "new_session"@,
        req.msg_type@ != "new"@,
        req.msg_type@ != "list_sessions"@,
        req.msg_type@ != "resume_session"@,
        req.msg_type@ != "set_model"@,
        req.msg_type@ != "compact"@,
    ensures
        on_event(c, LoopEvent::Request(req)) == (c, Seq::<ActionModel>::empty()),
{
    assert(on_event(c, LoopEvent::Request(req)).1 =~= Seq::<ActionModel>::empty());
}

/// An agent of a stored session streams, leaves the cache as it is, does not think aloud and
/// skips permissions.
pub proof fn stored_sessions_run_as_usual(
    c: ConnectionModel,
    sid: Seq<char>,
    compacted: ConnectionModel,
)
    requires
        c.pending == (PendingModel::Resuming { session_id: sid }),
        compacted.pending == (PendingModel::Compacting { session_id: sid }),
    ensures
        ({
            let setup = AgentSetup {
                streaming: true,
                prompt_caching: None,
                thinking: None,
                skip_permissions: true,
            };
            &&& on_event(c, LoopEvent::SessionLoaded(Ok(()))).1[0] == (ActionModel::Spawn {
                session_id: sid,
                setup,
            })
            &&& on_event(compacted, LoopEvent::SessionLoaded(Ok(()))).1[0] == (
            ActionModel::Spawn { session_id: sid, setup })
        }),
{
}

} // verus!
