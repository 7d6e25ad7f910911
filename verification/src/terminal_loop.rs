//! The event loop of the terminal client and the task that talks to the
//! daemon, as functions from a state and an event to what is to be done.

use vstd::prelude::*;

use crate::daemon_events;
use crate::json;
use crate::json::{Json, JsonTree};
use crate::loop_client;
use crate::loop_client::SessionConfig;
use crate::markdown_reader;
use crate::daemon_events::{OutputChunk, ServerEvent, StreamModel, Streaming, Transfer};
use crate::terminal;
use crate::terminal::{
    s_error, s_highlight, AppState, BlockModel, CacheStats, CmdModel, DaemonCmd, LineEffect,
    LineOutcome, Screen,
};
use crate::text;

use termimad::MadSkin;

verus! {

// ---------------------------------------------------------------------------
// The client
// ---------------------------------------------------------------------------

/// How long the client waits for the answer to a ping, in milliseconds.
pub const STATUS_TIMEOUT_MS: u64 = 5000;

/// What the client waits for.
pub enum AppEvent {
    /// An event of the daemon.
    Daemon(ServerEvent),
    /// The daemon is gone.
    Disconnected,
    /// The timer of a ping went off, so long after the last ping.
    StatusTimeout { elapsed_ms: u64 },
    /// A line was submitted.
    Line(String),
    /// The input ended.
    Eof,
    /// The prompt was cancelled.
    CancelPrompt,
    /// The prompt's buffer changed.
    BufferChanged,
    /// Escape was pressed.
    Escape,
    /// The terminal has a new size.
    Resize { width: u16, height: u16 },
}

/// The client: its screen, its session, what is being streamed, the lines that
/// were submitted, and whether a ping is under way.
pub struct Client {
    pub screen: Screen,
    pub app: AppState,
    pub streaming: Streaming,
    pub history: Vec<String>,
    pub status_pending: bool,
}

/// What is left to do after an event.
pub struct Step {
    /// The client ends.
    pub quit: bool,
    /// A timer is to be set for the answer to a ping.
    pub arm_timer: bool,
    /// The status line is to be drawn anew, for a terminal of this width.
    pub redraw_status: Option<usize>,
    /// A file is to be saved.
    pub transfer: Option<Transfer>,
}

/// What the client holds.
pub struct ClientModel {
    pub blocks: Seq<Option<BlockModel>>,
    pub wiped: bool,
    pub buffer: Seq<char>,
    pub cursor: usize,
    pub width: usize,
    pub skin: MadSkin,
    pub session_id: Seq<char>,
    pub model: Seq<char>,
    pub cache: CacheStats,
    pub stream: StreamModel,
    pub history: Seq<Seq<char>>,
    pub pending: bool,
    pub sent: Seq<CmdModel>,
}

impl Client {
    /// What the client holds, with the commands that it sent.
    pub open spec fn model(&self, commands: Seq<DaemonCmd>) -> ClientModel {
        ClientModel {
            blocks: self.screen.shown(),
            wiped: self.screen.wiped,
            buffer: self.screen.buffer@,
            cursor: self.screen.cursor,
            width: self.screen.width,
            skin: self.screen.skin,
            session_id: self.app.session_id@,
            model: self.app.model@,
            cache: self.app.cache,
            stream: self.streaming@,
            history: text::views(self.history@),
            pending: self.status_pending,
            sent: terminal::cmd_views(commands),
        }
    }
}

/// What the client holds after an event of the daemon. The list of models is
/// the answer to a ping that is under way, and is then not shown.
pub open spec fn after_daemon_event(was: ClientModel, app: AppState, event: ServerEvent) -> ClientModel {
    if was.pending && event is ModelList {
        ClientModel {
            pending: false,
            blocks: terminal::with_line(
                was.blocks,
                "\u{2713} omega-loop connection OK \u{2014} session: "@ + was.session_id
                    + " | model: "@ + was.model + " | "@ + text::decimal(
                    event->models@.len() as nat,
                ) + " model(s) available"@,
                s_highlight(),
            ),
            ..was
        }
    } else {
        ClientModel {
            blocks: daemon_events::shown_after(
                event,
                app,
                was.stream,
                was.blocks,
                was.width,
                was.skin,
            ),
            stream: match event {
                ServerEvent::Chunk { chunk, .. } => daemon_events::stream_after(
                    chunk,
                    was.stream,
                    was.blocks.len() as int,
                ),
                _ => was.stream,
            },
            model: match event {
                ServerEvent::ModelChanged { model } => model@,
                _ => was.model,
            },
            cache: daemon_events::cache_after(event, was.cache),
            ..was
        }
    }
}

/// What the client holds after the daemon is gone.
pub open spec fn after_disconnect(was: ClientModel) -> ClientModel {
    let blocks = if was.pending {
        terminal::with_line(was.blocks, "\u{2717} omega-loop connection lost"@, s_error())
    } else {
        was.blocks
    };
    ClientModel {
        pending: false,
        blocks: terminal::with_line(
            blocks,
            "\u{26a0} Daemon disconnected. /quit to exit."@,
            s_error(),
        ),
        ..was
    }
}

/// What the client holds after the timer of a ping went off. A timer that an
/// older ping set is too early for the one under way.
pub open spec fn after_timeout(was: ClientModel, elapsed_ms: u64, limit_ms: u64) -> ClientModel {
    if was.pending && elapsed_ms >= limit_ms {
        ClientModel {
            pending: false,
            blocks: terminal::with_line(
                was.blocks,
                "\u{2717} no response from omega-loop \u{2014} connection may be dead"@,
                s_error(),
            ),
            ..was
        }
    } else {
        was
    }
}

/// What a submitted line does to the client.
pub open spec fn line_effect_on(was: ClientModel, line: Seq<char>, fresh: Seq<char>) -> LineEffect {
    terminal::line_effect(
        line,
        fresh,
        (LineEffect {
            session_id: was.session_id,
            model: was.model,
            blocks: was.blocks,
            wiped: was.wiped,
            sent: was.sent,
            outcome: LineOutcome::Continue,
        }),
    )
}

/// What the client holds after a submitted line. An empty line is none.
pub open spec fn after_line(was: ClientModel, line: Seq<char>, fresh: Seq<char>) -> ClientModel {
    if line.len() == 0 {
        was
    } else {
        let e = line_effect_on(was, line, fresh);
        ClientModel {
            session_id: e.session_id,
            model: e.model,
            blocks: e.blocks,
            wiped: e.wiped,
            sent: e.sent,
            history: was.history.push(line),
            pending: was.pending || e.outcome == LineOutcome::StatusRequested,
            ..was
        }
    }
}

/// What the client holds after the prompt's buffer changed: a tab at its end
/// goes, and a command before it is completed.
pub open spec fn after_buffer_change(was: ClientModel) -> ClientModel {
    if was.buffer.len() > 0 && was.buffer.last() == '\t' {
        let rest = was.buffer.drop_last();
        let s = match terminal::completion(rest) {
            Some(s) => s,
            None => rest,
        };
        ClientModel { buffer: s, cursor: text::byte_len(s), ..was }
    } else {
        was
    }
}

/// What the client holds after an event. `fresh` names a new session that gets
/// no name.
pub open spec fn client_after(
    was: ClientModel,
    app: AppState,
    event: AppEvent,
    limit_ms: u64,
    fresh: Seq<char>,
) -> ClientModel {
    match event {
        AppEvent::Daemon(ev) => after_daemon_event(was, app, ev),
        AppEvent::Disconnected => after_disconnect(was),
        AppEvent::StatusTimeout { elapsed_ms } => after_timeout(was, elapsed_ms, limit_ms),
        AppEvent::Line(line) => after_line(was, line@, fresh),
        AppEvent::BufferChanged => after_buffer_change(was),
        AppEvent::Escape => if was.buffer.len() == 0 {
            ClientModel { cursor: 0, ..was }
        } else {
            was
        },
        AppEvent::Resize { width, .. } => ClientModel {
            width: if width == 0 {
                1
            } else {
                width as usize
            },
            ..was
        },
        AppEvent::Eof => was,
        AppEvent::CancelPrompt => was,
    }
}

/// What is left to do after an event.
pub open spec fn step_after(was: ClientModel, event: AppEvent, fresh: Seq<char>, step: Step) -> bool {
    match event {
        AppEvent::Daemon(ev) => if was.pending && ev is ModelList {
            !step.quit && !step.arm_timer && step.redraw_status is None && step.transfer is None
        } else {
            &&& !step.quit && !step.arm_timer
            &&& step.redraw_status == if daemon_events::redraws_status(ev) {
                Some(terminal::wrap_width(was.width))
            } else {
                None
            }
            &&& daemon_events::transfer_matches(ev, step.transfer)
        },
        AppEvent::Line(line) => {
            let outcome = line_effect_on(was, line@, fresh).outcome;
            &&& step.quit == (line@.len() > 0 && outcome == LineOutcome::Quit)
            &&& step.arm_timer == (line@.len() > 0 && outcome == LineOutcome::StatusRequested)
            &&& step.redraw_status is None && step.transfer is None
        },
        AppEvent::Eof | AppEvent::CancelPrompt => step.quit && !step.arm_timer
            && step.redraw_status is None && step.transfer is None,
        AppEvent::Resize { width, .. } => !step.quit && !step.arm_timer && step.transfer is None
            && step.redraw_status == Some(
            terminal::wrap_width(
                if width == 0 {
                    1
                } else {
                    width as usize
                },
            ),
        ),
        _ => !step.quit && !step.arm_timer && step.redraw_status is None && step.transfer is None,
    }
}

impl Client {
    /// Whether the client can take an event: the cache figures can count it, and
    /// what it shows can be drawn.
    pub open spec fn takes(self, event: AppEvent) -> bool {
        match event {
            AppEvent::Daemon(ev) => daemon_events::countable(ev, self.app.cache)
                && daemon_events::drawable(
                ev,
                self.streaming@,
                self.screen.width,
                self.screen.skin,
            ),
            _ => true,
        }
    }

    /// Whether the client can take an event.
    pub fn can_take(&self, event: &AppEvent) -> (r: bool)
        ensures
            r == self.takes(*event),
    {
        match event {
            AppEvent::Daemon(ev) => daemon_events::can_take(
                &self.screen,
                &self.app,
                &self.streaming,
                ev,
            ),
            _ => true,
        }
    }

    /// A client in a session, on an empty screen.
    pub fn new(session_id: String, model: String, width: usize) -> (r: Client)
        ensures
            r.screen.shown() == Seq::<Option<BlockModel>>::empty(),
            r.screen.width == width,
            markdown_reader::dark(r.screen.skin),
            r.app.session_id == session_id,
            r.app.model == model,
            r.app.cache == CacheStats::zero(),
            r.streaming@ == daemon_events::idle(),
            r.history@.len() == 0,
            !r.status_pending,
    {
        Client {
            screen: Screen::new(width),
            app: AppState { session_id, model, cache: CacheStats::default() },
            streaming: Streaming::new(),
            history: Vec::new(),
            status_pending: false,
        }
    }

    /// Takes an event of the daemon.
    fn on_daemon_event(&mut self, ev: ServerEvent, commands: &Vec<DaemonCmd>) -> (step: Step)
        requires
            old(self).takes(AppEvent::Daemon(ev)),
        ensures
            final(self).model(commands@) == after_daemon_event(
                old(self).model(commands@),
                old(self).app,
                ev,
            ),
            final(self).screen.status == old(self).screen.status,
            step_after(old(self).model(commands@), AppEvent::Daemon(ev), seq![], step),
    {
        if self.status_pending {
            if let ServerEvent::ModelList { models } = &ev {
                self.status_pending = false;
                let n = text::number(models.len() as u64);
                let mut line = text::cat6(
                    "\u{2713} omega-loop connection OK \u{2014} session: ",
                    self.app.session_id.as_str(),
                    " | model: ",
                    self.app.model.as_str(),
                    " | ",
                    n.as_str(),
                );
                line.append(" model(s) available");
                self.screen.print_line(line, s_highlight());
                return Step {
                    quit: false,
                    arm_timer: false,
                    redraw_status: None,
                    transfer: None,
                };
            }
        }
        let handled = daemon_events::handle_daemon_event(
            &mut self.screen,
            &mut self.app,
            &mut self.streaming,
            ev,
        );
        let w: usize = if self.screen.width < 40 { 40 } else { self.screen.width };
        Step {
            quit: false,
            arm_timer: false,
            redraw_status: if handled.redraw_status { Some(w) } else { None },
            transfer: handled.transfer,
        }
    }

    /// Takes a submitted line.
    fn on_line(&mut self, line: String, commands: &mut Vec<DaemonCmd>, fresh: &str) -> (step: Step)
        ensures
            final(self).model(final(commands)@) == after_line(
                old(self).model(old(commands)@),
                line@,
                fresh@,
            ),
            final(self).screen.status == old(self).screen.status,
            step_after(old(self).model(old(commands)@), AppEvent::Line(line), fresh@, step),
    {
        let mut step = Step {
            quit: false,
            arm_timer: false,
            redraw_status: None,
            transfer: None,
        };
        if line.as_str().is_empty() {
            return step;
        }
        let ghost was = text::views(self.history@);
        self.history.push(line.clone());
        assert(text::views(self.history@) =~= was.push(line@));
        let outcome = terminal::process_line_with(
            line.as_str(),
            &mut self.app,
            &mut self.screen,
            commands,
            fresh,
        );
        match outcome {
            LineOutcome::Quit => {
                step.quit = true;
            },
            LineOutcome::Continue => {},
            LineOutcome::StatusRequested => {
                self.status_pending = true;
                step.arm_timer = true;
            },
        }
        step
    }

    /// Takes a change of the prompt's buffer.
    fn on_buffer_change(&mut self)
        ensures
            forall|c: Seq<DaemonCmd>|
                #![trigger final(self).model(c)]
                final(self).model(c) == after_buffer_change(old(self).model(c)),
            final(self).screen.status == old(self).screen.status,
    {
        let buf = text::chars_of(self.screen.buffer.as_str());
        if buf.len() > 0 && buf[buf.len() - 1] == '\t' {
            let rest = text::text_of(&buf, 0, buf.len() - 1);
            assert(rest@ =~= self.screen.buffer@.drop_last());
            match terminal::complete(rest.as_str()) {
                Some(done) => {
                    let len: usize = text::len_in_bytes(done.as_str());
                    self.screen.set_buffer(done, len);
                },
                None => {
                    let len: usize = text::len_in_bytes(rest.as_str());
                    self.screen.set_buffer(rest, len);
                },
            }
        }
    }

    /// Takes an event. `fresh` names a new session that gets no name.
    pub fn step_with(
        &mut self,
        event: AppEvent,
        commands: &mut Vec<DaemonCmd>,
        limit_ms: u64,
        fresh: &str,
    ) -> (step: Step)
        requires
            old(self).takes(event),
        ensures
            final(self).model(final(commands)@) == client_after(
                old(self).model(old(commands)@),
                old(self).app,
                event,
                limit_ms,
                fresh@,
            ),
            final(self).screen.status == old(self).screen.status,
            step_after(old(self).model(old(commands)@), event, fresh@, step),
    {
        let mut step = Step {
            quit: false,
            arm_timer: false,
            redraw_status: None,
            transfer: None,
        };
        match event {
            AppEvent::Daemon(ev) => {
                step = self.on_daemon_event(ev, commands);
            },
            AppEvent::Disconnected => {
                if self.status_pending {
                    self.status_pending = false;
                    self.screen.print_line(
                        "\u{2717} omega-loop connection lost".to_owned(),
                        s_error(),
                    );
                }
                self.screen.print_line(
                    "\u{26a0} Daemon disconnected. /quit to exit.".to_owned(),
                    s_error(),
                );
            },
            AppEvent::StatusTimeout { elapsed_ms } => {
                if self.status_pending && elapsed_ms >= limit_ms {
                    self.status_pending = false;
                    self.screen.print_line(
                        "\u{2717} no response from omega-loop \u{2014} connection may be dead".to_owned(),
                        s_error(),
                    );
                }
            },
            AppEvent::Line(line) => {
                step = self.on_line(line, commands, fresh);
            },
            AppEvent::Eof => {
                step.quit = true;
            },
            AppEvent::CancelPrompt => {
                step.quit = true;
            },
            AppEvent::BufferChanged => {
                self.on_buffer_change();
            },
            AppEvent::Escape => {
                if self.screen.buffer.as_str().is_empty() {
                    let empty = String::new();
                    assert(empty@ =~= self.screen.buffer@);
                    self.screen.set_buffer(empty, 0);
                }
            },
            AppEvent::Resize { width, .. } => {
                let w: usize = if width == 0 { 1 } else { width as usize };
                self.screen.width = w;
                step.redraw_status = Some(if w < 40 { 40 } else { w });
            },
        }
        step
    }

    /// Takes an event. A new session that gets no name is given a fresh one.
    pub fn step(
        &mut self,
        event: AppEvent,
        commands: &mut Vec<DaemonCmd>,
        limit_ms: u64,
    ) -> (step: Step)
        requires
            old(self).takes(event),
        ensures
            exists|fresh: Seq<char>| #[trigger]
                terminal::is_fresh(fresh) && final(self).model(final(commands)@) == client_after(
                    old(self).model(old(commands)@),
                    old(self).app,
                    event,
                    limit_ms,
                    fresh,
                ) && step_after(old(self).model(old(commands)@), event, fresh, step),
            final(self).screen.status == old(self).screen.status,
    {
        let fresh = terminal::fresh_name();
        self.step_with(event, commands, limit_ms, fresh.as_str())
    }

    /// Takes an event that the client can take. At any other nothing changes.
    pub fn try_step(
        &mut self,
        event: AppEvent,
        commands: &mut Vec<DaemonCmd>,
        limit_ms: u64,
    ) -> (step: Option<Step>)
        ensures
            step is Some <==> old(self).takes(event),
            step is None ==> *final(self) == *old(self) && *final(commands) == *old(commands),
            step matches Some(s) ==> exists|fresh: Seq<char>| #[trigger]
                terminal::is_fresh(fresh) && final(self).model(final(commands)@) == client_after(
                    old(self).model(old(commands)@),
                    old(self).app,
                    event,
                    limit_ms,
                    fresh,
                ) && step_after(old(self).model(old(commands)@), event, fresh, s),
            final(self).screen.status == old(self).screen.status,
    {
        if self.can_take(&event) {
            Some(self.step(event, commands, limit_ms))
        } else {
            None
        }
    }
}

// ---------------------------------------------------------------------------
// The task that talks to the daemon
// ---------------------------------------------------------------------------

/// How long the task waits for an event before it looks for commands again, in
/// milliseconds.
pub const RECEIVE_TIMEOUT_MS: u64 = 50;

/// How long the task rests after the daemon closed the connection, in
/// milliseconds.
pub const CLOSED_PAUSE_MS: u64 = 500;

/// How long the task rests after an event that could not be read, in
/// milliseconds.
pub const ERROR_PAUSE_MS: u64 = 100;

/// What the task learned from what it did last.
pub enum TaskInput {
    /// The task begins, or has rested.
    Ready,
    /// A command waits.
    Command(DaemonCmd),
    /// No command waits.
    NoCommand,
    /// Nobody sends commands any more.
    CommandsClosed,
    /// A request was written.
    Written,
    /// A request could not be written.
    WriteFailed,
    /// An event came.
    Received,
    /// The daemon closed the connection.
    Closed,
    /// An event could not be read.
    ReadFailed,
    /// No event came in time.
    TimedOut,
    /// An event was handed to the client.
    Forwarded,
    /// The client is gone.
    ClientGone,
    /// The client was told that the daemon is gone; the flag says whether the
    /// daemon closed the connection.
    Reported { closed: bool },
}

/// What the task does next.
pub enum TaskAction {
    /// Look for a command.
    TakeCommand,
    /// Write a command's request.
    Write(DaemonCmd),
    /// Wait for an event, so many milliseconds.
    Receive { timeout_ms: u64 },
    /// Hand the event to the client.
    Forward,
    /// Tell the client that the daemon is gone.
    ReportGone { closed: bool },
    /// Rest, so many milliseconds.
    Pause { ms: u64 },
    /// End.
    Stop,
}

/// What the task does next. It takes all commands that wait before it waits for
/// an event; a request that can not be written and a connection that is closed
/// are told to the client; and it ends when the client is gone or says so.
pub fn daemon_step(input: TaskInput) -> (r: TaskAction)
    ensures
        match input {
            TaskInput::Ready | TaskInput::Written | TaskInput::TimedOut | TaskInput::Forwarded => {
                r is TakeCommand
            },
            TaskInput::Command(cmd) => if cmd is Shutdown {
                r is Stop
            } else {
                r == TaskAction::Write(cmd)
            },
            TaskInput::NoCommand => r == (TaskAction::Receive { timeout_ms: 50 }),
            TaskInput::CommandsClosed | TaskInput::ClientGone => r is Stop,
            TaskInput::WriteFailed => r == (TaskAction::ReportGone { closed: false }),
            TaskInput::Received => r is Forward,
            TaskInput::Closed => r == (TaskAction::ReportGone { closed: true }),
            TaskInput::ReadFailed => r == (TaskAction::Pause { ms: 100 }),
            TaskInput::Reported { closed } => if closed {
                r == (TaskAction::Pause { ms: 500 })
            } else {
                r is TakeCommand
            },
        },
{
    match input {
        TaskInput::Command(cmd) => match cmd {
            DaemonCmd::Shutdown => TaskAction::Stop,
            other => TaskAction::Write(other),
        },
        TaskInput::NoCommand => TaskAction::Receive { timeout_ms: RECEIVE_TIMEOUT_MS },
        TaskInput::CommandsClosed => TaskAction::Stop,
        TaskInput::ClientGone => TaskAction::Stop,
        TaskInput::WriteFailed => TaskAction::ReportGone { closed: false },
        TaskInput::Received => TaskAction::Forward,
        TaskInput::Closed => TaskAction::ReportGone { closed: true },
        TaskInput::ReadFailed => TaskAction::Pause { ms: ERROR_PAUSE_MS },
        TaskInput::Reported { closed } => if closed {
            TaskAction::Pause { ms: CLOSED_PAUSE_MS }
        } else {
            TaskAction::TakeCommand
        },
        _ => TaskAction::TakeCommand,
    }
}

/// How many tokens an answer may have after a change of the model.
pub const MAX_TOKENS: u64 = 16384;

/// The session that a request is for which none is meant.
pub open spec fn any_session() -> Seq<char> {
    "*"@
}

/// What a request for a session says.
pub open spec fn session_tree(kind: Seq<char>, session_id: Seq<char>) -> JsonTree {
    JsonTree::Object(
        seq![("type"@, JsonTree::Text(kind)), ("session_id"@, JsonTree::Text(session_id))],
    )
}

/// A request for a session.
pub fn session_request(kind: &str, session_id: &str) -> (r: Json)
    ensures
        r@ == session_tree(kind@, session_id@),
{
    let r = json::object(
        vec![
            json::entry("type", json::text_value(kind)),
            json::entry("session_id", json::text_value(session_id)),
        ],
    );
    assert(r@->Object_0 =~= session_tree(kind@, session_id@)->Object_0);
    r
}

/// Whether a tree is what a request for a model says.
pub open spec fn is_model_tree(t: JsonTree, session_id: Seq<char>, model: Seq<char>) -> bool {
    match t {
        JsonTree::Object(v) => {
            &&& v.len() == 4
            &&& v[0] == ("type"@, JsonTree::Text("set_model"@))
            &&& v[1] == ("session_id"@, JsonTree::Text(session_id))
            &&& v[2] == ("model"@, JsonTree::Text(model))
            &&& v[3].0 == "max_tokens"@ && v[3].1.whole() == Some(MAX_TOKENS)
        },
        _ => false,
    }
}

/// A request for a model.
pub fn model_request(session_id: &str, model: &str) -> (r: Json)
    ensures
        is_model_tree(r@, session_id@, model@),
{
    json::object(
        vec![
            json::entry("type", json::text_value("set_model")),
            json::entry("session_id", json::text_value(session_id)),
            json::entry("model", json::text_value(model)),
            json::entry("max_tokens", json::whole_value(MAX_TOKENS)),
        ],
    )
}

/// Whether a tree is what a command's request says.
pub open spec fn is_command_tree(t: JsonTree, cmd: CmdModel) -> bool {
    match cmd {
        CmdModel::Run { session_id, content } => t == loop_client::run_tree(
            session_id,
            content,
            (SessionConfig { stream: true, think: false, no_cache: false }),
        ),
        CmdModel::SetModel { session_id, model } => is_model_tree(t, session_id, model),
        CmdModel::ListModels => t == session_tree("list_models"@, any_session()),
        CmdModel::ListSessions => t == session_tree("list_sessions"@, any_session()),
        CmdModel::Resume(s) => t == session_tree("resume_session"@, s),
        CmdModel::Compact(s) => t == session_tree("compact"@, s),
        CmdModel::Interrupt(s) => t == session_tree("interrupt"@, s),
        CmdModel::Shutdown => false,
    }
}

/// The request of a command. The command to end has none.
pub fn command_request(cmd: &DaemonCmd) -> (r: Option<Json>)
    ensures
        match r {
            Some(j) => is_command_tree(j@, cmd@),
            None => cmd@ is Shutdown,
        },
{
    match cmd {
        DaemonCmd::Run { session_id, content } => Some(
            loop_client::run_request(
                session_id.as_str(),
                content.as_str(),
                &SessionConfig::default(),
            ),
        ),
        DaemonCmd::SetModel { session_id, model } => Some(
            model_request(session_id.as_str(), model.as_str()),
        ),
        DaemonCmd::ListModels => Some(session_request("list_models", "*")),
        DaemonCmd::ListSessions => Some(session_request("list_sessions", "*")),
        DaemonCmd::Resume(s) => Some(session_request("resume_session", s.as_str())),
        DaemonCmd::Compact(s) => Some(session_request("compact", s.as_str())),
        DaemonCmd::Interrupt(s) => Some(session_request("interrupt", s.as_str())),
        DaemonCmd::Shutdown => None,
    }
}

// ---------------------------------------------------------------------------
// Laws
// ---------------------------------------------------------------------------

/// Only the command that asks for it starts a ping.
pub proof fn pings_are_asked_for(
    was: ClientModel,
    app: AppState,
    event: AppEvent,
    limit_ms: u64,
    fresh: Seq<char>,
)
    requires
        !was.pending,
        client_after(was, app, event, limit_ms, fresh).pending,
    ensures
        event matches AppEvent::Line(line) && line_effect_on(was, line@, fresh).outcome
            is StatusRequested,
{
}

/// A ping ends when the models are listed, when the daemon is gone, or when the
/// time is up, and each says so in a line of its own.
pub proof fn pings_end(
    was: ClientModel,
    app: AppState,
    event: AppEvent,
    limit_ms: u64,
    fresh: Seq<char>,
)
    requires
        was.pending,
        match event {
            AppEvent::Daemon(ev) => ev is ModelList,
            AppEvent::Disconnected => true,
            AppEvent::StatusTimeout { elapsed_ms } => elapsed_ms >= limit_ms,
            _ => false,
        },
    ensures
        !client_after(was, app, event, limit_ms, fresh).pending,
        client_after(was, app, event, limit_ms, fresh).blocks.len() > was.blocks.len(),
{
}

/// Without a ping under way its timer says nothing.
pub proof fn late_timers_say_nothing(
    was: ClientModel,
    app: AppState,
    elapsed_ms: u64,
    limit_ms: u64,
    fresh: Seq<char>,
)
    requires
        !was.pending,
    ensures
        client_after(was, app, AppEvent::StatusTimeout { elapsed_ms }, limit_ms, fresh) == was,
{
}

/// Only the user ends the client: by a command, by the end of the input, or by
/// cancelling the prompt.
pub proof fn only_the_user_ends_the_client(
    was: ClientModel,
    event: AppEvent,
    fresh: Seq<char>,
    step: Step,
)
    requires
        step_after(was, event, fresh, step),
        step.quit,
    ensures
        event is Line || event is Eof || event is CancelPrompt,
{
}

/// What was sent stays sent, and what was submitted stays in the history.
pub proof fn nothing_is_taken_back(
    was: ClientModel,
    app: AppState,
    event: AppEvent,
    limit_ms: u64,
    fresh: Seq<char>,
)
    ensures
        was.sent.is_prefix_of(client_after(was, app, event, limit_ms, fresh).sent),
        was.history.is_prefix_of(client_after(was, app, event, limit_ms, fresh).history),
{
    let after = client_after(was, app, event, limit_ms, fresh);
    assert(after.sent.subrange(0, was.sent.len() as int) =~= was.sent);
    assert(after.history.subrange(0, was.history.len() as int) =~= was.history);
}

/// A daemon that answers a ping is reported to be there, with the session and the model; one
/// that is gone, or does not answer in time, is reported too.
pub proof fn pings_are_reported(
    was: ClientModel,
    app: AppState,
    models: Vec<String>,
    elapsed_ms: u64,
    limit_ms: u64,
    fresh: Seq<char>,
)
    requires
        was.pending,
        elapsed_ms >= limit_ms,
    ensures
        ({
            let there = client_after(
                was,
                app,
                AppEvent::Daemon(ServerEvent::ModelList { models }),
                limit_ms,
                fresh,
            );
            let late = client_after(
                was,
                app,
                AppEvent::StatusTimeout { elapsed_ms },
                limit_ms,
                fresh,
            );
            let gone = client_after(was, app, AppEvent::Disconnected, limit_ms, fresh);
            &&& !there.pending && !late.pending && !gone.pending
            &&& daemon_events::prints(
                was.blocks,
                there.blocks,
                "\u{2713} omega-loop connection OK \u{2014} session: "@ + was.session_id
                    + " | model: "@ + was.model + " | "@ + text::decimal(models@.len())
                    + " model(s) available"@,
            )
            &&& daemon_events::prints(
                was.blocks,
                late.blocks,
                "\u{2717} no response from omega-loop \u{2014} connection may be dead"@,
            )
            &&& gone.blocks.len() == was.blocks.len() + 2
            &&& gone.blocks[was.blocks.len() as int] matches Some(b) && b[0].0
                == "\u{2717} omega-loop connection lost"@
            &&& gone.blocks.last() matches Some(b) && b[0].0
                == "\u{26a0} Daemon disconnected. /quit to exit."@
        }),
{
    let there = client_after(
        was,
        app,
        AppEvent::Daemon(ServerEvent::ModelList { models }),
        limit_ms,
        fresh,
    );
    let late = client_after(was, app, AppEvent::StatusTimeout { elapsed_ms }, limit_ms, fresh);
    assert(there.blocks.drop_last() =~= was.blocks);
    assert(late.blocks.drop_last() =~= was.blocks);
}

/// Events of the daemon are shown, streamed text is gathered, and another model is taken
/// over.
pub proof fn events_are_taken_in(
    was: ClientModel,
    app: AppState,
    session_id: String,
    s: String,
    limit_ms: u64,
    fresh: Seq<char>,
)
    requires
        s@.len() > 0,
        !was.stream.finalized,
    ensures
        ({
            let told = client_after(
                was,
                app,
                AppEvent::Daemon(
                    ServerEvent::Chunk { session_id, chunk: OutputChunk::TextDelta(s) },
                ),
                limit_ms,
                fresh,
            );
            let changed = client_after(
                was,
                app,
                AppEvent::Daemon(ServerEvent::ModelChanged { model: s }),
                limit_ms,
                fresh,
            );
            &&& told.stream.buf == was.stream.buf + s@
            &&& told.stream.block_id is Some
            &&& changed.model == s@
            &&& changed.blocks.len() == was.blocks.len() + 1
            &&& told.model == was.model
        }),
{
}

/// A line that the user submits goes to the agent of the session as it was typed, is shown,
/// and is remembered.
pub proof fn submitted_lines_are_sent(
    was: ClientModel,
    app: AppState,
    line: String,
    limit_ms: u64,
    fresh: Seq<char>,
)
    requires
        text::trimmed(line@).len() > 0,
        line@.len() > 0,
        line@[0] != '/',
    ensures
        ({
            let after = client_after(was, app, AppEvent::Line(line), limit_ms, fresh);
            &&& after.sent == was.sent.push(
                CmdModel::Run { session_id: was.session_id, content: line@ },
            )
            &&& daemon_events::prints(was.blocks, after.blocks, "\u{25b8} "@ + line@)
            &&& after.history == was.history.push(line@)
        }),
{
    let after = client_after(was, app, AppEvent::Line(line), limit_ms, fresh);
    assert(after.blocks.drop_last() =~= was.blocks);
}

/// A tab at the end of the input is taken away, and what stands before it is completed where
/// it can be; the width follows the terminal.
pub proof fn tabs_complete_and_sizes_are_taken(
    was: ClientModel,
    app: AppState,
    width: u16,
    height: u16,
    limit_ms: u64,
    fresh: Seq<char>,
)
    requires
        was.buffer.len() > 0,
        was.buffer.last() == '\t',
    ensures
        ({
            let after = client_after(was, app, AppEvent::BufferChanged, limit_ms, fresh);
            let rest = was.buffer.drop_last();
            &&& terminal::completion(rest) matches Some(s) ==> after.buffer == s
            &&& terminal::completion(rest) is None ==> after.buffer == rest
            &&& after.cursor == text::byte_len(after.buffer)
        }),
        width > 0 ==> client_after(
            was,
            app,
            AppEvent::Resize { width, height },
            limit_ms,
            fresh,
        ).width == width,
{
}

/// What goes to the daemon for a command says what is asked for and for which session.
pub proof fn requests_say_what_is_asked(t: JsonTree, cmd: CmdModel)
    requires
        is_command_tree(t, cmd),
    ensures
        match cmd {
            CmdModel::Run { session_id, content } => t matches JsonTree::Object(v) && v.contains(
                ("type"@, JsonTree::Text("run"@)),
            ) && v.contains(("session_id"@, JsonTree::Text(session_id))) && v.contains(
                ("content"@, JsonTree::Text(content)),
            ),
            CmdModel::SetModel { session_id, model } => t matches JsonTree::Object(v)
                && v.contains(("type"@, JsonTree::Text("set_model"@))) && v.contains(
                ("session_id"@, JsonTree::Text(session_id)),
            ) && v.contains(("model"@, JsonTree::Text(model))),
            CmdModel::ListModels => t matches JsonTree::Object(v) && v.contains(
                ("type"@, JsonTree::Text("list_models"@)),
            ),
            CmdModel::ListSessions => t matches JsonTree::Object(v) && v.contains(
                ("type"@, JsonTree::Text("list_sessions"@)),
            ),
            CmdModel::Resume(s) => t matches JsonTree::Object(v) && v.contains(
                ("type"@, JsonTree::Text("resume_session"@)),
            ) && v.contains(("session_id"@, JsonTree::Text(s))),
            CmdModel::Compact(s) => t matches JsonTree::Object(v) && v.contains(
                ("type"@, JsonTree::Text("compact"@)),
            ) && v.contains(("session_id"@, JsonTree::Text(s))),
            CmdModel::Interrupt(s) => t matches JsonTree::Object(v) && v.contains(
                ("type"@, JsonTree::Text("interrupt"@)),
            ) && v.contains(("session_id"@, JsonTree::Text(s))),
            CmdModel::Shutdown => false,
        },
{
    if let JsonTree::Object(v) = t {
        assert(v.len() >= 2 ==> v.contains(v[0]) && v.contains(v[1]));
        assert(v.len() >= 4 ==> v.contains(v[2]));
    }
}

/// A change of the model says how long an answer may be; what is asked of no session in
/// particular is asked of all.
pub proof fn requests_say_the_rest(t: JsonTree, session_id: Seq<char>, model: Seq<char>)
    ensures
        is_command_tree(t, (CmdModel::SetModel { session_id, model })) ==> (
        t matches JsonTree::Object(v) && v[3].0 == "max_tokens"@ && v[3].1.whole() == Some(
            16384u64,
        )),
        is_command_tree(t, CmdModel::ListModels) ==> (t matches JsonTree::Object(v) && v[1] == (
            "session_id"@,
            JsonTree::Text("*"@),
        )),
        is_command_tree(t, CmdModel::ListSessions) ==> (t matches JsonTree::Object(v) && v[1] == (
            "session_id"@,
            JsonTree::Text("*"@),
        )),
{
}

} // verus!
