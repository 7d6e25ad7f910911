//! How the events of the daemon change the chat.

use vstd::prelude::*;

use crate::chat;
use crate::chat::{ChatModel, TuiClient};
use crate::chat_text;
use crate::daemon_events::{OutputChunk, ServerEvent};
use crate::json::Json;
use crate::loop_client::{OptionModel, QuestionModel, ToolResultWire, UserQuestionWire};
use crate::maps::StringMap;
use crate::text;

verus! {

// ---------------------------------------------------------------------------
// Questions
// ---------------------------------------------------------------------------

/// The chat with the first answers that a question offers, each with its number.
pub open spec fn options_noted(m: ChatModel, options: Seq<OptionModel>) -> ChatModel
    decreases options.len(),
{
    if options.len() == 0 {
        m
    } else {
        chat::noted(
            options_noted(m, options.drop_last()),
            "    "@ + text::decimal(options.len()) + ". "@ + options.last().label + " - "@
                + options.last().description,
        )
    }
}

/// The chat with a question and the answers that it offers.
pub open spec fn question_noted(m: ChatModel, q: QuestionModel) -> ChatModel {
    options_noted(chat::noted(m, "  ["@ + q.header + "] "@ + q.question), q.options)
}

/// The chat with questions, one after the other.
pub open spec fn questions_noted(m: ChatModel, qs: Seq<QuestionModel>) -> ChatModel
    decreases qs.len(),
{
    if qs.len() == 0 {
        m
    } else {
        question_noted(questions_noted(m, qs.drop_last()), qs.last())
    }
}

/// The chat with questions that wait for an answer.
pub open spec fn asked(m: ChatModel, request_id: Seq<char>, qs: Seq<QuestionModel>) -> ChatModel {
    let waiting = ChatModel {
        waiting_question: true,
        question_request_id: request_id,
        questions: qs,
        ..m
    };
    ChatModel {
        status: "Select an option (number)"@,
        ..questions_noted(chat::noted(waiting, "\u{2753} Agent has a question:"@), qs)
    }
}

// ---------------------------------------------------------------------------
// Pieces of output
// ---------------------------------------------------------------------------

/// The message about a permission that is needed.
pub open spec fn permission_msg(tool: Seq<char>, action: Seq<char>, details: Option<String>) -> Seq<
    char,
> {
    "\u{1f510} Permission needed: "@ + tool + " \u{2014} "@ + action + " "@ + (match details {
        Some(d) => d@,
        None => seq![],
    })
}

/// The chat with a piece of output.
pub open spec fn chunk_shown(m: ChatModel, chunk: OutputChunk) -> ChatModel {
    match chunk {
        OutputChunk::TextDelta(s) => chat::answered(m, s@),
        OutputChunk::ThinkingDelta(s) => chat::thought(m, s@),
        OutputChunk::ThinkingComplete(_) => chat::thoughts_done(m),
        OutputChunk::ToolStart { id, name, input } => chat::called(
            m,
            id@,
            name@,
            chat::preview(input@),
        ),
        OutputChunk::ToolEnd { id, result, .. } => chat::ended(m, id@, !result.is_error),
        OutputChunk::Error(e) => chat::noted(
            chat::thoughts_done(chat::answer_done(m)),
            "\u{274c} Error: "@ + e@,
        ),
        OutputChunk::Done => ChatModel {
            status: "Ready"@,
            processing: false,
            ..chat::said(chat::thoughts_done(chat::answer_done(m)), chat::separator_line())
        },
        OutputChunk::Status(s) => ChatModel { status: s@, ..chat::noted(m, s@) },
        OutputChunk::PermissionRequest { tool_name, action, details, .. } => chat::noted(
            m,
            permission_msg(tool_name@, action@, details),
        ),
        OutputChunk::AskUserQuestion { request_id, questions } => asked(
            m,
            request_id@,
            chat::question_views(questions@),
        ),
        _ => m,
    }
}

/// Whether a piece of output can be shown.
pub open spec fn showable(chunk: OutputChunk) -> bool {
    match chunk {
        OutputChunk::ToolStart { input, .. } => chat::previews(input@),
        _ => true,
    }
}

/// The patch that a piece of output hands over.
pub open spec fn patch_matches(m: ChatModel, chunk: OutputChunk, patch: Option<String>) -> bool {
    match chunk {
        OutputChunk::ToolEnd { id, result, .. } => if chat::hands_patch(
            m,
            id@,
            !result.is_error,
            result.text@,
        ) {
            patch matches Some(p) && p@ == result.text@
        } else {
            patch is None
        },
        _ => patch is None,
    }
}

impl TuiClient {
    /// Shows a question and the answers that it offers.
    fn add_question(&mut self, i: usize)
        requires
            i < old(self).questions@.len(),
        ensures
            final(self)@ == question_noted(old(self)@, old(self).questions@[i as int]@),
            final(self).questions == old(self).questions,
    {
        let msg = text::cat4(
            "  [",
            self.questions[i].header.as_str(),
            "] ",
            self.questions[i].question.as_str(),
        );
        let ghost q = self.questions@[i as int]@;
        let ghost all = self.questions;
        self.add_system_msg_keeping(msg);
        let ghost base = self@;
        let n: usize = self.questions[i].options.len();
        let mut j: usize = 0;
        while j < n
            invariant
                j <= n,
                i < self.questions@.len(),
                self.questions == all,
                q == all@[i as int]@,
                n == q.options.len(),
                self@ == options_noted(base, q.options.take(j as int)),
            decreases n - j,
        {
            assert(q.options[j as int] == all@[i as int].options@[j as int]@);
            let number = text::number(j as u64 + 1);
            let msg = text::cat6(
                "    ",
                number.as_str(),
                ". ",
                self.questions[i].options[j].label.as_str(),
                " - ",
                self.questions[i].options[j].description.as_str(),
            );
            proof {
                assert(q.options.take(j + 1).drop_last() =~= q.options.take(j as int));
                assert(q.options.take(j + 1).last() == q.options[j as int]);
            }
            self.add_system_msg_keeping(msg);
            j += 1;
        }
        assert(q.options.take(j as int) =~= q.options);
    }

    /// Adds a message of the client; the questions stay the same.
    fn add_system_msg_keeping(&mut self, msg: String)
        ensures
            final(self)@ == chat::noted(old(self)@, msg@),
            final(self).questions == old(self).questions,
    {
        let mut kept: Vec<UserQuestionWire> = Vec::new();
        std::mem::swap(&mut kept, &mut self.questions);
        self.add_system_msg(msg);
        std::mem::swap(&mut kept, &mut self.questions);
    }

    /// Shows questions that wait for an answer.
    fn ask(&mut self, request_id: String, questions: Vec<UserQuestionWire>)
        ensures
            final(self)@ == asked(old(self)@, request_id@, chat::question_views(questions@)),
    {
        let ghost qs = chat::question_views(questions@);
        self.waiting_question = true;
        self.question_request_id = request_id;
        self.questions = questions;
        self.add_system_msg_keeping("\u{2753} Agent has a question:".to_owned());
        let ghost base = self@;
        let ghost all = self.questions;
        let n: usize = self.questions.len();
        let mut i: usize = 0;
        while i < n
            invariant
                i <= n,
                self.questions == all,
                qs == chat::question_views(all@),
                n == qs.len(),
                self@ == questions_noted(base, qs.take(i as int)),
            decreases n - i,
        {
            proof {
                assert(qs.take(i + 1).drop_last() =~= qs.take(i as int));
                assert(qs.take(i + 1).last() == all@[i as int]@);
            }
            self.add_question(i);
            i += 1;
        }
        assert(qs.take(i as int) =~= qs);
        self.status = "Select an option (number)".to_owned();
    }

    /// Shows a piece of output. Gives back a patch that is to be saved.
    pub fn handle_chunk(&mut self, chunk: OutputChunk) -> (patch: Option<String>)
        requires
            showable(chunk),
        ensures
            final(self)@ == chunk_shown(old(self)@, chunk),
            patch_matches(old(self)@, chunk, patch),
    {
        match chunk {
            OutputChunk::TextDelta(s) => self.add_assistant_chunk(s.as_str()),
            OutputChunk::TextComplete(_) => {},
            OutputChunk::ThinkingDelta(s) => self.add_thinking_chunk(s.as_str()),
            OutputChunk::ThinkingComplete(_) => self.finish_thinking(),
            OutputChunk::ToolStart { id, name, input } => {
                let args = chat::tool_input_preview(&input);
                self.add_tool_call(id.as_str(), name.as_str(), args.as_str());
            },
            OutputChunk::ToolProgress { .. } => {},
            OutputChunk::ToolEnd { id, result, .. } => {
                if self.add_tool_result(id.as_str(), !result.is_error, result.text.as_str()) {
                    return Some(result.text);
                }
            },
            OutputChunk::Error(e) => {
                self.finish_assistant();
                self.finish_thinking();
                self.add_system_msg(text::cat2("\u{274c} Error: ", e.as_str()));
            },
            OutputChunk::Done => {
                self.finish_assistant();
                self.finish_thinking();
                self.add_separator();
                self.status = "Ready".to_owned();
                self.processing = false;
            },
            OutputChunk::Status(s) => {
                self.add_system_msg(s.clone());
                self.status = s;
            },
            OutputChunk::PermissionRequest { tool_name, action, details, .. } => {
                self.add_system_msg(
                    permission_text(tool_name.as_str(), action.as_str(), &details),
                );
            },
            OutputChunk::AskUserQuestion { request_id, questions } => {
                self.ask(request_id, questions);
            },
            OutputChunk::CacheTelemetry { .. } => {},
            OutputChunk::Unknown => {},
        }
        None
    }
}

/// The message about a permission that is needed.
fn permission_text(tool: &str, action: &str, details: &Option<String>) -> (r: String)
    ensures
        r@ == permission_msg(tool@, action@, *details),
{
    let mut r = text::cat5("\u{1f510} Permission needed: ", tool, " \u{2014} ", action, " ");
    if let Some(d) = details {
        r.append(d.as_str());
    }
    assert(r@ =~= permission_msg(tool@, action@, *details));
    r
}

// ---------------------------------------------------------------------------
// Events
// ---------------------------------------------------------------------------

/// The chat in a session, with nothing in it.
pub open spec fn restarted(m: ChatModel, session_id: Seq<char>) -> ChatModel {
    ChatModel {
        session_id,
        lines: seq![],
        assistant_idx: None,
        assistant_raw: seq![],
        thinking_idx: None,
        thinking_raw: seq![],
        collapsed_line: None,
        collapsed_raw: seq![],
        calls: Map::empty(),
        processing: false,
        ..m
    }
}

/// The chat with the names of saved sessions, each with the command that
/// resumes it.
pub open spec fn sessions_noted(m: ChatModel, sessions: Seq<Seq<char>>) -> ChatModel
    decreases sessions.len(),
{
    if sessions.len() == 0 {
        m
    } else {
        chat::noted(sessions_noted(m, sessions.drop_last()), "  /resume "@ + sessions.last())
    }
}

/// The chat after an event of the daemon.
pub open spec fn event_shown(m: ChatModel, event: ServerEvent) -> ChatModel {
    match event {
        ServerEvent::Created { session_name, .. } => if m.first {
            ChatModel { first: false, ..chat::noted(m, "Session: "@ + session_name@) }
        } else {
            m
        },
        ServerEvent::Chunk { chunk, .. } => match chunk {
            OutputChunk::PermissionRequest { tool_name, action, details, .. } => ChatModel {
                status: "Permission required (y=allow, n=deny, a=always, d=always deny)"@,
                ..chat::noted(
                    ChatModel { waiting_permission: true, permission_tool: tool_name@, ..m },
                    permission_msg(tool_name@, action@, details),
                )
            },
            OutputChunk::Error(_) => ChatModel { processing: false, ..chunk_shown(m, chunk) },
            _ => chunk_shown(m, chunk),
        },
        ServerEvent::SessionList { sessions } => {
            let here = ChatModel { waiting_session_list: false, ..m };
            if sessions@.len() == 0 {
                chat::noted(here, "No saved sessions found."@)
            } else {
                ChatModel {
                    session_list: text::views(sessions@),
                    ..sessions_noted(
                        chat::noted(
                            here,
                            "Available sessions ("@ + text::decimal(sessions@.len()) + "):"@,
                        ),
                        text::views(sessions@),
                    )
                }
            }
        },
        ServerEvent::SessionResumed { session_id, session_name } => ChatModel {
            status: "Ready"@,
            ..chat::noted(
                ChatModel { first: true, ..restarted(m, session_id@) },
                "Resumed session: "@ + session_name@,
            )
        },
        ServerEvent::ModelChanged { model } => chat::noted(m, "Model changed to: "@ + model@),
        ServerEvent::SessionCompacted { .. } => chat::noted(m, "Session compacted."@),
        ServerEvent::SystemMsg(msg) => chat::noted(m, msg@),
        ServerEvent::Unknown(val) => if val@.text_field("type"@) == Some("Disconnected"@) {
            ChatModel { running: false, ..chat::noted(m, "[omega-loop disconnected]"@) }
        } else {
            m
        },
        ServerEvent::ModelList { .. } => m,
    }
}

/// Whether an event can be shown.
pub open spec fn event_showable(event: ServerEvent) -> bool {
    match event {
        ServerEvent::Chunk { chunk, .. } => showable(chunk),
        _ => true,
    }
}

/// The patch that an event hands over.
pub open spec fn event_patch_matches(m: ChatModel, event: ServerEvent, patch: Option<String>) -> bool {
    match event {
        ServerEvent::Chunk { chunk, .. } => patch_matches(m, chunk, patch),
        _ => patch is None,
    }
}

/// Whether an event can be shown.
pub fn can_show(event: &ServerEvent) -> (r: bool)
    ensures
        r == event_showable(*event),
{
    match event {
        ServerEvent::Chunk { chunk: OutputChunk::ToolStart { input, .. }, .. } => {
            chat::can_preview(input)
        },
        _ => true,
    }
}

impl TuiClient {
    /// Puts the chat into a session, with nothing in it.
    pub fn restart(&mut self, session_id: String)
        ensures
            final(self)@ == restarted(old(self)@, session_id@),
    {
        self.session_id = session_id;
        self.chat_lines = Vec::new();
        self.pending_assistant_idx = None;
        self.pending_assistant_raw = String::new();
        self.pending_thinking_idx = None;
        self.pending_thinking_raw = String::new();
        self.collapsed_thinking_line = None;
        self.collapsed_thinking_raw = String::new();
        self.pending_tool_calls = StringMap::new();
        self.processing = false;
        assert(self@ =~= restarted(old(self)@, session_id@));
    }

    /// Shows the names of saved sessions.
    fn list_sessions(&mut self, sessions: Vec<String>)
        ensures
            final(self)@ == event_shown(old(self)@, (ServerEvent::SessionList { sessions })),
    {
        self.waiting_session_list = false;
        let n: usize = sessions.len();
        if n == 0 {
            self.add_system_msg("No saved sessions found.".to_owned());
            return;
        }
        let count = text::number(n as u64);
        self.add_system_msg(text::cat3("Available sessions (", count.as_str(), "):"));
        let ghost base = self@;
        let ghost all = text::views(sessions@);
        let mut i: usize = 0;
        while i < n
            invariant
                i <= n,
                n == sessions.len(),
                all == text::views(sessions@),
                self@ == sessions_noted(base, all.take(i as int)),
            decreases n - i,
        {
            proof {
                assert(all.take(i + 1).drop_last() =~= all.take(i as int));
                assert(all.take(i + 1).last() == sessions@[i as int]@);
            }
            self.add_system_msg(text::cat2("  /resume ", sessions[i].as_str()));
            i += 1;
        }
        assert(all.take(i as int) =~= all);
        self.session_list = sessions;
    }

    /// Asks the user for a permission.
    fn ask_permission(&mut self, tool_name: String, action: &str, details: &Option<String>)
        ensures
            final(self)@ == (ChatModel {
                status: "Permission required (y=allow, n=deny, a=always, d=always deny)"@,
                ..chat::noted(
                    ChatModel {
                        waiting_permission: true,
                        permission_tool: tool_name@,
                        ..old(self)@
                    },
                    permission_msg(tool_name@, action@, *details),
                )
            }),
    {
        let msg = permission_text(tool_name.as_str(), action, details);
        self.waiting_permission = true;
        self.permission_tool = tool_name;
        self.add_system_msg(msg);
        self.status = "Permission required (y=allow, n=deny, a=always, d=always deny)".to_owned();
    }

    /// Shows an event of the daemon. Gives back a patch that is to be saved.
    pub fn handle_event(&mut self, event: ServerEvent) -> (patch: Option<String>)
        requires
            event_showable(event),
        ensures
            final(self)@ == event_shown(old(self)@, event),
            event_patch_matches(old(self)@, event, patch),
    {
        match event {
            ServerEvent::Created { session_name, .. } => {
                if self.first {
                    self.add_system_msg(text::cat2("Session: ", session_name.as_str()));
                    self.first = false;
                }
            },
            ServerEvent::Chunk { chunk, .. } => {
                match chunk {
                    OutputChunk::PermissionRequest { tool_name, action, details, .. } => {
                        self.ask_permission(tool_name, action.as_str(), &details);
                    },
                    OutputChunk::Error(e) => {
                        let _ = self.handle_chunk(OutputChunk::Error(e));
                        self.processing = false;
                    },
                    other => {
                        return self.handle_chunk(other);
                    },
                }
            },
            ServerEvent::SessionList { sessions } => {
                self.list_sessions(sessions);
            },
            ServerEvent::SessionResumed { session_id, session_name } => {
                self.restart(session_id);
                self.first = true;
                self.add_system_msg(text::cat2("Resumed session: ", session_name.as_str()));
                self.status = "Ready".to_owned();
            },
            ServerEvent::ModelChanged { model } => {
                self.add_system_msg(text::cat2("Model changed to: ", model.as_str()));
            },
            ServerEvent::SessionCompacted { .. } => {
                self.add_system_msg("Session compacted.".to_owned());
            },
            ServerEvent::SystemMsg(msg) => {
                self.add_system_msg(msg);
            },
            ServerEvent::Unknown(val) => {
                if is_disconnect(&val) {
                    self.add_system_msg("[omega-loop disconnected]".to_owned());
                    self.running = false;
                }
            },
            ServerEvent::ModelList { .. } => {},
        }
        None
    }

    /// Ends the client because its connection is lost.
    pub fn connection_lost(&mut self)
        ensures
            final(self)@ == (ChatModel {
                running: false,
                ..chat::noted(old(self)@, "[omega-loop connection lost]"@)
            }),
    {
        self.add_system_msg("[omega-loop connection lost]".to_owned());
        self.running = false;
    }
}

/// Whether a value says that the daemon is gone.
fn is_disconnect(val: &Json) -> (r: bool)
    ensures
        r == (val@.text_field("type"@) == Some("Disconnected"@)),
{
    match val.get_text("type") {
        Some(s) => text::same(s.as_str(), "Disconnected"),
        None => false,
    }
}

// ---------------------------------------------------------------------------
// Laws
// ---------------------------------------------------------------------------

/// At the end of an answer, or at an error, the agent is no longer at work, and
/// nothing of an answer is being streamed.
pub proof fn turns_end(m: ChatModel, session_id: String, chunk: OutputChunk)
    requires
        chunk is Done || chunk is Error,
    ensures
        ({
            let after = event_shown(m, ServerEvent::Chunk { session_id, chunk });
            &&& !after.processing
            &&& after.assistant_idx is None
            &&& after.assistant_raw.len() == 0
        }),
{
}

/// A resumed session begins with nothing of the session before it.
pub proof fn a_resumed_session_begins_afresh(m: ChatModel, session_id: String, session_name: String)
    ensures
        ({
            let after = event_shown(m, ServerEvent::SessionResumed { session_id, session_name });
            &&& after.session_id == session_id@
            &&& after.lines == seq![chat::system_line("Resumed session: "@ + session_name@)]
            &&& after.calls == Map::<Seq<char>, (usize, Seq<char>)>::empty()
            &&& !after.processing
        }),
{
    let after = event_shown(m, ServerEvent::SessionResumed { session_id, session_name });
    assert(after.lines =~= seq![chat::system_line("Resumed session: "@ + session_name@)]);
}

/// The name of a session is shown once.
pub proof fn the_session_is_shown_once(m: ChatModel, first: ServerEvent, second: ServerEvent)
    requires
        first is Created,
        second is Created,
    ensures
        event_shown(event_shown(m, first), second) == event_shown(m, first),
{
}

/// A question waits until a key answers it or turns it down.
pub proof fn questions_wait(m: ChatModel, request_id: Seq<char>, qs: Seq<QuestionModel>)
    ensures
        asked(m, request_id, qs).waiting_question,
        asked(m, request_id, qs).question_request_id == request_id,
        asked(m, request_id, qs).questions == qs,
{
    let waiting = ChatModel {
        waiting_question: true,
        question_request_id: request_id,
        questions: qs,
        ..m
    };
    listing_keeps_waiting(chat::noted(waiting, "\u{2753} Agent has a question:"@), qs);
}

/// Listing answers changes nothing but the lines.
proof fn options_keep_waiting(m: ChatModel, options: Seq<OptionModel>)
    ensures
        options_noted(m, options).waiting_question == m.waiting_question,
        options_noted(m, options).question_request_id == m.question_request_id,
        options_noted(m, options).questions == m.questions,
    decreases options.len(),
{
    if options.len() > 0 {
        options_keep_waiting(m, options.drop_last());
    }
}

/// Listing questions changes nothing but the lines.
proof fn listing_keeps_waiting(m: ChatModel, qs: Seq<QuestionModel>)
    ensures
        questions_noted(m, qs).waiting_question == m.waiting_question,
        questions_noted(m, qs).question_request_id == m.question_request_id,
        questions_noted(m, qs).questions == m.questions,
    decreases qs.len(),
{
    if qs.len() > 0 {
        listing_keeps_waiting(m, qs.drop_last());
        let before = questions_noted(m, qs.drop_last());
        let q = qs.last();
        options_keep_waiting(
            chat::noted(before, "  ["@ + q.header + "] "@ + q.question),
            q.options,
        );
    }
}

/// The event that brings a piece of output.
pub open spec fn piece_event(session_id: String, chunk: OutputChunk) -> ServerEvent {
    ServerEvent::Chunk { session_id, chunk }
}

/// Where the answer that is being streamed begins to be shown.
pub open spec fn answer_place(m: ChatModel) -> int {
    match m.assistant_idx {
        Some(i) => i as int,
        None => m.lines.len() as int,
    }
}

/// Text that the agent streams is added to the answer, and the conversation shows the
/// answer from its place on; what was shown before it stays. An answer in which nothing is
/// set off is shown line by line, each line with its text.
pub proof fn streamed_text_is_shown(m: ChatModel, session_id: String, s: String)
    requires
        m.lines.len() <= usize::MAX,
        answer_place(m) <= m.lines.len(),
    ensures
        ({
            let after = event_shown(m, piece_event(session_id, OutputChunk::TextDelta(s)));
            let raw = m.assistant_raw + s@;
            let lines = text::pieces(raw, '\n');
            let at = answer_place(m);
            &&& after.assistant_raw == raw
            &&& after.assistant_idx == Some(at as usize)
            &&& after.lines.len() >= at
            &&& after.lines.take(at) == m.lines.take(at)
            &&& (exists|i: int|
                0 <= i < lines.len() && !text::begins_with(
                    text::trimmed_start(#[trigger] lines[i]),
                    "```"@,
                )) ==> after.lines.len() > at
            &&& chat::unmarked(raw) ==> after.lines.len() == at + lines.len() && forall|i: int|
                0 <= i < lines.len() ==> chat_text::line_text(after.lines[at + i]) == if i == 0 {
                    "\u{25c6} "@ + #[trigger] lines[i]
                } else if lines[i].len() == 0 {
                    lines[i]
                } else {
                    "  "@ + lines[i]
                }
            &&& chat::unmarked(raw) && !raw.contains('\n') ==> after.lines.len() == at + 1
                && chat_text::line_text(after.lines.last()) == "\u{25c6} "@ + raw
        }),
{
    let after = event_shown(m, piece_event(session_id, OutputChunk::TextDelta(s)));
    let raw = m.assistant_raw + s@;
    let lines = text::pieces(raw, '\n');
    let at = answer_place(m);
    assert(chat::kept(m.lines, m.assistant_idx) =~= m.lines.take(at));
    assert(after.lines.take(at) =~= m.lines.take(at));
    if exists|i: int|
        0 <= i < lines.len() && !text::begins_with(
            text::trimmed_start(#[trigger] lines[i]),
            "```"@,
        ) {
        let i = choose|i: int|
            0 <= i < lines.len() && !text::begins_with(
                text::trimmed_start(#[trigger] lines[i]),
                "```"@,
            );
        chat::answers_have_lines(lines, i);
    }
    if chat::unmarked(raw) {
        assert forall|i: int| 0 <= i < lines.len() implies chat::unmarked(#[trigger] lines[i]) by {
            assert forall|k: int| 0 <= k < lines[i].len() implies {
                let c = #[trigger] lines[i][k];
                c != '*' && c != '`' && c != '[' && c != '~' && c != '#' && c != '|'
            } by {
                text::pieces_are_parts(raw, '\n', i, k);
                let j = choose|j: int| 0 <= j < raw.len() && raw[j] == lines[i][k];
                assert(raw[j] == lines[i][k]);
            }
        }
        chat::unmarked_answers_show_their_lines(lines);
        let shown = chat::answer_lines(lines);
        assert forall|i: int| 0 <= i < lines.len() implies chat_text::line_text(after.lines[at + i])
            == if i == 0 {
            "\u{25c6} "@ + #[trigger] lines[i]
        } else if lines[i].len() == 0 {
            lines[i]
        } else {
            "  "@ + lines[i]
        } by {
            assert(after.lines[at + i] == shown[i]);
        }
        if !raw.contains('\n') {
            text::index_of_bounds(raw, '\n');
            assert(lines =~= seq![raw]);
            assert(after.lines.last() == shown[0]);
        }
    }
}

/// Text that comes in two events is shown as if it had come in one.
pub proof fn streamed_text_adds_up(m: ChatModel, session_id: String, a: String, b: String, c: String)
    requires
        m.lines.len() <= usize::MAX,
        answer_place(m) <= m.lines.len(),
        c@ == a@ + b@,
    ensures
        event_shown(
            event_shown(m, piece_event(session_id, OutputChunk::TextDelta(a))),
            piece_event(session_id, OutputChunk::TextDelta(b)),
        ) == event_shown(m, piece_event(session_id, OutputChunk::TextDelta(c))),
{
    chat::pieces_make_one_answer(m, a@, b@);
}

/// After the end of an answer the next text begins a new one, behind all that is shown.
pub proof fn the_next_answer_begins_anew(m: ChatModel, session_id: String, s: String)
    requires
        m.lines.len() < usize::MAX,
    ensures
        ({
            let done = event_shown(m, piece_event(session_id, OutputChunk::Done));
            let after = event_shown(done, piece_event(session_id, OutputChunk::TextDelta(s)));
            &&& after.assistant_raw == s@
            &&& after.assistant_idx == Some(done.lines.len() as usize)
            &&& after.lines.take(done.lines.len() as int) == done.lines
        }),
{
    let done = event_shown(m, piece_event(session_id, OutputChunk::Done));
    let after = event_shown(done, piece_event(session_id, OutputChunk::TextDelta(s)));
    assert(Seq::<char>::empty() + s@ =~= s@);
    assert(after.lines.take(done.lines.len() as int) =~= done.lines);
}

/// The agent's first thoughts are kept and stand for one line, behind all that is shown;
/// more thoughts are added to them, and the line says how many lines they are.
pub proof fn thoughts_are_kept(m: ChatModel, session_id: String, a: String, b: String)
    requires
        m.lines.len() < usize::MAX,
        m.thinking_raw.len() == 0,
        m.thinking_idx is None,
        m.collapsed_line is None,
        a@.len() > 0,
    ensures
        ({
            let one = event_shown(m, piece_event(session_id, OutputChunk::ThinkingDelta(a)));
            let two = event_shown(one, piece_event(session_id, OutputChunk::ThinkingDelta(b)));
            let n = text::lines_of(a@ + b@).len();
            &&& one.thinking_raw == a@
            &&& one.lines.len() == m.lines.len() + 1
            &&& one.lines.drop_last() == m.lines
            &&& chat_text::line_text(one.lines.last()) == "\u{1f4ad} Thinking..."@
            &&& two.thinking_raw == a@ + b@
            &&& two.lines.len() == m.lines.len() + 1
            &&& two.lines.drop_last() == m.lines
            &&& n != 1 ==> chat_text::line_text(two.lines.last()) == "\u{1f4ad} Thinking...  ("@ + (
            text::decimal(n) + " lines"@) + ")  [click to expand]"@
        }),
{
    let one = event_shown(m, piece_event(session_id, OutputChunk::ThinkingDelta(a)));
    let two = event_shown(one, piece_event(session_id, OutputChunk::ThinkingDelta(b)));
    assert(Seq::<char>::empty() + a@ =~= a@);
    assert(m.thinking_raw =~= Seq::<char>::empty());
    assert(one.lines.drop_last() =~= m.lines);
    assert(two.lines.drop_last() =~= m.lines);
    chat_text::pieces_add_their_text(
        Seq::empty(),
        one.lines.last()[0].0,
        one.lines.last()[0].1,
    );
    assert(one.lines.last() =~= seq![one.lines.last()[0]]);
    chat_text::pieces_add_their_text(
        Seq::empty(),
        two.lines.last()[0].0,
        two.lines.last()[0].1,
    );
    assert(two.lines.last() =~= seq![two.lines.last()[0]]);
}

/// A tool call is shown on a line of its own with the name of the tool and what it is
/// called with, and is under way under its id.
pub proof fn tool_calls_are_shown(
    m: ChatModel,
    session_id: String,
    id: String,
    name: String,
    input: Json,
    s: Seq<char>,
)
    requires
        m.lines.len() < usize::MAX,
        input@.text_field("command"@) == Some(s),
        0 < s.len(),
        text::byte_len(s) <= 80,
    ensures
        ({
            let after = event_shown(
                m,
                piece_event(session_id, OutputChunk::ToolStart { id, name, input }),
            );
            &&& after.lines.len() == m.lines.len() + 1
            &&& after.lines.drop_last() == m.lines
            &&& chat_text::line_text(after.lines.last()) == "  \u{26a1} "@ + name@ + "  "@ + s
            &&& after.calls.dom().contains(id@)
            &&& after.calls[id@] == (m.lines.len() as usize, name@)
            &&& after.assistant_raw == m.assistant_raw
        }),
{
    let after = event_shown(
        m,
        piece_event(session_id, OutputChunk::ToolStart { id, name, input }),
    );
    assert(after.lines.drop_last() =~= m.lines);
    let line = after.lines.last();
    chat_text::pieces_add_their_text(Seq::empty(), line[0].0, line[0].1);
    assert(line =~= seq![line[0]]);
}

/// The end of a tool call changes the mark on its line, by whether the tool did what it
/// should, and no other line; the call is no longer under way.
pub proof fn ends_of_tool_calls_are_shown(
    m: ChatModel,
    session_id: String,
    id: String,
    name: String,
    input: Json,
    later: String,
    later_input: Json,
    result: ToolResultWire,
)
    requires
        m.lines.len() < usize::MAX,
        chat::preview(input@).len() == 0,
    ensures
        ({
            let called = event_shown(
                m,
                piece_event(session_id, OutputChunk::ToolStart { id, name, input }),
            );
            let after = event_shown(
                called,
                piece_event(
                    session_id,
                    OutputChunk::ToolEnd { id, name: later, input: later_input, result },
                ),
            );
            &&& after.lines.len() == m.lines.len() + 1
            &&& after.lines.drop_last() == m.lines
            &&& !result.is_error ==> chat_text::line_text(after.lines.last()) == "  \u{2713} "@
                + name@
            &&& result.is_error ==> chat_text::line_text(after.lines.last()) == "  \u{2717} "@
                + name@
            &&& !after.calls.dom().contains(id@)
        }),
{
    let called = event_shown(
        m,
        piece_event(session_id, OutputChunk::ToolStart { id, name, input }),
    );
    let after = event_shown(
        called,
        piece_event(
            session_id,
            OutputChunk::ToolEnd { id, name: later, input: later_input, result },
        ),
    );
    assert(after.lines.drop_last() =~= m.lines);
    reveal_strlit("  \u{26a1} ");
    reveal_strlit("  \u{2713} ");
    reveal_strlit("  \u{2717} ");
    reveal_strlit("\u{2713}");
    reveal_strlit("\u{2717}");
    let was = "  \u{26a1} "@ + name@;
    assert(was[0] == ' ' && was[1] == ' ' && was[2] == '\u{26a1}');
    assert(was.skip(1)[0] == ' ' && was.skip(1).skip(1)[0] == '\u{26a1}');
    reveal_with_fuel(text::index_of, 4);
    assert(text::index_of(was, '\u{26a1}') == 2);
    assert(was.take(2) + "\u{2713}"@ + was.skip(3) =~= "  \u{2713} "@ + name@);
    assert(was.take(2) + "\u{2717}"@ + was.skip(3) =~= "  \u{2717} "@ + name@);
    let line = after.lines.last();
    chat_text::pieces_add_their_text(Seq::empty(), line[0].0, line[0].1);
    assert(line =~= seq![line[0]]);
}

/// A patch that a tool hands over is given back to be saved; no other tool's result is.
pub proof fn patches_are_handed_over(
    m: ChatModel,
    session_id: String,
    id: String,
    name: String,
    input: Json,
    later: String,
    later_input: Json,
    result: ToolResultWire,
    patch: Option<String>,
)
    requires
        ({
            let called = event_shown(
                m,
                piece_event(session_id, OutputChunk::ToolStart { id, name, input }),
            );
            event_patch_matches(
                called,
                piece_event(
                    session_id,
                    OutputChunk::ToolEnd { id, name: later, input: later_input, result },
                ),
                patch,
            )
        }),
    ensures
        name@ == "TransferDiff"@ && !result.is_error && result.text@.len() > 0 ==> (patch matches Some(
            p,
        ) && p@ == result.text@),
        name@ != "TransferDiff"@ ==> patch is None,
        result.is_error ==> patch is None,
{
}

/// A line that the client adds: where it stands, and what it says.
pub open spec fn notes(m: ChatModel, after: ChatModel, msg: Seq<char>) -> bool {
    &&& after.lines.len() == m.lines.len() + 1
    &&& after.lines.drop_last() == m.lines
    &&& chat_text::line_text(after.lines.last()) == "\u{2139} "@ + msg
}

/// A note of the client is one line more, with the note on it.
pub proof fn noting_adds_a_line(m: ChatModel, msg: Seq<char>)
    ensures
        notes(m, chat::noted(m, msg), msg),
{
    let after = chat::noted(m, msg);
    assert(after.lines.drop_last() =~= m.lines);
    let line = chat::system_line(msg);
    chat_text::pieces_add_their_text(Seq::empty(), line[0].0, line[0].1);
    assert(line =~= seq![line[0]]);
}

/// What the daemon reports is noted: errors, the state of the agent, what the daemon says,
/// another model, a session that was compacted, and that the daemon is gone.
pub proof fn reports_are_noted(m: ChatModel, session_id: String, s: String, gone: Json)
    requires
        m.collapsed_line is None,
        gone@.text_field("type"@) == Some("Disconnected"@),
    ensures
        ({
            let failed = event_shown(m, piece_event(session_id, OutputChunk::Error(s)));
            let stated = event_shown(m, piece_event(session_id, OutputChunk::Status(s)));
            let lost = event_shown(m, ServerEvent::Unknown(gone));
            &&& notes(m, failed, "\u{274c} Error: "@ + s@)
            &&& !failed.processing
            &&& notes(m, stated, s@)
            &&& stated.status == s@
            &&& notes(m, event_shown(m, ServerEvent::SystemMsg(s)), s@)
            &&& notes(
                m,
                event_shown(m, ServerEvent::ModelChanged { model: s }),
                "Model changed to: "@ + s@,
            )
            &&& notes(
                m,
                event_shown(m, ServerEvent::SessionCompacted { session_id }),
                "Session compacted."@,
            )
            &&& notes(m, lost, "[omega-loop disconnected]"@)
            &&& !lost.running
        }),
{
    noting_adds_a_line(
        chat::thoughts_done(chat::answer_done(m)),
        "\u{274c} Error: "@ + s@,
    );
    noting_adds_a_line(m, s@);
    noting_adds_a_line(m, "Model changed to: "@ + s@);
    noting_adds_a_line(m, "Session compacted."@);
    noting_adds_a_line(m, "[omega-loop disconnected]"@);
}

/// The first session is noted with its name.
pub proof fn the_first_session_is_noted(m: ChatModel, session_id: String, session_name: String)
    requires
        m.first,
    ensures
        ({
            let after = event_shown(m, ServerEvent::Created { session_id, session_name });
            notes(m, after, "Session: "@ + session_name@) && !after.first
        }),
{
    noting_adds_a_line(m, "Session: "@ + session_name@);
}

/// A permission that is needed is noted with the tool and what it is to do, and the client
/// waits for the user's word on that tool.
pub proof fn permissions_are_asked_for(
    m: ChatModel,
    session_id: String,
    tool_name: String,
    action: String,
    input: String,
)
    ensures
        ({
            let after = event_shown(
                m,
                piece_event(
                    session_id,
                    OutputChunk::PermissionRequest { tool_name, action, input, details: None },
                ),
            );
            &&& notes(
                m,
                after,
                "\u{1f510} Permission needed: "@ + tool_name@ + " \u{2014} "@ + action@ + " "@,
            )
            &&& after.waiting_permission
            &&& after.permission_tool == tool_name@
            &&& after.status
                == "Permission required (y=allow, n=deny, a=always, d=always deny)"@
        }),
{
    let msg = permission_msg(tool_name@, action@, None);
    let waiting = ChatModel { waiting_permission: true, permission_tool: tool_name@, ..m };
    noting_adds_a_line(waiting, msg);
    assert(msg =~= "\u{1f510} Permission needed: "@ + tool_name@ + " \u{2014} "@ + action@ + " "@);
}

/// The saved sessions are kept and shown, each with the command that resumes it.
pub proof fn saved_sessions_are_shown(m: ChatModel, sessions: Vec<String>, i: int)
    requires
        0 <= i < sessions@.len(),
    ensures
        ({
            let after = event_shown(m, ServerEvent::SessionList { sessions });
            &&& after.session_list == text::views(sessions@)
            &&& !after.waiting_session_list
            &&& after.lines.len() == m.lines.len() + 1 + sessions@.len()
            &&& chat_text::line_text(after.lines[m.lines.len() as int + 1 + i])
                == "\u{2139} "@ + ("  /resume "@ + sessions@[i]@)
        }),
{
    let here = ChatModel { waiting_session_list: false, ..m };
    let base = chat::noted(
        here,
        "Available sessions ("@ + text::decimal(sessions@.len()) + "):"@,
    );
    sessions_are_listed(base, text::views(sessions@), i);
}

/// Each session of a list is shown on its line.
proof fn sessions_are_listed(m: ChatModel, sessions: Seq<Seq<char>>, i: int)
    ensures
        sessions_noted(m, sessions).lines.len() == m.lines.len() + sessions.len(),
        sessions_noted(m, sessions).waiting_session_list == m.waiting_session_list,
        0 <= i < sessions.len() ==> chat_text::line_text(
            sessions_noted(m, sessions).lines[m.lines.len() + i],
        ) == "\u{2139} "@ + ("  /resume "@ + sessions[i]),
    decreases sessions.len(),
{
    if sessions.len() > 0 {
        sessions_are_listed(m, sessions.drop_last(), i);
        let before = sessions_noted(m, sessions.drop_last());
        noting_adds_a_line(before, "  /resume "@ + sessions.last());
        let after = sessions_noted(m, sessions);
        if 0 <= i < sessions.len() - 1 {
            assert(after.lines[m.lines.len() + i] == before.lines[m.lines.len() + i]);
        }
    }
}

/// A question of the agent is shown, and waits for its answer.
pub proof fn questions_are_shown(
    m: ChatModel,
    session_id: String,
    request_id: String,
    questions: Vec<UserQuestionWire>,
)
    requires
        questions@.len() == 1,
        questions@[0].options@.len() == 0,
    ensures
        ({
            let after = event_shown(
                m,
                piece_event(session_id, OutputChunk::AskUserQuestion { request_id, questions }),
            );
            let q = questions@[0];
            &&& after.waiting_question
            &&& after.question_request_id == request_id@
            &&& after.questions.len() == 1
            &&& after.status == "Select an option (number)"@
            &&& after.lines.len() == m.lines.len() + 2
            &&& chat_text::line_text(after.lines[m.lines.len() as int])
                == "\u{2139} "@ + "\u{2753} Agent has a question:"@
            &&& chat_text::line_text(after.lines.last()) == "\u{2139} "@ + ("  ["@ + q.header@ + "] "@
                + q.question@)
        }),
{
    let qs = chat::question_views(questions@);
    let waiting = ChatModel {
        waiting_question: true,
        question_request_id: request_id@,
        questions: qs,
        ..m
    };
    let base = chat::noted(waiting, "\u{2753} Agent has a question:"@);
    let q = qs[0];
    assert(qs.drop_last() =~= Seq::<QuestionModel>::empty());
    assert(questions_noted(base, qs.drop_last()) == base);
    assert(q.options.len() == 0);
    noting_adds_a_line(waiting, "\u{2753} Agent has a question:"@);
    noting_adds_a_line(base, "  ["@ + q.header + "] "@ + q.question);
}

/// The answers that a question offers are shown with their numbers, from one on.
pub proof fn offers_are_shown(m: ChatModel, options: Seq<OptionModel>, i: int)
    requires
        0 <= i < options.len(),
    ensures
        options_noted(m, options).lines.len() == m.lines.len() + options.len(),
        chat_text::line_text(options_noted(m, options).lines[m.lines.len() + i]) == "\u{2139} "@ + (
        "    "@ + text::decimal((i + 1) as nat) + ". "@ + options[i].label + " - "@
            + options[i].description),
    decreases options.len(),
{
    let before = options_noted(m, options.drop_last());
    let last = options.last();
    noting_adds_a_line(
        before,
        "    "@ + text::decimal(options.len()) + ". "@ + last.label + " - "@ + last.description,
    );
    if options.len() > 1 {
        offers_are_shown(
            m,
            options.drop_last(),
            if i < options.len() - 1 {
                i
            } else {
                0
            },
        );
    }
    if i < options.len() - 1 {
        assert(options_noted(m, options).lines[m.lines.len() + i] == before.lines[m.lines.len()
            + i]);
    }
}

/// That there are saved sessions, and how many, is said before they are listed; that there
/// are none is said too.
pub proof fn saved_sessions_are_counted(m: ChatModel, sessions: Vec<String>)
    ensures
        ({
            let after = event_shown(m, ServerEvent::SessionList { sessions });
            &&& sessions@.len() == 0 ==> notes(m, after, "No saved sessions found."@)
            &&& sessions@.len() > 0 ==> chat_text::line_text(after.lines[m.lines.len() as int])
                == "\u{2139} "@ + ("Available sessions ("@ + text::decimal(sessions@.len())
                + "):"@)
        }),
{
    let here = ChatModel { waiting_session_list: false, ..m };
    let head = "Available sessions ("@ + text::decimal(sessions@.len()) + "):"@;
    noting_adds_a_line(here, "No saved sessions found."@);
    noting_adds_a_line(here, head);
    let base = chat::noted(here, head);
    the_list_goes_on(base, text::views(sessions@));
    if sessions@.len() > 0 {
        let after = event_shown(m, ServerEvent::SessionList { sessions });
        assert(after.lines == sessions_noted(base, text::views(sessions@)).lines);
        assert(after.lines.take(base.lines.len() as int)[m.lines.len() as int]
            == base.lines[m.lines.len() as int]);
        assert(base.lines.last() == base.lines[m.lines.len() as int]);
    }
}

proof fn the_list_goes_on(m: ChatModel, sessions: Seq<Seq<char>>)
    ensures
        sessions_noted(m, sessions).lines.len() == m.lines.len() + sessions.len(),
        sessions_noted(m, sessions).lines.take(m.lines.len() as int) == m.lines,
    decreases sessions.len(),
{
    if sessions.len() > 0 {
        let before = sessions_noted(m, sessions.drop_last());
        the_list_goes_on(m, sessions.drop_last());
        noting_adds_a_line(before, "  /resume "@ + sessions.last());
        let after = sessions_noted(m, sessions);
        assert(after.lines.take(m.lines.len() as int) =~= before.lines.take(
            m.lines.len() as int,
        ));
    } else {
        assert(m.lines.take(m.lines.len() as int) =~= m.lines);
    }
}

/// What more there is to say about a permission is said behind what it is for.
pub proof fn permissions_are_explained(tool: Seq<char>, action: Seq<char>, details: String)
    ensures
        permission_msg(tool, action, Some(details)) == "\u{1f510} Permission needed: "@ + tool
            + " \u{2014} "@ + action + " "@ + details@,
{
}

/// A session that is resumed starts with an empty conversation that says so; what was going on
/// is forgotten, and what is typed stays.
pub proof fn resumed_sessions_start_anew(m: ChatModel, session_id: String, session_name: String)
    ensures
        ({
            let after = event_shown(m, ServerEvent::SessionResumed { session_id, session_name });
            &&& after.session_id == session_id@
            &&& after.lines.len() == 1
            &&& chat_text::line_text(after.lines[0]) == "\u{2139} "@ + ("Resumed session: "@
                + session_name@)
            &&& after.status == "Ready"@
            &&& after.first && !after.processing
            &&& after.assistant_idx is None && after.assistant_raw.len() == 0
            &&& after.thinking_idx is None && after.thinking_raw.len() == 0
            &&& after.collapsed_line is None
            &&& after.calls == Map::<Seq<char>, (usize, Seq<char>)>::empty()
            &&& after.input == m.input
            &&& after.running == m.running
        }),
{
    let base = ChatModel { first: true, ..restarted(m, session_id@) };
    noting_adds_a_line(base, "Resumed session: "@ + session_name@);
}

/// When the agent is done a line parts its turn from the next, and the chat is ready again.
pub proof fn the_end_of_a_turn_is_shown(m: ChatModel, session_id: String)
    ensures
        ({
            let done = event_shown(m, piece_event(session_id, OutputChunk::Done));
            &&& !done.processing
            &&& done.status == "Ready"@
            &&& done.lines.len() == m.lines.len() + 1
            &&& chat_text::line_text(done.lines.last()) == text::repeated('\u{2500}', 60)
            &&& done.assistant_idx is None && done.assistant_raw.len() == 0
            &&& done.thinking_raw.len() == 0
            &&& m.collapsed_line is None ==> done.lines.drop_last() == m.lines
            &&& done.running == m.running && done.input == m.input
        }),
{
    let done = event_shown(m, piece_event(session_id, OutputChunk::Done));
    chat::lines_have_their_marks(Seq::empty());
    assert(done.lines.last() == chat::separator_line());
    if m.collapsed_line is None {
        assert(done.lines.drop_last() =~= m.lines);
    }
}

} // verus!
