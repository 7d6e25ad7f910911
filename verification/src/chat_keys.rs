//! What keys, the mouse and pasted text do to the chat client.

use vstd::prelude::*;

use crate::chat;
use crate::chat::{Area, ChatModel, TuiClient};
use crate::chat_commands;
use crate::chat_events;
use crate::chat_text;
use crate::chat_view;
use crate::text;

verus! {

// ---------------------------------------------------------------------------
// Events and requests
// ---------------------------------------------------------------------------

/// A key.
#[derive(Clone, Copy, Debug, PartialEq, Eq, Structural)]
pub enum Key {
    Enter,
    Char(char),
    Tab,
    Up,
    Down,
    Backspace,
    Delete,
    Left,
    Right,
    PageUp,
    PageDown,
    Home,
    End,
    Esc,
    Other,
}

/// What the mouse did; buttons are the left one.
#[derive(Clone, Copy, Debug, PartialEq, Eq, Structural)]
pub enum Mouse {
    ScrollDown,
    ScrollUp,
    Press,
    Drag,
    Release,
    Other,
}

/// What is known when a key is pressed: the time, the height of the terminal,
/// and the stamp that names a new session.
pub struct KeyContext {
    pub now_ms: u64,
    pub height: u16,
    pub stamp: String,
}

/// What the chat client asks of the daemon.
#[derive(Debug)]
pub enum ChatRequest {
    Run { session_id: String, content: String },
    SetModel { session_id: String, model: String },
    Compact(String),
    ListSessions,
    Resume(String),
    Interrupt(String),
    Answer { session_id: String, request_id: String, header: String, label: String },
}

/// What a request to the daemon says.
pub enum RequestModel {
    Run { session_id: Seq<char>, content: Seq<char> },
    SetModel { session_id: Seq<char>, model: Seq<char> },
    Compact(Seq<char>),
    ListSessions,
    Resume(Seq<char>),
    Interrupt(Seq<char>),
    Answer { session_id: Seq<char>, request_id: Seq<char>, header: Seq<char>, label: Seq<char> },
}

/// What an optional request says.
pub open spec fn request_view(r: Option<ChatRequest>) -> Option<RequestModel> {
    match r {
        Some(ChatRequest::Run { session_id, content }) => Some(
            RequestModel::Run { session_id: session_id@, content: content@ },
        ),
        Some(ChatRequest::SetModel { session_id, model }) => Some(
            RequestModel::SetModel { session_id: session_id@, model: model@ },
        ),
        Some(ChatRequest::Compact(s)) => Some(RequestModel::Compact(s@)),
        Some(ChatRequest::ListSessions) => Some(RequestModel::ListSessions),
        Some(ChatRequest::Resume(s)) => Some(RequestModel::Resume(s@)),
        Some(ChatRequest::Interrupt(s)) => Some(RequestModel::Interrupt(s@)),
        Some(ChatRequest::Answer { session_id, request_id, header, label }) => Some(
            RequestModel::Answer {
                session_id: session_id@,
                request_id: request_id@,
                header: header@,
                label: label@,
            },
        ),
        None => None,
    }
}

/// What the chat becomes, and what it asks of the daemon.
pub type Reaction = (ChatModel, Option<RequestModel>);

/// The cursor stands in the input or at its end.
pub open spec fn cursor_in_input(m: ChatModel) -> bool {
    m.cursor_pos <= m.input.len()
}

// ---------------------------------------------------------------------------
// Modes
// ---------------------------------------------------------------------------

/// What a key does while a permission is asked for: `y` and `a` grant it, `n`,
/// `d` and escape deny it, and other keys do nothing.
pub open spec fn permission_key(m: ChatModel, key: Key) -> ChatModel {
    let granted = key == Key::Char('y') || key == Key::Char('a');
    let denied = key == Key::Char('n') || key == Key::Char('d') || key == Key::Esc;
    if granted || denied {
        chat::noted(
            ChatModel { waiting_permission: false, status: "Processing..."@, ..m },
            "Permission "@ + (if granted {
                "granted"@
            } else {
                "denied"@
            }) + " for "@ + m.permission_tool,
        )
    } else {
        m
    }
}

/// The number of a digit.
pub open spec fn digit_value(c: char) -> int {
    c as int - '0' as int
}

/// What a key does while a question is asked: the number of an answer gives it,
/// escape gives none, and other keys do nothing.
pub open spec fn question_key(m: ChatModel, key: Key) -> Reaction {
    let answered = ChatModel { waiting_question: false, status: "Processing..."@, ..m };
    match key {
        Key::Char(c) => if '0' <= c <= '9' && m.questions.len() > 0 && 1 <= digit_value(c)
            <= m.questions[0].options.len() {
            (
                answered,
                Some(
                    RequestModel::Answer {
                        session_id: m.session_id,
                        request_id: m.question_request_id,
                        header: m.questions[0].header,
                        label: m.questions[0].options[digit_value(c) - 1].label,
                    },
                ),
            )
        } else {
            (m, None)
        },
        Key::Esc => (answered, None),
        _ => (m, None),
    }
}

// ---------------------------------------------------------------------------
// Submitting
// ---------------------------------------------------------------------------

/// The command of a line: what stands before the first blank.
pub open spec fn command_of(line: Seq<char>) -> Seq<char> {
    line.take(text::index_of(line, ' '))
}

/// What a command is given: what stands behind the first blank.
pub open spec fn argument_of(line: Seq<char>) -> Seq<char> {
    let k = text::index_of(line, ' ');
    if k >= line.len() {
        seq![]
    } else {
        line.skip(k + 1)
    }
}

/// What a command does.
pub open spec fn command_run(m: ChatModel, line: Seq<char>, stamp: Seq<char>) -> Reaction {
    let cmd = command_of(line);
    let arg = argument_of(line);
    if cmd == "/new"@ || cmd == "/new_session"@ {
        let name = "picrust-session-"@ + stamp;
        (
            chat::noted(
                ChatModel { status: "Ready"@, ..chat_events::restarted(m, name) },
                "New session: "@ + name,
            ),
            None,
        )
    } else if cmd == "/model"@ {
        let model = if arg.len() == 0 {
            "gpt-4o"@
        } else {
            arg
        };
        (
            chat::noted(m, "Changing model to "@ + model + "..."@),
            Some(RequestModel::SetModel { session_id: m.session_id, model }),
        )
    } else if cmd == "/compact"@ {
        (chat::noted(m, "Compacting session..."@), Some(RequestModel::Compact(m.session_id)))
    } else if cmd == "/resume"@ || cmd == "/list"@ {
        if arg.len() == 0 {
            (
                ChatModel {
                    waiting_session_list: true,
                    ..chat::noted(m, "Requesting session list..."@)
                },
                Some(RequestModel::ListSessions),
            )
        } else {
            (
                chat::noted(m, "Resuming session: "@ + text::trimmed(arg) + "..."@),
                Some(RequestModel::Resume(text::trimmed(arg))),
            )
        }
    } else if cmd == "/quit"@ {
        (ChatModel { running: false, ..m }, None)
    } else if cmd == "/help"@ {
        (
            chat::noted(
                m,
                "Available commands: /new, /resume, /model <name>, /compact, /quit, /help"@,
            ),
            None,
        )
    } else {
        (
            chat::noted(
                m,
                "Unknown command: "@ + cmd + ". Type /help for available commands."@,
            ),
            None,
        )
    }
}

/// What a submitted input does. Nothing, where it is empty, or the agent is at
/// work, or the list of sessions is awaited.
pub open spec fn submitted(m: ChatModel, stamp: Seq<char>) -> Reaction {
    let line = m.input;
    let taken = ChatModel { input: seq![], cursor_pos: 0, ..m };
    if line.len() == 0 || m.processing || m.waiting_session_list {
        (m, None)
    } else if line[0] == '/' {
        command_run(taken, line, stamp)
    } else {
        (
            ChatModel {
                status: "Processing..."@,
                processing: true,
                ..chat::said(chat::said(taken, chat::user_line(line)), chat::separator_line())
            },
            Some(RequestModel::Run { session_id: m.session_id, content: line }),
        )
    }
}

// ---------------------------------------------------------------------------
// Editing
// ---------------------------------------------------------------------------

/// The chat with a text put in at the cursor.
pub open spec fn inserted(m: ChatModel, s: Seq<char>) -> ChatModel {
    ChatModel {
        input: m.input.take(m.cursor_pos as int) + s + m.input.skip(m.cursor_pos as int),
        cursor_pos: (m.cursor_pos + s.len()) as usize,
        ..m
    }
}

/// The chat with the character at a place taken out of the input.
pub open spec fn without_char(m: ChatModel, i: int) -> ChatModel {
    ChatModel { input: m.input.take(i) + m.input.skip(i + 1), command_selection: None, ..m }
}

/// The chat with a command in the input.
pub open spec fn with_input(m: ChatModel, s: Seq<char>) -> ChatModel {
    ChatModel { input: s, cursor_pos: s.len() as usize, ..m }
}

/// What the key that interrupts does: pressed twice within half a second, it
/// ends the client.
pub open spec fn interrupt_key(m: ChatModel, now_ms: u64) -> Reaction {
    let again = match m.ctrl_c_pressed {
        Some(t) => now_ms < t || now_ms - t < 500,
        None => false,
    };
    if again {
        (ChatModel { running: false, ..m }, None)
    } else {
        (
            ChatModel {
                status: "Ready"@,
                processing: false,
                ctrl_c_pressed: Some(now_ms),
                ..chat::noted(m, "Interrupted (press Ctrl+C again within 500ms to quit)"@)
            },
            Some(RequestModel::Interrupt(m.session_id)),
        )
    }
}

/// What a character does.
pub open spec fn char_key(m: ChatModel, c: char, control: bool, now_ms: u64) -> Reaction {
    if control && c == 'c' {
        interrupt_key(m, now_ms)
    } else if control && c == 'd' {
        (ChatModel { running: false, ..m }, None)
    } else if control && c == 'l' {
        (
            chat::thoughts_done(
                chat::answer_done(
                    ChatModel { lines: seq![], input: seq![], cursor_pos: 0, ..m },
                ),
            ),
            None,
        )
    } else {
        (inserted(ChatModel { command_selection: None, ..m }, seq![c]), None)
    }
}

/// Whether the input is a command that can still be changed.
pub open spec fn edits_command(m: ChatModel) -> bool {
    m.input.len() > 0 && m.input[0] == '/' && !m.processing
}

/// What the completing key does: the first command that the input may mean
/// takes its place, with a blank behind it.
pub open spec fn tab_key(m: ChatModel) -> ChatModel {
    let found = chat_commands::matches_of(m.input);
    if edits_command(m) && found.len() > 0 {
        ChatModel { command_selection: None, ..with_input(m, found[0].1.name.push(' ')) }
    } else {
        m
    }
}

/// The chat with another of the commands highlighted that the input may mean.
pub open spec fn highlighted(m: ChatModel, next: int) -> ChatModel {
    let found = chat_commands::matches_of(m.input);
    let here = ChatModel { command_selection: Some(next as usize), ..m };
    if 0 <= next < found.len() {
        with_input(here, found[next].1.name)
    } else {
        here
    }
}

/// The command that is highlighted.
pub open spec fn current_command(m: ChatModel) -> int {
    match m.command_selection {
        Some(n) => n as int,
        None => 0,
    }
}

/// What the key upwards does: it highlights the command before, or scrolls.
pub open spec fn up_key(m: ChatModel, control: bool) -> ChatModel {
    let n = chat_commands::matches_of(m.input).len();
    let cur = current_command(m);
    if edits_command(m) {
        if n == 0 {
            m
        } else if cur == 0 {
            highlighted(m, n - 1)
        } else {
            highlighted(m, cur - 1)
        }
    } else if control {
        chat_view::scrolled_up_line(m)
    } else {
        m
    }
}

/// What the key downwards does: it highlights the next command, or scrolls.
pub open spec fn down_key(m: ChatModel, control: bool) -> ChatModel {
    let n = chat_commands::matches_of(m.input).len();
    let cur = current_command(m);
    if edits_command(m) {
        if n == 0 {
            m
        } else if cur >= n - 1 {
            highlighted(m, 0)
        } else {
            highlighted(m, cur + 1)
        }
    } else if control {
        chat_view::scrolled_down_line(m)
    } else {
        m
    }
}

/// How many lines of the conversation fit on a terminal.
pub open spec fn page_of(height: u16) -> int {
    if height < 6 {
        0
    } else {
        height - 6
    }
}

/// How far a key scrolls that turns the page.
pub open spec fn page_turn(height: u16) -> int {
    if page_of(height) < 2 {
        0
    } else {
        page_of(height) - 2
    }
}

/// What the escape key does: it interrupts the agent while it is at work.
pub open spec fn escape_key(m: ChatModel) -> Reaction {
    if m.processing {
        (
            ChatModel {
                status: "Ready"@,
                processing: false,
                ..chat::noted(m, "Interrupted"@)
            },
            Some(RequestModel::Interrupt(m.session_id)),
        )
    } else {
        (m, None)
    }
}

/// What a key does in the input.
pub open spec fn input_key(m: ChatModel, key: Key, control: bool, ctx: KeyContext) -> Reaction {
    match key {
        Key::Enter => submitted(m, ctx.stamp@),
        Key::Char(c) => char_key(m, c, control, ctx.now_ms),
        Key::Tab => (tab_key(m), None),
        Key::Up => (up_key(m, control), None),
        Key::Down => (down_key(m, control), None),
        Key::Backspace => (
            if m.cursor_pos > 0 {
                ChatModel {
                    cursor_pos: (m.cursor_pos - 1) as usize,
                    ..without_char(m, m.cursor_pos - 1)
                }
            } else {
                m
            },
            None,
        ),
        Key::Delete => (
            if m.cursor_pos < m.input.len() {
                without_char(m, m.cursor_pos as int)
            } else {
                m
            },
            None,
        ),
        Key::Left => (
            if m.cursor_pos > 0 {
                ChatModel { cursor_pos: (m.cursor_pos - 1) as usize, ..m }
            } else {
                m
            },
            None,
        ),
        Key::Right => (
            if m.cursor_pos < m.input.len() {
                ChatModel { cursor_pos: (m.cursor_pos + 1) as usize, ..m }
            } else {
                m
            },
            None,
        ),
        Key::PageUp => (
            ChatModel {
                auto_scroll: false,
                scroll_offset: chat_view::raised(m.scroll_offset, page_turn(ctx.height)),
                ..m
            },
            None,
        ),
        Key::PageDown => (chat_view::scrolled_down(m, page_turn(ctx.height)), None),
        Key::Home => (
            if control {
                ChatModel {
                    auto_scroll: false,
                    scroll_offset: chat_view::max_scroll(
                        m.lines.len() as int,
                        page_of(ctx.height),
                    ) as usize,
                    ..m
                }
            } else {
                ChatModel { cursor_pos: 0, ..m }
            },
            None,
        ),
        Key::End => (
            if control {
                ChatModel { auto_scroll: true, scroll_offset: 0, ..m }
            } else {
                ChatModel { cursor_pos: m.input.len() as usize, ..m }
            },
            None,
        ),
        Key::Esc => escape_key(m),
        Key::Other => (m, None),
    }
}

/// What a key does.
pub open spec fn key_done(m: ChatModel, key: Key, control: bool, ctx: KeyContext) -> Reaction {
    if m.waiting_permission {
        (permission_key(m, key), None)
    } else if m.waiting_question {
        question_key(m, key)
    } else {
        input_key(m, key, control, ctx)
    }
}

impl TuiClient {
    /// Takes a key while a permission is asked for.
    fn on_permission_key(&mut self, key: Key)
        ensures
            final(self)@ == permission_key(old(self)@, key),
    {
        let granted = key == Key::Char('y') || key == Key::Char('a');
        let denied = key == Key::Char('n') || key == Key::Char('d') || key == Key::Esc;
        if granted || denied {
            self.waiting_permission = false;
            self.status = "Processing...".to_owned();
            let word = if granted { "granted" } else { "denied" };
            let msg = text::cat4("Permission ", word, " for ", self.permission_tool.as_str());
            self.add_system_msg(msg);
        }
    }

    /// Takes a key while a question is asked.
    fn on_question_key(&mut self, key: Key) -> (r: Option<ChatRequest>)
        ensures
            (final(self)@, request_view(r)) == question_key(old(self)@, key),
    {
        match key {
            Key::Char(c) => {
                if !('0' <= c && c <= '9') || self.questions.len() == 0 {
                    return None;
                }
                let num: usize = (c as u32 - '0' as u32) as usize;
                let ghost q = self@.questions[0];
                assert(q == self.questions@[0]@);
                if num < 1 || num > self.questions[0].options.len() {
                    return None;
                }
                assert(q.options[num - 1] == self.questions@[0].options@[num - 1]@);
                let r = ChatRequest::Answer {
                    session_id: self.session_id.clone(),
                    request_id: self.question_request_id.clone(),
                    header: self.questions[0].header.clone(),
                    label: self.questions[0].options[num - 1].label.clone(),
                };
                self.waiting_question = false;
                self.status = "Processing...".to_owned();
                Some(r)
            },
            Key::Esc => {
                self.waiting_question = false;
                self.status = "Processing...".to_owned();
                None
            },
            _ => None,
        }
    }

    /// Does what a command says.
    fn run_command(&mut self, line: &str, stamp: &str) -> (r: Option<ChatRequest>)
        ensures
            (final(self)@, request_view(r)) == command_run(old(self)@, line@, stamp@),
    {
        let v = text::chars_of(line);
        assert(v@.skip(0) =~= v@);
        proof {
            text::index_of_bounds(line@, ' ');
        }
        let k: usize = text::find_char(&v, 0, ' ');
        assert(v@.subrange(0, k as int) =~= command_of(line@));
        let cmd = text::text_of(&v, 0, k);
        let arg = if k == v.len() {
            String::new()
        } else {
            text::text_of(&v, k + 1, v.len())
        };
        assert(arg@ =~= argument_of(line@));
        let cmd = cmd.as_str();
        if text::same(cmd, "/new") || text::same(cmd, "/new_session") {
            let name = text::cat2("picrust-session-", stamp);
            self.restart(name.clone());
            self.status = "Ready".to_owned();
            self.add_system_msg(text::cat2("New session: ", name.as_str()));
            None
        } else if text::same(cmd, "/model") {
            let model = if arg.as_str().is_empty() { "gpt-4o".to_owned() } else { arg };
            self.add_system_msg(text::cat3("Changing model to ", model.as_str(), "..."));
            Some(ChatRequest::SetModel { session_id: self.session_id.clone(), model })
        } else if text::same(cmd, "/compact") {
            self.add_system_msg("Compacting session...".to_owned());
            Some(ChatRequest::Compact(self.session_id.clone()))
        } else if text::same(cmd, "/resume") || text::same(cmd, "/list") {
            if arg.as_str().is_empty() {
                self.add_system_msg("Requesting session list...".to_owned());
                self.waiting_session_list = true;
                Some(ChatRequest::ListSessions)
            } else {
                let id = text::trim(arg.as_str());
                self.add_system_msg(text::cat3("Resuming session: ", id.as_str(), "..."));
                Some(ChatRequest::Resume(id))
            }
        } else if text::same(cmd, "/quit") {
            self.running = false;
            None
        } else if text::same(cmd, "/help") {
            self.add_system_msg(
                "Available commands: /new, /resume, /model <name>, /compact, /quit, /help".to_owned(),
            );
            None
        } else {
            self.add_system_msg(
                text::cat3("Unknown command: ", cmd, ". Type /help for available commands."),
            );
            None
        }
    }

    /// Submits the input.
    fn submit(&mut self, stamp: &str) -> (r: Option<ChatRequest>)
        ensures
            (final(self)@, request_view(r)) == submitted(old(self)@, stamp@),
    {
        if self.input.as_str().is_empty() || self.processing || self.waiting_session_list {
            return None;
        }
        let line = self.input.clone();
        self.input = String::new();
        self.cursor_pos = 0;
        assert(self@ =~= (ChatModel { input: seq![], cursor_pos: 0, ..old(self)@ }));
        if text::starts_with_char(line.as_str(), '/') {
            return self.run_command(line.as_str(), stamp);
        }
        self.add_user_msg(line.clone());
        self.add_separator();
        self.status = "Processing...".to_owned();
        self.processing = true;
        Some(ChatRequest::Run { session_id: self.session_id.clone(), content: line })
    }

    /// Puts a text in at the cursor.
    fn insert_text(&mut self, s: &str)
        requires
            cursor_in_input(old(self)@),
        ensures
            final(self)@ == inserted(old(self)@, s@),
            cursor_in_input(final(self)@),
    {
        let v = text::chars_of(self.input.as_str());
        let c: usize = self.cursor_pos;
        let added: usize = text::chars_of(s).len();
        let head = text::text_of(&v, 0, c);
        let tail = text::text_of(&v, c, v.len());
        assert(head@ =~= self.input@.take(c as int));
        assert(tail@ =~= self.input@.skip(c as int));
        let all = text::cat3(head.as_str(), s, tail.as_str());
        let total: usize = text::chars_of(all.as_str()).len();
        assert(c + added <= total);
        self.input = all;
        self.cursor_pos = c + added;
    }

    /// Takes a character out of the input.
    fn remove_char(&mut self, i: usize)
        requires
            i < old(self)@.input.len(),
        ensures
            final(self)@ == without_char(old(self)@, i as int),
    {
        let v = text::chars_of(self.input.as_str());
        assert(i < v.len());
        let head = text::text_of(&v, 0, i);
        let tail = text::text_of(&v, i + 1, v.len());
        assert(head@ =~= self.input@.take(i as int));
        assert(tail@ =~= self.input@.skip(i + 1));
        self.input = text::cat2(head.as_str(), tail.as_str());
        self.command_selection = None;
    }

    /// Puts a text in the place of the input.
    fn set_input(&mut self, s: String)
        ensures
            final(self)@ == with_input(old(self)@, s@),
    {
        self.input = s;
        self.cursor_pos = self.char_count();
    }

    /// Takes the key that interrupts.
    fn on_interrupt_key(&mut self, now_ms: u64) -> (r: Option<ChatRequest>)
        ensures
            (final(self)@, request_view(r)) == interrupt_key(old(self)@, now_ms),
    {
        let again = match self.ctrl_c_pressed {
            Some(t) => now_ms < t || now_ms - t < 500,
            None => false,
        };
        if again {
            self.running = false;
            return None;
        }
        self.add_system_msg("Interrupted (press Ctrl+C again within 500ms to quit)".to_owned());
        self.status = "Ready".to_owned();
        self.processing = false;
        self.ctrl_c_pressed = Some(now_ms);
        Some(ChatRequest::Interrupt(self.session_id.clone()))
    }

    /// Takes a character.
    fn on_char(&mut self, c: char, control: bool, now_ms: u64) -> (r: Option<ChatRequest>)
        requires
            cursor_in_input(old(self)@),
        ensures
            (final(self)@, request_view(r)) == char_key(old(self)@, c, control, now_ms),
            cursor_in_input(final(self)@),
    {
        if control && c == 'c' {
            return self.on_interrupt_key(now_ms);
        }
        if control && c == 'd' {
            self.running = false;
        } else if control && c == 'l' {
            self.clear();
        } else {
            self.command_selection = None;
            let mut s = String::new();
            s.push(c);
            assert(s@ =~= seq![c]);
            self.insert_text(s.as_str());
        }
        None
    }

    /// Whether the input is a command that can still be changed.
    fn edits_command(&self) -> (r: bool)
        ensures
            r == edits_command(self@),
    {
        text::starts_with_char(self.input.as_str(), '/') && !self.processing
    }

    /// Takes the completing key.
    fn on_tab(&mut self)
        ensures
            final(self)@ == tab_key(old(self)@),
    {
        if self.edits_command() {
            let found = chat_commands::matching_commands(self.input.as_str());
            assert(found@.len() == chat_commands::match_views(found@).len());
            if found.len() > 0 {
                assert(chat_commands::match_views(found@)[0].1 == found@[0].1@);
                let mut s = found[0].1.name.to_owned();
                s.push(' ');
                self.set_input(s);
                self.command_selection = None;
            }
        }
    }

    /// Highlights another command.
    fn highlight(&mut self, next: usize)
        ensures
            final(self)@ == highlighted(old(self)@, next as int),
    {
        let found = chat_commands::matching_commands(self.input.as_str());
        assert(found@.len() == chat_commands::match_views(found@).len());
        self.command_selection = Some(next);
        if next < found.len() {
            assert(chat_commands::match_views(found@)[next as int].1 == found@[next as int].1@);
            self.set_input(found[next].1.name.to_owned());
        }
    }

    /// Takes the keys upwards and downwards.
    fn on_vertical(&mut self, up: bool, control: bool)
        ensures
            final(self)@ == if up {
                up_key(old(self)@, control)
            } else {
                down_key(old(self)@, control)
            },
    {
        if self.edits_command() {
            let found = chat_commands::matching_commands(self.input.as_str());
            let n: usize = found.len();
            assert(n == chat_commands::match_views(found@).len());
            if n > 0 {
                let cur: usize = match self.command_selection {
                    Some(c) => c,
                    None => 0,
                };
                let next: usize = if up {
                    if cur == 0 { n - 1 } else { cur - 1 }
                } else {
                    if cur >= n - 1 { 0 } else { cur + 1 }
                };
                self.highlight(next);
            }
        } else if control {
            if up {
                self.scroll_up_line();
            } else {
                self.scroll_down_line();
            }
        }
    }

    /// Takes a key that edits the input or moves the cursor.
    fn on_edit_key(&mut self, key: Key, control: bool, ctx: &KeyContext)
        requires
            cursor_in_input(old(self)@),
            key is Backspace || key is Delete || key is Left || key is Right || key is Home
                || key is End,
        ensures
            (final(self)@, None::<RequestModel>) == input_key(old(self)@, key, control, *ctx),
            cursor_in_input(final(self)@),
    {
        match key {
            Key::Backspace => {
                if self.cursor_pos > 0 {
                    self.remove_char(self.cursor_pos - 1);
                    self.cursor_pos = self.cursor_pos - 1;
                }
            },
            Key::Delete => {
                if self.cursor_pos < self.char_count() {
                    self.remove_char(self.cursor_pos);
                }
            },
            Key::Left => {
                if self.cursor_pos > 0 {
                    self.cursor_pos = self.cursor_pos - 1;
                }
            },
            Key::Right => {
                if self.cursor_pos < self.char_count() {
                    self.cursor_pos = self.cursor_pos + 1;
                }
            },
            Key::Home => {
                if control {
                    let page: usize = if ctx.height < 6 { 0 } else { (ctx.height - 6) as usize };
                    let total: usize = self.chat_lines.len();
                    self.auto_scroll = false;
                    self.scroll_offset = if total > page { total - page } else { 0 };
                } else {
                    self.cursor_pos = 0;
                }
            },
            _ => {
                if control {
                    self.scroll_to_bottom();
                } else {
                    self.cursor_pos = self.char_count();
                }
            },
        }
    }

    /// Takes the escape key in the input.
    fn on_escape(&mut self) -> (r: Option<ChatRequest>)
        ensures
            (final(self)@, request_view(r)) == escape_key(old(self)@),
    {
        if !self.processing {
            return None;
        }
        self.add_system_msg("Interrupted".to_owned());
        self.status = "Ready".to_owned();
        self.processing = false;
        Some(ChatRequest::Interrupt(self.session_id.clone()))
    }

    /// Takes a key in the input.
    fn on_input_key(&mut self, key: Key, control: bool, ctx: &KeyContext) -> (r: Option<
        ChatRequest,
    >)
        requires
            cursor_in_input(old(self)@),
        ensures
            (final(self)@, request_view(r)) == input_key(old(self)@, key, control, *ctx),
            cursor_in_input(final(self)@),
    {
        let page: usize = if ctx.height < 6 { 0 } else { (ctx.height - 6) as usize };
        match key {
            Key::Enter => {
                return self.submit(ctx.stamp.as_str());
            },
            Key::Char(c) => {
                return self.on_char(c, control, ctx.now_ms);
            },
            Key::Esc => {
                return self.on_escape();
            },
            Key::Tab => self.on_tab(),
            Key::Up => self.on_vertical(true, control),
            Key::Down => self.on_vertical(false, control),
            Key::PageUp => self.scroll_up_page(page),
            Key::PageDown => self.scroll_down_page(page),
            Key::Other => {},
            _ => self.on_edit_key(key, control, ctx),
        }
        None
    }

    /// Takes a key. Gives back what is to be asked of the daemon.
    pub fn on_key(&mut self, key: Key, control: bool, ctx: &KeyContext) -> (r: Option<ChatRequest>)
        requires
            cursor_in_input(old(self)@),
        ensures
            (final(self)@, request_view(r)) == key_done(old(self)@, key, control, *ctx),
            cursor_in_input(final(self)@),
    {
        if self.waiting_permission {
            self.on_permission_key(key);
            None
        } else if self.waiting_question {
            self.on_question_key(key)
        } else {
            self.on_input_key(key, control, ctx)
        }
    }

    /// Takes pasted text: it goes into the input as it is, unless a permission
    /// or a question waits.
    pub fn on_paste(&mut self, pasted: &str)
        requires
            cursor_in_input(old(self)@),
        ensures
            final(self)@ == if old(self)@.waiting_permission || old(self)@.waiting_question {
                old(self)@
            } else {
                inserted(old(self)@, pasted@)
            },
            cursor_in_input(final(self)@),
    {
        if !self.waiting_permission && !self.waiting_question {
            self.insert_text(pasted);
        }
    }

    /// Takes what the mouse did. `chat` is where the conversation lies. Gives
    /// back text that is to be copied.
    pub fn on_mouse(
        &mut self,
        mouse: Mouse,
        col: u16,
        row: u16,
        term_area: Area,
        chat: Area,
        now_ms: u64,
    ) -> (r: Option<String>)
        ensures
            mouse_done(old(self)@, mouse, col, row, term_area, chat, now_ms, final(self)@, r),
    {
        match mouse {
            Mouse::ScrollDown => {
                self.scroll_down_line();
                self.scroll_down_line();
                self.scroll_down_line();
            },
            Mouse::ScrollUp => {
                self.scroll_up_line();
                self.scroll_up_line();
                self.scroll_up_line();
            },
            Mouse::Press => {
                if self.clicks_folded(row, chat) {
                    self.expand_thinking();
                } else {
                    self.start_selection(col, row, term_area, chat);
                }
            },
            Mouse::Drag => self.update_selection(col, row),
            Mouse::Release => {
                return self.finish_selection(col, row, chat, now_ms);
            },
            Mouse::Other => {},
        }
        None
    }

    /// Whether a row of the terminal shows the line of folded thoughts.
    fn clicks_folded(&self, row: u16, chat: Area) -> (r: bool)
        ensures
            r == clicks_folded(self@, row, chat),
    {
        let y: u32 = chat.y as u32 + 1;
        if (row as u32) < y {
            return false;
        }
        let start: usize = self.first_line(
            self.chat_lines.len(),
            chat_view::height_inside(chat),
        );
        let down: usize = (row as u32 - y) as usize;
        match self.collapsed_thinking_line {
            Some(i) => i >= start && i - start == down,
            None => false,
        }
    }
}

/// Whether a row of the terminal shows the line of folded thoughts.
pub open spec fn clicks_folded(m: ChatModel, row: u16, chat: Area) -> bool {
    match m.collapsed_line {
        Some(i) => row >= chat.y + 1 && i == chat_view::first_line(
            m,
            m.lines.len() as int,
            chat_view::inner_height(chat),
        ) + row - (chat.y + 1),
        None => false,
    }
}

/// What the mouse does: its wheel scrolls three lines, a click on folded
/// thoughts unfolds them, and the button selects.
pub open spec fn mouse_done(
    m: ChatModel,
    mouse: Mouse,
    col: u16,
    row: u16,
    term_area: Area,
    chat: Area,
    now_ms: u64,
    after: ChatModel,
    copied: Option<String>,
) -> bool {
    match mouse {
        Mouse::ScrollDown => copied is None && after == chat_view::scrolled_down_line(
            chat_view::scrolled_down_line(chat_view::scrolled_down_line(m)),
        ),
        Mouse::ScrollUp => copied is None && after == chat_view::scrolled_up_line(
            chat_view::scrolled_up_line(chat_view::scrolled_up_line(m)),
        ),
        Mouse::Press => copied is None && after == if clicks_folded(m, row, chat) {
            chat::unfolded(m)
        } else if chat_view::content_at(m, chat, col as int, row as int) is Some {
            ChatModel {
                selection_start: Some((col, row)),
                selection_end: Some((col, row)),
                selection_term_area: term_area,
                ..m
            }
        } else {
            m
        },
        Mouse::Drag => copied is None && after == if m.selection_start is Some {
            ChatModel { selection_end: Some((col, row)), ..m }
        } else {
            m
        },
        Mouse::Release => chat_view::selection_finished(m, chat, col, row, now_ms, after, copied),
        Mouse::Other => copied is None && after == m,
    }
}

/// Whatever key is pressed, the cursor stays in the input.
#[verifier::spinoff_prover]
#[verifier::rlimit(40)]
pub proof fn keys_keep_the_cursor(m: ChatModel, key: Key, control: bool, ctx: KeyContext)
    requires
        cursor_in_input(m),
        m.input.len() < usize::MAX,
    ensures
        cursor_in_input(key_done(m, key, control, ctx).0),
{
}

/// Putting a character in and taking it out again leaves the input and the
/// cursor as they were.
pub proof fn backspace_undoes_a_character(m: ChatModel, c: char, ctx: KeyContext)
    requires
        cursor_in_input(m),
        m.input.len() < usize::MAX,
        !m.waiting_permission,
        !m.waiting_question,
    ensures
        ({
            let typed = key_done(m, Key::Char(c), false, ctx).0;
            let back = key_done(typed, Key::Backspace, false, ctx).0;
            back.input == m.input && back.cursor_pos == m.cursor_pos
        }),
{
    let typed = key_done(m, Key::Char(c), false, ctx).0;
    let back = key_done(typed, Key::Backspace, false, ctx).0;
    assert(back.input =~= m.input);
}

/// The key that interrupts ends the client when it is pressed twice within half a
/// second; the first time it asks the daemon to stop the agent.
pub proof fn two_interrupts_end_the_client(m: ChatModel, first: KeyContext, second: KeyContext)
    requires
        !m.waiting_permission,
        !m.waiting_question,
        m.running,
        m.ctrl_c_pressed is None,
        first.now_ms <= second.now_ms < first.now_ms + 500,
    ensures
        ({
            let (once, request) = key_done(m, Key::Char('c'), true, first);
            let twice = key_done(once, Key::Char('c'), true, second).0;
            &&& request == Some(RequestModel::Interrupt(m.session_id))
            &&& once.running
            &&& !twice.running
        }),
{
}

/// While the agent is at work nothing is said to it.
pub proof fn one_turn_at_a_time(m: ChatModel, stamp: Seq<char>)
    requires
        m.processing,
    ensures
        submitted(m, stamp) == (m, None::<RequestModel>),
{
}

/// What is submitted is said as it is, and the agent is then at work.
pub proof fn what_is_submitted_is_said(m: ChatModel, stamp: Seq<char>)
    requires
        m.input.len() > 0,
        m.input[0] != '/',
        !m.processing,
        !m.waiting_session_list,
    ensures
        submitted(m, stamp).1 == Some(
            RequestModel::Run { session_id: m.session_id, content: m.input },
        ),
        submitted(m, stamp).0.processing,
        submitted(m, stamp).0.input.len() == 0,
{
}

/// A command is never said to the agent.
pub proof fn a_command_is_not_said(m: ChatModel, stamp: Seq<char>)
    requires
        m.input.len() > 0,
        m.input[0] == '/',
    ensures
        !(submitted(m, stamp).1 matches Some(RequestModel::Run { .. })),
        submitted(m, stamp).0.processing ==> m.processing,
{
}

/// Whether keys go to the input.
pub open spec fn takes_input(m: ChatModel) -> bool {
    !m.waiting_permission && !m.waiting_question
}

/// A character that is typed goes into the input where the cursor stands, and the cursor
/// goes behind it; nothing is asked of the daemon.
pub proof fn typed_characters_go_in(m: ChatModel, c: char, ctx: KeyContext)
    requires
        takes_input(m),
        cursor_in_input(m),
        m.input.len() < usize::MAX,
    ensures
        ({
            let (after, request) = key_done(m, Key::Char(c), false, ctx);
            &&& after.input.len() == m.input.len() + 1
            &&& after.input[m.cursor_pos as int] == c
            &&& after.input.take(m.cursor_pos as int) == m.input.take(m.cursor_pos as int)
            &&& after.input.skip(m.cursor_pos + 1) == m.input.skip(m.cursor_pos as int)
            &&& after.cursor_pos == m.cursor_pos + 1
            &&& request is None
            &&& after.lines == m.lines
        }),
{
    let after = key_done(m, Key::Char(c), false, ctx).0;
    assert(after.input.take(m.cursor_pos as int) =~= m.input.take(m.cursor_pos as int));
    assert(after.input.skip(m.cursor_pos + 1) =~= m.input.skip(m.cursor_pos as int));
}

/// Keys that delete take away the character before the cursor or at it; keys that move the
/// cursor leave the input as it is.
pub proof fn keys_edit_the_input(m: ChatModel, ctx: KeyContext)
    requires
        takes_input(m),
        0 < m.cursor_pos < m.input.len(),
        m.input.len() <= usize::MAX,
    ensures
        key_done(m, Key::Backspace, false, ctx).0.input == m.input.remove(m.cursor_pos - 1),
        key_done(m, Key::Backspace, false, ctx).0.cursor_pos == m.cursor_pos - 1,
        key_done(m, Key::Delete, false, ctx).0.input == m.input.remove(m.cursor_pos as int),
        key_done(m, Key::Delete, false, ctx).0.cursor_pos == m.cursor_pos,
        key_done(m, Key::Left, false, ctx).0.cursor_pos == m.cursor_pos - 1,
        key_done(m, Key::Right, false, ctx).0.cursor_pos == m.cursor_pos + 1,
        key_done(m, Key::Home, false, ctx).0.cursor_pos == 0,
        key_done(m, Key::End, false, ctx).0.cursor_pos == m.input.len(),
        key_done(m, Key::Left, false, ctx).0.input == m.input,
        key_done(m, Key::Right, false, ctx).0.input == m.input,
        key_done(m, Key::Home, false, ctx).0.input == m.input,
        key_done(m, Key::End, false, ctx).0.input == m.input,
{
    assert(m.input.remove(m.cursor_pos - 1) =~= m.input.take(m.cursor_pos - 1) + m.input.skip(
        m.cursor_pos as int,
    ));
    assert(m.input.remove(m.cursor_pos as int) =~= m.input.take(m.cursor_pos as int)
        + m.input.skip(m.cursor_pos + 1));
}

/// What the user submits is shown behind the user's mark, and goes to the agent of the
/// session as it was typed.
pub proof fn submitted_text_is_sent(m: ChatModel, ctx: KeyContext)
    requires
        takes_input(m),
        m.input.len() > 0,
        m.input[0] != '/',
        !m.processing,
        !m.waiting_session_list,
    ensures
        ({
            let (after, request) = key_done(m, Key::Enter, false, ctx);
            &&& request == Some(
                RequestModel::Run { session_id: m.session_id, content: m.input },
            )
            &&& after.processing
            &&& after.input.len() == 0
            &&& after.lines.len() == m.lines.len() + 2
            &&& after.lines.take(m.lines.len() as int) == m.lines
            &&& chat_text::line_text(after.lines[m.lines.len() as int]) == "\u{25b6} "@ + m.input
        }),
{
    let after = key_done(m, Key::Enter, false, ctx).0;
    assert(after.lines.take(m.lines.len() as int) =~= m.lines);
    let line = after.lines[m.lines.len() as int];
    chat_text::pieces_add_their_text(Seq::empty(), line[0].0, line[0].1);
    chat_text::pieces_add_their_text(seq![line[0]], line[1].0, line[1].1);
    assert(line =~= seq![line[0]].push(line[1]));
}

/// A digit answers the question that waits with the answer of that number, in the name of
/// the request; other digits do nothing, and escape turns the question down.
pub proof fn digits_answer_questions(m: ChatModel, n: int, ctx: KeyContext)
    requires
        !m.waiting_permission,
        m.waiting_question,
        m.questions.len() > 0,
        1 <= n <= 9,
    ensures
        ({
            let (after, request) = key_done(m, Key::Char(('0' as int + n) as char), false, ctx);
            &&& n <= m.questions[0].options.len() ==> !after.waiting_question && request == Some(
                RequestModel::Answer {
                    session_id: m.session_id,
                    request_id: m.question_request_id,
                    header: m.questions[0].header,
                    label: m.questions[0].options[n - 1].label,
                },
            )
            &&& n > m.questions[0].options.len() ==> after == m && request is None
        }),
        !key_done(m, Key::Esc, false, ctx).0.waiting_question,
        key_done(m, Key::Esc, false, ctx).1 is None,
{
}

/// The keys for yes and no decide on the permission that waits, and the decision is noted;
/// other keys leave it waiting.
pub proof fn keys_decide_on_permissions(m: ChatModel, key: Key, ctx: KeyContext)
    requires
        m.waiting_permission,
    ensures
        ({
            let (after, request) = key_done(m, key, false, ctx);
            &&& request is None
            &&& key == Key::Char('y') || key == Key::Char('a') ==> !after.waiting_permission
                && chat_text::line_text(after.lines.last()) == "\u{2139} "@ + ("Permission "@
                + "granted"@ + " for "@ + m.permission_tool)
            &&& key == Key::Char('n') || key == Key::Char('d') || key == Key::Esc
                ==> !after.waiting_permission && chat_text::line_text(after.lines.last())
                == "\u{2139} "@ + ("Permission "@ + "denied"@ + " for "@ + m.permission_tool)
            &&& key == Key::Enter ==> after == m
        }),
{
    let decided = ChatModel { waiting_permission: false, status: "Processing..."@, ..m };
    chat_events::noting_adds_a_line(
        decided,
        "Permission "@ + "granted"@ + " for "@ + m.permission_tool,
    );
    chat_events::noting_adds_a_line(
        decided,
        "Permission "@ + "denied"@ + " for "@ + m.permission_tool,
    );
}

/// Keys with control: the client ends, or the conversation and the input are cleared.
/// Escape interrupts an agent that is at work.
pub proof fn control_keys_act(m: ChatModel, ctx: KeyContext)
    requires
        takes_input(m),
        m.collapsed_line is None,
    ensures
        !key_done(m, Key::Char('d'), true, ctx).0.running,
        key_done(m, Key::Char('l'), true, ctx).0.lines.len() == 0,
        key_done(m, Key::Char('l'), true, ctx).0.input.len() == 0,
        m.processing ==> key_done(m, Key::Esc, false, ctx).1 == Some(
            RequestModel::Interrupt(m.session_id),
        ),
        m.processing ==> !key_done(m, Key::Esc, false, ctx).0.processing,
        !m.processing ==> key_done(m, Key::Esc, false, ctx) == (m, None::<RequestModel>),
{
}

/// The names of the commands differ and hold no blank.
proof fn command_names_differ()
    ensures
        "/new"@ != "/new_session"@,
        "/new"@ != "/model"@,
        "/new"@ != "/compact"@,
        "/new"@ != "/resume"@,
        "/new"@ != "/list"@,
        "/new"@ != "/quit"@,
        "/new"@ != "/help"@,
        "/new_session"@ != "/model"@,
        "/new_session"@ != "/compact"@,
        "/new_session"@ != "/resume"@,
        "/new_session"@ != "/list"@,
        "/new_session"@ != "/quit"@,
        "/new_session"@ != "/help"@,
        "/model"@ != "/compact"@,
        "/model"@ != "/resume"@,
        "/model"@ != "/list"@,
        "/model"@ != "/quit"@,
        "/model"@ != "/help"@,
        "/compact"@ != "/resume"@,
        "/compact"@ != "/list"@,
        "/compact"@ != "/quit"@,
        "/compact"@ != "/help"@,
        "/resume"@ != "/list"@,
        "/resume"@ != "/quit"@,
        "/resume"@ != "/help"@,
        "/list"@ != "/quit"@,
        "/list"@ != "/help"@,
        "/quit"@ != "/help"@,
        "/new"@[0] == '/' && "/new"@.len() > 0 && forall|i: int| 0 <= i < "/new"@.len() ==> #[trigger] "/new"@[i] != ' ',
        "/new_session"@[0] == '/' && "/new_session"@.len() > 0 && forall|i: int| 0 <= i < "/new_session"@.len() ==> #[trigger] "/new_session"@[i] != ' ',
        "/model"@[0] == '/' && "/model"@.len() > 0 && forall|i: int| 0 <= i < "/model"@.len() ==> #[trigger] "/model"@[i] != ' ',
        "/compact"@[0] == '/' && "/compact"@.len() > 0 && forall|i: int| 0 <= i < "/compact"@.len() ==> #[trigger] "/compact"@[i] != ' ',
        "/resume"@[0] == '/' && "/resume"@.len() > 0 && forall|i: int| 0 <= i < "/resume"@.len() ==> #[trigger] "/resume"@[i] != ' ',
        "/list"@[0] == '/' && "/list"@.len() > 0 && forall|i: int| 0 <= i < "/list"@.len() ==> #[trigger] "/list"@[i] != ' ',
        "/quit"@[0] == '/' && "/quit"@.len() > 0 && forall|i: int| 0 <= i < "/quit"@.len() ==> #[trigger] "/quit"@[i] != ' ',
        "/help"@[0] == '/' && "/help"@.len() > 0 && forall|i: int| 0 <= i < "/help"@.len() ==> #[trigger] "/help"@[i] != ' ',
{
    reveal_strlit("/new");
    assert("/new"@.len() == 4 && "/new"@[0] == '/' && "/new"@[1] == 'n' && "/new"@[2] == 'e');
    reveal_strlit("/new_session");
    assert("/new_session"@.len() == 12 && "/new_session"@[0] == '/' && "/new_session"@[1] == 'n' && "/new_session"@[2] == 'e');
    reveal_strlit("/model");
    assert("/model"@.len() == 6 && "/model"@[0] == '/' && "/model"@[1] == 'm' && "/model"@[2] == 'o');
    reveal_strlit("/compact");
    assert("/compact"@.len() == 8 && "/compact"@[0] == '/' && "/compact"@[1] == 'c' && "/compact"@[2] == 'o');
    reveal_strlit("/resume");
    assert("/resume"@.len() == 7 && "/resume"@[0] == '/' && "/resume"@[1] == 'r' && "/resume"@[2] == 'e');
    reveal_strlit("/list");
    assert("/list"@.len() == 5 && "/list"@[0] == '/' && "/list"@[1] == 'l' && "/list"@[2] == 'i');
    reveal_strlit("/quit");
    assert("/quit"@.len() == 5 && "/quit"@[0] == '/' && "/quit"@[1] == 'q' && "/quit"@[2] == 'u');
    reveal_strlit("/help");
    assert("/help"@.len() == 5 && "/help"@[0] == '/' && "/help"@[1] == 'h' && "/help"@[2] == 'e');
}

/// A line is a command and its argument.
proof fn a_line_has_its_parts(cmd: Seq<char>, arg: Seq<char>)
    requires
        forall|i: int| 0 <= i < cmd.len() ==> #[trigger] cmd[i] != ' ',
    ensures
        command_of(cmd) == cmd,
        argument_of(cmd).len() == 0,
        command_of(cmd + " "@ + arg) == cmd,
        argument_of(cmd + " "@ + arg) == arg,
{
    reveal_strlit(" ");
    let line = cmd + " "@ + arg;
    text::index_of_bounds(cmd, ' ');
    text::index_of_bounds(line, ' ');
    assert(cmd.take(cmd.len() as int) =~= cmd);
    assert(line[cmd.len() as int] == ' ');
    let k = text::index_of(line, ' ');
    if k < cmd.len() {
        assert(line[k] == cmd[k]);
    }
    assert(k == cmd.len());
    assert(line.take(k) =~= cmd);
    assert(line.skip(k + 1) =~= arg);
}

/// A command that the user submits is asked of the daemon with its argument: another model,
/// compacting, the saved sessions, or one of them to be resumed.
pub proof fn commands_are_asked_for(m: ChatModel, arg: Seq<char>, ctx: KeyContext)
    requires
        takes_input(m),
        !m.processing,
        !m.waiting_session_list,
        text::is_word(arg),
    ensures
        m.input == "/model"@ + " "@ + arg ==> key_done(m, Key::Enter, false, ctx).1 == Some(
            RequestModel::SetModel { session_id: m.session_id, model: arg },
        ),
        m.input == "/compact"@ ==> key_done(m, Key::Enter, false, ctx).1 == Some(
            RequestModel::Compact(m.session_id),
        ),
        m.input == "/resume"@ || m.input == "/list"@ ==> key_done(m, Key::Enter, false, ctx).1
            == Some(RequestModel::ListSessions),
        m.input == "/resume"@ + " "@ + arg ==> key_done(m, Key::Enter, false, ctx).1 == Some(
            RequestModel::Resume(arg),
        ),
        m.input == "/quit"@ ==> !key_done(m, Key::Enter, false, ctx).0.running,
        m.input == "/new"@ ==> key_done(m, Key::Enter, false, ctx).0.session_id
            == "picrust-session-"@ + ctx.stamp@ && key_done(m, Key::Enter, false, ctx).0.lines.len()
            == 1,
{
    command_names_differ();
    a_line_has_its_parts("/model"@, arg);
    a_line_has_its_parts("/compact"@, arg);
    a_line_has_its_parts("/resume"@, arg);
    a_line_has_its_parts("/list"@, arg);
    a_line_has_its_parts("/quit"@, arg);
    a_line_has_its_parts("/new"@, arg);
    assert(("/model"@ + " "@ + arg)[0] == "/model"@[0]);
    assert(("/resume"@ + " "@ + arg)[0] == "/resume"@[0]);
    assert(text::trimmed_start(arg) == arg);
    assert(text::trimmed_end(arg) == arg);
}

/// The mouse marks a stretch of the conversation from where it was pressed to where it is
/// drawn, and turns the conversation by three lines.
pub proof fn the_mouse_marks(
    m: ChatModel,
    col: u16,
    row: u16,
    term_area: Area,
    chat: Area,
    now_ms: u64,
    pressed: ChatModel,
    drawn: ChatModel,
    a: Option<String>,
    b: Option<String>,
)
    requires
        mouse_done(m, Mouse::Press, col, row, term_area, chat, now_ms, pressed, a),
        mouse_done(m, Mouse::Drag, col, row, term_area, chat, now_ms, drawn, b),
    ensures
        !clicks_folded(m, row, chat) && chat_view::content_at(m, chat, col as int, row as int)
            is Some ==> pressed.selection_start == Some((col, row)) && pressed.selection_end == Some(
            (col, row),
        ),
        m.selection_start is Some ==> drawn.selection_start == m.selection_start
            && drawn.selection_end == Some((col, row)),
        m.selection_start is None ==> drawn == m,
        pressed.input == m.input,
        drawn.lines == m.lines,
        a is None,
        b is None,
{
}

/// Each command says what it does.
pub proof fn commands_say_what_they_do(m: ChatModel, arg: Seq<char>, stamp: Seq<char>)
    requires
        text::is_word(arg),
    ensures
        ({
            let run = |line: Seq<char>| command_run(m, line, stamp).0;
            &&& chat_events::notes(
                m,
                run("/model"@ + " "@ + arg),
                "Changing model to "@ + arg + "..."@,
            )
            &&& chat_events::notes(m, run("/compact"@), "Compacting session..."@)
            &&& chat_events::notes(m, run("/resume"@), "Requesting session list..."@)
            &&& run("/resume"@).waiting_session_list
            &&& chat_events::notes(
                m,
                run("/resume"@ + " "@ + arg),
                "Resuming session: "@ + arg + "..."@,
            )
            &&& chat_events::notes(
                m,
                run("/help"@),
                "Available commands: /new, /resume, /model <name>, /compact, /quit, /help"@,
            )
        }),
        command_run(m, "/model"@, stamp).1 == Some(
            RequestModel::SetModel { session_id: m.session_id, model: "gpt-4o"@ },
        ),
        command_run(m, "/help"@, stamp).1 is None,
{
    command_names_differ();
    a_line_has_its_parts("/model"@, arg);
    a_line_has_its_parts("/compact"@, arg);
    a_line_has_its_parts("/resume"@, arg);
    a_line_has_its_parts("/help"@, arg);
    assert(text::trimmed_start(arg) == arg);
    assert(text::trimmed_end(arg) == arg);
    chat_events::noting_adds_a_line(m, "Changing model to "@ + arg + "..."@);
    chat_events::noting_adds_a_line(m, "Compacting session..."@);
    chat_events::noting_adds_a_line(m, "Requesting session list..."@);
    chat_events::noting_adds_a_line(m, "Resuming session: "@ + arg + "..."@);
    chat_events::noting_adds_a_line(
        m,
        "Available commands: /new, /resume, /model <name>, /compact, /quit, /help"@,
    );
}

/// What begins like a command and is none is told to the user, and nothing is asked for.
pub proof fn unknown_commands_are_told(m: ChatModel, cmd: Seq<char>, stamp: Seq<char>)
    requires
        forall|i: int| 0 <= i < cmd.len() ==> #[trigger] cmd[i] != ' ',
        cmd != "/new"@,
        cmd != "/new_session"@,
        cmd != "/model"@,
        cmd != "/compact"@,
        cmd != "/resume"@,
        cmd != "/list"@,
        cmd != "/quit"@,
        cmd != "/help"@,
    ensures
        chat_events::notes(
            m,
            command_run(m, cmd, stamp).0,
            "Unknown command: "@ + cmd + ". Type /help for available commands."@,
        ),
        command_run(m, cmd, stamp).1 is None,
{
    a_line_has_its_parts(cmd, cmd);
    chat_events::noting_adds_a_line(
        m,
        "Unknown command: "@ + cmd + ". Type /help for available commands."@,
    );
}

/// While the agent works the status says so, and when it is interrupted the user is told;
/// interrupting twice within half a second ends the chat.
pub proof fn the_status_says_what_goes_on(m: ChatModel, now_ms: u64, stamp: Seq<char>)
    ensures
        m.input.len() > 0 && m.input[0] != '/' && !m.processing && !m.waiting_session_list
            ==> submitted(m, stamp).0.status == "Processing..."@,
        permission_key(m, Key::Char('y')).status == "Processing..."@,
        permission_key(m, Key::Char('n')).status == "Processing..."@,
        question_key(m, Key::Esc).0.status == "Processing..."@,
        m.ctrl_c_pressed is None ==> {
            let (after, request) = interrupt_key(m, now_ms);
            &&& chat_events::notes(
                m,
                after,
                "Interrupted (press Ctrl+C again within 500ms to quit)"@,
            )
            &&& after.status == "Ready"@ && !after.processing && after.running == m.running
            &&& after.ctrl_c_pressed == Some(now_ms)
            &&& request == Some(RequestModel::Interrupt(m.session_id))
        },
        (m.ctrl_c_pressed matches Some(t) && t <= now_ms && now_ms - t < 500) ==> !interrupt_key(
            m,
            now_ms,
        ).0.running && interrupt_key(m, now_ms).1 is None,
        (m.ctrl_c_pressed matches Some(t) && t <= now_ms && now_ms - t >= 500) ==> interrupt_key(
            m,
            now_ms,
        ).0.running == m.running && interrupt_key(m, now_ms).1 == Some(
            RequestModel::Interrupt(m.session_id),
        ),
        m.processing ==> chat_events::notes(m, escape_key(m).0, "Interrupted"@)
            && escape_key(m).0.status == "Ready"@,
{
    chat_events::noting_adds_a_line(m, "Interrupted (press Ctrl+C again within 500ms to quit)"@);
    chat_events::noting_adds_a_line(m, "Interrupted"@);
}

/// At the ends of the input the keys do nothing.
pub proof fn keys_stop_at_the_ends(m: ChatModel, ctx: KeyContext)
    requires
        takes_input(m),
    ensures
        m.cursor_pos == 0 ==> key_done(m, Key::Backspace, false, ctx) == (m, None::<RequestModel>),
        m.cursor_pos == 0 ==> key_done(m, Key::Left, false, ctx) == (m, None::<RequestModel>),
        m.cursor_pos == m.input.len() ==> key_done(m, Key::Delete, false, ctx) == (
            m,
            None::<RequestModel>,
        ),
        m.cursor_pos == m.input.len() ==> key_done(m, Key::Right, false, ctx) == (
            m,
            None::<RequestModel>,
        ),
        key_done(m, Key::Other, false, ctx) == (m, None::<RequestModel>),
{
}

/// While a command is typed, the tab key completes it to the first that is found, and the
/// arrow keys go through those that are found, round and round.
pub proof fn keys_choose_commands(m: ChatModel, ctx: KeyContext, control: bool)
    requires
        takes_input(m),
        m.input.len() > 0,
        m.input[0] == '/',
        !m.processing,
        chat_commands::matches_of(m.input).len() > 1,
        chat_commands::matches_of(m.input).len() <= usize::MAX,
    ensures
        ({
            let found = chat_commands::matches_of(m.input);
            let n = found.len();
            let tab = key_done(m, Key::Tab, control, ctx).0;
            let up = key_done(m, Key::Up, control, ctx).0;
            let down = key_done(m, Key::Down, control, ctx).0;
            &&& tab.input == found[0].1.name.push(' ')
            &&& tab.command_selection is None
            &&& m.command_selection is None ==> down.command_selection == Some(1usize)
                && down.input == found[1].1.name
            &&& m.command_selection is None ==> up.command_selection == Some((n - 1) as usize)
                && up.input == found[n - 1].1.name
            &&& (m.command_selection matches Some(k) ==> {
                &&& 0 < k < n ==> up.command_selection == Some((k - 1) as usize) && up.input
                    == found[k - 1].1.name
                &&& k + 1 < n ==> down.command_selection == Some((k + 1) as usize) && down.input
                    == found[k + 1].1.name
                &&& k + 1 == n ==> down.command_selection == Some(0usize) && down.input
                    == found[0].1.name
            })
            &&& up.lines == m.lines && down.lines == m.lines && tab.lines == m.lines
        }),
{
}

/// While something else is typed the tab and the arrow keys leave it, and with the control key
/// the arrow keys scroll.
pub proof fn keys_scroll(m: ChatModel, ctx: KeyContext)
    requires
        takes_input(m),
        m.input.len() == 0 || m.input[0] != '/',
        m.scroll_offset < usize::MAX,
    ensures
        key_done(m, Key::Tab, false, ctx).0 == m,
        key_done(m, Key::Up, false, ctx).0 == m,
        key_done(m, Key::Down, false, ctx).0 == m,
        key_done(m, Key::Up, true, ctx).0.scroll_offset == m.scroll_offset + 1,
        m.scroll_offset > 0 ==> key_done(m, Key::Down, true, ctx).0.scroll_offset
            == m.scroll_offset - 1,
        key_done(m, Key::End, true, ctx).0.auto_scroll,
        key_done(m, Key::End, true, ctx).0.scroll_offset == 0,
        !key_done(m, Key::Home, true, ctx).0.auto_scroll,
        m.lines.len() + 6 <= usize::MAX && ctx.height >= 6 && m.lines.len() + 6 > ctx.height
            ==> key_done(m, Key::Home, true, ctx).0.scroll_offset == m.lines.len() + 6
            - ctx.height,
{
}

/// A page is the height of the screen without what stands around the conversation and two lines
/// of overlap.
pub proof fn keys_turn_pages(m: ChatModel, ctx: KeyContext, control: bool)
    requires
        takes_input(m),
        ctx.height > 8,
        m.scroll_offset + ctx.height <= usize::MAX,
    ensures
        key_done(m, Key::PageUp, control, ctx).0.scroll_offset == m.scroll_offset + ctx.height - 8,
        !key_done(m, Key::PageUp, control, ctx).0.auto_scroll,
        m.scroll_offset > ctx.height - 8 ==> key_done(m, Key::PageDown, control, ctx).0.scroll_offset
            == m.scroll_offset - (ctx.height - 8),
        0 < m.scroll_offset <= ctx.height - 8 ==> key_done(
            m,
            Key::PageDown,
            control,
            ctx,
        ).0.auto_scroll,
        key_done(m, Key::PageUp, control, ctx).0.input == m.input,
{
}

/// A click on the line of thoughts that are folded away unfolds them; a click elsewhere does
/// not.
pub proof fn clicks_unfold_thoughts(
    m: ChatModel,
    line: usize,
    col: u16,
    row: u16,
    term_area: Area,
    chat: Area,
    now_ms: u64,
    after: ChatModel,
    copied: Option<String>,
)
    requires
        m.collapsed_line == Some(line),
        mouse_done(m, Mouse::Press, col, row, term_area, chat, now_ms, after, copied),
        row > chat.y,
    ensures
        ({
            let top = chat_view::first_line(
                m,
                m.lines.len() as int,
                chat_view::inner_height(chat),
            );
            &&& line == top + (row - chat.y - 1) ==> after == chat::unfolded(m)
            &&& line != top + (row - chat.y - 1) ==> after.lines == m.lines
                && after.collapsed_line == m.collapsed_line
        }),
{
}

/// A turn of the wheel scrolls by three lines.
pub proof fn the_wheel_scrolls_by_three(
    m: ChatModel,
    col: u16,
    row: u16,
    term_area: Area,
    chat: Area,
    now_ms: u64,
    up: ChatModel,
    down: ChatModel,
    a: Option<String>,
    b: Option<String>,
)
    requires
        mouse_done(m, Mouse::ScrollUp, col, row, term_area, chat, now_ms, up, a),
        mouse_done(m, Mouse::ScrollDown, col, row, term_area, chat, now_ms, down, b),
        m.scroll_offset + 3 <= usize::MAX,
    ensures
        up.scroll_offset == m.scroll_offset + 3,
        !up.auto_scroll,
        m.scroll_offset >= 3 ==> down.scroll_offset == m.scroll_offset - 3,
        m.scroll_offset < 3 ==> down.scroll_offset == 0,
        0 < m.scroll_offset <= 3 ==> down.auto_scroll,
        a is None && b is None,
{
}

} // verus!
