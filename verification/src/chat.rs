//! The full-screen chat client: what it holds, and how its conversation grows.

use vstd::prelude::*;

use crate::chat_text;
use crate::chat_text::{ChatLine, Hue, LineModel, Look, Piece};
use crate::json::{Json, JsonTree};
use crate::loop_client::{QuestionModel, UserQuestionWire};
use crate::maps::StringMap;
use crate::text;

verus! {

// ---------------------------------------------------------------------------
// State
// ---------------------------------------------------------------------------

/// A rectangle of the terminal.
#[derive(Clone, Copy, Debug, PartialEq, Eq, Structural)]
pub struct Area {
    pub x: u16,
    pub y: u16,
    pub width: u16,
    pub height: u16,
}

/// The chat client. Times are milliseconds of a clock that the caller keeps.
pub struct TuiClient {
    pub chat_lines: Vec<ChatLine>,
    pub input: String,
    /// The place of the cursor in the input, in characters.
    pub cursor_pos: usize,
    pub session_id: String,
    pub status: String,
    pub running: bool,
    pub auto_scroll: bool,
    pub scroll_offset: usize,
    pub waiting_permission: bool,
    pub waiting_question: bool,
    pub permission_tool: String,
    pub question_request_id: String,
    pub questions: Vec<UserQuestionWire>,
    pub processing: bool,
    pub session_list: Vec<String>,
    pub waiting_session_list: bool,
    /// The command that is highlighted in the preview.
    pub command_selection: Option<usize>,
    /// The tool calls under way: for each, its line and the tool.
    pub pending_tool_calls: StringMap<(usize, String)>,
    /// Where the answer that is being streamed begins.
    pub pending_assistant_idx: Option<usize>,
    pub pending_assistant_raw: String,
    /// Where the thoughts that are being streamed begin.
    pub pending_thinking_idx: Option<usize>,
    pub pending_thinking_raw: String,
    /// The line that stands for thoughts that are folded away.
    pub collapsed_thinking_line: Option<usize>,
    pub collapsed_thinking_raw: String,
    /// The selection, as columns and rows of the terminal.
    pub selection_start: Option<(u16, u16)>,
    pub selection_end: Option<(u16, u16)>,
    pub selection_term_area: Area,
    /// A message that is shown for a while, and since when.
    pub flash_message: Option<(String, u64)>,
    /// When the interrupt key was last pressed.
    pub ctrl_c_pressed: Option<u64>,
    /// Whether the name of the session is still to be shown.
    pub first: bool,
}

/// What the chat client holds.
#[verifier::ext_equal]
pub struct ChatModel {
    pub lines: Seq<LineModel>,
    pub input: Seq<char>,
    pub cursor_pos: usize,
    pub session_id: Seq<char>,
    pub status: Seq<char>,
    pub running: bool,
    pub auto_scroll: bool,
    pub scroll_offset: usize,
    pub waiting_permission: bool,
    pub waiting_question: bool,
    pub permission_tool: Seq<char>,
    pub question_request_id: Seq<char>,
    pub questions: Seq<QuestionModel>,
    pub processing: bool,
    pub session_list: Seq<Seq<char>>,
    pub waiting_session_list: bool,
    pub command_selection: Option<usize>,
    pub calls: Map<Seq<char>, (usize, Seq<char>)>,
    pub assistant_idx: Option<usize>,
    pub assistant_raw: Seq<char>,
    pub thinking_idx: Option<usize>,
    pub thinking_raw: Seq<char>,
    pub collapsed_line: Option<usize>,
    pub collapsed_raw: Seq<char>,
    pub selection_start: Option<(u16, u16)>,
    pub selection_end: Option<(u16, u16)>,
    pub selection_term_area: Area,
    pub flash: Option<(Seq<char>, u64)>,
    pub ctrl_c_pressed: Option<u64>,
    pub first: bool,
}

/// What a list of questions asks.
pub open spec fn question_views(v: Seq<UserQuestionWire>) -> Seq<QuestionModel> {
    Seq::new(v.len(), |i: int| v[i]@)
}

/// The lines and tools of the tool calls under way.
pub open spec fn call_views(m: Map<Seq<char>, (usize, String)>) -> Map<
    Seq<char>,
    (usize, Seq<char>),
> {
    m.map_values(|e: (usize, String)| (e.0, e.1@))
}

/// What a flash message says, and since when.
pub open spec fn flash_view(f: Option<(String, u64)>) -> Option<(Seq<char>, u64)> {
    match f {
        Some((s, t)) => Some((s@, t)),
        None => None,
    }
}

impl View for TuiClient {
    type V = ChatModel;

    open spec fn view(&self) -> ChatModel {
        ChatModel {
            lines: chat_text::line_views(self.chat_lines@),
            input: self.input@,
            cursor_pos: self.cursor_pos,
            session_id: self.session_id@,
            status: self.status@,
            running: self.running,
            auto_scroll: self.auto_scroll,
            scroll_offset: self.scroll_offset,
            waiting_permission: self.waiting_permission,
            waiting_question: self.waiting_question,
            permission_tool: self.permission_tool@,
            question_request_id: self.question_request_id@,
            questions: question_views(self.questions@),
            processing: self.processing,
            session_list: text::views(self.session_list@),
            waiting_session_list: self.waiting_session_list,
            command_selection: self.command_selection,
            calls: call_views(self.pending_tool_calls@),
            assistant_idx: self.pending_assistant_idx,
            assistant_raw: self.pending_assistant_raw@,
            thinking_idx: self.pending_thinking_idx,
            thinking_raw: self.pending_thinking_raw@,
            collapsed_line: self.collapsed_thinking_line,
            collapsed_raw: self.collapsed_thinking_raw@,
            selection_start: self.selection_start,
            selection_end: self.selection_end,
            selection_term_area: self.selection_term_area,
            flash: flash_view(self.flash_message),
            ctrl_c_pressed: self.ctrl_c_pressed,
            first: self.first,
        }
    }
}

/// The chat client at its start.
pub open spec fn fresh_chat() -> ChatModel {
    ChatModel {
        lines: seq![],
        input: seq![],
        cursor_pos: 0,
        session_id: seq![],
        status: "Ready"@,
        running: true,
        auto_scroll: true,
        scroll_offset: 0,
        waiting_permission: false,
        waiting_question: false,
        permission_tool: seq![],
        question_request_id: seq![],
        questions: seq![],
        processing: false,
        session_list: seq![],
        waiting_session_list: false,
        command_selection: None,
        calls: Map::empty(),
        assistant_idx: None,
        assistant_raw: seq![],
        thinking_idx: None,
        thinking_raw: seq![],
        collapsed_line: None,
        collapsed_raw: seq![],
        selection_start: None,
        selection_end: None,
        selection_term_area: Area { x: 0, y: 0, width: 80, height: 24 },
        flash: None,
        ctrl_c_pressed: None,
        first: true,
    }
}

// ---------------------------------------------------------------------------
// What is shown
// ---------------------------------------------------------------------------

/// The chat, scrolled to its end where it follows the conversation.
pub open spec fn followed(m: ChatModel) -> ChatModel {
    if m.auto_scroll {
        ChatModel { scroll_offset: 0, ..m }
    } else {
        m
    }
}

/// The chat with one more line.
pub open spec fn said(m: ChatModel, line: LineModel) -> ChatModel {
    followed(ChatModel { lines: m.lines.push(line), ..m })
}

/// A message of the client.
pub open spec fn system_line(msg: Seq<char>) -> LineModel {
    seq![("\u{2139} "@ + msg, Look::plain().fg(Hue::Yellow))]
}

/// The chat with a message of the client.
pub open spec fn noted(m: ChatModel, msg: Seq<char>) -> ChatModel {
    said(m, system_line(msg))
}

/// What the user wrote.
pub open spec fn user_line(msg: Seq<char>) -> LineModel {
    seq![
        ("\u{25b6} "@, Look::plain().fg(Hue::Cyan).bold()),
        (msg, Look::plain().fg(Hue::Cyan)),
    ]
}

/// A rule across the chat.
pub open spec fn separator_line() -> LineModel {
    seq![(text::repeated('\u{2500}', 60), Look::plain().fg(Hue::DarkGray))]
}

/// The look of the agent's answers.
pub open spec fn answer_look() -> Look {
    Look::plain().fg(Hue::Green)
}

/// Whether a line opens or closes a block of code.
pub open spec fn is_fence(para: Seq<char>) -> bool {
    text::begins_with(text::trimmed_start(para), "```"@)
}

/// Whether the lines leave a block of code open.
pub open spec fn in_code(paras: Seq<Seq<char>>) -> bool
    decreases paras.len(),
{
    if paras.len() == 0 {
        false
    } else if is_fence(paras.last()) {
        !in_code(paras.drop_last())
    } else {
        in_code(paras.drop_last())
    }
}

/// The look of a heading.
pub open spec fn heading_look(level: usize) -> Look {
    if level == 1 {
        Look::plain().fg(Hue::Cyan).bold().underlined()
    } else if level == 2 {
        Look::plain().fg(Hue::Cyan).bold()
    } else {
        Look::plain().fg(Hue::LightCyan).bold()
    }
}

/// A line of an answer. Code is shown as it is, with a blank that stays where
/// there is none; a heading has its mark; the first line has the agent's mark,
/// and the others are indented.
pub open spec fn answer_line(para: Seq<char>, first: bool, code: bool) -> LineModel {
    if code {
        seq![
            (
                if text::trimmed(para).len() == 0 {
                    "\u{a0}"@
                } else {
                    para
                },
                Look::plain().fg(Hue::White).bg(chat_text::code_bg()),
            ),
        ]
    } else {
        match chat_text::level_of(para) {
            Some(level) => seq![
                (
                    "\u{258e} "@ + text::trimmed(para.skip(chat_text::leading(para, '#'))) + " "@,
                    heading_look(level),
                ),
            ],
            None => if !first && para.len() == 0 {
                seq![(seq![], Look::plain())]
            } else {
                (if first {
                    seq![("\u{25c6} "@, answer_look().bold())]
                } else {
                    seq![("  "@, answer_look())]
                }) + (if chat_text::is_row(para) {
                    chat_text::row_pieces(para, answer_look())
                } else {
                    chat_text::inline(para, answer_look())
                })
            },
        }
    }
}

/// The lines of an answer. The lines that open and close blocks of code are
/// not shown.
pub open spec fn answer_lines(paras: Seq<Seq<char>>) -> Seq<LineModel>
    decreases paras.len(),
{
    if paras.len() == 0 {
        seq![]
    } else if is_fence(paras.last()) {
        answer_lines(paras.drop_last())
    } else {
        answer_lines(paras.drop_last()).push(
            answer_line(paras.last(), paras.len() == 1, in_code(paras.drop_last())),
        )
    }
}

/// The lines before a place.
pub open spec fn kept(lines: Seq<LineModel>, idx: Option<usize>) -> Seq<LineModel> {
    match idx {
        Some(i) => if i < lines.len() {
            lines.take(i as int)
        } else {
            lines
        },
        None => lines,
    }
}

/// Where lines are replaced from: the place given, or the end.
pub open spec fn place_of(lines: Seq<LineModel>, idx: Option<usize>) -> Option<usize> {
    match idx {
        Some(i) => Some(i),
        None => Some(lines.len() as usize),
    }
}

/// The chat with the answer that is being streamed shown anew.
pub open spec fn answer_flushed(m: ChatModel) -> ChatModel {
    followed(
        ChatModel {
            lines: kept(m.lines, m.assistant_idx) + answer_lines(
                text::pieces(m.assistant_raw, '\n'),
            ),
            assistant_idx: place_of(m.lines, m.assistant_idx),
            ..m
        },
    )
}

/// The chat with more of an answer.
pub open spec fn answered(m: ChatModel, s: Seq<char>) -> ChatModel {
    answer_flushed(ChatModel { assistant_raw: m.assistant_raw + s, ..m })
}

/// The chat with the answer complete.
pub open spec fn answer_done(m: ChatModel) -> ChatModel {
    ChatModel { assistant_idx: None, assistant_raw: seq![], ..m }
}

/// The look of thoughts.
pub open spec fn thought_look() -> Look {
    Look::plain().fg(Hue::DarkGray).italic()
}

/// A line of thoughts.
pub open spec fn thought_line(line: Seq<char>, first: bool) -> LineModel {
    if line.len() == 0 && !first {
        seq![(seq![], Look::plain())]
    } else if first {
        seq![("\u{1f4ad} "@ + line, thought_look().bold())]
    } else {
        seq![("   "@ + line, thought_look())]
    }
}

/// The lines of thoughts.
pub open spec fn thought_lines(lines: Seq<Seq<char>>) -> Seq<LineModel> {
    Seq::new(lines.len(), |i: int| thought_line(lines[i], i == 0))
}

/// The line that stands for thoughts that have just begun.
pub open spec fn thinking_line() -> LineModel {
    seq![("\u{1f4ad} Thinking..."@, thought_look().bold())]
}

/// The line that stands for thoughts of a number of lines.
pub open spec fn folded_line(n: nat) -> LineModel {
    seq![
        (
            "\u{1f4ad} Thinking...  ("@ + (if n == 1 {
                "1 line"@
            } else {
                text::decimal(n) + " lines"@
            }) + ")  [click to expand]"@,
            thought_look().bold(),
        ),
    ]
}

/// The lines with one of them replaced, where there is one.
pub open spec fn replaced(lines: Seq<LineModel>, idx: usize, line: LineModel) -> Seq<LineModel> {
    if idx < lines.len() {
        lines.update(idx as int, line)
    } else {
        lines
    }
}

/// The chat with the thoughts that are being streamed shown anew.
pub open spec fn thoughts_flushed(m: ChatModel) -> ChatModel {
    followed(
        ChatModel {
            lines: kept(m.lines, m.thinking_idx) + thought_lines(
                text::pieces(m.thinking_raw, '\n'),
            ),
            thinking_idx: place_of(m.lines, m.thinking_idx),
            ..m
        },
    )
}

/// The chat with folded thoughts unfolded.
pub open spec fn unfolded(m: ChatModel) -> ChatModel {
    match m.collapsed_line {
        Some(i) => thoughts_flushed(
            ChatModel {
                collapsed_line: None,
                thinking_raw: m.collapsed_raw,
                collapsed_raw: seq![],
                thinking_idx: Some(i),
                ..m
            },
        ),
        None => m,
    }
}

/// The chat with a line for thoughts that have just begun.
pub open spec fn thinking_begun(m: ChatModel) -> ChatModel {
    followed(
        ChatModel {
            collapsed_line: Some(m.lines.len() as usize),
            lines: m.lines.push(thinking_line()),
            ..m
        },
    )
}

/// The chat with more thoughts. New thoughts begin folded away; those that were
/// complete before them are unfolded first.
pub open spec fn thought(m: ChatModel, s: Seq<char>) -> ChatModel {
    if m.collapsed_line is Some && m.thinking_raw.len() == 0 {
        let u = unfolded(m);
        thinking_begun(ChatModel { thinking_raw: u.thinking_raw + s, ..u })
    } else {
        let more = ChatModel { thinking_raw: m.thinking_raw + s, ..m };
        match m.collapsed_line {
            Some(i) => ChatModel {
                lines: replaced(
                    m.lines,
                    i,
                    folded_line(text::lines_of(more.thinking_raw).len()),
                ),
                ..more
            },
            None => if m.thinking_raw.len() == 0 && m.thinking_idx is None {
                thinking_begun(more)
            } else {
                thoughts_flushed(more)
            },
        }
    }
}

/// The chat with the thoughts complete.
pub open spec fn thoughts_done(m: ChatModel) -> ChatModel {
    match m.collapsed_line {
        Some(i) => ChatModel {
            collapsed_raw: m.thinking_raw,
            thinking_raw: seq![],
            lines: replaced(m.lines, i, folded_line(text::lines_of(m.thinking_raw).len())),
            ..m
        },
        None => ChatModel { thinking_idx: None, thinking_raw: seq![], ..m },
    }
}

// ---------------------------------------------------------------------------
// The conversation grows
// ---------------------------------------------------------------------------

/// Puts a line at the end of a list.
fn push_line(lines: &mut Vec<ChatLine>, line: ChatLine)
    ensures
        chat_text::line_views(final(lines)@) == chat_text::line_views(old(lines)@).push(line@),
{
    lines.push(line);
    assert(chat_text::line_views(lines@) =~= chat_text::line_views(old(lines)@).push(line@));
}

/// Replaces a line of a list, where there is one.
fn replace_line(lines: &mut Vec<ChatLine>, idx: usize, line: ChatLine)
    ensures
        chat_text::line_views(final(lines)@) == replaced(
            chat_text::line_views(old(lines)@),
            idx,
            line@,
        ),
{
    if idx < lines.len() {
        lines.set(idx, line);
    }
    assert(chat_text::line_views(lines@) =~= replaced(
        chat_text::line_views(old(lines)@),
        idx,
        line@,
    ));
}

/// Replaces the lines from a place on; without one, puts them at the end.
fn replace_from(lines: &mut Vec<ChatLine>, idx: Option<usize>, more: Vec<ChatLine>) -> (at: usize)
    ensures
        chat_text::line_views(final(lines)@) == kept(chat_text::line_views(old(lines)@), idx)
            + chat_text::line_views(more@),
        Some(at) == place_of(chat_text::line_views(old(lines)@), idx),
{
    let mut more = more;
    let ghost a = lines@;
    let ghost b = more@;
    let at: usize = match idx {
        Some(i) => i,
        None => lines.len(),
    };
    if at < lines.len() {
        lines.truncate(at);
    }
    assert(chat_text::line_views(lines@) =~= kept(chat_text::line_views(a), idx));
    let ghost c = lines@;
    lines.append(&mut more);
    assert(chat_text::line_views(lines@) =~= chat_text::line_views(c) + chat_text::line_views(b));
    at
}

/// An empty line.
fn empty_line() -> (r: ChatLine)
    ensures
        r@ == seq![(Seq::<char>::empty(), Look::plain())],
{
    let s = String::new();
    assert(s@ =~= Seq::<char>::empty());
    ChatLine::of(s, Look::plain())
}

/// Renders a line of an answer.
fn render_answer_line(para: &str, first: bool, code: bool) -> (r: ChatLine)
    ensures
        r@ == answer_line(para@, first, code),
{
    let base = Look::plain().fg(Hue::Green);
    if code {
        let blank = text::trim(para).as_str().is_empty();
        let display = if blank { "\u{a0}".to_owned() } else { para.to_owned() };
        return ChatLine::of(display, Look::plain().fg(Hue::White).bg(chat_text::code_bg()));
    }
    if let Some(level) = chat_text::heading_level(para) {
        let look = if level == 1 {
            Look::plain().fg(Hue::Cyan).bold().underlined()
        } else if level == 2 {
            Look::plain().fg(Hue::Cyan).bold()
        } else {
            Look::plain().fg(Hue::LightCyan).bold()
        };
        let v = text::chars_of(para);
        let n: usize = chat_text::count_leading(&v, '#');
        assert(v@.skip(n as int) =~= v@.subrange(n as int, v.len() as int));
        let title = text::trim(text::text_of(&v, n, v.len()).as_str());
        return ChatLine::of(text::cat3("\u{258e} ", title.as_str(), " "), look);
    }
    if !first && para.is_empty() {
        return empty_line();
    }
    let mut pieces: Vec<Piece> = Vec::new();
    if first {
        chat_text::push(&mut pieces, "\u{25c6} ".to_owned(), base.bold());
    } else {
        chat_text::push(&mut pieces, "  ".to_owned(), base);
    }
    let ghost head = chat_text::piece_views(pieces@);
    if chat_text::is_table_row(para) {
        chat_text::push_all(&mut pieces, chat_text::render_table_row(para, base));
    } else {
        chat_text::push_all(&mut pieces, chat_text::parse_inline_markdown(para, base));
    }
    let r = ChatLine { pieces };
    assert(r@ =~= answer_line(para@, first, code));
    r
}

/// Renders an answer.
fn render_answer(raw: &str) -> (r: Vec<ChatLine>)
    ensures
        chat_text::line_views(r@) == answer_lines(text::pieces(raw@, '\n')),
{
    let paras = text::split(raw, '\n');
    let ghost all = text::pieces(raw@, '\n');
    let mut r: Vec<ChatLine> = Vec::new();
    let mut code = false;
    let mut i: usize = 0;
    assert(chat_text::line_views(r@) =~= answer_lines(all.take(0)));
    while i < paras.len()
        invariant
            i <= paras.len(),
            text::views(paras@) == all,
            code == in_code(all.take(i as int)),
            chat_text::line_views(r@) == answer_lines(all.take(i as int)),
        decreases paras.len() - i,
    {
        proof {
            let next = all.take(i + 1);
            assert(next.drop_last() =~= all.take(i as int));
            assert(next.last() == paras@[i as int]@);
        }
        let para = paras[i].as_str();
        if text::starts_with(text::trim_start(para).as_str(), "```") {
            code = !code;
        } else {
            push_line(&mut r, render_answer_line(para, i == 0, code));
        }
        i += 1;
    }
    assert(all.take(i as int) =~= all);
    r
}

/// Renders thoughts.
fn render_thoughts(raw: &str) -> (r: Vec<ChatLine>)
    ensures
        chat_text::line_views(r@) == thought_lines(text::pieces(raw@, '\n')),
{
    let lines = text::split(raw, '\n');
    let ghost all = text::pieces(raw@, '\n');
    let ghost want = thought_lines(all);
    let look = Look::plain().fg(Hue::DarkGray).italic();
    let mut r: Vec<ChatLine> = Vec::new();
    let mut i: usize = 0;
    while i < lines.len()
        invariant
            i <= lines.len(),
            text::views(lines@) == all,
            want == thought_lines(all),
            look == thought_look(),
            chat_text::line_views(r@) == want.take(i as int),
        decreases lines.len() - i,
    {
        assert(all[i as int] == lines@[i as int]@);
        let line = lines[i].as_str();
        let rendered = if line.is_empty() && i > 0 {
            empty_line()
        } else if i == 0 {
            ChatLine::of(text::cat2("\u{1f4ad} ", line), look.bold())
        } else {
            ChatLine::of(text::cat2("   ", line), look)
        };
        assert(rendered@ =~= want[i as int]);
        push_line(&mut r, rendered);
        i += 1;
        assert(want.take(i as int) =~= want.take(i - 1).push(want[i - 1]));
    }
    assert(want.take(i as int) =~= want);
    r
}

/// The line that stands for thoughts that are folded away.
fn folded(raw: &str) -> (r: ChatLine)
    ensures
        r@ == folded_line(text::lines_of(raw@).len()),
{
    let n: usize = text::lines(raw).len();
    let count = if n == 1 {
        "1 line".to_owned()
    } else {
        text::cat2(text::number(n as u64).as_str(), " lines")
    };
    let s = text::cat3("\u{1f4ad} Thinking...  (", count.as_str(), ")  [click to expand]");
    ChatLine::of(s, Look::plain().fg(Hue::DarkGray).italic().bold())
}

impl TuiClient {
    /// A chat client at its start.
    pub fn new() -> (r: TuiClient)
        ensures
            r@ == fresh_chat(),
    {
        let r = TuiClient {
            chat_lines: Vec::new(),
            input: String::new(),
            cursor_pos: 0,
            session_id: String::new(),
            status: "Ready".to_owned(),
            running: true,
            auto_scroll: true,
            scroll_offset: 0,
            waiting_permission: false,
            waiting_question: false,
            permission_tool: String::new(),
            question_request_id: String::new(),
            questions: Vec::new(),
            processing: false,
            session_list: Vec::new(),
            waiting_session_list: false,
            command_selection: None,
            pending_tool_calls: StringMap::new(),
            pending_assistant_idx: None,
            pending_assistant_raw: String::new(),
            pending_thinking_idx: None,
            pending_thinking_raw: String::new(),
            collapsed_thinking_line: None,
            collapsed_thinking_raw: String::new(),
            selection_start: None,
            selection_end: None,
            selection_term_area: Area { x: 0, y: 0, width: 80, height: 24 },
            flash_message: None,
            ctrl_c_pressed: None,
            first: true,
        };
        assert(r@ =~= fresh_chat());
        r
    }

    /// Scrolls to the end, and follows the conversation from there.
    pub fn scroll_to_bottom(&mut self)
        ensures
            final(self)@ == (ChatModel { auto_scroll: true, scroll_offset: 0, ..old(self)@ }),
    {
        self.auto_scroll = true;
        self.scroll_offset = 0;
    }

    /// Scrolls to the end where the chat follows the conversation.
    fn follow(&mut self)
        ensures
            final(self)@ == followed(old(self)@),
    {
        if self.auto_scroll {
            self.scroll_to_bottom();
        }
    }

    /// Adds a line.
    pub fn add_line(&mut self, line: ChatLine)
        ensures
            final(self)@ == said(old(self)@, line@),
    {
        push_line(&mut self.chat_lines, line);
        self.follow();
    }

    /// Adds a message of the client.
    pub fn add_system_msg(&mut self, msg: String)
        ensures
            final(self)@ == noted(old(self)@, msg@),
    {
        let line = ChatLine::of(
            text::cat2("\u{2139} ", msg.as_str()),
            Look::plain().fg(Hue::Yellow),
        );
        self.add_line(line);
    }

    /// Adds what the user wrote.
    pub fn add_user_msg(&mut self, msg: String)
        ensures
            final(self)@ == said(old(self)@, user_line(msg@)),
    {
        let mut pieces: Vec<Piece> = Vec::new();
        chat_text::push(
            &mut pieces,
            "\u{25b6} ".to_owned(),
            Look::plain().fg(Hue::Cyan).bold(),
        );
        chat_text::push(&mut pieces, msg, Look::plain().fg(Hue::Cyan));
        let line = ChatLine { pieces };
        assert(line@ =~= user_line(msg@));
        self.add_line(line);
    }

    /// Adds a rule across the chat.
    pub fn add_separator(&mut self)
        ensures
            final(self)@ == said(old(self)@, separator_line()),
    {
        let line = ChatLine::of(
            text::repeat_char('\u{2500}', 60),
            Look::plain().fg(Hue::DarkGray),
        );
        self.add_line(line);
    }

    /// Shows the answer that is being streamed anew.
    pub fn flush_assistant(&mut self)
        ensures
            final(self)@ == answer_flushed(old(self)@),
    {
        let rendered = render_answer(self.pending_assistant_raw.as_str());
        let at: usize = replace_from(&mut self.chat_lines, self.pending_assistant_idx, rendered);
        self.pending_assistant_idx = Some(at);
        self.follow();
    }

    /// Adds to the answer that is being streamed.
    pub fn add_assistant_chunk(&mut self, s: &str)
        ensures
            final(self)@ == answered(old(self)@, s@),
    {
        self.pending_assistant_raw.append(s);
        self.flush_assistant();
    }

    /// Ends the answer that is being streamed.
    pub fn finish_assistant(&mut self)
        ensures
            final(self)@ == answer_done(old(self)@),
    {
        self.pending_assistant_idx = None;
        self.pending_assistant_raw = String::new();
        assert(self@ =~= answer_done(old(self)@));
    }

    /// Shows the thoughts that are being streamed anew.
    pub fn flush_thinking(&mut self)
        ensures
            final(self)@ == thoughts_flushed(old(self)@),
    {
        let rendered = render_thoughts(self.pending_thinking_raw.as_str());
        let at: usize = replace_from(&mut self.chat_lines, self.pending_thinking_idx, rendered);
        self.pending_thinking_idx = Some(at);
        self.follow();
    }

    /// Unfolds thoughts that were folded away.
    pub fn expand_thinking(&mut self)
        ensures
            final(self)@ == unfolded(old(self)@),
    {
        let idx: usize = match self.collapsed_thinking_line {
            Some(i) => i,
            None => {
                return;
            },
        };
        self.collapsed_thinking_line = None;
        self.pending_thinking_raw = self.collapsed_thinking_raw.clone();
        self.collapsed_thinking_raw = String::new();
        assert(self.collapsed_thinking_raw@ =~= seq![]);
        self.pending_thinking_idx = Some(idx);
        self.flush_thinking();
    }

    /// Adds a line for thoughts that have just begun.
    fn begin_thinking(&mut self)
        ensures
            final(self)@ == thinking_begun(old(self)@),
    {
        self.collapsed_thinking_line = Some(self.chat_lines.len());
        let line = ChatLine::of(
            "\u{1f4ad} Thinking...".to_owned(),
            Look::plain().fg(Hue::DarkGray).italic().bold(),
        );
        push_line(&mut self.chat_lines, line);
        self.follow();
    }

    /// Adds to the thoughts that are being streamed.
    pub fn add_thinking_chunk(&mut self, s: &str)
        ensures
            final(self)@ == thought(old(self)@, s@),
    {
        if self.collapsed_thinking_line.is_some() && self.pending_thinking_raw.as_str().is_empty() {
            self.expand_thinking();
            self.pending_thinking_raw.append(s);
            self.begin_thinking();
            return;
        }
        let start_new = self.pending_thinking_raw.as_str().is_empty()
            && self.collapsed_thinking_line.is_none() && self.pending_thinking_idx.is_none();
        self.pending_thinking_raw.append(s);
        if start_new {
            self.begin_thinking();
        } else if let Some(idx) = self.collapsed_thinking_line {
            let line = folded(self.pending_thinking_raw.as_str());
            replace_line(&mut self.chat_lines, idx, line);
        } else {
            self.flush_thinking();
        }
    }

    /// Ends the thoughts that are being streamed.
    pub fn finish_thinking(&mut self)
        ensures
            final(self)@ == thoughts_done(old(self)@),
    {
        if let Some(idx) = self.collapsed_thinking_line {
            self.collapsed_thinking_raw = self.pending_thinking_raw.clone();
            self.pending_thinking_raw = String::new();
            let line = folded(self.collapsed_thinking_raw.as_str());
            replace_line(&mut self.chat_lines, idx, line);
        } else {
            self.pending_thinking_idx = None;
            self.pending_thinking_raw = String::new();
        }
        assert(self@ =~= thoughts_done(old(self)@));
    }
}

// ---------------------------------------------------------------------------
// Tool calls
// ---------------------------------------------------------------------------

/// The mark of a tool call under way.
pub open spec fn call_mark() -> char {
    '\u{26a1}'
}

/// A text with the first place of a character replaced by a text.
pub open spec fn replaced_first(s: Seq<char>, c: char, t: Seq<char>) -> Seq<char> {
    let k = text::index_of(s, c);
    if k >= s.len() {
        s
    } else {
        s.take(k) + t + s.skip(k + 1)
    }
}

/// Replaces the first place of a character by a text.
fn replace_first(s: &str, c: char, t: &str) -> (r: String)
    ensures
        r@ == replaced_first(s@, c, t@),
{
    let v = text::chars_of(s);
    assert(v@.skip(0) =~= v@);
    proof {
        text::index_of_bounds(s@, c);
    }
    let k: usize = text::find_char(&v, 0, c);
    if k == v.len() {
        return s.to_owned();
    }
    assert(v@.subrange(0, k as int) =~= s@.take(k as int));
    assert(v@.subrange(k + 1, v.len() as int) =~= s@.skip(k + 1));
    text::cat3(
        text::text_of(&v, 0, k).as_str(),
        t,
        text::text_of(&v, k + 1, v.len()).as_str(),
    )
}

/// The line of a tool call under way.
pub open spec fn call_line(tool: Seq<char>, args: Seq<char>) -> LineModel {
    seq![
        (
            if args.len() == 0 {
                "  \u{26a1} "@ + tool
            } else {
                "  \u{26a1} "@ + tool + "  "@ + args
            },
            Look::plain().fg(Hue::Yellow),
        ),
    ]
}

/// The chat with a tool call under way.
pub open spec fn called(m: ChatModel, id: Seq<char>, tool: Seq<char>, args: Seq<char>) -> ChatModel {
    followed(
        ChatModel {
            lines: m.lines.push(call_line(tool, args)),
            calls: m.calls.insert(id, (m.lines.len() as usize, tool)),
            ..m
        },
    )
}

/// The mark of a tool call that ended.
pub open spec fn end_mark(success: bool) -> Seq<char> {
    if success {
        "\u{2713}"@
    } else {
        "\u{2717}"@
    }
}

/// The look of a tool call that ended.
pub open spec fn end_look(success: bool) -> Look {
    Look::plain().fg(
        if success {
            Hue::Green
        } else {
            Hue::Red
        },
    )
}

/// The line of a tool call with the mark of its end.
pub open spec fn ended_line(line: LineModel, success: bool) -> LineModel {
    if line.len() > 0 {
        line.update(
            0,
            (replaced_first(line[0].0, call_mark(), end_mark(success)), end_look(success)),
        )
    } else {
        line
    }
}

/// Whether a line begins with the mark of a tool call under way.
pub open spec fn has_call_mark(line: LineModel) -> bool {
    line.len() > 0 && line[0].0.contains(call_mark())
}

/// The chat with the mark of the end on a line, where there is one.
pub open spec fn ended_at(m: ChatModel, idx: usize, success: bool) -> ChatModel {
    followed(
        ChatModel {
            lines: if idx < m.lines.len() {
                m.lines.update(idx as int, ended_line(m.lines[idx as int], success))
            } else {
                m.lines
            },
            ..m
        },
    )
}

/// The chat with a tool call ended that is not known: it is taken for the one
/// on the last line; where there is none, the mark gets a line of its own.
pub open spec fn ended_unknown(m: ChatModel, success: bool) -> ChatModel {
    if m.lines.len() > 0 && has_call_mark(m.lines.last()) {
        followed(
            ChatModel {
                lines: m.lines.update(m.lines.len() - 1, ended_line(m.lines.last(), success)),
                ..m
            },
        )
    } else {
        said(m, seq![("  "@ + end_mark(success), end_look(success))])
    }
}

/// The chat with a tool call ended: its line gets the mark of its end.
pub open spec fn ended(m: ChatModel, id: Seq<char>, success: bool) -> ChatModel {
    if m.calls.dom().contains(id) {
        ended_at(ChatModel { calls: m.calls.remove(id), ..m }, m.calls[id].0, success)
    } else {
        ended_unknown(m, success)
    }
}

/// Whether the end of a tool call hands over a patch.
pub open spec fn hands_patch(m: ChatModel, id: Seq<char>, success: bool, msg: Seq<char>) -> bool {
    success && msg.len() > 0 && m.calls.dom().contains(id) && m.calls[id].1 == "TransferDiff"@
}

/// Puts the mark of the end on the line of a tool call.
fn end_line(line: &mut ChatLine, success: bool)
    ensures
        final(line)@ == ended_line(old(line)@, success),
{
    if line.pieces.len() > 0 {
        let ghost was = line@;
        let look = Look::plain().fg(if success { Hue::Green } else { Hue::Red });
        let mark = if success { "\u{2713}" } else { "\u{2717}" };
        assert(was[0] == line.pieces@[0]@);
        let s = replace_first(line.pieces[0].text.as_str(), '\u{26a1}', mark);
        line.pieces.set(0, Piece { text: s, look });
        assert(line@ =~= ended_line(was, success));
    }
}

/// Puts the mark of the end on a line of the chat.
fn end_line_at(lines: &mut Vec<ChatLine>, idx: usize, success: bool)
    requires
        idx < old(lines)@.len(),
    ensures
        chat_text::line_views(final(lines)@) == chat_text::line_views(old(lines)@).update(
            idx as int,
            ended_line(chat_text::line_views(old(lines)@)[idx as int], success),
        ),
{
    let mut line = lines[idx].copy();
    end_line(&mut line, success);
    lines.set(idx, line);
    assert(chat_text::line_views(lines@) =~= chat_text::line_views(old(lines)@).update(
        idx as int,
        line@,
    ));
}

impl TuiClient {
    /// Adds a tool call.
    pub fn add_tool_call(&mut self, id: &str, tool_name: &str, args: &str)
        ensures
            final(self)@ == called(old(self)@, id@, tool_name@, args@),
    {
        let s = if args.is_empty() {
            text::cat2("  \u{26a1} ", tool_name)
        } else {
            text::cat4("  \u{26a1} ", tool_name, "  ", args)
        };
        let idx: usize = self.chat_lines.len();
        push_line(&mut self.chat_lines, ChatLine::of(s, Look::plain().fg(Hue::Yellow)));
        let ghost was = self.pending_tool_calls@;
        let name = tool_name.to_owned();
        let _ = self.pending_tool_calls.insert(id.to_owned(), (idx, name));
        assert(call_views(self.pending_tool_calls@) =~= call_views(was).insert(
            id@,
            (idx, tool_name@),
        ));
        self.follow();
    }

    /// Puts the mark of the end on a line, where there is one.
    fn end_call_at(&mut self, idx: usize, success: bool)
        ensures
            final(self)@ == ended_at(old(self)@, idx, success),
    {
        if idx < self.chat_lines.len() {
            end_line_at(&mut self.chat_lines, idx, success);
        }
        self.follow();
    }

    /// Ends a tool call that is not known.
    fn end_unknown_call(&mut self, success: bool)
        ensures
            final(self)@ == ended_unknown(old(self)@, success),
    {
        let n: usize = self.chat_lines.len();
        if n > 0 {
            let last = &self.chat_lines[n - 1];
            assert(chat_text::line_views(self.chat_lines@).last() == last@);
            if last.pieces.len() > 0 {
                assert(last@[0] == last.pieces@[0]@);
                if has_char(last.pieces[0].text.as_str(), '\u{26a1}') {
                    self.end_call_at(n - 1, success);
                    return;
                }
            }
        }
        let mark = if success { "\u{2713}" } else { "\u{2717}" };
        let look = Look::plain().fg(if success { Hue::Green } else { Hue::Red });
        self.add_line(ChatLine::of(text::cat2("  ", mark), look));
    }

    /// Ends a tool call. Says whether what the tool returned is a patch to be
    /// saved.
    pub fn add_tool_result(&mut self, id: &str, success: bool, msg: &str) -> (save: bool)
        ensures
            final(self)@ == ended(old(self)@, id@, success),
            save == hands_patch(old(self)@, id@, success, msg@),
    {
        let ghost was = self.pending_tool_calls@;
        let found = self.pending_tool_calls.remove(id);
        assert(call_views(self.pending_tool_calls@) =~= call_views(was).remove(id@));
        match found {
            Some((idx, name)) => {
                self.end_call_at(idx, success);
                success && text::same(name.as_str(), "TransferDiff") && !msg.is_empty()
            },
            None => {
                assert(call_views(was).remove(id@) =~= call_views(was));
                self.end_unknown_call(success);
                false
            },
        }
    }
}

/// Whether a text holds a character.
fn has_char(s: &str, c: char) -> (r: bool)
    ensures
        r == s@.contains(c),
{
    let v = text::chars_of(s);
    assert(v@.skip(0) =~= v@);
    proof {
        text::index_of_bounds(s@, c);
    }
    let k: usize = text::find_char(&v, 0, c);
    k < v.len()
}

// ---------------------------------------------------------------------------
// Patches
// ---------------------------------------------------------------------------

/// Whether Unicode counts a character among letters and numbers.
pub uninterp spec fn alphanumeric(c: char) -> bool;

/// `char::is_alphanumeric` of std: a fixed set of characters, of which the
/// ASCII ones are the letters and the digits.
#[verifier::external_body]
fn is_alphanumeric(c: char) -> (r: bool)
    ensures
        r == alphanumeric(c),
        (c as u32) < 128 ==> r == ('a' <= c <= 'z' || 'A' <= c <= 'Z' || '0' <= c <= '9'),
{
    c.is_alphanumeric()
}

/// A text that can stand in a file's name: what is no letter, number or hyphen
/// becomes an underscore.
pub open spec fn safe_name(s: Seq<char>) -> Seq<char> {
    Seq::new(
        s.len(),
        |i: int|
            if alphanumeric(s[i]) || s[i] == '-' {
                s[i]
            } else {
                '_'
            },
    )
}

/// The name of the file that a patch is saved in.
pub fn patch_file_name(session_id: &str, stamp: &str) -> (r: String)
    ensures
        r@ == "transfer-"@ + safe_name(session_id@) + "-"@ + stamp@ + ".patch"@,
{
    let v = text::chars_of(session_id);
    let mut safe = String::new();
    let mut i: usize = 0;
    assert(safe@ =~= safe_name(session_id@).take(0));
    while i < v.len()
        invariant
            i <= v.len(),
            v@ == session_id@,
            safe@ == safe_name(session_id@).take(i as int),
        decreases v.len() - i,
    {
        let c = v[i];
        safe.push(if is_alphanumeric(c) || c == '-' { c } else { '_' });
        i += 1;
        assert(safe@ =~= safe_name(session_id@).take(i as int));
    }
    assert(safe_name(session_id@).take(i as int) =~= safe_name(session_id@));
    text::cat5("transfer-", safe.as_str(), "-", stamp, ".patch")
}

impl TuiClient {
    /// Says where a patch was saved and how large it is, or why it was not.
    pub fn report_patch(&mut self, file_name: &str, patch: &str, saved: Result<String, String>)
        ensures
            final(self)@ == match saved {
                Ok(path) => noted(
                    noted(old(self)@, "\u{2b06}\u{fe0f} Patch saved to "@ + path@),
                    "   ("@ + text::decimal((text::byte_len(patch@) / 1024) as nat) + " KB, "@
                        + text::decimal(text::lines_of(patch@).len()) + " lines)"@,
                ),
                Err(e) => noted(
                    old(self)@,
                    "\u{274c} Failed to save patch to '"@ + file_name@ + "': "@ + e@,
                ),
            },
    {
        match saved {
            Ok(path) => {
                self.add_system_msg(
                    text::cat2("\u{2b06}\u{fe0f} Patch saved to ", path.as_str()),
                );
                let kb: usize = text::len_in_bytes(patch) / 1024;
                let n: usize = text::lines(patch).len();
                let msg = text::cat5(
                    "   (",
                    text::number(kb as u64).as_str(),
                    " KB, ",
                    text::number(n as u64).as_str(),
                    " lines)",
                );
                self.add_system_msg(msg);
            },
            Err(e) => {
                let msg = text::cat4(
                    "\u{274c} Failed to save patch to '",
                    file_name,
                    "': ",
                    e.as_str(),
                );
                self.add_system_msg(msg);
            },
        }
    }
}

// ---------------------------------------------------------------------------
// Pieces of output
// ---------------------------------------------------------------------------

/// The field that a tool call is shown with.
pub open spec fn preview_field(input: JsonTree) -> Option<JsonTree> {
    match input.field("command"@) {
        Some(t) => Some(t),
        None => match input.field("file_path"@) {
            Some(t) => Some(t),
            None => input.field("pattern"@),
        },
    }
}

/// The text that a tool call is shown with.
pub open spec fn preview_text(input: JsonTree) -> Option<Seq<char>> {
    match preview_field(input) {
        Some(t) => t.text(),
        None => None,
    }
}

/// A text cut after a number of bytes, with an ellipsis where it was longer.
pub open spec fn clipped(s: Seq<char>, n: usize) -> Seq<char> {
    if text::byte_len(s) > n {
        text::first_bytes(s, n as int).push('\u{2026}')
    } else {
        s
    }
}

/// What a tool call is shown with: its command, file or pattern, clipped.
pub open spec fn preview(input: JsonTree) -> Seq<char> {
    match preview_text(input) {
        Some(s) => clipped(s, 80),
        None => seq![],
    }
}

/// Whether what a tool call is shown with can be clipped.
pub open spec fn previews(input: JsonTree) -> bool {
    match preview_text(input) {
        Some(s) => text::cuts_at(s, 80),
        None => true,
    }
}

/// Clips a text after a number of bytes.
pub fn clip(s: &str, n: usize) -> (r: String)
    requires
        text::cuts_at(s@, n as int),
    ensures
        r@ == clipped(s@, n),
{
    if text::len_in_bytes(s) > n {
        let mut r = text::take_bytes(s, n);
        r.push('\u{2026}');
        r
    } else {
        s.to_owned()
    }
}

/// The text that a tool call is shown with.
fn find_preview(input: &Json) -> (r: Option<String>)
    ensures
        match r {
            Some(s) => preview_text(input@) == Some(s@),
            None => preview_text(input@) is None,
        },
{
    let field = match input.get("command") {
        Some(j) => Some(j),
        None => match input.get("file_path") {
            Some(j) => Some(j),
            None => input.get("pattern"),
        },
    };
    match field {
        Some(j) => match j.as_text() {
            Some(s) => Some(s.clone()),
            None => None,
        },
        None => None,
    }
}

/// What a tool call is shown with.
pub fn tool_input_preview(input: &Json) -> (r: String)
    requires
        previews(input@),
    ensures
        r@ == preview(input@),
{
    match find_preview(input) {
        Some(s) => clip(s.as_str(), 80),
        None => {
            let r = String::new();
            assert(r@ =~= seq![]);
            r
        },
    }
}

/// Whether what a tool call is shown with can be clipped.
pub fn can_preview(input: &Json) -> (r: bool)
    ensures
        r == previews(input@),
{
    match find_preview(input) {
        Some(s) => text::can_cut(s.as_str(), 80),
        None => true,
    }
}

// ---------------------------------------------------------------------------
// Laws
// ---------------------------------------------------------------------------

/// An answer that comes in two pieces is shown as if it had come in one.
pub proof fn pieces_make_one_answer(m: ChatModel, a: Seq<char>, b: Seq<char>)
    requires
        m.lines.len() <= usize::MAX,
        m.assistant_idx matches Some(i) ==> i <= m.lines.len(),
    ensures
        answered(answered(m, a), b) == answered(m, a + b),
{
    let first = answered(m, a);
    assert(kept(first.lines, first.assistant_idx) =~= kept(m.lines, m.assistant_idx));
    assert(m.assistant_raw + a + b =~= m.assistant_raw + (a + b));
    assert(answered(answered(m, a), b) =~= answered(m, a + b));
}

/// Thoughts that were folded away are all there when they are unfolded: from
/// the line that stood for them on, every line of them is shown.
pub proof fn unfolding_shows_all_thoughts(m: ChatModel, idx: usize)
    requires
        m.collapsed_line == Some(idx),
        idx < m.lines.len(),
    ensures
        unfolded(thoughts_done(m)).lines == m.lines.take(idx as int) + thought_lines(
            text::pieces(m.thinking_raw, '\n'),
        ),
{
    let done = thoughts_done(m);
    assert(done.lines.take(idx as int) =~= m.lines.take(idx as int));
}

/// The end of a tool call that is under way marks its line and no other, and
/// the call is no longer under way.
pub proof fn ending_a_call_marks_its_line(
    m: ChatModel,
    id: Seq<char>,
    tool: Seq<char>,
    args: Seq<char>,
    success: bool,
)
    requires
        m.lines.len() < usize::MAX,
    ensures
        ({
            let after = ended(called(m, id, tool, args), id, success);
            &&& after.lines.len() == m.lines.len() + 1
            &&& after.lines.take(m.lines.len() as int) == m.lines
            &&& after.lines.last()[0].1 == end_look(success)
            &&& !after.calls.dom().contains(id)
        }),
{
    let after = ended(called(m, id, tool, args), id, success);
    assert(after.lines.take(m.lines.len() as int) =~= m.lines);
}

/// Whether a text holds no character that may set something off.
pub open spec fn unmarked(s: Seq<char>) -> bool {
    forall|i: int|
        0 <= i < s.len() ==> {
            let c = #[trigger] s[i];
            c != '*' && c != '`' && c != '[' && c != '~' && c != '#' && c != '|'
        }
}

/// A line of an answer in which nothing is set off shows its text, behind the agent's mark
/// on the first line and indented on the others.
pub proof fn unmarked_lines_show_their_text(para: Seq<char>, first: bool)
    requires
        unmarked(para),
    ensures
        !is_fence(para),
        chat_text::line_text(answer_line(para, first, false)) == if first {
            "\u{25c6} "@ + para
        } else if para.len() == 0 {
            para
        } else {
            "  "@ + para
        },
{
    let i = text::only_leading_space_goes(para);
    let t = text::trimmed_start(para);
    reveal_strlit("```");
    assert(!is_fence(para)) by {
        if is_fence(para) {
            assert(t.subrange(0, 3)[0] == "```"@[0]);
            assert(t[0] == para[i]);
        }
    }
    let (a, b) = text::only_space_is_trimmed(para);
    let u = text::trimmed(para);
    if u.len() > 0 {
        assert(u[0] == para[a]);
    }
    assert(chat_text::level_of(para) is None);
    assert(!chat_text::is_row(para));
    let line = answer_line(para, first, false);
    let look = answer_look();
    let mark = if first {
        seq![("\u{25c6} "@, look.bold())]
    } else {
        seq![("  "@, look)]
    };
    if !first && para.len() == 0 {
        chat_text::pieces_add_their_text(Seq::empty(), Seq::empty(), Look::plain());
        assert(chat_text::line_text(line) =~= para);
    } else {
        chat_text::pieces_add_their_text(Seq::empty(), mark[0].0, mark[0].1);
        assert(mark =~= seq![mark[0]]);
        if para.len() > 0 {
            chat_text::plain_text_is_one_piece(para, look);
            assert(line =~= mark.push((para, look)));
            chat_text::pieces_add_their_text(mark, para, look);
        } else {
            assert(chat_text::inline(para, look) =~= Seq::<(Seq<char>, Look)>::empty());
            assert(line =~= mark);
            assert(mark[0].0 + para =~= mark[0].0);
        }
    }
}

/// An answer in which nothing is set off has a line for each of its lines.
pub proof fn unmarked_answers_show_their_lines(paras: Seq<Seq<char>>)
    requires
        forall|i: int| 0 <= i < paras.len() ==> unmarked(#[trigger] paras[i]),
    ensures
        !in_code(paras),
        answer_lines(paras).len() == paras.len(),
        forall|i: int|
            0 <= i < paras.len() ==> #[trigger] chat_text::line_text(answer_lines(paras)[i])
                == if i == 0 {
                "\u{25c6} "@ + paras[i]
            } else if paras[i].len() == 0 {
                paras[i]
            } else {
                "  "@ + paras[i]
            },
    decreases paras.len(),
{
    if paras.len() > 0 {
        let before = paras.drop_last();
        assert forall|i: int| 0 <= i < before.len() implies unmarked(#[trigger] before[i]) by {
            assert(before[i] == paras[i]);
        }
        unmarked_answers_show_their_lines(before);
        unmarked_lines_show_their_text(paras.last(), paras.len() == 1);
        assert forall|i: int| 0 <= i < paras.len() implies #[trigger] chat_text::line_text(
            answer_lines(paras)[i],
        ) == if i == 0 {
            "\u{25c6} "@ + paras[i]
        } else if paras[i].len() == 0 {
            paras[i]
        } else {
            "  "@ + paras[i]
        } by {
            if i < before.len() {
                assert(answer_lines(paras)[i] == answer_lines(before)[i]);
                assert(before[i] == paras[i]);
            }
        }
    }
}

/// An answer has lines as soon as one of its lines neither opens nor closes a block of
/// code.
pub proof fn answers_have_lines(paras: Seq<Seq<char>>, i: int)
    requires
        0 <= i < paras.len(),
        !text::begins_with(text::trimmed_start(paras[i]), "```"@),
    ensures
        answer_lines(paras).len() > 0,
    decreases paras.len(),
{
    if i < paras.len() - 1 {
        assert(paras.drop_last()[i] == paras[i]);
        answers_have_lines(paras.drop_last(), i);
    }
}

/// What stands in a block of code is shown as it is, but for blank lines, which keep a
/// blank; a heading is shown without its mark; what opens and closes a block is not shown.
pub proof fn code_is_shown_as_it_is(paras: Seq<Seq<char>>, fence: Seq<char>, code: Seq<char>)
    requires
        !in_code(paras),
        text::begins_with(text::trimmed_start(fence), "```"@),
        !text::begins_with(text::trimmed_start(code), "```"@),
        text::trimmed(code).len() > 0,
    ensures
        answer_lines(paras.push(fence)) == answer_lines(paras),
        answer_lines(paras.push(fence).push(code)).len() == answer_lines(paras).len() + 1,
        chat_text::line_text(answer_lines(paras.push(fence).push(code)).last()) == code,
        answer_lines(paras.push(fence).push(code).push(fence)) == answer_lines(
            paras.push(fence).push(code),
        ),
        !in_code(paras.push(fence).push(code).push(fence)),
{
    let a = paras.push(fence);
    let b = a.push(code);
    let c = b.push(fence);
    assert(a.drop_last() =~= paras);
    assert(b.drop_last() =~= a);
    assert(c.drop_last() =~= b);
    assert(in_code(a));
    assert(answer_lines(a) == answer_lines(paras));
    let line = answer_line(code, b.len() == 1, true);
    assert(answer_lines(b) == answer_lines(a).push(line));
    chat_text::pieces_add_their_text(Seq::empty(), code, line[0].1);
    assert(line =~= seq![(code, line[0].1)]);
    assert(in_code(b));
}

/// A heading is shown behind its mark, without its hashes, the higher ones more strongly.
pub proof fn headings_are_shown(n: int, title: Seq<char>, first: bool)
    requires
        1 <= n <= 6,
        title.len() > 0,
        title[0] != '#',
        !text::is_space(title[0]),
        !text::is_space(title.last()),
    ensures
        ({
            let line = answer_line(
                text::repeated('#', n) + (seq![' '] + title),
                first,
                false,
            );
            &&& line.len() == 1
            &&& line[0].0 == "\u{258e} "@ + title + " "@
            &&& line[0].1.bold
            &&& line[0].1.underlined == (n == 1)
            &&& line[0].1.fg == Some(
                if n <= 2 {
                    Hue::Cyan
                } else {
                    Hue::LightCyan
                },
            )
        }),
{
    chat_text::hashes_make_headings(n, title);
}

/// What the user said, and what the client says, is shown behind a mark; a line parts one turn
/// from the next.
pub proof fn lines_have_their_marks(msg: Seq<char>)
    ensures
        chat_text::line_text(user_line(msg)) == "\u{25b6} "@ + msg,
        chat_text::line_text(system_line(msg)) == "\u{2139} "@ + msg,
        chat_text::line_text(separator_line()) == text::repeated('\u{2500}', 60),
{
    let look = Look::plain().fg(Hue::Cyan).bold();
    let after = Look::plain().fg(Hue::Cyan);
    let head: LineModel = seq![("\u{25b6} "@, look)];
    chat_text::pieces_add_their_text(head, msg, after);
    chat_text::pieces_add_their_text(head, "\u{25b6} "@, look);
    assert(user_line(msg) =~= head.push((msg, after)));
    chat_text::pieces_add_their_text(
        head,
        "\u{2139} "@ + msg,
        Look::plain().fg(Hue::Yellow),
    );
    chat_text::pieces_add_their_text(
        head,
        text::repeated('\u{2500}', 60),
        Look::plain().fg(Hue::DarkGray),
    );
}

/// What is said goes last, and the view follows where it follows.
pub proof fn what_is_said_goes_last(m: ChatModel, line: LineModel)
    ensures
        said(m, line).lines == m.lines.push(line),
        m.auto_scroll ==> said(m, line).scroll_offset == 0,
        !m.auto_scroll ==> said(m, line).scroll_offset == m.scroll_offset,
        said(m, line).input == m.input,
        said(m, line).auto_scroll == m.auto_scroll,
{
}

/// Thoughts are shown line by line, the first behind a mark, the others under it.
pub proof fn thoughts_are_shown_line_by_line(lines: Seq<Seq<char>>, i: int)
    requires
        0 <= i < lines.len(),
    ensures
        thought_lines(lines).len() == lines.len(),
        thought_lines(lines)[i].len() == 1,
        i == 0 ==> thought_lines(lines)[i][0].0 == "\u{1f4ad} "@ + lines[i],
        i > 0 && lines[i].len() > 0 ==> thought_lines(lines)[i][0].0 == "   "@ + lines[i],
        i > 0 && lines[i].len() == 0 ==> thought_lines(lines)[i][0].0.len() == 0,
{
}

/// Thoughts that are folded away say how many lines they are.
pub proof fn folded_thoughts_say_how_many(n: nat)
    ensures
        n != 1 ==> folded_line(n)[0].0 == "\u{1f4ad} Thinking...  ("@ + (text::decimal(n)
            + " lines"@) + ")  [click to expand]"@,
        folded_line(1)[0].0 == "\u{1f4ad} Thinking...  ("@ + "1 line"@
            + ")  [click to expand]"@,
{
}

/// A call is shown with its tool and what it works on; when it ends, the mark in its line says
/// how, in green or red.
pub proof fn calls_are_shown(tool: Seq<char>, args: Seq<char>, success: bool)
    ensures
        call_line(tool, Seq::empty())[0].0 == "  \u{26a1} "@ + tool,
        args.len() > 0 ==> call_line(tool, args)[0].0 == "  \u{26a1} "@ + tool + "  "@ + args,
        chat_text::line_text(ended_line(call_line(tool, Seq::empty()), success))
            == seq![' ', ' '] + (if success {
            seq!['\u{2713}']
        } else {
            seq!['\u{2717}']
        }) + seq![' '] + tool,
        ended_line(call_line(tool, args), success)[0].1.fg == Some(
            if success {
                Hue::Green
            } else {
                Hue::Red
            },
        ),
{
    reveal_strlit("  \u{26a1} ");
    reveal_strlit("\u{2713}");
    reveal_strlit("\u{2717}");
    let mark = "  \u{26a1} "@;
    assert(mark =~= seq![' ', ' '] + seq!['\u{26a1}'] + seq![' ']);
    let s = mark + tool;
    assert(s =~= seq![' ', ' '] + seq!['\u{26a1}'] + (seq![' '] + tool));
    text::the_first_place_is_found(seq![' ', ' '], '\u{26a1}', seq![' '] + tool);
    assert(s.take(2) =~= seq![' ', ' ']);
    assert(s.skip(3) =~= seq![' '] + tool);
    let line = ended_line(call_line(tool, Seq::empty()), success);
    assert(line =~= seq![line[0]]);
    chat_text::pieces_add_their_text(line, line[0].0, line[0].1);
    assert(end_mark(success) =~= if success {
        seq!['\u{2713}']
    } else {
        seq!['\u{2717}']
    });
    assert(line[0].0 =~= seq![' ', ' '] + end_mark(success) + (seq![' '] + tool));
}

/// What a tool is to work on is its command, or else its file, or else its pattern, cut to
/// eighty bytes.
pub proof fn calls_are_previewed(input: JsonTree, s: Seq<char>)
    ensures
        (input.field("command"@) matches Some(t) && t.text() == Some(s) && text::byte_len(s) <= 80)
            ==> preview(input) == s,
        (input.field("command"@) matches Some(t) && t.text() == Some(s) && text::byte_len(s) > 80)
            ==> preview(input) == text::first_bytes(s, 80).push('\u{2026}'),
        (input.field("command"@) is None && (input.field("file_path"@) matches Some(t) && t.text()
            == Some(s) && text::byte_len(s) <= 80)) ==> preview(input) == s,
        (input.field("command"@) is None && input.field("file_path"@) is None && (input.field(
            "pattern"@,
        ) matches Some(t) && t.text() == Some(s) && text::byte_len(s) <= 80)) ==> preview(input)
            == s,
        input.field("command"@) is None && input.field("file_path"@) is None && input.field(
            "pattern"@,
        ) is None ==> preview(input).len() == 0,
{
}

/// A name is made safe character by character: letters, digits and hyphens stay, everything
/// else becomes a low line.
pub proof fn names_are_made_safe(s: Seq<char>, i: int)
    requires
        0 <= i < s.len(),
    ensures
        safe_name(s).len() == s.len(),
        alphanumeric(s[i]) || s[i] == '-' ==> safe_name(s)[i] == s[i],
        !alphanumeric(s[i]) && s[i] != '-' ==> safe_name(s)[i] == '_',
{
}

/// A chat starts empty, ready for input and at the end of the conversation.
pub proof fn chats_start_empty()
    ensures
        fresh_chat().lines.len() == 0,
        fresh_chat().input.len() == 0 && fresh_chat().cursor_pos == 0,
        fresh_chat().status == "Ready"@,
        fresh_chat().running && fresh_chat().auto_scroll && fresh_chat().first,
        !fresh_chat().processing && !fresh_chat().waiting_permission
            && !fresh_chat().waiting_question && !fresh_chat().waiting_session_list,
        fresh_chat().session_id.len() == 0,
        fresh_chat().calls == Map::<Seq<char>, (usize, Seq<char>)>::empty(),
{
}

/// A blank line of code is shown as a line that is not empty.
pub proof fn blank_code_is_shown(para: Seq<char>, first: bool)
    requires
        text::trimmed(para).len() == 0,
    ensures
        answer_line(para, first, true).len() == 1,
        answer_line(para, first, true)[0].0 == "\u{a0}"@,
{
}

/// The end of a call that is not known is shown in the last line where that is a call, and in a
/// line of its own otherwise.
pub proof fn ends_of_unknown_calls_are_shown(m: ChatModel, id: Seq<char>, success: bool)
    requires
        !m.calls.dom().contains(id),
        m.lines.len() > 0,
    ensures
        ({
            let after = ended(m, id, success);
            let mark: Seq<char> = if success {
                "\u{2713}"@
            } else {
                "\u{2717}"@
            };
            let call = m.lines.last().len() > 0 && m.lines.last()[0].0.contains('\u{26a1}');
            &&& call ==> after.lines.len() == m.lines.len() && after.lines.drop_last()
                == m.lines.drop_last() && after.lines.last()[0].1.fg == Some(
                if success {
                    Hue::Green
                } else {
                    Hue::Red
                },
            )
            &&& !call ==> after.lines.len() == m.lines.len() + 1 && after.lines.drop_last()
                == m.lines && after.lines.last()[0].0 == "  "@ + mark
            &&& after.calls == m.calls
        }),
{
    let after = ended(m, id, success);
    if m.lines.last().len() > 0 && m.lines.last()[0].0.contains('\u{26a1}') {
        assert(after.lines.drop_last() =~= m.lines.drop_last());
    } else {
        assert(after.lines.drop_last() =~= m.lines);
    }
}

} // verus!
