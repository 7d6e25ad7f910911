//! A frame of the chat client: what is drawn, and where.

use vstd::prelude::*;

use crate::chat;
use crate::chat::{Area, ChatModel, TuiClient};
use crate::chat_commands;
use crate::chat_commands::{CommandDef, DefModel};
use crate::chat_text;
use crate::chat_text::{ChatLine, Hue, LineModel, Look, Piece};
use crate::chat_view;
use crate::chat_view::Row;
use crate::text;

verus! {

/// A message drawn over the conversation.
pub struct Overlay {
    pub x: u32,
    pub y: u32,
    pub width: u32,
    pub line: ChatLine,
}

/// A frame: for each part of the terminal, where it lies and what it shows.
pub struct Plan {
    pub chat_area: Area,
    pub visible: Vec<ChatLine>,
    pub status_area: Area,
    pub status: ChatLine,
    pub commands: Option<(Area, Vec<ChatLine>)>,
    pub input_area: Area,
    pub input_lines: Vec<ChatLine>,
    pub cursor: Option<(u32, u32)>,
    pub flash: Option<Overlay>,
}

// ---------------------------------------------------------------------------
// The conversation
// ---------------------------------------------------------------------------

/// What is selected, from the first place to the last.
pub open spec fn selected_range(m: ChatModel, chat: Area) -> Option<
    ((usize, usize), (usize, usize)),
> {
    match (m.selection_start, m.selection_end) {
        (Some(s), Some(e)) => match (
            chat_view::content_at(m, chat, s.0 as int, s.1 as int),
            chat_view::content_at(m, chat, e.0 as int, e.1 as int),
        ) {
            (Some(a), Some(b)) => if chat_view::is_behind(a, b) {
                Some((b, a))
            } else {
                Some((a, b))
            },
            _ => None,
        },
        _ => None,
    }
}

/// The columns of a line that are selected.
pub open spec fn selected_columns(range: ((usize, usize), (usize, usize)), i: int) -> (int, int) {
    let (a, b) = range;
    (
        if i == a.0 {
            a.1 as int
        } else {
            0
        },
        if i == b.0 {
            b.1 as int
        } else {
            usize::MAX as int
        },
    )
}

/// A line with what is selected marked.
pub open spec fn with_selection(
    line: LineModel,
    i: int,
    range: Option<((usize, usize), (usize, usize))>,
) -> LineModel {
    match range {
        Some(r) => if r.0.0 <= i <= r.1.0 {
            chat_text::marked_line(line, selected_columns(r, i).0, selected_columns(r, i).1)
        } else {
            line
        },
        None => line,
    }
}

/// A line of code with its background drawn to the border.
pub open spec fn padded_code(line: LineModel, width: int) -> LineModel {
    if line.len() > 0 && line[0].1.bg == Some(chat_text::code_bg()) && chat_text::line_len(line)
        < width {
        line.push(
            (
                text::repeated(' ', width - chat_text::line_len(line)),
                Look::plain().bg(chat_text::code_bg()),
            ),
        )
    } else {
        line
    }
}

/// What greets the user.
pub open spec fn welcome_line() -> LineModel {
    seq![("Welcome! Type a message to start."@, Look::plain().fg(Hue::DarkGray).italic())]
}

/// The lines of the conversation as they are drawn.
pub open spec fn drawn_lines(
    m: ChatModel,
    range: Option<((usize, usize), (usize, usize))>,
    width: int,
) -> Seq<LineModel> {
    if m.lines.len() == 0 {
        seq![welcome_line()]
    } else {
        Seq::new(
            m.lines.len(),
            |i: int| padded_code(with_selection(m.lines[i], i, range), width),
        )
    }
}

/// How many lines are drawn at once: one less than fit, so that a line that
/// wraps does not push the last one out.
pub open spec fn page_lines(chat: Area) -> int {
    if chat_view::inner_height(chat) < 1 {
        0
    } else {
        chat_view::inner_height(chat) - 1
    }
}

/// The lines in view.
pub open spec fn lines_in_view(m: ChatModel, all: Seq<LineModel>, page: int) -> Seq<LineModel> {
    let scroll = chat_view::first_line(m, all.len() as int, page);
    let start = if scroll < all.len() {
        scroll
    } else {
        all.len() - 1
    };
    let end = if start + page < all.len() {
        start + page
    } else {
        all.len() as int
    };
    if start < end {
        all.subrange(start, end)
    } else {
        seq![all[0]]
    }
}

impl TuiClient {
    /// What is selected, from the first place to the last.
    fn selected_range(&self, chat: Area) -> (r: Option<((usize, usize), (usize, usize))>)
        ensures
            r == selected_range(self@, chat),
    {
        match (self.selection_start, self.selection_end) {
            (Some(s), Some(e)) => {
                let a = self.screen_to_content(s.0, s.1, chat);
                let b = self.screen_to_content(e.0, e.1, chat);
                match (a, b) {
                    (Some(a), Some(b)) => {
                        if a.0 > b.0 || (a.0 == b.0 && a.1 > b.1) {
                            Some((b, a))
                        } else {
                            Some((a, b))
                        }
                    },
                    _ => None,
                }
            },
            _ => None,
        }
    }

    /// Draws a line of the conversation.
    fn draw_line(
        &self,
        i: usize,
        range: Option<((usize, usize), (usize, usize))>,
        width: usize,
    ) -> (r: ChatLine)
        requires
            i < self@.lines.len(),
        ensures
            r@ == padded_code(with_selection(self@.lines[i as int], i as int, range), width as int),
    {
        let mut line = self.chat_lines[i].copy();
        if let Some((a, b)) = range {
            if i >= a.0 && i <= b.0 {
                let from: usize = if i == a.0 { a.1 } else { 0 };
                let to: usize = if i == b.0 { b.1 } else { usize::MAX };
                line = chat_text::apply_selection_to_line(&line, from, to);
            }
        }
        let ghost shown = line@;
        assert(shown == with_selection(self@.lines[i as int], i as int, range));
        if line.pieces.len() > 0 {
            assert(shown[0] == line.pieces@[0]@);
            let code = match line.pieces[0].look.bg {
                Some(h) => h == chat_text::code_bg(),
                None => false,
            };
            assert(code == (shown[0].1.bg == Some(chat_text::code_bg())));
            if code {
                if let Some(n) = room_left(&line, width) {
                    chat_text::push(
                        &mut line.pieces,
                        text::repeat_char(' ', n),
                        Look::plain().bg(chat_text::code_bg()),
                    );
                    proof {
                        chat_text::line_len_bounds(shown);
                    }
                }
            }
        }
        assert(line@ =~= padded_code(shown, width as int));
        line
    }

    /// Draws the lines of the conversation.
    fn draw_lines(&self, range: Option<((usize, usize), (usize, usize))>, width: usize) -> (r: Vec<
        ChatLine,
    >)
        ensures
            chat_text::line_views(r@) == drawn_lines(self@, range, width as int),
            r@.len() > 0,
    {
        let mut r: Vec<ChatLine> = Vec::new();
        if self.chat_lines.len() == 0 {
            let line = ChatLine::of(
                "Welcome! Type a message to start.".to_owned(),
                Look::plain().fg(Hue::DarkGray).italic(),
            );
            r.push(line);
            assert(chat_text::line_views(r@) =~= drawn_lines(self@, range, width as int));
            return r;
        }
        let ghost want = drawn_lines(self@, range, width as int);
        let mut i: usize = 0;
        while i < self.chat_lines.len()
            invariant
                i <= self.chat_lines.len(),
                self.chat_lines.len() > 0,
                want == drawn_lines(self@, range, width as int),
                chat_text::line_views(r@) == want.take(i as int),
                r@.len() == i,
            decreases self.chat_lines.len() - i,
        {
            let ghost was = chat_text::line_views(r@);
            let line = self.draw_line(i, range, width);
            r.push(line);
            assert(chat_text::line_views(r@) =~= was.push(line@));
            i += 1;
            assert(want.take(i as int) =~= want.take(i - 1).push(want[i - 1]));
        }
        assert(want.take(i as int) =~= want);
        r
    }

    /// The lines in view.
    fn lines_in_view(&self, all: &Vec<ChatLine>, page: usize) -> (r: Vec<ChatLine>)
        requires
            all@.len() > 0,
        ensures
            chat_text::line_views(r@) == lines_in_view(
                self@,
                chat_text::line_views(all@),
                page as int,
            ),
    {
        let n: usize = all.len();
        let max: usize = if n > page { n - page } else { 0 };
        let scroll: usize = if self.auto_scroll {
            max
        } else if self.scroll_offset < max {
            max - self.scroll_offset
        } else {
            0
        };
        let start: usize = if scroll < n { scroll } else { n - 1 };
        let end: usize = if page < n - start { start + page } else { n };
        let ghost views = chat_text::line_views(all@);
        let mut r: Vec<ChatLine> = Vec::new();
        if start < end {
            let mut i: usize = start;
            assert(chat_text::line_views(r@) =~= views.subrange(start as int, start as int));
            while i < end
                invariant
                    start <= i <= end <= all.len(),
                    views == chat_text::line_views(all@),
                    chat_text::line_views(r@) == views.subrange(start as int, i as int),
                decreases end - i,
            {
                let ghost was = chat_text::line_views(r@);
                let line = all[i].copy();
                r.push(line);
                assert(chat_text::line_views(r@) =~= was.push(line@));
                i += 1;
                assert(views.subrange(start as int, i as int) =~= was.push(views[i - 1]));
            }
        } else {
            let line = all[0].copy();
            r.push(line);
            assert(chat_text::line_views(r@) =~= seq![views[0]]);
        }
        r
    }
}

/// How many columns a line leaves free.
fn room_left(line: &ChatLine, width: usize) -> (r: Option<usize>)
    ensures
        r == if chat_text::line_len(line@) < width {
            Some((width - chat_text::line_len(line@)) as usize)
        } else {
            None
        },
{
    let mut left: usize = width;
    let mut i: usize = 0;
    while i < line.pieces.len()
        invariant
            i <= line.pieces.len(),
            left > 0 || width == 0,
            width == 0 ==> left == 0,
            width > 0 ==> left == width - chat_text::line_len(line@.take(i as int)),
        decreases line.pieces.len() - i,
    {
        let n: usize = text::chars_of(line.pieces[i].text.as_str()).len();
        proof {
            let next = line@.take(i + 1);
            assert(next.drop_last() =~= line@.take(i as int));
            assert(next.last() == line@[i as int]);
        }
        if n >= left {
            proof {
                len_grows(line@, i + 1);
                chat_text::line_len_bounds(line@);
            }
            return None;
        }
        left = left - n;
        i += 1;
    }
    assert(line@.take(i as int) =~= line@);
    proof {
        chat_text::line_len_bounds(line@);
    }
    if left == 0 {
        None
    } else {
        Some(left)
    }
}

/// A line is no shorter than its beginning.
proof fn len_grows(line: LineModel, n: int)
    requires
        0 <= n <= line.len(),
    ensures
        chat_text::line_len(line.take(n)) <= chat_text::line_len(line),
    decreases line.len() - n,
{
    if n < line.len() {
        len_grows(line, n + 1);
        assert(line.take(n + 1).drop_last() =~= line.take(n));
    } else {
        assert(line.take(n) =~= line);
    }
}

// ---------------------------------------------------------------------------
// The status line
// ---------------------------------------------------------------------------

/// The status, with how far the chat is scrolled where it does not follow the
/// conversation.
pub open spec fn status_text(m: ChatModel, total: int, page: int) -> Seq<char> {
    let max = chat_view::max_scroll(total, page);
    if !m.auto_scroll && total > page {
        m.status + " [SCRL "@ + text::decimal(
            if m.scroll_offset < max {
                m.scroll_offset as nat
            } else {
                max as nat
            },
        ) + "/"@ + text::decimal(max as nat) + "]"@
    } else {
        m.status
    }
}

/// Whether the status line can be drawn: it fits, or can be cut.
pub open spec fn status_fits(s: Seq<char>, width: u16) -> bool {
    let room: int = if width < 2 {
        0
    } else {
        width - 2
    };
    let cut: int = if width < 3 {
        0
    } else {
        width - 3
    };
    text::byte_len(s) <= room || vstd::utf8::is_char_boundary(vstd::utf8::encode_utf8(s), cut)
}

/// The status line, cut to the width of the terminal.
pub open spec fn status_line(s: Seq<char>, width: u16) -> LineModel {
    let room: int = if width < 2 {
        0
    } else {
        width - 2
    };
    let cut: int = if width < 3 {
        0
    } else {
        width - 3
    };
    seq![
        (
            " "@ + (if text::byte_len(s) > room {
                text::first_bytes(s, cut).push('\u{2026}')
            } else {
                s
            }),
            Look::plain().fg(Hue::White).bg(Hue::Blue).bold(),
        ),
    ]
}

impl TuiClient {
    /// The status, with how far the chat is scrolled.
    fn status_text(&self, total: usize, page: usize) -> (r: String)
        ensures
            r@ == status_text(self@, total as int, page as int),
    {
        if !self.auto_scroll && total > page {
            let max: usize = total - page;
            let pos: usize = if self.scroll_offset < max { self.scroll_offset } else { max };
            text::cat6(
                self.status.as_str(),
                " [SCRL ",
                text::number(pos as u64).as_str(),
                "/",
                text::number(max as u64).as_str(),
                "]",
            )
        } else {
            self.status.clone()
        }
    }
}

/// Draws the status line; nothing, where it can not be cut.
fn draw_status(s: &str, width: u16) -> (r: Option<ChatLine>)
    ensures
        match r {
            Some(line) => status_fits(s@, width) && line@ == status_line(s@, width),
            None => !status_fits(s@, width),
        },
{
    let room: usize = if width < 2 { 0 } else { (width - 2) as usize };
    let cut: usize = if width < 3 { 0 } else { (width - 3) as usize };
    let shown = if text::len_in_bytes(s) > room {
        if !s.is_char_boundary(cut) {
            return None;
        }
        let mut head = text::take_bytes(s, cut);
        head.push('\u{2026}');
        head
    } else {
        s.to_owned()
    };
    Some(
        ChatLine::of(
            text::cat2(" ", shown.as_str()),
            Look::plain().fg(Hue::White).bg(Hue::Blue).bold(),
        ),
    )
}

// ---------------------------------------------------------------------------
// The commands
// ---------------------------------------------------------------------------

/// Whether the commands that the input may mean are shown.
pub open spec fn shows_commands(m: ChatModel) -> bool {
    chat_commands::matches_of(m.input).len() > 0 && !m.processing && !m.waiting_permission
        && !m.waiting_question
}

/// A command as it is shown.
pub open spec fn command_line(def: DefModel, selected: bool) -> LineModel {
    seq![
        (
            (if selected {
                "\u{25b8} "@
            } else {
                "  "@
            }) + chat_commands::written(def) + "  \u{2014} "@ + def.desc,
            if selected {
                Look::plain().fg(Hue::White).bg(chat_text::selection_bg())
            } else {
                Look::plain().fg(Hue::Cyan)
            },
        ),
    ]
}

/// The commands as they are shown.
pub open spec fn command_lines(m: ChatModel) -> Seq<LineModel> {
    let found = chat_commands::matches_of(m.input);
    Seq::new(
        found.len(),
        |i: int| command_line(found[i].1, m.command_selection == Some(i as usize)),
    )
}

impl TuiClient {
    /// Draws the commands that the input may mean.
    fn draw_commands(&self, found: &Vec<(usize, CommandDef)>) -> (r: Vec<ChatLine>)
        requires
            chat_commands::match_views(found@) == chat_commands::matches_of(self@.input),
        ensures
            chat_text::line_views(r@) == command_lines(self@),
    {
        let mut r: Vec<ChatLine> = Vec::new();
        let ghost want = command_lines(self@);
        let mut i: usize = 0;
        while i < found.len()
            invariant
                i <= found.len(),
                want == command_lines(self@),
                want.len() == found.len(),
                chat_commands::match_views(found@) == chat_commands::matches_of(self@.input),
                chat_text::line_views(r@) == want.take(i as int),
            decreases found.len() - i,
        {
            assert(chat_commands::match_views(found@)[i as int] == (
                found@[i as int].0,
                found@[i as int].1@,
            ));
            let def = found[i].1;
            let selected = match self.command_selection {
                Some(n) => n == i,
                None => false,
            };
            let prefix = if selected { "\u{25b8} " } else { "  " };
            let look = if selected {
                Look::plain().fg(Hue::White).bg(chat_text::selection_bg())
            } else {
                Look::plain().fg(Hue::Cyan)
            };
            let name = chat_commands::format_command(&def);
            let s = text::cat4(prefix, name.as_str(), "  \u{2014} ", def.desc);
            let line = ChatLine::of(s, look);
            let ghost was = chat_text::line_views(r@);
            assert(line@ =~= want[i as int]);
            r.push(line);
            assert(chat_text::line_views(r@) =~= was.push(line@));
            i += 1;
            assert(want.take(i as int) =~= want.take(i - 1).push(want[i - 1]));
        }
        assert(want.take(i as int) =~= want);
        r
    }
}

// ---------------------------------------------------------------------------
// The input
// ---------------------------------------------------------------------------

/// A text cut into lines of a width.
pub open spec fn cut_lines(s: Seq<char>, width: int) -> Seq<LineModel>
    decreases s.len(),
{
    if s.len() == 0 || width <= 0 {
        seq![]
    } else if s.len() <= width {
        seq![seq![(s, Look::plain())]]
    } else {
        seq![seq![(s.take(width), Look::plain())]] + cut_lines(s.skip(width), width)
    }
}

/// The lines of the input as they are drawn.
pub open spec fn input_lines(input: Seq<char>, width: int) -> Seq<LineModel> {
    let all: Seq<LineModel> = if input.len() == 0 {
        seq![seq![("Type a message..."@, Look::plain().fg(Hue::DarkGray).italic())]]
    } else if width > 0 {
        cut_lines(input, width)
    } else {
        seq![seq![(input, Look::plain())]]
    };
    let rows = chat_view::input_rows(input.len(), width);
    if all.len() <= rows {
        all
    } else {
        all.take(rows)
    }
}

/// Draws the lines of the input.
fn draw_input(input: &str, width: usize, rows: u16) -> (r: Vec<ChatLine>)
    requires
        rows == chat_view::input_rows(input@.len(), width as int),
        rows >= 1,
    ensures
        chat_text::line_views(r@) == input_lines(input@, width as int),
{
    let mut r: Vec<ChatLine> = Vec::new();
    let v = text::chars_of(input);
    if v.len() == 0 || width == 0 {
        let line = if v.len() == 0 {
            ChatLine::of(
                "Type a message...".to_owned(),
                Look::plain().fg(Hue::DarkGray).italic(),
            )
        } else {
            ChatLine::of(input.to_owned(), Look::plain())
        };
        r.push(line);
        assert(chat_text::line_views(r@) =~= seq![line@]);
        return r;
    }
    let ghost all = cut_lines(input@, width as int);
    let mut i: usize = 0;
    let mut n: u16 = 0;
    assert(v@.skip(0) =~= v@);
    assert(chat_text::line_views(r@) + all =~= all);
    while i < v.len() && n < rows
        invariant
            i <= v.len(),
            n <= rows,
            width > 0,
            v@ == input@,
            r@.len() == n,
            all == cut_lines(input@, width as int),
            chat_text::line_views(r@) + cut_lines(v@.skip(i as int), width as int) == all,
        decreases v.len() - i,
    {
        let rest: usize = v.len() - i;
        let to: usize = if rest <= width { v.len() } else { i + width };
        let ghost here = v@.skip(i as int);
        let ghost was = chat_text::line_views(r@);
        let line = ChatLine::of(text::text_of(&v, i, to), Look::plain());
        r.push(line);
        assert(chat_text::line_views(r@) =~= was.push(line@));
        proof {
            if rest <= width {
                assert(here =~= v@.subrange(i as int, to as int));
                assert(cut_lines(v@.skip(to as int), width as int) =~= seq![]);
            } else {
                assert(here.take(width as int) =~= v@.subrange(i as int, to as int));
                assert(here.skip(width as int) =~= v@.skip(to as int));
            }
            assert(chat_text::line_views(r@) + cut_lines(v@.skip(to as int), width as int) =~= was
                + cut_lines(here, width as int));
        }
        i = to;
        n += 1;
    }
    proof {
        let shown = chat_text::line_views(r@);
        if i == v.len() {
            assert(cut_lines(v@.skip(i as int), width as int) =~= seq![]);
            assert(shown =~= all);
        } else {
            assert(shown =~= all.take(rows as int));
            assert(all.len() >= rows);
            if all.len() == rows {
                assert(all.take(rows as int) =~= all);
            }
        }
    }
    r
}

/// Where the cursor stands, where it is in view.
pub open spec fn cursor_at(m: ChatModel, area: Area, input_area: Area) -> Option<(u32, u32)> {
    let width = chat_view::inner_width(area);
    if width > 0 && m.cursor_pos <= text::byte_len(m.input) {
        let y = input_area.y + 1 + (m.cursor_pos as int / width) % 65536;
        let x = input_area.x + 1 + m.cursor_pos as int % width;
        if x < input_area.x + (if input_area.width < 1 {
            0
        } else {
            input_area.width - 1
        }) && y < input_area.y + 2 + chat_view::input_rows(m.input.len(), width) {
            Some((x as u32, y as u32))
        } else {
            None
        }
    } else {
        None
    }
}

impl TuiClient {
    /// Where the cursor stands, where it is in view.
    fn place_cursor(&self, area: Area, input_area: Area, rows: u16) -> (r: Option<(u32, u32)>)
        requires
            rows == chat_view::input_rows(self@.input.len(), chat_view::inner_width(area)),
            rows <= 10,
        ensures
            r == cursor_at(self@, area, input_area),
    {
        let width: usize = chat_view::width_inside(area);
        if width == 0 || self.cursor_pos > text::len_in_bytes(self.input.as_str()) {
            return None;
        }
        let down: usize = (self.cursor_pos / width) % 65536;
        let right: usize = self.cursor_pos % width;
        assert(right < width <= 65533);
        let y: u32 = input_area.y as u32 + 1 + down as u32;
        let x: u32 = input_area.x as u32 + 1 + right as u32;
        let w: u32 = if input_area.width < 1 { 0 } else { input_area.width as u32 - 1 };
        if x < input_area.x as u32 + w && y < input_area.y as u32 + 2 + rows as u32 {
            Some((x, y))
        } else {
            None
        }
    }
}

// ---------------------------------------------------------------------------
// The message over the conversation
// ---------------------------------------------------------------------------

/// How wide a message over the conversation is drawn.
pub open spec fn flash_width(msg: Seq<char>, chat: Area) -> int {
    let len = text::byte_len(msg) as int % 65536;
    let room: int = if chat.width < 4 {
        0
    } else {
        chat.width - 4
    };
    if len < room {
        len
    } else {
        room
    }
}

/// Where a message over the conversation begins.
pub open spec fn flash_x(msg: Seq<char>, chat: Area) -> int {
    let room = chat_view::inner_width(chat) - flash_width(msg, chat);
    chat.x + (if room < 0 {
        0
    } else {
        room
    })
}

/// Whether an overlay is what a message over the conversation looks like.
pub open spec fn flash_shows(o: Overlay, msg: Seq<char>, chat: Area) -> bool {
    &&& o.x == flash_x(msg, chat)
    &&& o.y == chat.y + chat_view::inner_height(chat)
    &&& o.width == flash_width(msg, chat) + 2
    &&& o.line@ == seq![
        (" "@ + msg, Look::plain().fg(Hue::Black).bg(Hue::LightGreen).bold()),
    ]
}

/// Whether a message over the conversation is drawn.
pub open spec fn flashes(m: ChatModel, chat: Area) -> bool {
    match m.flash {
        Some((msg, _)) => flash_width(msg, chat) > 0 && flash_x(msg, chat) > chat.x,
        None => false,
    }
}

impl TuiClient {
    /// Draws the message over the conversation.
    fn draw_flash(&self, chat: Area) -> (r: Option<Overlay>)
        ensures
            match r {
                Some(o) => flashes(self@, chat) && flash_shows(o, (self@.flash->0).0, chat),
                None => !flashes(self@, chat),
            },
    {
        let msg = match &self.flash_message {
            Some((msg, _)) => msg,
            None => {
                return None;
            },
        };
        let len: usize = text::len_in_bytes(msg.as_str()) % 65536;
        let room: u32 = if chat.width < 4 { 0 } else { chat.width as u32 - 4 };
        let w: u32 = if (len as u32) < room { len as u32 } else { room };
        let inner: u32 = chat_view::width_inside(chat) as u32;
        let right: u32 = if inner < w { 0 } else { inner - w };
        let x: u32 = chat.x as u32 + right;
        let y: u32 = chat.y as u32 + chat_view::height_inside(chat) as u32;
        if w > 0 && x > chat.x as u32 {
            let line = ChatLine::of(
                text::cat2(" ", msg.as_str()),
                Look::plain().fg(Hue::Black).bg(Hue::LightGreen).bold(),
            );
            Some(Overlay { x, y, width: w + 2, line })
        } else {
            None
        }
    }
}

// ---------------------------------------------------------------------------
// The frame
// ---------------------------------------------------------------------------

/// How many parts the terminal has.
pub open spec fn part_count(m: ChatModel) -> int {
    if shows_commands(m) {
        4
    } else {
        3
    }
}

/// The status line of a frame, before it is cut.
pub open spec fn frame_status(m: ChatModel, chat: Area) -> Seq<char> {
    status_text(
        m,
        if m.lines.len() == 0 {
            1
        } else {
            m.lines.len() as int
        },
        page_lines(chat),
    )
}

/// Whether a frame shows the chat on a terminal that is split into parts.
/// `selection_chat` is where the conversation lay when the selection began.
pub open spec fn frame_shows(
    plan: Plan,
    m: ChatModel,
    area: Area,
    parts: Seq<Area>,
    selection_chat: Area,
) -> bool {
    let chat = parts[0];
    let drawn = drawn_lines(
        m,
        selected_range(m, selection_chat),
        chat_view::inner_width(chat),
    );
    &&& plan.chat_area == chat
    &&& chat_text::line_views(plan.visible@) == lines_in_view(m, drawn, page_lines(chat))
    &&& plan.status_area == parts[1]
    &&& status_fits(frame_status(m, chat), parts[1].width)
    &&& plan.status@ == status_line(frame_status(m, chat), parts[1].width)
    &&& match plan.commands {
        Some((a, lines)) => shows_commands(m) && a == parts[2] && chat_text::line_views(lines@)
            == command_lines(m),
        None => !shows_commands(m),
    }
    &&& plan.input_area == parts[part_count(m) - 1]
    &&& chat_text::line_views(plan.input_lines@) == input_lines(
        m.input,
        chat_view::inner_width(area),
    )
    &&& plan.cursor == cursor_at(m, area, plan.input_area)
    &&& match plan.flash {
        Some(o) => flashes(m, chat) && flash_shows(o, (m.flash->0).0, chat),
        None => !flashes(m, chat),
    }
}

/// Whether a frame was drawn on a terminal that is split into parts. There is
/// none where the status line can not be cut.
pub open spec fn drawn_in(
    r: Option<Plan>,
    m: ChatModel,
    area: Area,
    parts: Seq<Area>,
    selection_chat: Area,
) -> bool {
    parts.len() == part_count(m) && match r {
        Some(plan) => frame_shows(plan, m, area, parts, selection_chat),
        None => !status_fits(frame_status(m, parts[0]), parts[1].width),
    }
}

/// The parts of a terminal: the conversation, the status line, the commands where
/// they are shown, and the input.
pub open spec fn frame_rows(m: ChatModel, area: Area) -> Seq<Row> {
    let lines = chat_view::input_rows(m.input.len(), chat_view::inner_width(area));
    let n = chat_commands::matches_of(m.input).len();
    let input = Row::Length((2 + lines) as u16);
    if shows_commands(m) {
        let shown = if n < 5 {
            n as int
        } else {
            5
        };
        seq![Row::Min(1), Row::Length(1), Row::Length((shown + 2) as u16), input]
    } else {
        seq![Row::Min(1), Row::Length(1), input]
    }
}

/// Whether a frame was drawn on a terminal that was split into some parts.
pub open spec fn drawn(
    r: Option<Plan>,
    m: ChatModel,
    area: Area,
    parts: Seq<Area>,
    selection_chat: Area,
) -> bool {
    &&& drawn_in(r, m, area, parts, selection_chat)
    &&& chat_view::laid_out(parts, area, frame_rows(m, area))
    &&& chat_view::conversation_lies(m, m.selection_term_area, selection_chat)
}

impl TuiClient {
    /// Draws a frame on a terminal that is split into parts; nothing, where the
    /// status line can not be cut.
    pub fn render_in(&self, area: Area, parts: &Vec<Area>, selection_chat: Area) -> (r: Option<
        Plan,
    >)
        requires
            parts@.len() == part_count(self@),
        ensures
            drawn_in(r, self@, area, parts@, selection_chat),
    {
        let chat_area = parts[0];
        let range = self.selected_range(selection_chat);
        let drawn = self.draw_lines(range, chat_view::width_inside(chat_area));
        let inside: usize = chat_view::height_inside(chat_area);
        let page: usize = if inside < 1 { 0 } else { inside - 1 };
        assert(drawn@.len() == drawn_lines(
            self@,
            range,
            chat_view::inner_width(chat_area),
        ).len());
        let visible = self.lines_in_view(&drawn, page);
        let status = match draw_status(
            self.status_text(drawn.len(), page).as_str(),
            parts[1].width,
        ) {
            Some(line) => line,
            None => {
                return None;
            },
        };
        let found = chat_commands::matching_commands(self.input.as_str());
        assert(found@.len() == chat_commands::match_views(found@).len());
        let commands = if found.len() > 0 && !self.processing && !self.waiting_permission
            && !self.waiting_question {
            Some((parts[2], self.draw_commands(&found)))
        } else {
            None
        };
        let input_area = parts[parts.len() - 1];
        let width: usize = chat_view::width_inside(area);
        let rows: u16 = chat_view::count_input_rows(self.char_count(), width);
        let lines = draw_input(self.input.as_str(), width, rows);
        let cursor = self.place_cursor(area, input_area, rows);
        let flash = self.draw_flash(chat_area);
        Some(
            Plan {
                chat_area,
                visible,
                status_area: parts[1],
                status,
                commands,
                input_area,
                input_lines: lines,
                cursor,
                flash,
            },
        )
    }

    /// Draws a frame on a terminal; nothing, where the status line can not be
    /// cut to its width.
    pub fn render(&self, area: Area) -> (r: Option<Plan>)
        ensures
            exists|parts: Seq<Area>, selection_chat: Area| #[trigger]
                drawn(r, self@, area, parts, selection_chat),
    {
        let width: usize = chat_view::width_inside(area);
        let lines: u16 = chat_view::count_input_rows(self.char_count(), width);
        let found = chat_commands::matching_commands(self.input.as_str());
        assert(found@.len() == chat_commands::match_views(found@).len());
        let mut rows = vec![Row::Min(1), Row::Length(1)];
        if found.len() > 0 && !self.processing && !self.waiting_permission
            && !self.waiting_question {
            let n: u16 = if found.len() < 5 { found.len() as u16 } else { 5 };
            rows.push(Row::Length(n + 2));
        }
        rows.push(Row::Length(2 + lines));
        let parts = chat_view::split_rows(area, &rows);
        let selection_chat = self.chat_area_from_size(self.selection_term_area);
        let r = self.render_in(area, &parts, selection_chat);
        assert(rows@ =~= frame_rows(self@, area));
        assert(drawn(r, self@, area, parts@, selection_chat));
        r
    }
}

// ---------------------------------------------------------------------------
// Laws
// ---------------------------------------------------------------------------

/// No more lines are in view than fit on a page, but one always is, and they
/// stand in their order.
pub proof fn a_page_of_lines_is_in_view(m: ChatModel, all: Seq<LineModel>, page: int)
    requires
        all.len() > 0,
        page >= 0,
    ensures
        1 <= lines_in_view(m, all, page).len(),
        lines_in_view(m, all, page).len() <= if page < 1 {
            1
        } else {
            page
        },
        exists|start: int|
            0 <= start && start + lines_in_view(m, all, page).len() <= all.len() && lines_in_view(
                m,
                all,
                page,
            ) == #[trigger] all.subrange(start, start + lines_in_view(m, all, page).len()),
{
    let shown = lines_in_view(m, all, page);
    let scroll = chat_view::first_line(m, all.len() as int, page);
    let start = if scroll < all.len() {
        scroll
    } else {
        all.len() - 1
    };
    let first: int = if page > 0 {
        start
    } else {
        0
    };
    assert(shown =~= all.subrange(first, first + shown.len()));
}

/// A chat that follows the conversation shows its last line.
pub proof fn the_last_line_is_in_view(m: ChatModel, all: Seq<LineModel>, page: int)
    requires
        all.len() > 0,
        page > 0,
        m.auto_scroll,
    ensures
        lines_in_view(m, all, page).last() == all.last(),
{
}

/// An empty conversation welcomes the user; in any other each line is drawn in its place.
pub proof fn conversations_are_drawn(
    m: ChatModel,
    range: Option<((usize, usize), (usize, usize))>,
    width: int,
    i: int,
)
    ensures
        m.lines.len() == 0 ==> drawn_lines(m, range, width).len() == 1 && drawn_lines(
            m,
            range,
            width,
        )[0][0].0 == "Welcome! Type a message to start."@,
        m.lines.len() > 0 ==> drawn_lines(m, range, width).len() == m.lines.len(),
        0 <= i < m.lines.len() && range is None && chat_text::line_len(m.lines[i]) >= width
            ==> drawn_lines(m, range, width)[i] == m.lines[i],
        0 <= i < m.lines.len() && range is None && (m.lines[i].len() == 0 || m.lines[i][0].1.bg
            != Some(Hue::Rgb(40, 40, 50))) ==> drawn_lines(m, range, width)[i] == m.lines[i],
{
}

/// The lines of code are filled up to the width of the conversation.
pub proof fn code_is_filled_up(line: LineModel, width: int)
    requires
        line.len() > 0,
        line[0].1.bg == Some(Hue::Rgb(40, 40, 50)),
        chat_text::line_len(line) < width,
    ensures
        chat_text::line_len(padded_code(line, width)) == width,
        padded_code(line, width).drop_last() == line,
        padded_code(line, width).last().1.bg == Some(Hue::Rgb(40, 40, 50)),
{
    let after = padded_code(line, width);
    assert(after.drop_last() =~= line);
    chat_text::line_len_bounds(line);
}

/// The lines of the selection are marked, from where it begins to where it ends; the others
/// are not.
pub proof fn the_selection_is_marked(
    line: LineModel,
    i: int,
    a: (usize, usize),
    b: (usize, usize),
)
    ensures
        i < a.0 || i > b.0 ==> with_selection(line, i, Some((a, b))) == line,
        a.0 < i < b.0 ==> with_selection(line, i, Some((a, b))) == chat_text::marked_line(
            line,
            0,
            usize::MAX as int,
        ),
        i == a.0 && i < b.0 ==> with_selection(line, i, Some((a, b))) == chat_text::marked_line(
            line,
            a.1 as int,
            usize::MAX as int,
        ),
        a.0 < i && i == b.0 ==> with_selection(line, i, Some((a, b))) == chat_text::marked_line(
            line,
            0,
            b.1 as int,
        ),
        a.0 == i && i == b.0 ==> with_selection(line, i, Some((a, b))) == chat_text::marked_line(
            line,
            a.1 as int,
            b.1 as int,
        ),
        with_selection(line, i, None) == line,
{
}

/// Each row of the input shows the characters that come next, as many as fit.
pub proof fn the_input_is_shown_row_by_row(s: Seq<char>, width: int, i: int)
    requires
        width > 0,
        0 <= i,
        i * width < s.len(),
    ensures
        i < cut_lines(s, width).len(),
        (i + 1) * width <= s.len() ==> cut_lines(s, width)[i] == seq![
            (s.subrange(i * width, (i + 1) * width), Look::plain()),
        ],
        (i + 1) * width > s.len() ==> cut_lines(s, width)[i] == seq![
            (s.subrange(i * width, s.len() as int), Look::plain()),
        ],
    decreases i,
{
    assert((i + 1) * width == i * width + width) by (nonlinear_arith);
    if i == 0 {
        assert(s.subrange(0, s.len() as int) =~= s);
        assert(i * width == 0) by (nonlinear_arith)
            requires
                i == 0,
        ;
        if width <= s.len() {
            assert(s.take(width) =~= s.subrange(0, width));
        }
    } else {
        assert(i * width >= width) by (nonlinear_arith)
            requires
                i >= 1,
                width > 0,
        ;
        assert((i - 1) * width == i * width - width) by (nonlinear_arith);
        let rest = s.skip(width);
        the_input_is_shown_row_by_row(rest, width, i - 1);
        assert(cut_lines(s, width)[i] == cut_lines(rest, width)[i - 1]);
        assert(i - 1 + 1 == i);
        if (i + 1) * width <= s.len() {
            assert(rest.subrange(i * width - width, i * width) =~= s.subrange(
                i * width,
                i * width + width,
            ));
        } else {
            assert(rest.subrange(i * width - width, rest.len() as int) =~= s.subrange(
                i * width,
                s.len() as int,
            ));
        }
    }
}

/// Where nothing is typed the input says what it is for; what is typed on one row is shown
/// as it is.
pub proof fn short_input_is_shown(input: Seq<char>, width: int)
    requires
        width > 0,
    ensures
        input_lines(Seq::empty(), width).len() == 1,
        input_lines(Seq::empty(), width)[0][0].0 == "Type a message..."@,
        0 < input.len() <= width ==> input_lines(input, width) == seq![
            seq![(input, Look::plain())],
        ],
{
    if 0 < input.len() <= width {
        chat_view::input_takes_the_rows_it_fills(input.len(), width);
    }
}

/// The status stands behind a blank; one that is too long is cut, and a mark says so.
pub proof fn the_status_is_shown(s: Seq<char>, width: u16)
    requires
        width >= 3,
    ensures
        text::byte_len(s) <= width - 2 ==> status_line(s, width)[0].0 == " "@ + s,
        text::byte_len(s) > width - 2 ==> status_line(s, width)[0].0 == " "@ + text::first_bytes(
            s,
            width - 3,
        ).push('\u{2026}'),
        status_line(s, width).len() == 1,
{
}

/// The status says where in the conversation the view is while it does not follow the end.
pub proof fn the_status_says_where_the_view_is(m: ChatModel, total: int, page: int)
    requires
        0 <= page,
        0 <= total,
    ensures
        m.auto_scroll ==> status_text(m, total, page) == m.status,
        total <= page ==> status_text(m, total, page) == m.status,
        !m.auto_scroll && m.scroll_offset + page <= total && total > page ==> status_text(
            m,
            total,
            page,
        ) == m.status + " [SCRL "@ + text::decimal(m.scroll_offset as nat) + "/"@ + text::decimal(
            (total - page) as nat,
        ) + "]"@,
{
}

/// The commands that what is typed finds are shown, one on a line with what it does, and the
/// chosen one has a mark; not while the agent works or waits for an answer.
pub proof fn commands_are_shown(m: ChatModel, i: int)
    ensures
        m.processing || m.waiting_permission || m.waiting_question ==> !shows_commands(m),
        chat_commands::matches_of(m.input).len() == 0 ==> !shows_commands(m),
        !m.processing && !m.waiting_permission && !m.waiting_question
            && chat_commands::matches_of(m.input).len() > 0 ==> shows_commands(m),
        command_lines(m).len() == chat_commands::matches_of(m.input).len(),
        0 <= i < command_lines(m).len() <= usize::MAX ==> {
            let def = chat_commands::matches_of(m.input)[i].1;
            command_lines(m)[i][0].0 == (if m.command_selection == Some(i as usize) {
                "\u{25b8} "@
            } else {
                "  "@
            }) + chat_commands::written(def) + "  \u{2014} "@ + def.desc
        },
{
}

/// The cursor stands where the next character goes: rows and columns are counted from the
/// inside of the frame.
pub proof fn the_cursor_stands_in_the_input(m: ChatModel, area: Area, input_area: Area)
    requires
        m.cursor_pos <= text::byte_len(m.input),
        m.cursor_pos < chat_view::inner_width(area),
        m.cursor_pos + 2 < input_area.width,
    ensures
        cursor_at(m, area, input_area) == Some(
            ((input_area.x + 1 + m.cursor_pos) as u32, (input_area.y + 1) as u32),
        ),
{
    let width = chat_view::inner_width(area);
    assert(m.cursor_pos as int / width == 0 && m.cursor_pos as int % width == m.cursor_pos) by {
        vstd::arithmetic::div_mod::lemma_basic_div(m.cursor_pos as int, width);
        vstd::arithmetic::div_mod::lemma_small_mod(m.cursor_pos as nat, width as nat);
    }
    if m.input.len() > 0 {
        chat_view::input_takes_the_rows_it_fills(m.input.len(), width);
    }
}

/// A message for a while stands behind a blank in the last row inside the frame, at its right
/// end.
pub proof fn messages_for_a_while_are_shown(o: Overlay, msg: Seq<char>, chat: Area)
    requires
        flash_shows(o, msg, chat),
        0 < text::byte_len(msg) < 65536,
        text::byte_len(msg) + 4 < chat.width,
        chat.height >= 2,
    ensures
        o.line@[0].0 == " "@ + msg,
        o.width == text::byte_len(msg) + 2,
        o.y == chat.y + chat.height - 2,
        o.x + o.width == chat.x + chat.width,
{
}

/// A frame has the conversation, the status and the input, and the commands where they are
/// shown, between the status and the input.
pub proof fn frames_have_their_parts(m: ChatModel, area: Area)
    ensures
        frame_rows(m, area).len() == part_count(m),
        frame_rows(m, area)[0] == Row::Min(1),
        frame_rows(m, area)[1] == Row::Length(1),
        shows_commands(m) ==> part_count(m) == 4,
        !shows_commands(m) ==> part_count(m) == 3,
        shows_commands(m) && chat_commands::matches_of(m.input).len() <= 5 ==> frame_rows(
            m,
            area,
        )[2] == Row::Length((chat_commands::matches_of(m.input).len() + 2) as u16),
        shows_commands(m) && chat_commands::matches_of(m.input).len() > 5 ==> frame_rows(
            m,
            area,
        )[2] == Row::Length(7),
        frame_rows(m, area).last() == Row::Length(
            (2 + chat_view::input_rows(m.input.len(), chat_view::inner_width(area))) as u16,
        ),
{
}

} // verus!
