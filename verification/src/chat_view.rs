//! What the chat client draws: where the parts of the terminal lie, which
//! lines are in view, and what is selected.

use vstd::prelude::*;

use crate::chat;
use crate::chat::{Area, ChatModel, TuiClient};
use crate::chat_commands;
use crate::chat_commands::{CommandDef, DefModel};
use crate::chat_text;
use crate::chat_text::{ChatLine, Hue, LineModel, Look, Piece};
use crate::text;

verus! {

// ---------------------------------------------------------------------------
// Layout
// ---------------------------------------------------------------------------

/// The height of a part of the terminal.
#[derive(Clone, Copy, Debug, PartialEq, Eq, Structural)]
pub enum Row {
    Min(u16),
    Length(u16),
}

/// The height that a part asks for.
pub open spec fn asked(row: Row) -> int {
    match row {
        Row::Min(n) => n as int,
        Row::Length(n) => n as int,
    }
}

/// The height that parts ask for together.
pub open spec fn asked_by(rows: Seq<Row>) -> int
    decreases rows.len(),
{
    if rows.len() == 0 {
        0
    } else {
        asked_by(rows.drop_last()) + asked(rows.last())
    }
}

/// Whether there is room for parts of which the first is to grow and the others
/// have their heights.
pub open spec fn have_room(area: Area, rows: Seq<Row>) -> bool {
    &&& area.y + area.height <= u16::MAX
    &&& rows.len() > 0
    &&& rows[0] is Min
    &&& forall|i: int| 0 < i < rows.len() ==> #[trigger] rows[i] is Length
    &&& asked_by(rows) <= area.height
}

/// Whether parts lie one under the other in an area, each as wide as the area.
pub open spec fn stacked(parts: Seq<Area>, area: Area) -> bool {
    &&& forall|i: int|
        0 <= i < parts.len() ==> {
            let part = #[trigger] parts[i];
            &&& part.x == area.x
            &&& part.width == area.width
            &&& area.y <= part.y
            &&& part.y + part.height <= area.y + area.height
        }
    &&& forall|i: int, j: int|
        0 <= i < j < parts.len() ==> (#[trigger] parts[i]).y + parts[i].height <= (
        #[trigger] parts[j]).y
}

/// Whether parts are what an area is split into. Where there is room, the first
/// part gets what the others leave, and the others get what they ask for.
pub open spec fn laid_out(parts: Seq<Area>, area: Area, rows: Seq<Row>) -> bool {
    &&& parts.len() == rows.len()
    &&& stacked(parts, area)
    &&& have_room(area, rows) ==> {
        let spare = area.height - asked_by(rows);
        &&& parts[0].y == area.y
        &&& parts[0].height == asked(rows[0]) + spare
        &&& forall|i: int|
            0 < i < parts.len() ==> {
                &&& (#[trigger] parts[i]).height == asked(rows[i])
                &&& parts[i].y == area.y + spare + asked_by(rows.take(i))
            }
    }
}

/// `Layout::split` of `ratatui`, from top to bottom. The solver that shares the
/// height out always keeps the parts in order and inside the area, and leaves no
/// gap where all wishes can be granted: a length counts for more than the growth
/// of a minimum, and that for more than the gap behind the last part. How it
/// decides where there is too little room is left open.
#[verifier::external_body]
pub(crate) fn split_rows(area: Area, rows: &Vec<Row>) -> (r: Vec<Area>)
    ensures
        laid_out(r@, area, rows@),
{
    let Area { x, y, width, height } = area;
    let heights = rows.iter().map(|r| match *r {
        Row::Min(n) => ratatui::layout::Constraint::Min(n),
        Row::Length(n) => ratatui::layout::Constraint::Length(n),
    });
    ratatui::layout::Layout::vertical(heights)
        .split(ratatui::layout::Rect { x, y, width, height })
        .iter()
        .map(|r| Area { x: r.x, y: r.y, width: r.width, height: r.height })
        .collect()
}

/// How many lines the input takes: as many as its characters fill, but at
/// least one and at most ten.
pub open spec fn input_rows(chars: nat, inner_width: int) -> int {
    if chars == 0 || inner_width <= 0 {
        1
    } else {
        let n = (chars + inner_width - 1) / inner_width;
        if n > 10 {
            10
        } else {
            n
        }
    }
}

/// How wide a part is inside its border.
pub open spec fn inner_width(area: Area) -> int {
    if area.width < 2 {
        0
    } else {
        area.width - 2
    }
}

/// How many lines the input takes.
pub fn count_input_rows(chars: usize, inner: usize) -> (r: u16)
    ensures
        r == input_rows(chars as nat, inner as int),
        1 <= r <= 10,
{
    if chars == 0 || inner == 0 {
        return 1;
    }
    let n: usize = (chars - 1) / inner + 1;
    proof {
        let c = chars as int;
        let w = inner as int;
        assert((c + w - 1) / w == (c - 1) / w + 1) by (nonlinear_arith)
            requires
                w > 0,
                c > 0,
        ;
        assert((c - 1) / w >= 0) by (nonlinear_arith)
            requires
                w > 0,
                c > 0,
        ;
    }
    if n > 10 {
        10
    } else {
        n as u16
    }
}

/// How wide a part is inside its border.
pub fn width_inside(area: Area) -> (r: usize)
    ensures
        r == inner_width(area),
{
    if area.width < 2 {
        0
    } else {
        (area.width - 2) as usize
    }
}

/// The parts of a terminal: the conversation, the status line and the input.
pub open spec fn plain_rows(m: ChatModel, area: Area) -> Seq<Row> {
    let lines = input_rows(m.input.len(), inner_width(area));
    seq![Row::Min(1), Row::Length(1), Row::Length((2 + lines) as u16)]
}

/// Whether a part is where the conversation lies on a terminal: inside it, and,
/// where there is room for the status line and the input below it, all that is
/// above them.
pub open spec fn conversation_lies(m: ChatModel, area: Area, part: Area) -> bool {
    let below = 3 + input_rows(m.input.len(), inner_width(area));
    &&& part.x == area.x
    &&& part.width == area.width
    &&& area.y <= part.y
    &&& part.y + part.height <= area.y + area.height
    &&& area.y + area.height <= u16::MAX && below < area.height ==> part.y == area.y
        && part.height == area.height - below
}

/// What three parts ask for together.
proof fn asked_by_three(rows: Seq<Row>)
    requires
        rows.len() == 3,
    ensures
        asked_by(rows) == asked(rows[0]) + asked(rows[1]) + asked(rows[2]),
{
    reveal_with_fuel(asked_by, 4);
}

/// How many lines fit into a part inside its border.
pub open spec fn inner_height(area: Area) -> int {
    if area.height < 2 {
        0
    } else {
        area.height - 2
    }
}

/// How many lines fit into a part inside its border.
pub fn height_inside(area: Area) -> (r: usize)
    ensures
        r == inner_height(area),
{
    if area.height < 2 {
        0
    } else {
        (area.height - 2) as usize
    }
}

/// How far a list of lines can be scrolled.
pub open spec fn max_scroll(total: int, visible: int) -> int {
    if total > visible {
        total - visible
    } else {
        0
    }
}

/// The first line in view.
pub open spec fn first_line(m: ChatModel, total: int, visible: int) -> int {
    let max = max_scroll(total, visible);
    if m.auto_scroll {
        max
    } else if m.scroll_offset < max {
        max - m.scroll_offset
    } else {
        0
    }
}

impl TuiClient {
    /// The first line in view.
    pub fn first_line(&self, total: usize, visible: usize) -> (r: usize)
        ensures
            r == first_line(self@, total as int, visible as int),
            r <= total,
    {
        let max: usize = if total > visible { total - visible } else { 0 };
        if self.auto_scroll {
            max
        } else if self.scroll_offset < max {
            max - self.scroll_offset
        } else {
            0
        }
    }

    /// The number of characters in the input.
    pub fn char_count(&self) -> (r: usize)
        ensures
            r == self@.input.len(),
    {
        text::chars_of(self.input.as_str()).len()
    }

    /// Where the conversation lies on a terminal: above the status line and the
    /// input, and as wide as the terminal.
    pub fn chat_area_from_size(&self, term_area: Area) -> (r: Area)
        ensures
            conversation_lies(self@, term_area, r),
    {
        let lines: u16 = count_input_rows(self.char_count(), width_inside(term_area));
        let rows = vec![Row::Min(1), Row::Length(1), Row::Length(2 + lines)];
        let areas = split_rows(term_area, &rows);
        proof {
            let want = plain_rows(self@, term_area);
            assert(rows@ =~= want);
            asked_by_three(want);
        }
        areas[0]
    }

    // -----------------------------------------------------------------------
    // Scrolling
    // -----------------------------------------------------------------------

    /// Scrolls a page towards older lines.
    pub fn scroll_up_page(&mut self, visible_lines: usize)
        ensures
            final(self)@ == (ChatModel {
                auto_scroll: false,
                scroll_offset: raised(
                    old(self)@.scroll_offset,
                    if visible_lines < 2 {
                        0
                    } else {
                        visible_lines - 2
                    },
                ),
                ..old(self)@
            }),
    {
        self.auto_scroll = false;
        let page: usize = if visible_lines < 2 { 0 } else { visible_lines - 2 };
        self.scroll_offset = if self.scroll_offset > usize::MAX - page {
            usize::MAX
        } else {
            self.scroll_offset + page
        };
    }

    /// Scrolls a page towards newer lines; at the end, the chat follows the
    /// conversation again.
    pub fn scroll_down_page(&mut self, visible_lines: usize)
        ensures
            final(self)@ == scrolled_down(
                old(self)@,
                if visible_lines < 2 {
                    0
                } else {
                    visible_lines - 2
                },
            ),
    {
        if self.scroll_offset == 0 {
            return;
        }
        let amount: usize = if visible_lines < 2 { 0 } else { visible_lines - 2 };
        if self.scroll_offset <= amount {
            self.scroll_to_bottom();
        } else {
            self.auto_scroll = false;
            self.scroll_offset = self.scroll_offset - amount;
        }
    }

    /// Scrolls a line towards older lines.
    pub fn scroll_up_line(&mut self)
        ensures
            final(self)@ == scrolled_up_line(old(self)@),
    {
        self.auto_scroll = false;
        if self.scroll_offset < usize::MAX {
            self.scroll_offset = self.scroll_offset + 1;
        }
    }

    /// Scrolls a line towards newer lines; at the end, the chat follows the
    /// conversation again.
    pub fn scroll_down_line(&mut self)
        ensures
            final(self)@ == scrolled_down_line(old(self)@),
    {
        if self.scroll_offset == 0 {
            return;
        }
        self.scroll_offset = self.scroll_offset - 1;
        if self.scroll_offset == 0 {
            self.scroll_to_bottom();
        }
    }

    // -----------------------------------------------------------------------
    // Selection
    // -----------------------------------------------------------------------

    /// The line and the column of the conversation that stand at a place of
    /// the terminal.
    pub fn screen_to_content(&self, col: u16, row: u16, chat: Area) -> (r: Option<(usize, usize)>)
        ensures
            r == content_at(self@, chat, col as int, row as int),
    {
        let x: u32 = chat.x as u32 + 1;
        let y: u32 = chat.y as u32 + 1;
        if (row as u32) < y || (col as u32) < x {
            return None;
        }
        let total: usize = self.chat_lines.len();
        let start: usize = self.first_line(total, height_inside(chat));
        let down: usize = (row as u32 - y) as usize;
        if down >= total - start {
            return None;
        }
        Some((start + down, (col as u32 - x) as usize))
    }

    /// Begins a selection, where there is a line.
    pub fn start_selection(&mut self, col: u16, row: u16, term_area: Area, chat: Area)
        ensures
            final(self)@ == if content_at(old(self)@, chat, col as int, row as int) is Some {
                ChatModel {
                    selection_start: Some((col, row)),
                    selection_end: Some((col, row)),
                    selection_term_area: term_area,
                    ..old(self)@
                }
            } else {
                old(self)@
            },
    {
        if self.screen_to_content(col, row, chat).is_some() {
            self.selection_start = Some((col, row));
            self.selection_end = Some((col, row));
            self.selection_term_area = term_area;
        }
    }

    /// Moves the end of a selection.
    pub fn update_selection(&mut self, col: u16, row: u16)
        ensures
            final(self)@ == if old(self)@.selection_start is Some {
                ChatModel { selection_end: Some((col, row)), ..old(self)@ }
            } else {
                old(self)@
            },
    {
        if self.selection_start.is_some() {
            self.selection_end = Some((col, row));
        }
    }

    /// The line and the column that a selection touches at a place of the
    /// terminal.
    fn selected_place(&self, col: u16, row: u16, chat: Area) -> (r: Option<(usize, usize)>)
        ensures
            r == selected_at(self@, chat, col as int, row as int),
    {
        let y: u32 = chat.y as u32 + 1;
        if row as u32 >= y + height_inside(chat) as u32 {
            return None;
        }
        self.screen_to_content(col, row, chat)
    }

    /// The text of a line.
    fn text_of_line(&self, i: usize) -> (r: Vec<char>)
        requires
            i < self@.lines.len(),
        ensures
            r@ == chat_text::line_text(self@.lines[i as int]),
    {
        text::chars_of(self.chat_lines[i].text().as_str())
    }

    /// The text between two places of the conversation.
    fn text_between(&self, a: (usize, usize), b: (usize, usize)) -> (r: String)
        requires
            a.0 <= b.0 < self@.lines.len(),
        ensures
            r@ == text_between(self@.lines, a, b),
    {
        if a.0 == b.0 {
            let v = self.text_of_line(a.0);
            assert(v@.subrange(0, v.len() as int) =~= v@);
            if a.1 < v.len() && b.1 <= v.len() && a.1 <= b.1 {
                return text::text_of(&v, a.1, b.1);
            }
            return text::text_of(&v, 0, v.len());
        }
        let mut parts: Vec<String> = Vec::new();
        let mut i: usize = a.0;
        assert(text::views(parts@) =~= selected_parts(self@.lines, a, b, i as int));
        while i <= b.0
            invariant
                a.0 <= i <= b.0 + 1,
                a.0 < b.0 < self@.lines.len(),
                text::views(parts@) == selected_parts(self@.lines, a, b, i as int),
            decreases b.0 + 1 - i,
        {
            let v = self.text_of_line(i);
            let ghost was = text::views(parts@);
            assert(v@.subrange(0, v.len() as int) =~= v@);
            if i == a.0 {
                if a.1 < v.len() {
                    assert(v@.subrange(a.1 as int, v.len() as int) =~= v@.skip(a.1 as int));
                    let s = text::text_of(&v, a.1, v.len());
                    parts.push(s);
                    assert(text::views(parts@) =~= was.push(s@));
                }
            } else if i == b.0 && b.1 <= v.len() && b.1 > 0 {
                assert(v@.subrange(0, b.1 as int) =~= v@.take(b.1 as int));
                let s = text::text_of(&v, 0, b.1);
                parts.push(s);
                assert(text::views(parts@) =~= was.push(s@));
            } else {
                let s = text::text_of(&v, 0, v.len());
                parts.push(s);
                assert(text::views(parts@) =~= was.push(s@));
            }
            if i == b.0 {
                assert(text::views(parts@) =~= selected_parts(self@.lines, a, b, b.0 + 1));
                return text::join(&parts, "\n");
            }
            i += 1;
        }
        text::join(&parts, "\n")
    }

    /// Ends a selection. Gives back the text to be copied, where there is any,
    /// and says on the screen that it was copied.
    pub fn finish_selection(&mut self, col: u16, row: u16, chat: Area, now_ms: u64) -> (r: Option<
        String,
    >)
        ensures
            selection_finished(old(self)@, chat, col, row, now_ms, final(self)@, r),
    {
        let start = match self.selection_start {
            Some(s) => s,
            None => {
                return None;
            },
        };
        let a = self.selected_place(start.0, start.1, chat);
        let b = self.selected_place(col, row, chat);
        self.selection_start = None;
        self.selection_end = None;
        let (a, b) = match (a, b) {
            (Some(a), Some(b)) => (a, b),
            _ => {
                return None;
            },
        };
        let (a, b) = if a.0 > b.0 || (a.0 == b.0 && a.1 > b.1) { (b, a) } else { (a, b) };
        let selected = text::trim(self.text_between(a, b).as_str());
        if selected.as_str().is_empty() {
            return None;
        }
        self.flash_message = Some(("Copied to clipboard!".to_owned(), now_ms));
        Some(selected)
    }

    // -----------------------------------------------------------------------
    // Time
    // -----------------------------------------------------------------------

    /// Takes a message away that was shown for five seconds.
    pub fn tick(&mut self, now_ms: u64)
        ensures
            final(self)@ == match old(self)@.flash {
                Some((s, since)) => if now_ms >= since && now_ms - since >= 5000 {
                    ChatModel { flash: None, ..old(self)@ }
                } else {
                    old(self)@
                },
                None => old(self)@,
            },
    {
        let over = match &self.flash_message {
            Some((_, since)) => now_ms >= *since && now_ms - *since >= 5000,
            None => false,
        };
        if over {
            self.flash_message = None;
        }
    }

    /// Clears the conversation and the input.
    pub fn clear(&mut self)
        ensures
            final(self)@ == chat::thoughts_done(
                chat::answer_done(
                    ChatModel { lines: seq![], input: seq![], cursor_pos: 0, ..old(self)@ },
                ),
            ),
    {
        self.chat_lines = Vec::new();
        self.input = String::new();
        self.cursor_pos = 0;
        assert(self@ =~= (ChatModel { lines: seq![], input: seq![], cursor_pos: 0, ..old(self)@ }));
        self.finish_assistant();
        self.finish_thinking();
    }
}

/// A number raised by another, as far as it goes.
pub open spec fn raised(n: usize, by: int) -> usize {
    if n + by > usize::MAX {
        usize::MAX
    } else {
        (n + by) as usize
    }
}

/// The chat scrolled some lines towards newer ones.
pub open spec fn scrolled_down(m: ChatModel, by: int) -> ChatModel {
    if m.scroll_offset == 0 {
        m
    } else if m.scroll_offset <= by {
        ChatModel { auto_scroll: true, scroll_offset: 0, ..m }
    } else {
        ChatModel { auto_scroll: false, scroll_offset: (m.scroll_offset - by) as usize, ..m }
    }
}

/// The chat scrolled a line towards older ones.
pub open spec fn scrolled_up_line(m: ChatModel) -> ChatModel {
    ChatModel { auto_scroll: false, scroll_offset: raised(m.scroll_offset, 1), ..m }
}

/// The chat scrolled a line towards newer ones.
pub open spec fn scrolled_down_line(m: ChatModel) -> ChatModel {
    if m.scroll_offset == 0 {
        m
    } else if m.scroll_offset == 1 {
        ChatModel { auto_scroll: true, scroll_offset: 0, ..m }
    } else {
        ChatModel { scroll_offset: (m.scroll_offset - 1) as usize, ..m }
    }
}

/// A line up and a line down lead back to where the chat was, unless it
/// followed the conversation and does so again.
pub proof fn up_and_down_again(m: ChatModel)
    requires
        m.scroll_offset < usize::MAX,
    ensures
        scrolled_down_line(scrolled_up_line(m)).scroll_offset == m.scroll_offset,
        m.scroll_offset == 0 ==> scrolled_down_line(scrolled_up_line(m)).auto_scroll,
        m.scroll_offset > 0 ==> !scrolled_down_line(scrolled_up_line(m)).auto_scroll,
{
}

/// The line and the column of the conversation that stand at a place of the
/// terminal.
pub open spec fn content_at(m: ChatModel, chat: Area, col: int, row: int) -> Option<
    (usize, usize),
> {
    let total = m.lines.len() as int;
    let line = first_line(m, total, inner_height(chat)) + row - (chat.y + 1);
    if row < chat.y + 1 || col < chat.x + 1 || line >= total {
        None
    } else {
        Some((line as usize, (col - (chat.x + 1)) as usize))
    }
}

/// The line and the column that a selection touches: only lines in view count.
pub open spec fn selected_at(m: ChatModel, chat: Area, col: int, row: int) -> Option<
    (usize, usize),
> {
    if row >= chat.y + 1 + inner_height(chat) {
        None
    } else {
        content_at(m, chat, col, row)
    }
}

/// Whether a place of the conversation comes behind another.
pub open spec fn is_behind(a: (usize, usize), b: (usize, usize)) -> bool {
    a.0 > b.0 || (a.0 == b.0 && a.1 > b.1)
}

/// What a selection over several lines takes of the lines before `upto`: of the
/// first what stands behind its beginning, of the last what stands before its
/// end, and the others whole.
pub open spec fn selected_parts(
    lines: Seq<LineModel>,
    a: (usize, usize),
    b: (usize, usize),
    upto: int,
) -> Seq<Seq<char>>
    decreases upto - a.0,
{
    if upto <= a.0 {
        seq![]
    } else {
        let i = upto - 1;
        let s = chat_text::line_text(lines[i]);
        let before = selected_parts(lines, a, b, i);
        if i == a.0 {
            if a.1 < s.len() {
                before.push(s.skip(a.1 as int))
            } else {
                before
            }
        } else if i == b.0 && 0 < b.1 <= s.len() {
            before.push(s.take(b.1 as int))
        } else {
            before.push(s)
        }
    }
}

/// The text between two places of the conversation. On one line, columns behind
/// its end take the whole line.
pub open spec fn text_between(lines: Seq<LineModel>, a: (usize, usize), b: (usize, usize)) -> Seq<
    char,
> {
    if a.0 == b.0 {
        let s = chat_text::line_text(lines[a.0 as int]);
        if a.1 < s.len() && b.1 <= s.len() && a.1 <= b.1 {
            s.subrange(a.1 as int, b.1 as int)
        } else {
            s
        }
    } else {
        text::joined(selected_parts(lines, a, b, b.0 + 1), "\n"@)
    }
}

/// The text that a selection takes, between where it began and a place.
pub open spec fn selected_text(m: ChatModel, chat: Area, col: int, row: int) -> Seq<char> {
    match m.selection_start {
        Some(s) => match (
            selected_at(m, chat, s.0 as int, s.1 as int),
            selected_at(m, chat, col, row),
        ) {
            (Some(a), Some(b)) => text::trimmed(
                if is_behind(a, b) {
                    text_between(m.lines, b, a)
                } else {
                    text_between(m.lines, a, b)
                },
            ),
            _ => seq![],
        },
        None => seq![],
    }
}

/// What the end of a selection does: it takes the selection away, and where it
/// took some text, hands that over and says so.
pub open spec fn selection_finished(
    m: ChatModel,
    chat: Area,
    col: u16,
    row: u16,
    now_ms: u64,
    after: ChatModel,
    copied: Option<String>,
) -> bool {
    let s = selected_text(m, chat, col as int, row as int);
    if m.selection_start is None {
        after == m && copied is None
    } else if s.len() == 0 {
        after == (ChatModel { selection_start: None, selection_end: None, ..m }) && copied is None
    } else {
        &&& after == (ChatModel {
            selection_start: None,
            selection_end: None,
            flash: Some(("Copied to clipboard!"@, now_ms)),
            ..m
        })
        &&& copied matches Some(c) && c@ == s
    }
}

// ---------------------------------------------------------------------------
// Laws
// ---------------------------------------------------------------------------

/// The input takes as many rows as its characters fill, one at least and ten at most.
pub proof fn input_takes_the_rows_it_fills(chars: nat, width: int)
    requires
        width > 0,
        chars > 0,
    ensures
        1 <= input_rows(chars, width) <= 10,
        input_rows(chars, width) < 10 ==> chars <= input_rows(chars, width) * width,
        (input_rows(chars, width) - 1) * width < chars,
        chars > 10 * width ==> input_rows(chars, width) == 10,
        input_rows(0, width) == 1,
{
    let n = (chars + width - 1) / width;
    let r = (chars + width - 1) % width;
    vstd::arithmetic::div_mod::lemma_fundamental_div_mod(chars + width - 1, width);
    assert(width * n + r == chars + width - 1);
    assert(n * width == width * n) by (nonlinear_arith);
    assert((n - 1) * width == n * width - width) by (nonlinear_arith);
    assert(n >= 1) by (nonlinear_arith)
        requires
            n * width + r == chars + width - 1,
            0 <= r < width,
            chars > 0,
            width > 0,
    ;
    if n > 10 {
        assert((10 - 1) * width <= (n - 1) * width) by (nonlinear_arith)
            requires
                n > 10,
                width > 0,
        ;
    } else if chars > 10 * width {
        assert(n * width <= 10 * width) by (nonlinear_arith)
            requires
                n <= 10,
                width > 0,
        ;
    }
}

/// The end of the conversation is in view until the user scrolls up; then the view begins as
/// many lines before as the user scrolled, but not before the first line.
pub proof fn the_view_is_where_the_user_scrolled(m: ChatModel, total: int, visible: int)
    requires
        0 <= visible,
        0 <= total,
    ensures
        m.auto_scroll && total >= visible ==> first_line(m, total, visible) + visible == total,
        m.auto_scroll && total < visible ==> first_line(m, total, visible) == 0,
        !m.auto_scroll && m.scroll_offset + visible <= total ==> first_line(m, total, visible)
            + visible + m.scroll_offset == total,
        !m.auto_scroll && m.scroll_offset + visible > total ==> first_line(m, total, visible)
            == 0,
{
}

/// Scrolling moves the view by the lines asked for; back at the end the view follows again.
pub proof fn scrolling_moves_the_view(m: ChatModel, by: int)
    requires
        by > 0,
        m.scroll_offset < usize::MAX,
    ensures
        scrolled_up_line(m).scroll_offset == m.scroll_offset + 1,
        !scrolled_up_line(m).auto_scroll,
        scrolled_up_line(m).lines == m.lines,
        m.scroll_offset > 1 ==> scrolled_down_line(m).scroll_offset == m.scroll_offset - 1,
        m.scroll_offset == 1 ==> scrolled_down_line(m).scroll_offset == 0
            && scrolled_down_line(m).auto_scroll,
        m.scroll_offset > by ==> scrolled_down(m, by).scroll_offset == m.scroll_offset - by
            && !scrolled_down(m, by).auto_scroll,
        0 < m.scroll_offset <= by ==> scrolled_down(m, by).scroll_offset == 0 && scrolled_down(
            m,
            by,
        ).auto_scroll,
        m.scroll_offset == 0 ==> scrolled_down(m, by) == m && scrolled_down_line(m) == m,
        raised(m.scroll_offset, 1) == m.scroll_offset + 1,
{
}

/// A place on the screen is the place in the conversation that is shown there: inside the
/// frame, the line counted from the first line in view.
pub proof fn places_are_found(m: ChatModel, chat: Area, line: int, column: int)
    requires
        m.lines.len() <= usize::MAX,
        0 <= column <= usize::MAX,
        first_line(m, m.lines.len() as int, inner_height(chat)) <= line < m.lines.len(),
    ensures
        ({
            let top = first_line(m, m.lines.len() as int, inner_height(chat));
            let row = chat.y + 1 + (line - top);
            &&& content_at(m, chat, chat.x + 1 + column, row) == Some(
                (line as usize, column as usize),
            )
            &&& line - top < inner_height(chat) ==> selected_at(
                m,
                chat,
                chat.x + 1 + column,
                row,
            ) == Some((line as usize, column as usize))
            &&& line - top >= inner_height(chat) ==> selected_at(
                m,
                chat,
                chat.x + 1 + column,
                row,
            ) is None
        }),
        content_at(m, chat, chat.x as int, chat.y + 1 + line) is None,
        content_at(m, chat, chat.x + 1 + column, chat.y as int) is None,
{
}

/// What is selected within a line is what stands between the two columns; what is selected
/// over two lines is the rest of the first and the beginning of the second.
pub proof fn the_text_between_is_selected(
    lines: Seq<LineModel>,
    i: usize,
    a: usize,
    b: usize,
)
    requires
        i + 1 < lines.len(),
        lines.len() <= usize::MAX,
        a < chat_text::line_text(lines[i as int]).len(),
    ensures
        a <= b <= chat_text::line_text(lines[i as int]).len() ==> text_between(
            lines,
            (i, a),
            (i, b),
        ) == chat_text::line_text(lines[i as int]).subrange(a as int, b as int),
        0 < b <= chat_text::line_text(lines[i + 1]).len() ==> text_between(
            lines,
            (i, a),
            ((i + 1) as usize, b),
        ) == chat_text::line_text(lines[i as int]).skip(a as int) + "\n"@ + chat_text::line_text(
            lines[i + 1],
        ).take(b as int),
{
    let s = chat_text::line_text(lines[i as int]);
    let t = chat_text::line_text(lines[i + 1]);
    let from = (i, a);
    let to = ((i + 1) as usize, b);
    if 0 < b <= t.len() {
        reveal_with_fuel(selected_parts, 3);
        let parts = selected_parts(lines, from, to, i + 2);
        assert(selected_parts(lines, from, to, i as int) =~= seq![]);
        assert(selected_parts(lines, from, to, i + 1) =~= seq![s.skip(a as int)]);
        assert(parts =~= seq![s.skip(a as int), t.take(b as int)]);
        reveal_with_fuel(text::joined, 3);
        assert(parts.drop_last() =~= seq![s.skip(a as int)]);
        assert(parts.skip(1) =~= seq![t.take(b as int)]);
        assert(text::joined(parts, "\n"@) =~= s.skip(a as int) + "\n"@ + t.take(b as int));
    }
}

/// When the selection ends, its text is copied and the user is told so; the selection is
/// gone, copied or not.
pub proof fn selections_are_copied(
    m: ChatModel,
    chat: Area,
    col: u16,
    row: u16,
    now_ms: u64,
    after: ChatModel,
    copied: Option<String>,
)
    requires
        selection_finished(m, chat, col, row, now_ms, after, copied),
    ensures
        m.selection_start is None ==> after == m && copied is None,
        after.selection_start is None,
        after.lines == m.lines && after.input == m.input,
        m.selection_start is Some && selected_text(m, chat, col as int, row as int).len() > 0
            ==> (copied matches Some(c) && c@ == selected_text(m, chat, col as int, row as int)),
        copied is Some ==> after.flash == Some(("Copied to clipboard!"@, now_ms)),
        copied is Some ==> after.selection_end is None,
        copied is None ==> after.flash == m.flash,
{
}

/// The inside of an area is without its frame.
pub proof fn frames_take_two(area: Area)
    ensures
        area.height >= 2 ==> inner_height(area) + 2 == area.height,
        area.width >= 2 ==> inner_width(area) + 2 == area.width,
        area.height < 2 ==> inner_height(area) == 0,
        area.width < 2 ==> inner_width(area) == 0,
{
}

/// Of two places the one on the later line is behind, and on one line the one in the later
/// column.
pub proof fn places_follow_one_another(i: usize, j: usize, a: usize, b: usize)
    requires
        i < j,
        a < b,
    ensures
        is_behind((j, a), (i, b)),
        !is_behind((i, b), (j, a)),
        is_behind((i, b), (i, a)),
        !is_behind((i, a), (i, b)),
        !is_behind((i, a), (i, a)),
{
}

/// What is selected is what stands between the place where the selection began and the place
/// where it ends, whichever comes first, without the white space around it.
pub proof fn selections_go_both_ways(
    m: ChatModel,
    chat: Area,
    start: (u16, u16),
    end: (u16, u16),
    a: (usize, usize),
    b: (usize, usize),
)
    requires
        selected_at(m, chat, start.0 as int, start.1 as int) == Some(a),
        selected_at(m, chat, end.0 as int, end.1 as int) == Some(b),
        is_behind(b, a),
    ensures
        ({
            let forth = ChatModel { selection_start: Some(start), ..m };
            let back = ChatModel { selection_start: Some(end), ..m };
            let s = text::trimmed(text_between(m.lines, a, b));
            &&& selected_text(forth, chat, end.0 as int, end.1 as int) == s
            &&& selected_text(back, chat, start.0 as int, start.1 as int) == s
        }),
        m.selection_start is None ==> selected_text(m, chat, end.0 as int, end.1 as int).len() == 0,
{
    let forth = ChatModel { selection_start: Some(start), ..m };
    let back = ChatModel { selection_start: Some(end), ..m };
    assert(selected_at(forth, chat, start.0 as int, start.1 as int) == Some(a));
    assert(selected_at(forth, chat, end.0 as int, end.1 as int) == Some(b));
    assert(selected_at(back, chat, start.0 as int, start.1 as int) == Some(a));
    assert(selected_at(back, chat, end.0 as int, end.1 as int) == Some(b));
}

} // verus!
