//! Markdown as styled text: plain lines, and the spans that they are laid out as.

use vstd::prelude::*;

use crate::list_numbers;
use crate::markdown_reader;
use crate::markdown_room;
use crate::style::{Span, Style, StyledText};
use crate::text;

use termimad::MadSkin;

verus! {

// ---------------------------------------------------------------------------
// Lines
// ---------------------------------------------------------------------------

/// What a line or a table cell is.
#[derive(Clone, Copy, Debug, PartialEq, Eq, Structural)]
pub enum Kind {
    Paragraph,
    Header(u8),
    ListItem(u8),
    ListItemFollowUp(u8),
    OrderedListItem { level: u8, index: u32 },
    OrderedListItemFollowUp { level: u8, index: u32 },
    Code,
    Quote,
}

/// The attributes of a style.
#[derive(Clone, Copy, Debug, PartialEq, Eq, Structural)]
pub enum Attr {
    Bold,
    Underlined,
    Italic,
    CrossedOut,
}

/// The marks round the text, and how they look.
#[derive(Clone, Copy, Debug, PartialEq, Eq, Structural)]
pub struct Marks {
    pub indent_style: Style,
    pub bullet: char,
    pub bullet_style: Style,
    pub quote: char,
    pub quote_style: Style,
    pub rule: char,
    pub rule_style: Style,
    pub table_style: Style,
    pub vertical: char,
    pub horizontal: char,
    pub cross: char,
}

/// A piece of text in one style.
#[derive(Debug)]
pub struct MdPiece {
    pub text: String,
    pub style: Style,
}

/// A line that is not part of a table, or a table cell: what it is, how its number
/// looks, its pieces, how wide it is with its mark, and its margins.
#[derive(Debug)]
pub struct MdCell {
    pub kind: Kind,
    pub number_style: Style,
    pub pieces: Vec<MdPiece>,
    pub width: usize,
    pub margins: (usize, usize),
}

/// A line.
#[derive(Debug)]
pub enum MdLine {
    Normal(MdCell),
    TableRow(Vec<MdCell>),
    TableRule { widths: Vec<usize>, columns: usize },
    HorizontalRule,
}

/// A line that is not part of a table, or a table cell.
#[verifier::ext_equal]
pub struct CellModel {
    pub kind: Kind,
    pub number_style: Style,
    pub pieces: Seq<(Seq<char>, Style)>,
    pub width: usize,
    pub margins: (usize, usize),
}

/// A line.
#[verifier::ext_equal]
pub enum LineModel {
    Normal(CellModel),
    TableRow(Seq<CellModel>),
    TableRule { widths: Seq<usize>, columns: nat },
    HorizontalRule,
}

/// The pieces, each with its style.
pub open spec fn piece_views(pieces: Seq<MdPiece>) -> Seq<(Seq<char>, Style)> {
    Seq::new(pieces.len(), |i: int| (pieces[i].text@, pieces[i].style))
}

impl View for MdCell {
    type V = CellModel;

    open spec fn view(&self) -> CellModel {
        CellModel {
            kind: self.kind,
            number_style: self.number_style,
            pieces: piece_views(self.pieces@),
            width: self.width,
            margins: self.margins,
        }
    }
}

/// The cells.
pub open spec fn cell_views(cells: Seq<MdCell>) -> Seq<CellModel> {
    Seq::new(cells.len(), |i: int| cells[i]@)
}

impl View for MdLine {
    type V = LineModel;

    open spec fn view(&self) -> LineModel {
        match self {
            MdLine::Normal(cell) => LineModel::Normal(cell@),
            MdLine::TableRow(cells) => LineModel::TableRow(cell_views(cells@)),
            MdLine::TableRule { widths, columns } => LineModel::TableRule {
                widths: widths@,
                columns: *columns as nat,
            },
            MdLine::HorizontalRule => LineModel::HorizontalRule,
        }
    }
}

/// The lines.
pub open spec fn line_views(lines: Seq<MdLine>) -> Seq<LineModel> {
    Seq::new(lines.len(), |i: int| lines[i]@)
}

// ---------------------------------------------------------------------------
// Laying out spans
// ---------------------------------------------------------------------------

/// What stands before the text of a line or a table cell.
pub open spec fn prefix_of(marks: Marks, cell: CellModel) -> Seq<(Seq<char>, Style)> {
    match cell.kind {
        Kind::ListItem(depth) => seq![
            (text::repeated(' ', 2 * depth), marks.indent_style),
            (seq![marks.bullet, ' '], marks.bullet_style),
        ],
        Kind::OrderedListItem { level, index } => seq![
            (text::repeated(' ', 2 * level), marks.indent_style),
            (text::decimal(index as nat) + ". "@, cell.number_style),
        ],
        Kind::ListItemFollowUp(depth) => seq![
            (text::repeated(' ', 2 * (depth + 2)), marks.indent_style),
        ],
        Kind::OrderedListItemFollowUp { level, index } => seq![
            (
                text::repeated(' ', text::decimal(index as nat).len() + 2 + level),
                marks.indent_style,
            ),
        ],
        Kind::Quote => seq![(seq![marks.quote, ' '], marks.quote_style)],
        _ => seq![],
    }
}

/// A mark and a blank.
fn mark(c: char) -> (r: String)
    ensures
        r@ == seq![c, ' '],
{
    let mut r = String::new();
    r.push(c);
    r.push(' ');
    assert(r@ =~= seq![c, ' ']);
    r
}

/// `termimad::ordered_item_indent`: the digits of the number, a dot, a blank,
/// and one column for each level.
#[verifier::external_body]
pub(crate) fn ordered_item_indent(level: u8, index: u32) -> (r: usize)
    ensures
        r == text::decimal(index as nat).len() + 2 + level,
{
    termimad::ordered_item_indent(level, index)
}

/// Puts what stands before an item of a list.
fn render_list_item_prefix(marks: &Marks, depth: u8, line_buf: &mut StyledText)
    ensures
        final(line_buf)@ == old(line_buf)@ + seq![
            (text::repeated(' ', 2 * depth), marks.indent_style),
            (seq![marks.bullet, ' '], marks.bullet_style),
        ],
{
    let indent = text::repeat_char(' ', 2 * depth as usize);
    line_buf.push(Span::new(indent, marks.indent_style));
    line_buf.push(Span::new(mark(marks.bullet), marks.bullet_style));
    assert(line_buf@ =~= old(line_buf)@ + seq![
        (text::repeated(' ', 2 * depth), marks.indent_style),
        (seq![marks.bullet, ' '], marks.bullet_style),
    ]);
}

/// Puts what stands before an item of a numbered list.
fn render_ordered_list_prefix(
    marks: &Marks,
    level: u8,
    index: u32,
    number_style: Style,
    line_buf: &mut StyledText,
)
    ensures
        final(line_buf)@ == old(line_buf)@ + seq![
            (text::repeated(' ', 2 * level), marks.indent_style),
            (text::decimal(index as nat) + ". "@, number_style),
        ],
{
    let indent = text::repeat_char(' ', 2 * level as usize);
    line_buf.push(Span::new(indent, marks.indent_style));
    let label = text::cat2(text::number(index as u64).as_str(), ". ");
    line_buf.push(Span::new(label, number_style));
    assert(line_buf@ =~= old(line_buf)@ + seq![
        (text::repeated(' ', 2 * level), marks.indent_style),
        (text::decimal(index as nat) + ". "@, number_style),
    ]);
}

/// Puts what stands before a further line of an item of a list.
fn render_list_followup_prefix(marks: &Marks, depth: u8, line_buf: &mut StyledText)
    ensures
        final(line_buf)@ == old(line_buf)@.push(
            (text::repeated(' ', 2 * (depth + 2)), marks.indent_style),
        ),
{
    let indent = text::repeat_char(' ', 2 * (depth as usize + 2));
    line_buf.push(Span::new(indent, marks.indent_style));
}

/// Puts what stands before a further line of an item of a numbered list.
fn render_ordered_followup_prefix(marks: &Marks, level: u8, index: u32, line_buf: &mut StyledText)
    ensures
        final(line_buf)@ == old(line_buf)@.push(
            (
                text::repeated(' ', text::decimal(index as nat).len() + 2 + level),
                marks.indent_style,
            ),
        ),
{
    let indent = text::repeat_char(' ', ordered_item_indent(level, index));
    line_buf.push(Span::new(indent, marks.indent_style));
}

/// Puts what stands before a quoted line.
fn render_quote_prefix(marks: &Marks, line_buf: &mut StyledText)
    ensures
        final(line_buf)@ == old(line_buf)@.push((seq![marks.quote, ' '], marks.quote_style)),
{
    line_buf.push(Span::new(mark(marks.quote), marks.quote_style));
}

/// The spans of a line or a table cell.
pub open spec fn composite_spans(marks: Marks, cell: CellModel) -> Seq<(Seq<char>, Style)> {
    prefix_of(marks, cell) + cell.pieces
}

/// Puts the spans of a line or a table cell.
fn render_composite(marks: &Marks, cell: &MdCell, line_buf: &mut StyledText)
    ensures
        final(line_buf)@ == old(line_buf)@ + composite_spans(*marks, cell@),
{
    let ghost start = line_buf@;
    match cell.kind {
        Kind::ListItem(depth) => render_list_item_prefix(marks, depth, line_buf),
        Kind::OrderedListItem { level, index } => render_ordered_list_prefix(
            marks,
            level,
            index,
            cell.number_style,
            line_buf,
        ),
        Kind::ListItemFollowUp(depth) => render_list_followup_prefix(marks, depth, line_buf),
        Kind::OrderedListItemFollowUp { level, index } => render_ordered_followup_prefix(
            marks,
            level,
            index,
            line_buf,
        ),
        Kind::Quote => render_quote_prefix(marks, line_buf),
        Kind::Header(_) | Kind::Code | Kind::Paragraph => {},
    }
    let ghost prefixed = line_buf@;
    let ghost pieces = cell@.pieces;
    assert(prefixed =~= start + prefix_of(*marks, cell@));
    let mut i: usize = 0;
    assert(prefixed + pieces.take(0) =~= prefixed);
    while i < cell.pieces.len()
        invariant
            i <= cell.pieces.len(),
            pieces == piece_views(cell.pieces@),
            line_buf@ == prefixed + pieces.take(i as int),
        decreases cell.pieces.len() - i,
    {
        line_buf.push(Span::new(cell.pieces[i].text.clone(), cell.pieces[i].style));
        i += 1;
        assert(line_buf@ =~= prefixed + pieces.take(i as int));
    }
    assert(pieces.take(i as int) =~= pieces);
    assert(line_buf@ =~= start + composite_spans(*marks, cell@));
}

/// The spans of a table row: its cells, with a bar between any two.
pub open spec fn row_spans(marks: Marks, cells: Seq<CellModel>) -> Seq<(Seq<char>, Style)>
    decreases cells.len(),
{
    if cells.len() == 0 {
        seq![]
    } else {
        row_spans(marks, cells.drop_last()) + (if cells.len() > 1 {
            seq![(seq![' ', marks.vertical, ' '], marks.table_style)]
        } else {
            seq![]
        }) + composite_spans(marks, cells.last())
    }
}

/// The spans of a rule in a table: a bar for each column, with a cross between
/// any two.
pub open spec fn rule_spans(marks: Marks, widths: Seq<usize>) -> Seq<(Seq<char>, Style)>
    decreases widths.len(),
{
    if widths.len() == 0 {
        seq![]
    } else {
        rule_spans(marks, widths.drop_last()) + (if widths.len() > 1 {
            seq![(seq![marks.cross], marks.table_style)]
        } else {
            seq![]
        }) + seq![(text::repeated(marks.horizontal, widths.last() as int), marks.table_style)]
    }
}

/// How wide a horizontal rule is.
pub open spec fn rule_width(width: Option<usize>) -> int {
    let w = match width {
        Some(w) => w as int,
        None => 80,
    };
    if w < 120 {
        w
    } else {
        120
    }
}

/// The spans of a line.
pub open spec fn line_spans(marks: Marks, line: LineModel, width: Option<usize>) -> Seq<
    (Seq<char>, Style),
> {
    match line {
        LineModel::Normal(cell) => composite_spans(marks, cell),
        LineModel::HorizontalRule => seq![
            (text::repeated(marks.rule, rule_width(width)), marks.rule_style),
        ],
        LineModel::TableRow(cells) => row_spans(marks, cells),
        LineModel::TableRule { widths, .. } => rule_spans(marks, widths),
    }
}

/// The spans of lines, with a line feed between any two lines.
pub open spec fn text_spans(marks: Marks, lines: Seq<LineModel>, width: Option<usize>) -> Seq<
    (Seq<char>, Style),
>
    decreases lines.len(),
{
    if lines.len() == 0 {
        seq![]
    } else {
        text_spans(marks, lines.drop_last(), width) + (if lines.len() > 1 {
            seq![("\n"@, Style::plain())]
        } else {
            seq![]
        }) + line_spans(marks, lines.last(), width)
    }
}

/// Puts the spans of a table row.
fn render_row(marks: &Marks, cells: &Vec<MdCell>, result: &mut StyledText)
    ensures
        final(result)@ == old(result)@ + row_spans(*marks, cell_views(cells@)),
{
    let ghost start = result@;
    let ghost all = cell_views(cells@);
    let mut i: usize = 0;
    assert(start + row_spans(*marks, all.take(0)) =~= start);
    while i < cells.len()
        invariant
            i <= cells.len(),
            all == cell_views(cells@),
            result@ == start + row_spans(*marks, all.take(i as int)),
        decreases cells.len() - i,
    {
        if i > 0 {
            let mut bar = String::new();
            bar.push(' ');
            bar.push(marks.vertical);
            bar.push(' ');
            assert(bar@ =~= seq![' ', marks.vertical, ' ']);
            result.push(Span::new(bar, marks.table_style));
        }
        render_composite(marks, &cells[i], result);
        proof {
            let next = all.take(i + 1);
            assert(next.drop_last() =~= all.take(i as int));
            assert(next.last() == cells@[i as int]@);
            assert(result@ =~= start + row_spans(*marks, next));
        }
        i += 1;
    }
    assert(all.take(i as int) =~= all);
}

/// Puts the spans of a rule in a table.
fn render_rule(marks: &Marks, widths: &Vec<usize>, result: &mut StyledText)
    ensures
        final(result)@ == old(result)@ + rule_spans(*marks, widths@),
{
    let ghost start = result@;
    let mut i: usize = 0;
    assert(start + rule_spans(*marks, widths@.take(0)) =~= start);
    while i < widths.len()
        invariant
            i <= widths.len(),
            result@ == start + rule_spans(*marks, widths@.take(i as int)),
        decreases widths.len() - i,
    {
        if i > 0 {
            let cross = text::repeat_char(marks.cross, 1);
            assert(cross@ =~= seq![marks.cross]);
            result.push(Span::new(cross, marks.table_style));
        }
        result.push(Span::new(text::repeat_char(marks.horizontal, widths[i]), marks.table_style));
        proof {
            let next = widths@.take(i + 1);
            assert(next.drop_last() =~= widths@.take(i as int));
            assert(next.last() == widths@[i as int]);
            assert(result@ =~= start + rule_spans(*marks, next));
        }
        i += 1;
    }
    assert(widths@.take(i as int) =~= widths@);
}

/// Turns lines into styled text: one line of text for each, with a line feed between
/// any two.
pub fn fmt_text_to_styled_text(lines: &Vec<MdLine>, width: Option<usize>, marks: &Marks) -> (r:
    StyledText)
    ensures
        r@ == text_spans(*marks, line_views(lines@), width),
{
    let ghost all = line_views(lines@);
    let mut result = StyledText::new();
    let mut i: usize = 0;
    while i < lines.len()
        invariant
            i <= lines.len(),
            all == line_views(lines@),
            result@ == text_spans(*marks, all.take(i as int), width),
        decreases lines.len() - i,
    {
        if i > 0 {
            result.push(Span::new("\n".to_owned(), Style::plain()));
        }
        let ghost split = result@;
        match &lines[i] {
            MdLine::Normal(cell) => {
                render_composite(marks, cell, &mut result);
            },
            MdLine::HorizontalRule => {
                let w: usize = match width {
                    Some(w) => w,
                    None => 80,
                };
                let w: usize = if w < 120 { w } else { 120 };
                result.push(Span::new(text::repeat_char(marks.rule, w), marks.rule_style));
            },
            MdLine::TableRow(cells) => {
                render_row(marks, cells, &mut result);
            },
            MdLine::TableRule { widths, .. } => {
                render_rule(marks, widths, &mut result);
            },
        }
        assert(result@ =~= split + line_spans(*marks, all[i as int], width));
        proof {
            let next = all.take(i + 1);
            assert(next.drop_last() =~= all.take(i as int));
            assert(next.last() == all[i as int]);
            assert(result@ =~= text_spans(*marks, next, width));
        }
        i += 1;
    }
    assert(all.take(i as int) =~= all);
    result
}

// ---------------------------------------------------------------------------
// Rendering
// ---------------------------------------------------------------------------

/// The spans of a markdown text in a skin, wrapped to a width.
pub open spec fn rendered(skin: MadSkin, md: Seq<char>, width: usize) -> Seq<(Seq<char>, Style)> {
    text_spans(
        markdown_reader::marks_of(skin),
        markdown_reader::wrapped(skin, md, width),
        Some(width),
    )
}

/// Whether a markdown text can be wrapped to a width in a skin.
pub fn can_render_with_skin(md: &str, width: usize, skin: &MadSkin) -> (r: bool)
    ensures
        r == markdown_reader::can_wrap(*skin, md@, width),
{
    if !list_numbers::can_number(md) {
        return false;
    }
    let lines = markdown_reader::read_unwrapped(skin, md);
    markdown_room::lines_have_room(&lines, width)
}

/// Whether a markdown text can be wrapped to a width in the skin for dark backgrounds.
pub fn can_render(md: &str, width: usize) -> (r: bool)
    ensures
        r == markdown_reader::can_wrap_dark(md@, width),
{
    let skin = default_skin();
    if !list_numbers::can_number(md) {
        assert(!markdown_reader::can_wrap(skin, md@, width));
        return false;
    }
    let lines = markdown_reader::read_unwrapped(&skin, md);
    let r = markdown_room::lines_have_room(&lines, width);
    proof {
        assert(r == markdown_reader::can_wrap(skin, md@, width));
        assert forall|s: MadSkin| #[trigger] markdown_reader::dark(s) implies
            markdown_reader::can_wrap(s, md@, width) == r by {
            markdown_reader::dark_skins_wrap_alike(s, skin, md@, width);
        }
    }
    r
}

/// The skin for dark backgrounds.
pub fn default_skin() -> (r: MadSkin)
    ensures
        markdown_reader::dark(r),
{
    markdown_reader::dark_skin()
}

/// Renders a markdown text in the skin for dark backgrounds, wrapped to a
/// width.
pub fn render_markdown(md: &str, width: usize) -> (r: StyledText)
    requires
        markdown_reader::can_wrap_dark(md@, width),
    ensures
        exists|skin: MadSkin| #[trigger]
            markdown_reader::dark(skin) && r@ == rendered(skin, md@, width),
{
    let skin = default_skin();
    render_markdown_with_skin(md, width, &skin)
}

/// Renders a markdown text in a skin, wrapped to a width.
pub fn render_markdown_with_skin(md: &str, width: usize, skin: &MadSkin) -> (r: StyledText)
    requires
        markdown_reader::can_wrap(*skin, md@, width),
    ensures
        r@ == rendered(*skin, md@, width),
{
    let lines = markdown_reader::read_wrapped(skin, md, width);
    let marks = markdown_reader::read_marks(skin);
    fmt_text_to_styled_text(&lines, Some(width), &marks)
}

/// Renders a markdown text in a skin, where it can be wrapped to the width.
pub fn try_render_markdown_with_skin(md: &str, width: usize, skin: &MadSkin) -> (r: Option<
    StyledText,
>)
    ensures
        r is Some <==> markdown_reader::can_wrap(*skin, md@, width),
        r matches Some(st) ==> st@ == rendered(*skin, md@, width),
{
    if can_render_with_skin(md, width, skin) {
        Some(render_markdown_with_skin(md, width, skin))
    } else {
        None
    }
}

/// Renders a markdown text in the skin for dark backgrounds, where it can be
/// wrapped to the width.
pub fn try_render_markdown(md: &str, width: usize) -> (r: Option<StyledText>)
    ensures
        r is Some <==> markdown_reader::can_wrap_dark(md@, width),
        r matches Some(st) ==> exists|skin: MadSkin| #[trigger]
            markdown_reader::dark(skin) && st@ == rendered(skin, md@, width),
{
    if can_render(md, width) {
        Some(render_markdown(md, width))
    } else {
        None
    }
}

// ---------------------------------------------------------------------------
// Laws
// ---------------------------------------------------------------------------

/// Every piece of a line is among the spans of the line, in its order and in its style,
/// behind what stands before the text.
pub proof fn pieces_are_shown(marks: Marks, cell: CellModel, i: int)
    requires
        0 <= i < cell.pieces.len(),
    ensures
        ({
            let before = prefix_of(marks, cell).len();
            &&& composite_spans(marks, cell).len() == before + cell.pieces.len()
            &&& composite_spans(marks, cell)[before + i] == cell.pieces[i]
        }),
{
}

/// A text is rendered line by line: what two lists of lines show together is what
/// each shows, with a line feed between them.
pub proof fn lines_are_shown_one_after_the_other(
    marks: Marks,
    a: Seq<LineModel>,
    b: Seq<LineModel>,
    width: Option<usize>,
)
    requires
        a.len() > 0,
        b.len() > 0,
    ensures
        text_spans(marks, a + b, width) == text_spans(marks, a, width) + seq![
            ("\n"@, Style::plain()),
        ] + text_spans(marks, b, width),
    decreases b.len(),
{
    let whole = a + b;
    assert(whole.last() == b.last());
    assert(whole.drop_last() =~= a + b.drop_last());
    if b.len() > 1 {
        lines_are_shown_one_after_the_other(marks, a, b.drop_last(), width);
    } else {
        assert(whole.drop_last() =~= a);
        assert(text_spans(marks, b.drop_last(), width) =~= seq![]);
    }
    assert(text_spans(marks, whole, width) =~= text_spans(marks, a, width) + seq![
        ("\n"@, Style::plain()),
    ] + text_spans(marks, b, width));
}

/// A rule across the text is as wide as the text, but never wider than its limit.
pub proof fn rules_are_limited(width: Option<usize>)
    ensures
        0 <= rule_width(width) <= 120,
        width matches Some(w) ==> rule_width(width) <= w,
{
}

/// The items of a list stand behind their mark or their number, indented by their depth, and
/// quotes behind theirs; other text stands alone.
pub proof fn items_stand_behind_their_marks(marks: Marks, cell: CellModel, depth: u8, index: u32)
    ensures
        cell.kind == Kind::ListItem(depth) ==> composite_spans(marks, cell) == seq![
            (text::repeated(' ', 2 * depth), marks.indent_style),
            (seq![marks.bullet, ' '], marks.bullet_style),
        ] + cell.pieces,
        cell.kind == (Kind::OrderedListItem { level: depth, index }) ==> composite_spans(
            marks,
            cell,
        ) == seq![
            (text::repeated(' ', 2 * depth), marks.indent_style),
            (text::decimal(index as nat) + ". "@, cell.number_style),
        ] + cell.pieces,
        cell.kind == Kind::ListItemFollowUp(depth) ==> composite_spans(marks, cell) == seq![
            (text::repeated(' ', 2 * (depth + 2)), marks.indent_style),
        ] + cell.pieces,
        cell.kind == (Kind::OrderedListItemFollowUp { level: depth, index }) ==> composite_spans(
            marks,
            cell,
        ) == seq![
            (
                text::repeated(' ', text::decimal(index as nat).len() + 2 + depth),
                marks.indent_style,
            ),
        ] + cell.pieces,
        cell.kind == Kind::Quote ==> composite_spans(marks, cell) == seq![
            (seq![marks.quote, ' '], marks.quote_style),
        ] + cell.pieces,
        cell.kind == Kind::Paragraph || cell.kind == Kind::Code || cell.kind == Kind::Header(
            depth,
        ) ==> composite_spans(marks, cell) == cell.pieces,
{
    assert(Seq::<(Seq<char>, Style)>::empty() + cell.pieces =~= cell.pieces);
}

/// The cells of a row are parted by bars, and the parts of its rule by crosses.
pub proof fn cells_are_parted_by_bars(
    marks: Marks,
    cells: Seq<CellModel>,
    cell: CellModel,
    widths: Seq<usize>,
    width: usize,
)
    requires
        cells.len() > 0,
        widths.len() > 0,
    ensures
        row_spans(marks, cells.push(cell)) == row_spans(marks, cells) + seq![
            (seq![' ', marks.vertical, ' '], marks.table_style),
        ] + composite_spans(marks, cell),
        row_spans(marks, seq![cell]) == composite_spans(marks, cell),
        rule_spans(marks, widths.push(width)) == rule_spans(marks, widths) + seq![
            (seq![marks.cross], marks.table_style),
        ] + seq![(text::repeated(marks.horizontal, width as int), marks.table_style)],
        rule_spans(marks, seq![width]) == seq![
            (text::repeated(marks.horizontal, width as int), marks.table_style),
        ],
{
    assert(cells.push(cell).drop_last() =~= cells);
    assert(widths.push(width).drop_last() =~= widths);
    let one = seq![cell];
    assert(one.drop_last() =~= seq![]);
    assert(row_spans(marks, one.drop_last()) =~= seq![]);
    assert(row_spans(marks, one) =~= composite_spans(marks, cell));
    let bar = seq![width];
    assert(bar.drop_last() =~= seq![]);
    assert(rule_spans(marks, bar.drop_last()) =~= seq![]);
    assert(rule_spans(marks, bar) =~= seq![
        (text::repeated(marks.horizontal, width as int), marks.table_style),
    ]);
}

/// Each line is shown as what it is, and a rule goes over the width there is, up to a limit.
pub proof fn lines_are_shown_as_what_they_are(
    marks: Marks,
    cell: CellModel,
    cells: Seq<CellModel>,
    widths: Seq<usize>,
    columns: nat,
    width: usize,
)
    ensures
        line_spans(marks, LineModel::Normal(cell), Some(width)) == composite_spans(marks, cell),
        line_spans(marks, LineModel::TableRow(cells), Some(width)) == row_spans(marks, cells),
        line_spans(marks, (LineModel::TableRule { widths, columns }), Some(width)) == rule_spans(
            marks,
            widths,
        ),
        width <= 120 ==> line_spans(marks, LineModel::HorizontalRule, Some(width)) == seq![
            (text::repeated(marks.rule, width as int), marks.rule_style),
        ],
        width > 120 ==> line_spans(marks, LineModel::HorizontalRule, Some(width)) == seq![
            (text::repeated(marks.rule, 120), marks.rule_style),
        ],
        line_spans(marks, LineModel::HorizontalRule, None) == seq![
            (text::repeated(marks.rule, 80), marks.rule_style),
        ],
        text_spans(marks, Seq::empty(), Some(width)).len() == 0,
        text_spans(marks, seq![LineModel::Normal(cell)], Some(width)) == composite_spans(
            marks,
            cell,
        ),
{
    let one = seq![LineModel::Normal(cell)];
    assert(one.drop_last() =~= seq![]);
    assert(text_spans(marks, one.drop_last(), Some(width)) =~= seq![]);
    assert(text_spans(marks, one, Some(width)) =~= composite_spans(marks, cell));
}

} // verus!
