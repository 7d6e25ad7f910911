//! What `termimad` and `minimad` make of a markdown text, read into plain lines:
//! the lines of the text, as they are read and as they are wrapped, and the marks
//! of a skin.

use vstd::prelude::*;

use crate::list_numbers;
use crate::markdown::{Attr, CellModel, Kind, LineModel, Marks, MdCell, MdLine, MdPiece};
use crate::markdown;
use crate::markdown_room;
use crate::style::{Colour, Style};

use termimad::crossterm::style::Color;
use termimad::minimad::{Alignment, Compound, Line};
use termimad::{CompoundStyle, FmtComposite, FmtLine, LineStyle, MadSkin};

verus! {

/// A skin of `termimad`.
#[verifier::external_type_specification]
#[verifier::external_body]
pub struct ExMadSkin(termimad::MadSkin);

/// A style of `termimad`.
#[verifier::external_type_specification]
#[verifier::external_body]
pub struct ExCompoundStyle(termimad::CompoundStyle);

/// The style of a whole line of `termimad`.
#[verifier::external_type_specification]
#[verifier::external_body]
pub struct ExLineStyle(termimad::LineStyle);

/// A piece of a line of `termimad`.
#[verifier::external_type_specification]
#[verifier::external_body]
pub struct ExCompound<'s>(termimad::minimad::Compound<'s>);

/// A line or a table cell of `termimad`.
#[verifier::external_type_specification]
#[verifier::external_body]
pub struct ExFmtComposite<'s>(termimad::FmtComposite<'s>);

/// A formatted line of `termimad`.
#[verifier::external_type_specification]
#[verifier::external_body]
pub struct ExFmtLine<'s>(termimad::FmtLine<'s>);

/// A line of a markdown text as `minimad` reads it.
#[verifier::external_type_specification]
#[verifier::external_body]
pub struct ExLine<'s>(termimad::minimad::Line<'s>);

/// How a column of a table is aligned.
#[verifier::external_type_specification]
#[verifier::external_body]
pub struct ExAlignment(termimad::minimad::Alignment);

/// A colour as `termimad` knows it.
#[verifier::external_type_specification]
#[verifier::external_body]
pub struct ExTermColor(termimad::crossterm::style::Color);

/// A formatted line, taken apart.
enum FmtParts<'a, 's> {
    Normal(&'a FmtComposite<'s>),
    TableRow(&'a Vec<FmtComposite<'s>>),
    TableRule(&'a Vec<usize>, &'a Vec<Alignment>),
    HorizontalRule,
}

/// What a formatted line holds.
pub enum FmtModel<'s> {
    Normal(FmtComposite<'s>),
    TableRow(Seq<FmtComposite<'s>>),
    TableRule(Seq<usize>, Seq<Alignment>),
    HorizontalRule,
}

impl<'a, 's> FmtParts<'a, 's> {
    /// What the parts hold.
    spec fn model(self) -> FmtModel<'s> {
        match self {
            FmtParts::Normal(fc) => FmtModel::Normal(*fc),
            FmtParts::TableRow(cells) => FmtModel::TableRow(cells@),
            FmtParts::TableRule(widths, aligns) => FmtModel::TableRule(widths@, aligns@),
            FmtParts::HorizontalRule => FmtModel::HorizontalRule,
        }
    }
}

/// What a skin gives for the marks round the text.
pub struct SkinParts {
    pub indent_style: CompoundStyle,
    pub bullet: char,
    pub bullet_style: CompoundStyle,
    pub quote: char,
    pub quote_style: CompoundStyle,
    pub rule: char,
    pub rule_style: CompoundStyle,
    pub table_style: CompoundStyle,
    pub vertical: char,
    pub horizontal: char,
    pub cross: char,
}

/// The colour of the same name.
pub uninterp spec fn colour_look(c: Color) -> Colour;

/// The foreground colour of a style.
pub uninterp spec fn fg_look(cs: CompoundStyle) -> Option<Color>;

/// The background colour of a style.
pub uninterp spec fn bg_look(cs: CompoundStyle) -> Option<Color>;

/// Whether a style has an attribute.
pub uninterp spec fn attr_look(cs: CompoundStyle, attr: Attr) -> bool;

/// The marks of a skin.
pub uninterp spec fn skin_parts(skin: MadSkin) -> SkinParts;

/// The style of the number of a list item at a level.
pub uninterp spec fn index_look(skin: MadSkin, level: u8) -> CompoundStyle;

/// What a line or a table cell is.
pub uninterp spec fn kind_of(fc: FmtComposite<'_>) -> Kind;

/// The pieces of a line or a table cell.
pub uninterp spec fn pieces_of(fc: FmtComposite<'_>) -> Seq<Compound<'_>>;

/// The text of a piece.
pub uninterp spec fn piece_text(c: Compound<'_>) -> Seq<char>;

/// The style of the line that a line or a table cell is.
pub uninterp spec fn line_look(skin: MadSkin, fc: FmtComposite<'_>) -> LineStyle;

/// The style of a piece on a line.
pub uninterp spec fn piece_look(skin: MadSkin, ls: LineStyle, c: Compound<'_>) -> CompoundStyle;

/// What a formatted line holds.
pub uninterp spec fn line_parts(line: FmtLine<'_>) -> FmtModel<'_>;

/// The left and the right margin of a line in a style.
pub uninterp spec fn margins_of(ls: LineStyle) -> (usize, usize);

/// How wide a line or a table cell is, its mark counted.
pub uninterp spec fn visible_of(fc: FmtComposite<'_>) -> usize;

/// The lines of a markdown text as `minimad` reads them.
pub uninterp spec fn lines_read(md: Seq<char>) -> Seq<Line<'static>>;

/// A line that was read, formatted but not wrapped.
pub uninterp spec fn unwrapped_line(line: Line<'_>) -> FmtLine<'static>;

/// The lines of a markdown text, wrapped to a width.
pub uninterp spec fn formatted(skin: MadSkin, md: Seq<char>, width: usize) -> Seq<FmtLine<'static>>;

/// The variants of crossterm's `Color`, each by its own name.
#[verifier::external_body]
fn colour_of(c: Color) -> (r: Colour)
    ensures
        r == colour_look(c),
{
    match c {
        Color::Reset => Colour::Reset, Color::Black => Colour::Black,
        Color::DarkGrey => Colour::DarkGrey, Color::Red => Colour::Red,
        Color::DarkRed => Colour::DarkRed, Color::Green => Colour::Green,
        Color::DarkGreen => Colour::DarkGreen, Color::Yellow => Colour::Yellow,
        Color::DarkYellow => Colour::DarkYellow, Color::Blue => Colour::Blue,
        Color::DarkBlue => Colour::DarkBlue, Color::Magenta => Colour::Magenta,
        Color::DarkMagenta => Colour::DarkMagenta, Color::Cyan => Colour::Cyan,
        Color::DarkCyan => Colour::DarkCyan, Color::White => Colour::White,
        Color::Grey => Colour::Grey, Color::Rgb { r, g, b } => Colour::Rgb { r, g, b },
        Color::AnsiValue(n) => Colour::AnsiValue(n),
    }
}

/// `CompoundStyle::get_fg`: the foreground colour of the style.
#[verifier::external_body]
fn get_fg(cs: &CompoundStyle) -> (r: Option<Color>)
    ensures
        r == fg_look(*cs),
{
    cs.get_fg()
}

/// `CompoundStyle::get_bg`: the background colour of the style.
#[verifier::external_body]
fn get_bg(cs: &CompoundStyle) -> (r: Option<Color>)
    ensures
        r == bg_look(*cs),
{
    cs.get_bg()
}

/// `CompoundStyle::has_attr`: whether the style has the attribute.
#[verifier::external_body]
fn has_attr(cs: &CompoundStyle, attr: Attr) -> (r: bool)
    ensures
        r == attr_look(*cs, attr),
{
    cs.has_attr(match attr {
        Attr::Bold => termimad::crossterm::style::Attribute::Bold,
        Attr::Underlined => termimad::crossterm::style::Attribute::Underlined,
        Attr::Italic => termimad::crossterm::style::Attribute::Italic,
        Attr::CrossedOut => termimad::crossterm::style::Attribute::CrossedOut,
    })
}

/// `MadSkin::default_dark`: what its marks are and how they look, that numbers have no
/// style of their own, that no line has margins, and how the pieces of lines may look.
/// Which pieces are bold, italic or crossed out, and which of them are code, is not said.
#[verifier::external_body]
pub(crate) fn dark_skin() -> (r: MadSkin)
    ensures
        dark(r),
{
    MadSkin::default_dark()
}

/// The marks of a skin: fields of `MadSkin`, and `StyledChar::get_char` and
/// `StyledChar::compound_style` of those that are a `StyledChar`.
#[verifier::external_body]
fn read_skin(skin: &MadSkin) -> (r: SkinParts)
    ensures
        r == skin_parts(*skin),
{
    SkinParts {
        indent_style: skin.paragraph.compound_style,
        bullet: skin.bullet.get_char(),
        bullet_style: *skin.bullet.compound_style(),
        quote: skin.quote_mark.get_char(),
        quote_style: *skin.quote_mark.compound_style(),
        rule: skin.horizontal_rule.get_char(),
        rule_style: *skin.horizontal_rule.compound_style(),
        table_style: skin.table.compound_style,
        vertical: skin.table_border_chars.vertical,
        horizontal: skin.table_border_chars.horizontal,
        cross: skin.table_border_chars.cross,
    }
}

/// `MadSkin::ordered_item_style`, of which the style of the number is taken.
#[verifier::external_body]
fn index_style(skin: &MadSkin, level: u8) -> (r: CompoundStyle)
    ensures
        r == index_look(*skin, level),
{
    skin.ordered_item_style(level).index_style
}

/// The field `kind` of `FmtComposite`, each variant by its own name.
#[verifier::external_body]
fn composite_kind(fc: &FmtComposite<'_>) -> (r: Kind)
    ensures
        r == kind_of(*fc),
{
    match fc.kind {
        termimad::CompositeKind::Paragraph => Kind::Paragraph,
        termimad::CompositeKind::Header(n) => Kind::Header(n),
        termimad::CompositeKind::ListItem(n) => Kind::ListItem(n),
        termimad::CompositeKind::ListItemFollowUp(n) => Kind::ListItemFollowUp(n),
        termimad::CompositeKind::OrderedListItem { level, index } =>
            Kind::OrderedListItem { level, index },
        termimad::CompositeKind::OrderedListItemFollowUp { level, index } =>
            Kind::OrderedListItemFollowUp { level, index },
        termimad::CompositeKind::Code => Kind::Code,
        termimad::CompositeKind::Quote => Kind::Quote,
    }
}

/// The field `compounds` of `FmtComposite`.
#[verifier::external_body]
fn composite_pieces<'a, 's>(fc: &'a FmtComposite<'s>) -> (r: &'a Vec<Compound<'s>>)
    ensures
        r@ == pieces_of(*fc),
{
    &fc.compounds
}

/// The field `src` of `Compound`.
#[verifier::external_body]
fn compound_text(c: &Compound<'_>) -> (r: String)
    ensures
        r@ == piece_text(*c),
{
    c.src.to_string()
}

/// `MadSkin::line_style` for the kind of a line. It panics on a header of
/// level zero.
#[verifier::external_body]
fn line_style(skin: &MadSkin, fc: &FmtComposite<'_>) -> (r: LineStyle)
    requires
        kind_of(*fc) != Kind::Header(0),
    ensures
        r == line_look(*skin, *fc),
{
    skin.line_style(fc.kind).clone()
}

/// `MadSkin::compound_style`: the style of a piece on a line of a style.
#[verifier::external_body]
fn compound_style(skin: &MadSkin, ls: &LineStyle, c: &Compound<'_>) -> (r: CompoundStyle)
    ensures
        r == piece_look(*skin, *ls, *c),
{
    skin.compound_style(ls, c)
}

/// The variants of `FmtLine` taken apart.
#[verifier::external_body]
fn open_line<'a, 's>(line: &'a FmtLine<'s>) -> (r: FmtParts<'a, 's>)
    ensures
        r.model() == line_parts(*line),
{
    match line {
        FmtLine::Normal(fc) => FmtParts::Normal(fc),
        FmtLine::TableRow(row) => FmtParts::TableRow(&row.cells),
        FmtLine::TableRule(rule) => FmtParts::TableRule(&rule.widths, &rule.aligns),
        FmtLine::HorizontalRule => FmtParts::HorizontalRule,
    }
}

/// The fields `left_margin` and `right_margin` of `LineStyle`.
#[verifier::external_body]
fn line_margins(ls: &LineStyle) -> (r: (usize, usize))
    ensures
        r == margins_of(*ls),
{
    (ls.left_margin, ls.right_margin)
}

/// The field `visible_length` of `FmtComposite`.
#[verifier::external_body]
fn visible_length(fc: &FmtComposite<'_>) -> (r: usize)
    ensures
        r == visible_of(*fc),
{
    fc.visible_length
}

/// `minimad::parse_text` with its default options, of which the lines are taken: they
/// are a function of the text, and no header among them has level zero. It adds to the
/// number that a list begins with; a text for which that leaves the range of the type
/// is ruled out.
#[verifier::external_body]
fn read_lines<'s>(md: &'s str) -> (r: Vec<Line<'s>>)
    requires
        list_numbers::numbers_fit(md@),
    ensures
        r@ == lines_read(md@),
        forall|i: int|
            0 <= i < r@.len() ==> header_has_level(unwrapped_line(#[trigger] r@[i])),
{
    termimad::minimad::parse_text(md, termimad::minimad::Options::default()).lines
}

/// `FmtLine::from`: the line with the kind and the width of what it holds. On the skin
/// only the width of further lines of list items depends, and such lines come from
/// wrapping alone.
#[verifier::external_body]
fn format_line<'s>(skin: &MadSkin, line: Line<'s>) -> (r: FmtLine<'s>)
    ensures
        r == unwrapped_line(line),
{
    FmtLine::from(line, skin)
}

/// `FmtText::from`, of which the lines are taken: they are a function of the
/// skin, the text and the width, and no header among them has level zero. It
/// subtracts the mark of a list item from the room that the item has, and it adds
/// to the number that a list begins with; a text for which either leaves the
/// range of the type is ruled out.
#[verifier::external_body]
fn format<'s>(skin: &MadSkin, md: &'s str, width: usize) -> (r: Vec<FmtLine<'s>>)
    requires
        can_wrap(*skin, md@, width),
    ensures
        r@ == formatted(*skin, md@, width),
        headers_have_levels(r@),
{
    termimad::FmtText::from(skin, md, Some(width)).lines
}

// ---------------------------------------------------------------------------
// Skins
// ---------------------------------------------------------------------------

/// The style of the library for a style of `termimad`.
pub open spec fn style_look(cs: CompoundStyle) -> Style {
    Style {
        fg: match fg_look(cs) {
            Some(c) => Some(colour_look(c)),
            None => None,
        },
        bg: match bg_look(cs) {
            Some(c) => Some(colour_look(c)),
            None => None,
        },
        bold: attr_look(cs, Attr::Bold),
        italic: attr_look(cs, Attr::Italic),
        underline: attr_look(cs, Attr::Underlined),
        strikethrough: attr_look(cs, Attr::CrossedOut),
    }
}

/// The style of the library for a style of `termimad`.
fn convert_style(cs: &CompoundStyle) -> (r: Style)
    ensures
        r == style_look(*cs),
{
    let mut s = Style::plain();
    if let Some(fg) = get_fg(cs) {
        s = s.fg(colour_of(fg));
    }
    if let Some(bg) = get_bg(cs) {
        s = s.bg(colour_of(bg));
    }
    if has_attr(cs, Attr::Bold) {
        s = s.bold();
    }
    if has_attr(cs, Attr::Underlined) {
        s = s.underline();
    }
    if has_attr(cs, Attr::Italic) {
        s = s.italic();
    }
    if has_attr(cs, Attr::CrossedOut) {
        s = Style { strikethrough: true, ..s };
    }
    s
}

/// The marks of a skin, in styles of the library.
pub open spec fn marks_of(skin: MadSkin) -> Marks {
    let parts = skin_parts(skin);
    Marks {
        indent_style: style_look(parts.indent_style),
        bullet: parts.bullet,
        bullet_style: style_look(parts.bullet_style),
        quote: parts.quote,
        quote_style: style_look(parts.quote_style),
        rule: parts.rule,
        rule_style: style_look(parts.rule_style),
        table_style: style_look(parts.table_style),
        vertical: parts.vertical,
        horizontal: parts.horizontal,
        cross: parts.cross,
    }
}

/// A grey of the terminal, from black to white.
pub open spec fn grey(level: u8) -> Style {
    Style::plain().fg(Colour::AnsiValue((232 + level) as u8))
}

/// The marks for dark backgrounds.
pub open spec fn dark_marks() -> Marks {
    Marks {
        indent_style: Style::plain(),
        bullet: '\u{2022}',
        bullet_style: grey(8),
        quote: '\u{2590}',
        quote_style: grey(12).bold(),
        rule: '\u{2015}',
        rule_style: grey(6),
        table_style: grey(7),
        vertical: '\u{2502}',
        horizontal: '\u{2500}',
        cross: '\u{253c}',
    }
}

/// The colours of a line on a dark background.
pub open spec fn dark_colours(kind: Kind) -> (Option<Colour>, Option<Colour>) {
    match kind {
        Kind::Code => (grey(20).fg, grey(5).fg),
        Kind::Header(1) => (grey(22).fg, None),
        Kind::Header(2) => (grey(21).fg, None),
        Kind::Header(3) => (grey(20).fg, None),
        _ => (None, None),
    }
}

/// How a piece of a line may look on a dark background: in the colours of the line or in
/// those of code; underlined in a header; bold in the topmost header. What stands for text
/// that was cut out looks plain.
pub open spec fn dark_look(kind: Kind, text: Seq<char>, style: Style) -> bool {
    if text == seq!['\u{2026}'] {
        style == Style::plain()
    } else {
        &&& (style.fg, style.bg) == dark_colours(kind) || (style.fg, style.bg) == dark_colours(
            Kind::Code,
        )
        &&& style.underline == (kind matches Kind::Header(level) && level <= 8)
        &&& kind == Kind::Header(1) ==> style.bold
    }
}

/// Whether a skin is one for dark backgrounds: its marks are those, its numbers have no
/// style of their own, its lines have no margins, and the pieces of its lines have the
/// colours for dark backgrounds.
pub open spec fn dark(skin: MadSkin) -> bool {
    &&& marks_of(skin) == dark_marks()
    &&& forall|level: u8| style_look(#[trigger] index_look(skin, level)) == Style::plain()
    &&& forall|fc: FmtComposite<'_>, c: Compound<'_>|
        kind_of(fc) != Kind::Header(0) ==> dark_look(
            kind_of(fc),
            piece_text(c),
            style_look(#[trigger] piece_look(skin, line_look(skin, fc), c)),
        )
    &&& forall|fc: FmtComposite<'_>|
        kind_of(fc) != Kind::Header(0) ==> margins_of(#[trigger] line_look(skin, fc)) == (
            0usize,
            0usize,
        )
}

/// Reads the marks of a skin.
pub(crate) fn read_marks(skin: &MadSkin) -> (r: Marks)
    ensures
        r == marks_of(*skin),
{
    let parts = read_skin(skin);
    Marks {
        indent_style: convert_style(&parts.indent_style),
        bullet: parts.bullet,
        bullet_style: convert_style(&parts.bullet_style),
        quote: parts.quote,
        quote_style: convert_style(&parts.quote_style),
        rule: parts.rule,
        rule_style: convert_style(&parts.rule_style),
        table_style: convert_style(&parts.table_style),
        vertical: parts.vertical,
        horizontal: parts.horizontal,
        cross: parts.cross,
    }
}

// ---------------------------------------------------------------------------
// Plain lines
// ---------------------------------------------------------------------------

/// Whether no line or cell of a line is a header of level zero.
pub open spec fn header_has_level(line: FmtLine<'_>) -> bool {
    match line_parts(line) {
        FmtModel::Normal(fc) => kind_of(fc) != Kind::Header(0),
        FmtModel::TableRow(cells) => forall|i: int|
            0 <= i < cells.len() ==> kind_of(#[trigger] cells[i]) != Kind::Header(0),
        _ => true,
    }
}

/// Whether no header among the lines has level zero.
pub open spec fn headers_have_levels(lines: Seq<FmtLine<'_>>) -> bool {
    forall|i: int| 0 <= i < lines.len() ==> header_has_level(#[trigger] lines[i])
}

/// The pieces of a line or a table cell, each in its style.
pub open spec fn plain_pieces(skin: MadSkin, fc: FmtComposite<'_>) -> Seq<(Seq<char>, Style)> {
    Seq::new(
        pieces_of(fc).len(),
        |i: int|
            (
                piece_text(pieces_of(fc)[i]),
                style_look(piece_look(skin, line_look(skin, fc), pieces_of(fc)[i])),
            ),
    )
}

/// The style of the number of a line or a table cell.
pub open spec fn plain_number(skin: MadSkin, kind: Kind) -> Style {
    match kind {
        Kind::OrderedListItem { level, .. } => style_look(index_look(skin, level)),
        _ => Style::plain(),
    }
}

/// A line or a table cell in plain values.
pub open spec fn plain_cell(skin: MadSkin, fc: FmtComposite<'_>) -> CellModel {
    CellModel {
        kind: kind_of(fc),
        number_style: plain_number(skin, kind_of(fc)),
        pieces: plain_pieces(skin, fc),
        width: visible_of(fc),
        margins: margins_of(line_look(skin, fc)),
    }
}

/// The cells of a row in plain values.
pub open spec fn plain_cells(skin: MadSkin, cells: Seq<FmtComposite<'_>>) -> Seq<CellModel> {
    Seq::new(cells.len(), |i: int| plain_cell(skin, cells[i]))
}

/// A formatted line in plain values.
pub open spec fn plain_line(skin: MadSkin, line: FmtLine<'_>) -> LineModel {
    match line_parts(line) {
        FmtModel::Normal(fc) => LineModel::Normal(plain_cell(skin, fc)),
        FmtModel::TableRow(cells) => LineModel::TableRow(plain_cells(skin, cells)),
        FmtModel::TableRule(widths, aligns) => LineModel::TableRule {
            widths,
            columns: aligns.len(),
        },
        FmtModel::HorizontalRule => LineModel::HorizontalRule,
    }
}

/// Formatted lines in plain values.
pub open spec fn plain_lines(skin: MadSkin, lines: Seq<FmtLine<'_>>) -> Seq<LineModel> {
    Seq::new(lines.len(), |i: int| plain_line(skin, lines[i]))
}

/// The lines of a markdown text before they are wrapped.
pub open spec fn unwrapped(skin: MadSkin, md: Seq<char>) -> Seq<LineModel> {
    Seq::new(
        lines_read(md).len(),
        |i: int| plain_line(skin, unwrapped_line(lines_read(md)[i])),
    )
}

/// The lines of a markdown text, wrapped to a width.
pub open spec fn wrapped(skin: MadSkin, md: Seq<char>, width: usize) -> Seq<LineModel> {
    plain_lines(skin, formatted(skin, md, width))
}

/// Whether `termimad` can wrap a markdown text to a width.
pub open spec fn can_wrap(skin: MadSkin, md: Seq<char>, width: usize) -> bool {
    &&& list_numbers::numbers_fit(md)
    &&& markdown_room::has_room(unwrapped(skin, md), width)
}

/// Whether `termimad` can wrap a markdown text to a width in a skin for dark
/// backgrounds.
pub open spec fn can_wrap_dark(md: Seq<char>, width: usize) -> bool {
    forall|skin: MadSkin| #[trigger] dark(skin) ==> can_wrap(skin, md, width)
}

/// In a skin for dark backgrounds every piece of a line has the look for dark backgrounds:
/// code has the colours of code, headers are underlined.
pub proof fn pieces_look_dark(skin: MadSkin, fc: FmtComposite<'_>, i: int)
    requires
        dark(skin),
        kind_of(fc) != Kind::Header(0),
        0 <= i < pieces_of(fc).len(),
    ensures
        ({
            let cell = plain_cell(skin, fc);
            dark_look(cell.kind, cell.pieces[i].0, cell.pieces[i].1)
        }),
{
}

/// Whether a text can be wrapped is the same for all skins for dark backgrounds.
pub proof fn dark_skins_wrap_alike(a: MadSkin, b: MadSkin, md: Seq<char>, width: usize)
    requires
        dark(a),
        dark(b),
        list_numbers::numbers_fit(md) ==> forall|i: int|
            0 <= i < lines_read(md).len() ==> header_has_level(
                unwrapped_line(#[trigger] lines_read(md)[i]),
            ),
    ensures
        can_wrap(a, md, width) == can_wrap(b, md, width),
{
    if list_numbers::numbers_fit(md) {
        let la = markdown_room::room_lines(unwrapped(a, md));
        let lb = markdown_room::room_lines(unwrapped(b, md));
        assert forall|i: int| 0 <= i < la.len() implies la[i] == lb[i] by {
            let line = unwrapped_line(lines_read(md)[i]);
            assert(header_has_level(line));
            match line_parts(line) {
                FmtModel::TableRow(cells) => {
                    assert forall|c: int| 0 <= c < cells.len() implies margins_of(
                        line_look(a, #[trigger] cells[c]),
                    ) == margins_of(line_look(b, cells[c])) by {
                        assert(kind_of(cells[c]) != Kind::Header(0));
                    }
                    assert(markdown_room::rooms_of(plain_cells(a, cells))
                        =~= markdown_room::rooms_of(plain_cells(b, cells)));
                },
                _ => {},
            }
        }
        assert(la =~= lb);
    }
}

/// Reads a line or a table cell.
fn read_cell(skin: &MadSkin, fc: &FmtComposite<'_>) -> (r: MdCell)
    requires
        kind_of(*fc) != Kind::Header(0),
    ensures
        r@ == plain_cell(*skin, *fc),
{
    let ls = line_style(skin, fc);
    let kind = composite_kind(fc);
    let number_style = match kind {
        Kind::OrderedListItem { level, .. } => convert_style(&index_style(skin, level)),
        _ => Style::plain(),
    };
    let compounds = composite_pieces(fc);
    let mut pieces: Vec<MdPiece> = Vec::new();
    let mut i: usize = 0;
    while i < compounds.len()
        invariant
            i <= compounds.len(),
            compounds@ == pieces_of(*fc),
            ls == line_look(*skin, *fc),
            markdown::piece_views(pieces@) == plain_pieces(*skin, *fc).take(i as int),
        decreases compounds.len() - i,
    {
        let style = convert_style(&compound_style(skin, &ls, &compounds[i]));
        let ghost before = markdown::piece_views(pieces@);
        let piece = MdPiece { text: compound_text(&compounds[i]), style };
        let ghost last = (piece.text@, piece.style);
        pieces.push(piece);
        assert(markdown::piece_views(pieces@) =~= before.push(last));
        assert(plain_pieces(*skin, *fc)[i as int] == last);
        i += 1;
        assert(markdown::piece_views(pieces@) =~= plain_pieces(*skin, *fc).take(i as int));
    }
    assert(plain_pieces(*skin, *fc).take(i as int) =~= plain_pieces(*skin, *fc));
    MdCell { kind, number_style, pieces, width: visible_length(fc), margins: line_margins(&ls) }
}

/// Reads a formatted line.
fn read_line(skin: &MadSkin, line: &FmtLine<'_>) -> (r: MdLine)
    requires
        header_has_level(*line),
    ensures
        r@ == plain_line(*skin, *line),
{
    match open_line(line) {
        FmtParts::Normal(fc) => MdLine::Normal(read_cell(skin, fc)),
        FmtParts::TableRow(row) => {
            let mut cells: Vec<MdCell> = Vec::new();
            let mut i: usize = 0;
            while i < row.len()
                invariant
                    i <= row.len(),
                    forall|j: int|
                        0 <= j < row@.len() ==> kind_of(#[trigger] row@[j]) != Kind::Header(0),
                    markdown::cell_views(cells@) == plain_cells(*skin, row@).take(i as int),
                decreases row.len() - i,
            {
                let ghost before = markdown::cell_views(cells@);
                let cell = read_cell(skin, &row[i]);
                cells.push(cell);
                assert(markdown::cell_views(cells@) =~= before.push(cell@));
                assert(plain_cells(*skin, row@)[i as int] == cell@);
                i += 1;
                assert(markdown::cell_views(cells@) =~= plain_cells(*skin, row@).take(i as int));
            }
            assert(plain_cells(*skin, row@).take(i as int) =~= plain_cells(*skin, row@));
            MdLine::TableRow(cells)
        },
        FmtParts::TableRule(widths, aligns) => {
            let r = MdLine::TableRule { widths: copy_widths(widths), columns: aligns.len() };
            r
        },
        FmtParts::HorizontalRule => MdLine::HorizontalRule,
    }
}

/// The same widths.
fn copy_widths(widths: &Vec<usize>) -> (r: Vec<usize>)
    ensures
        r@ == widths@,
{
    let mut r: Vec<usize> = Vec::new();
    let mut i: usize = 0;
    while i < widths.len()
        invariant
            i <= widths.len(),
            r@ == widths@.take(i as int),
        decreases widths.len() - i,
    {
        r.push(widths[i]);
        i += 1;
        assert(r@ =~= widths@.take(i as int));
    }
    assert(widths@.take(i as int) =~= widths@);
    r
}

/// Reads the lines of a markdown text before they are wrapped.
pub(crate) fn read_unwrapped(skin: &MadSkin, md: &str) -> (r: Vec<MdLine>)
    requires
        list_numbers::numbers_fit(md@),
    ensures
        markdown::line_views(r@) == unwrapped(*skin, md@),
        forall|i: int|
            0 <= i < lines_read(md@).len() ==> header_has_level(
                unwrapped_line(#[trigger] lines_read(md@)[i]),
            ),
{
    let read = read_lines(md);
    let mut r: Vec<MdLine> = Vec::new();
    for line in it: read
        invariant
            it.seq() == lines_read(md@),
            forall|i: int|
                0 <= i < lines_read(md@).len() ==> header_has_level(
                    unwrapped_line(#[trigger] lines_read(md@)[i]),
                ),
            r@.len() == it.index(),
            forall|j: int| 0 <= j < r@.len() ==> (#[trigger] r@[j])@ == unwrapped(*skin, md@)[j],
    {
        r.push(read_line(skin, &format_line(skin, line)));
    }
    assert(markdown::line_views(r@) =~= unwrapped(*skin, md@));
    r
}

/// Reads the lines of a markdown text, wrapped to a width.
pub(crate) fn read_wrapped(skin: &MadSkin, md: &str, width: usize) -> (r: Vec<MdLine>)
    requires
        can_wrap(*skin, md@, width),
    ensures
        markdown::line_views(r@) == wrapped(*skin, md@, width),
{
    let lines = format(skin, md, width);
    let mut r: Vec<MdLine> = Vec::new();
    let mut i: usize = 0;
    while i < lines.len()
        invariant
            i <= lines.len(),
            headers_have_levels(lines@),
            markdown::line_views(r@) == plain_lines(*skin, lines@).take(i as int),
        decreases lines.len() - i,
    {
        assert(header_has_level(lines@[i as int]));
        let ghost before = markdown::line_views(r@);
        let line = read_line(skin, &lines[i]);
        r.push(line);
        assert(markdown::line_views(r@) =~= before.push(line@));
        assert(plain_lines(*skin, lines@)[i as int] == line@);
        i += 1;
        assert(markdown::line_views(r@) =~= plain_lines(*skin, lines@).take(i as int));
    }
    assert(plain_lines(*skin, lines@).take(i as int) =~= plain_lines(*skin, lines@));
    r
}

} // verus!
