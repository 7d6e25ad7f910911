//! Chat lines: pieces of text with their looks, inline markdown, tables and
//! the marking of a selection.

use vstd::prelude::*;

use crate::text;

verus! {

// ---------------------------------------------------------------------------
// Lines
// ---------------------------------------------------------------------------

/// A colour of the chat.
#[derive(Clone, Copy, Debug, PartialEq, Eq, Structural)]
pub enum Hue {
    Black,
    Red,
    Green,
    Yellow,
    Blue,
    Cyan,
    White,
    DarkGray,
    LightGreen,
    LightCyan,
    Rgb(u8, u8, u8),
}

/// How a piece of a chat line looks.
#[derive(Clone, Copy, Debug, PartialEq, Eq, Structural)]
pub struct Look {
    pub fg: Option<Hue>,
    pub bg: Option<Hue>,
    pub bold: bool,
    pub italic: bool,
    pub underlined: bool,
    pub crossed_out: bool,
    pub dim: bool,
}

impl Look {
    /// The look that changes nothing.
    #[verifier::allow_in_spec]
    pub fn plain() -> (r: Look)
        returns
            (Look {
                fg: None,
                bg: None,
                bold: false,
                italic: false,
                underlined: false,
                crossed_out: false,
                dim: false,
            }),
    {
        Look {
            fg: None,
            bg: None,
            bold: false,
            italic: false,
            underlined: false,
            crossed_out: false,
            dim: false,
        }
    }

    /// The same look with a foreground colour.
    #[verifier::allow_in_spec]
    pub fn fg(self, h: Hue) -> (r: Look)
        returns
            (Look { fg: Some(h), ..self }),
    {
        Look { fg: Some(h), ..self }
    }

    /// The same look with a background colour.
    #[verifier::allow_in_spec]
    pub fn bg(self, h: Hue) -> (r: Look)
        returns
            (Look { bg: Some(h), ..self }),
    {
        Look { bg: Some(h), ..self }
    }

    /// The same look in bold.
    #[verifier::allow_in_spec]
    pub fn bold(self) -> (r: Look)
        returns
            (Look { bold: true, ..self }),
    {
        Look { bold: true, ..self }
    }

    /// The same look in italics.
    #[verifier::allow_in_spec]
    pub fn italic(self) -> (r: Look)
        returns
            (Look { italic: true, ..self }),
    {
        Look { italic: true, ..self }
    }

    /// The same look underlined.
    #[verifier::allow_in_spec]
    pub fn underlined(self) -> (r: Look)
        returns
            (Look { underlined: true, ..self }),
    {
        Look { underlined: true, ..self }
    }

    /// The same look crossed out.
    #[verifier::allow_in_spec]
    pub fn crossed_out(self) -> (r: Look)
        returns
            (Look { crossed_out: true, ..self }),
    {
        Look { crossed_out: true, ..self }
    }

    /// The same look dimmed.
    #[verifier::allow_in_spec]
    pub fn dim(self) -> (r: Look)
        returns
            (Look { dim: true, ..self }),
    {
        Look { dim: true, ..self }
    }
}

/// The background of code blocks.
#[verifier::allow_in_spec]
pub fn code_bg() -> (r: Hue)
    returns
        Hue::Rgb(40, 40, 50),
{
    Hue::Rgb(40, 40, 50)
}

/// The background of what is selected.
#[verifier::allow_in_spec]
pub fn selection_bg() -> (r: Hue)
    returns
        Hue::Rgb(60, 80, 180),
{
    Hue::Rgb(60, 80, 180)
}

/// A piece of text in one look.
pub struct Piece {
    pub text: String,
    pub look: Look,
}

impl View for Piece {
    type V = (Seq<char>, Look);

    open spec fn view(&self) -> (Seq<char>, Look) {
        (self.text@, self.look)
    }
}

/// The texts and looks of a list of pieces.
pub open spec fn piece_views(v: Seq<Piece>) -> Seq<(Seq<char>, Look)> {
    Seq::new(v.len(), |i: int| v[i]@)
}

/// A line of the chat.
pub struct ChatLine {
    pub pieces: Vec<Piece>,
}

/// What a line of the chat shows.
pub type LineModel = Seq<(Seq<char>, Look)>;

impl View for ChatLine {
    type V = LineModel;

    open spec fn view(&self) -> LineModel {
        piece_views(self.pieces@)
    }
}

/// What the lines of a list show.
pub open spec fn line_views(v: Seq<ChatLine>) -> Seq<LineModel> {
    Seq::new(v.len(), |i: int| v[i]@)
}

/// The text of a line.
pub open spec fn line_text(line: LineModel) -> Seq<char>
    decreases line.len(),
{
    if line.len() == 0 {
        seq![]
    } else {
        line_text(line.drop_last()) + line.last().0
    }
}

impl ChatLine {
    /// A line of one piece.
    pub fn of(text: String, look: Look) -> (r: ChatLine)
        ensures
            r@ == seq![(text@, look)],
    {
        let mut pieces: Vec<Piece> = Vec::new();
        pieces.push(Piece { text, look });
        let r = ChatLine { pieces };
        assert(r@ =~= seq![(text@, look)]);
        r
    }

    /// A line with the same pieces.
    pub fn copy(&self) -> (r: ChatLine)
        ensures
            r@ == self@,
    {
        let mut pieces: Vec<Piece> = Vec::new();
        let mut i: usize = 0;
        while i < self.pieces.len()
            invariant
                i <= self.pieces.len(),
                piece_views(pieces@) == self@.take(i as int),
            decreases self.pieces.len() - i,
        {
            push(&mut pieces, self.pieces[i].text.clone(), self.pieces[i].look);
            i += 1;
            assert(self@.take(i as int) =~= self@.take(i - 1).push(self@[i - 1]));
        }
        assert(self@.take(i as int) =~= self@);
        ChatLine { pieces }
    }

    /// The text of the line.
    pub fn text(&self) -> (r: String)
        ensures
            r@ == line_text(self@),
    {
        let mut r = String::new();
        let mut i: usize = 0;
        assert(r@ =~= line_text(self@.take(0)));
        while i < self.pieces.len()
            invariant
                i <= self.pieces.len(),
                r@ == line_text(self@.take(i as int)),
            decreases self.pieces.len() - i,
        {
            r.append(self.pieces[i].text.as_str());
            assert(self@.take(i + 1).drop_last() =~= self@.take(i as int));
            assert(self@.take(i + 1).last() == self@[i as int]);
            i += 1;
        }
        assert(self@.take(i as int) =~= self@);
        r
    }
}

/// Puts a piece at the end.
pub fn push(pieces: &mut Vec<Piece>, text: String, look: Look)
    ensures
        piece_views(final(pieces)@) == piece_views(old(pieces)@).push((text@, look)),
{
    pieces.push(Piece { text, look });
    assert(piece_views(pieces@) =~= piece_views(old(pieces)@).push((text@, look)));
}

// ---------------------------------------------------------------------------
// Inline markdown
// ---------------------------------------------------------------------------

/// The look of inline code.
pub open spec fn code_look() -> Look {
    Look::plain().fg(Hue::White).bg(Hue::DarkGray)
}

/// Whether markdown begins at the front of a text.
pub open spec fn opens(s: Seq<char>) -> bool {
    &&& s.len() > 0
    &&& (s[0] == '*' || s[0] == '`' || s[0] == '[' || (s[0] == '~' && s.len() > 1 && s[1] == '~'))
}

/// How many characters stand before the first markdown.
pub open spec fn plain_len(s: Seq<char>) -> int
    decreases s.len(),
{
    if s.len() == 0 || opens(s) {
        0
    } else {
        1 + plain_len(s.skip(1))
    }
}

/// Markdown begins within the text or not at all.
pub proof fn plain_len_bounds(s: Seq<char>)
    ensures
        0 <= plain_len(s) <= s.len(),
        plain_len(s) < s.len() ==> opens(s.skip(plain_len(s))),
    decreases s.len(),
{
    if s.len() > 0 && !opens(s) {
        plain_len_bounds(s.skip(1));
        if plain_len(s) < s.len() {
            assert(s.skip(1).skip(plain_len(s.skip(1))) =~= s.skip(plain_len(s)));
        }
    } else if s.len() > 0 {
        assert(s.skip(0) =~= s);
    }
}

/// Where a character first stands twice in a row; the length where it does not.
pub open spec fn double_at(s: Seq<char>, c: char) -> int
    decreases s.len(),
{
    if s.len() == 0 {
        0
    } else if s.len() > 1 && s[0] == c && s[1] == c {
        0
    } else {
        1 + double_at(s.skip(1), c)
    }
}

/// A doubled character stands within the text, both of it, or not at all.
pub proof fn double_at_bounds(s: Seq<char>, c: char)
    ensures
        0 <= double_at(s, c) <= s.len(),
        double_at(s, c) < s.len() ==> double_at(s, c) + 2 <= s.len(),
    decreases s.len(),
{
    if s.len() > 0 && !(s.len() > 1 && s[0] == c && s[1] == c) {
        double_at_bounds(s.skip(1), c);
    }
}

/// The pieces of a text in which markdown is set off from a base look:
/// `**bold**`, `*italic*`, `` `code` ``, `~~crossed out~~` and `[label](url)`,
/// of which the label is shown. What is not closed runs to the end; brackets
/// without an address, or with one that is not closed, are shown as they are.
pub open spec fn inline(s: Seq<char>, base: Look) -> LineModel
    decreases s.len(), 1nat,
{
    proof {
        plain_len_bounds(s);
    }
    let n = plain_len(s);
    let head: LineModel = if n > 0 {
        seq![(s.take(n), base)]
    } else {
        seq![]
    };
    if n >= s.len() {
        head
    } else {
        head + markup(s.skip(n), base)
    }
}

/// The pieces of a text that begins with markdown.
pub open spec fn markup(s: Seq<char>, base: Look) -> LineModel
    decreases s.len(), 0nat,
{
    if !opens(s) {
        seq![]
    } else if s[0] == '*' && s.len() > 1 && s[1] == '*' {
        delimited(s.skip(2), '*', true, base.bold(), base)
    } else if s[0] == '*' {
        delimited(s.skip(1), '*', false, base.italic(), base)
    } else if s[0] == '`' {
        delimited(s.skip(1), '`', false, code_look(), base)
    } else if s[0] == '~' {
        delimited(s.skip(2), '~', true, base.crossed_out(), base)
    } else {
        bracketed(s.skip(1), base)
    }
}

/// The pieces of a text that begins inside delimiters: what stands before the
/// closing ones, in its look, and what follows them.
pub open spec fn delimited(s: Seq<char>, c: char, double: bool, look: Look, base: Look) -> LineModel
    decreases s.len(), 2nat,
{
    proof {
        double_at_bounds(s, c);
        text::index_of_bounds(s, c);
    }
    let k = if double {
        double_at(s, c)
    } else {
        text::index_of(s, c)
    };
    let width: int = if double {
        2
    } else {
        1
    };
    if k >= s.len() {
        seq![(s, look)]
    } else {
        seq![(s.take(k), look)] + inline(s.skip(k + width), base)
    }
}

/// The pieces of a text that begins behind an opening bracket.
pub open spec fn bracketed(s: Seq<char>, base: Look) -> LineModel
    decreases s.len(), 2nat,
{
    proof {
        text::index_of_bounds(s, ']');
    }
    let k = text::index_of(s, ']');
    if k >= s.len() {
        seq![("["@ + s + "]"@, base)]
    } else if k + 1 < s.len() && s[k + 1] == '(' {
        proof {
            text::index_of_bounds(s.skip(k + 2), ')');
        }
        let url = s.skip(k + 2);
        let m = text::index_of(url, ')');
        if m >= url.len() {
            seq![("["@ + s.take(k) + "]("@ + url + ")"@, base)]
        } else {
            seq![(s.take(k), base.fg(Hue::Cyan).underlined())] + inline(url.skip(m + 1), base)
        }
    } else {
        seq![("["@ + s.take(k) + "]"@, base)] + inline(s.skip(k + 1), base)
    }
}

/// Where the plain text that begins at `from` ends.
fn end_of_plain(v: &Vec<char>, from: usize) -> (i: usize)
    requires
        from <= v.len(),
    ensures
        from <= i <= v.len(),
        i == from + plain_len(v@.skip(from as int)),
{
    let mut i: usize = from;
    while i < v.len()
        invariant
            from <= i <= v.len(),
            from + plain_len(v@.skip(from as int)) == i + plain_len(v@.skip(i as int)),
        decreases v.len() - i,
    {
        let ghost rest = v@.skip(i as int);
        let c = v[i];
        assert(rest[0] == c);
        assert(rest.len() > 1 ==> rest[1] == v@[i + 1]);
        if c == '*' || c == '`' || c == '[' || (c == '~' && i + 1 < v.len() && v[i + 1] == '~') {
            assert(opens(rest));
            return i;
        }
        assert(rest.skip(1) =~= v@.skip(i + 1));
        i += 1;
    }
    i
}

/// Where a character next stands twice in a row, from `from` on.
fn find_double(v: &Vec<char>, from: usize, c: char) -> (i: usize)
    requires
        from <= v.len(),
    ensures
        from <= i <= v.len(),
        i == from + double_at(v@.skip(from as int), c),
{
    let mut i: usize = from;
    while i < v.len()
        invariant
            from <= i <= v.len(),
            from + double_at(v@.skip(from as int), c) == i + double_at(v@.skip(i as int), c),
        decreases v.len() - i,
    {
        let ghost rest = v@.skip(i as int);
        assert(rest[0] == v@[i as int]);
        assert(rest.len() > 1 ==> rest[1] == v@[i + 1]);
        if v[i] == c && i + 1 < v.len() && v[i + 1] == c {
            return i;
        }
        assert(rest.skip(1) =~= v@.skip(i + 1));
        i += 1;
    }
    i
}

/// Puts what stands before the closing delimiters, and says where to go on;
/// nowhere, where the delimiters are not closed.
fn take_delimited(
    v: &Vec<char>,
    from: usize,
    c: char,
    double: bool,
    look: Look,
    Ghost(base): Ghost<Look>,
    spans: &mut Vec<Piece>,
) -> (next: Option<usize>)
    requires
        from <= v.len(),
    ensures
        match next {
            Some(i) => from < i <= v.len() && piece_views(old(spans)@) + delimited(
                v@.skip(from as int),
                c,
                double,
                look,
                base,
            ) == piece_views(final(spans)@) + inline(v@.skip(i as int), base),
            None => piece_views(final(spans)@) == piece_views(old(spans)@) + delimited(
                v@.skip(from as int),
                c,
                double,
                look,
                base,
            ),
        },
{
    let ghost s = v@.skip(from as int);
    let ghost was = piece_views(spans@);
    proof {
        double_at_bounds(s, c);
        text::index_of_bounds(s, c);
    }
    let k: usize = if double { find_double(v, from, c) } else { text::find_char(v, from, c) };
    push(spans, text::text_of(v, from, k), look);
    assert(s.take(k - from) =~= v@.subrange(from as int, k as int));
    if k == v.len() {
        assert(s =~= v@.subrange(from as int, k as int));
        assert(piece_views(spans@) =~= was + seq![(s, look)]);
        return None;
    }
    let next: usize = if double { k + 2 } else { k + 1 };
    assert(s.skip(next - from) =~= v@.skip(next as int));
    assert(piece_views(spans@) + inline(v@.skip(next as int), base) =~= was + (seq![
        (s.take(k - from), look),
    ] + inline(v@.skip(next as int), base)));
    Some(next)
}

/// Puts what a bracket begins, and says where to go on; nowhere, where it runs
/// to the end.
fn take_bracketed(v: &Vec<char>, from: usize, base: Look, spans: &mut Vec<Piece>) -> (next: Option<
    usize,
>)
    requires
        from <= v.len(),
    ensures
        match next {
            Some(i) => from < i <= v.len() && piece_views(old(spans)@) + bracketed(
                v@.skip(from as int),
                base,
            ) == piece_views(final(spans)@) + inline(v@.skip(i as int), base),
            None => piece_views(final(spans)@) == piece_views(old(spans)@) + bracketed(
                v@.skip(from as int),
                base,
            ),
        },
{
    let ghost s = v@.skip(from as int);
    let ghost was = piece_views(spans@);
    proof {
        text::index_of_bounds(s, ']');
    }
    let k: usize = text::find_char(v, from, ']');
    let label = text::text_of(v, from, k);
    assert(s.take(k - from) =~= v@.subrange(from as int, k as int));
    if k == v.len() {
        assert(s =~= v@.subrange(from as int, k as int));
        push(spans, text::cat3("[", label.as_str(), "]"), base);
        assert(piece_views(spans@) =~= was + bracketed(s, base));
        return None;
    }
    if k + 1 < v.len() && v[k + 1] == '(' {
        assert(s[k - from + 1] == '(');
        let ghost url = s.skip(k - from + 2);
        assert(url =~= v@.skip(k + 2));
        proof {
            text::index_of_bounds(url, ')');
        }
        let m: usize = text::find_char(v, k + 2, ')');
        if m == v.len() {
            let rest = text::text_of(v, k + 2, m);
            assert(url =~= rest@);
            push(spans, text::cat5("[", label.as_str(), "](", rest.as_str(), ")"), base);
            assert(piece_views(spans@) =~= was + bracketed(s, base));
            return None;
        }
        push(spans, label, base.fg(Hue::Cyan).underlined());
        assert(url.skip(m - (k + 2) + 1) =~= v@.skip(m + 1));
        assert(piece_views(spans@) + inline(v@.skip(m + 1), base) =~= was + bracketed(s, base));
        return Some(m + 1);
    }
    assert(k + 1 < v.len() ==> s[k - from + 1] == v@[k + 1]);
    push(spans, text::cat3("[", label.as_str(), "]"), base);
    assert(s.skip(k - from + 1) =~= v@.skip(k + 1));
    assert(piece_views(spans@) + inline(v@.skip(k + 1), base) =~= was + bracketed(s, base));
    Some(k + 1)
}

/// Puts the markdown that begins at `n`, and says where to go on; nowhere,
/// where it runs to the end.
fn take_markup(v: &Vec<char>, n: usize, base: Look, spans: &mut Vec<Piece>) -> (next: Option<usize>)
    requires
        n < v.len(),
        opens(v@.skip(n as int)),
    ensures
        match next {
            Some(i) => n < i <= v.len() && piece_views(old(spans)@) + markup(
                v@.skip(n as int),
                base,
            ) == piece_views(final(spans)@) + inline(v@.skip(i as int), base),
            None => piece_views(final(spans)@) == piece_views(old(spans)@) + markup(
                v@.skip(n as int),
                base,
            ),
        },
{
    let ghost rest = v@.skip(n as int);
    assert(rest[0] == v@[n as int]);
    assert(rest.len() > 1 ==> rest[1] == v@[n + 1]);
    assert(rest.skip(1) =~= v@.skip(n + 1));
    assert(rest.len() > 1 ==> rest.skip(2) =~= v@.skip(n + 2));
    let c = v[n];
    let twin = n + 1 < v.len() && v[n + 1] == c;
    if c == '*' && twin {
        take_delimited(v, n + 2, '*', true, base.bold(), Ghost(base), spans)
    } else if c == '*' {
        take_delimited(v, n + 1, '*', false, base.italic(), Ghost(base), spans)
    } else if c == '`' {
        let look = Look::plain().fg(Hue::White).bg(Hue::DarkGray);
        take_delimited(v, n + 1, '`', false, look, Ghost(base), spans)
    } else if c == '~' {
        take_delimited(v, n + 2, '~', true, base.crossed_out(), Ghost(base), spans)
    } else {
        take_bracketed(v, n + 1, base, spans)
    }
}

/// Sets inline markdown off from a base look.
pub fn parse_inline_markdown(s: &str, base: Look) -> (r: Vec<Piece>)
    ensures
        piece_views(r@) == inline(s@, base),
{
    let v = text::chars_of(s);
    let mut spans: Vec<Piece> = Vec::new();
    let mut i: usize = 0;
    assert(v@.skip(0) =~= v@);
    assert(piece_views(spans@) + inline(v@, base) =~= inline(v@, base));
    while i < v.len()
        invariant
            i <= v.len(),
            v@ == s@,
            piece_views(spans@) + inline(v@.skip(i as int), base) == inline(s@, base),
        decreases v.len() - i,
    {
        let ghost here = v@.skip(i as int);
        let ghost was = piece_views(spans@);
        proof {
            plain_len_bounds(here);
        }
        let n: usize = end_of_plain(&v, i);
        let ghost head: LineModel = if n > i {
            seq![(here.take(n - i), base)]
        } else {
            seq![]
        };
        if n > i {
            assert(here.take(n - i) =~= v@.subrange(i as int, n as int));
            push(&mut spans, text::text_of(&v, i, n), base);
        }
        assert(piece_views(spans@) =~= was + head);
        if n == v.len() {
            assert(inline(here, base) == head);
            return spans;
        }
        assert(here.skip(n - i) =~= v@.skip(n as int));
        assert(inline(here, base) == head + markup(v@.skip(n as int), base));
        assert(was + inline(here, base) =~= was + head + markup(v@.skip(n as int), base));
        match take_markup(&v, n, base, &mut spans) {
            Some(k) => {
                i = k;
            },
            None => {
                return spans;
            },
        }
    }
    assert(inline(v@.skip(i as int), base) =~= seq![]);
    assert(piece_views(spans@) + inline(v@.skip(i as int), base) =~= piece_views(spans@));
    spans
}

/// A text without markdown is one piece in the base look.
pub proof fn plain_text_is_one_piece(s: Seq<char>, base: Look)
    requires
        s.len() > 0,
        forall|i: int|
            0 <= i < s.len() ==> s[i] != '*' && s[i] != '`' && s[i] != '[' && s[i] != '~',
    ensures
        inline(s, base) == seq![(s, base)],
{
    no_opening(s);
    assert(s.take(s.len() as int) =~= s);
}

/// A text without the characters of markdown has none in it.
proof fn no_opening(s: Seq<char>)
    requires
        forall|i: int|
            0 <= i < s.len() ==> s[i] != '*' && s[i] != '`' && s[i] != '[' && s[i] != '~',
    ensures
        plain_len(s) == s.len(),
    decreases s.len(),
{
    if s.len() > 0 {
        let rest = s.skip(1);
        assert forall|i: int| 0 <= i < rest.len() implies rest[i] != '*' && rest[i] != '`'
            && rest[i] != '[' && rest[i] != '~' by {
            assert(rest[i] == s[i + 1]);
        }
        no_opening(rest);
    }
}

// ---------------------------------------------------------------------------
// Headings and tables
// ---------------------------------------------------------------------------

/// How many times a text begins with a character.
pub open spec fn leading(s: Seq<char>, c: char) -> int
    decreases s.len(),
{
    if s.len() > 0 && s[0] == c {
        1 + leading(s.skip(1), c)
    } else {
        0
    }
}

/// A text begins with a character no more often than it is long.
pub proof fn leading_bounds(s: Seq<char>, c: char)
    ensures
        0 <= leading(s, c) <= s.len(),
    decreases s.len(),
{
    if s.len() > 0 && s[0] == c {
        leading_bounds(s.skip(1), c);
    }
}

/// How many times a text begins with a character.
pub fn count_leading(v: &Vec<char>, c: char) -> (n: usize)
    ensures
        n == leading(v@, c),
        n <= v.len(),
{
    let mut n: usize = 0;
    assert(v@.skip(0) =~= v@);
    while n < v.len() && v[n] == c
        invariant
            n <= v.len(),
            leading(v@, c) == n + leading(v@.skip(n as int), c),
        decreases v.len() - n,
    {
        assert(v@.skip(n as int).skip(1) =~= v@.skip(n + 1));
        n += 1;
    }
    n
}

/// The level of a heading: one to six number signs and a blank.
pub open spec fn level_of(line: Seq<char>) -> Option<usize> {
    let s = text::trimmed(line);
    let n = leading(s, '#');
    if 0 < n <= 6 && n < s.len() && s[n] == ' ' {
        Some(n as usize)
    } else {
        None
    }
}

/// The level of a heading.
pub fn heading_level(line: &str) -> (r: Option<usize>)
    ensures
        r == level_of(line@),
{
    let v = text::chars_of(text::trim(line).as_str());
    let n: usize = count_leading(&v, '#');
    if n > 0 && n <= 6 && n < v.len() && v[n] == ' ' {
        Some(n)
    } else {
        None
    }
}

/// Whether a line is a row of a table: it begins with a bar.
pub open spec fn is_row(line: Seq<char>) -> bool {
    text::trimmed(line).len() > 0 && text::trimmed(line)[0] == '|'
}

/// Whether a line is a row of a table.
pub fn is_table_row(line: &str) -> (r: bool)
    ensures
        r == is_row(line@),
{
    text::starts_with_char(text::trim(line).as_str(), '|')
}

/// Whether a line separates the head of a table from its rows: a bar, and
/// behind it only bars, dashes, colons and blanks.
pub open spec fn is_separator(line: Seq<char>) -> bool {
    is_row(line) && forall|i: int|
        1 <= i < text::trimmed(line).len() ==> {
            let c = #[trigger] text::trimmed(line)[i];
            c == '|' || c == '-' || c == ':' || c == ' '
        }
}

/// Whether a line separates the head of a table from its rows.
pub fn is_table_separator(line: &str) -> (r: bool)
    ensures
        r == is_separator(line@),
{
    let v = text::chars_of(text::trim(line).as_str());
    if v.len() == 0 || v[0] != '|' {
        return false;
    }
    let mut i: usize = 1;
    while i < v.len()
        invariant
            1 <= i <= v.len(),
            v@ == text::trimmed(line@),
            forall|j: int|
                1 <= j < i ==> {
                    let c = #[trigger] text::trimmed(line@)[j];
                    c == '|' || c == '-' || c == ':' || c == ' '
                },
        decreases v.len() - i,
    {
        let c = v[i];
        assert(c == text::trimmed(line@)[i as int]);
        if c != '|' && c != '-' && c != ':' && c != ' ' {
            return false;
        }
        i += 1;
    }
    true
}

/// The look of the bars of a table.
pub open spec fn bar_look() -> Look {
    Look::plain().fg(Hue::Cyan).dim()
}

/// What stands between the outer bars of a row; all of it, where one of them
/// is missing.
pub open spec fn between_bars(s: Seq<char>) -> Seq<char> {
    if s.len() >= 2 && s[0] == '|' && s.last() == '|' {
        s.subrange(1, s.len() - 1)
    } else {
        s
    }
}

/// The pieces of the cells of a row, with a bar between any two.
pub open spec fn cell_pieces(cells: Seq<Seq<char>>, base: Look) -> LineModel
    decreases cells.len(),
{
    if cells.len() == 0 {
        seq![]
    } else {
        cell_pieces(cells.drop_last(), base) + (if cells.len() > 1 {
            seq![("\u{2502}"@, bar_look())]
        } else {
            seq![]
        }) + inline(text::trimmed(cells.last()), base)
    }
}

/// The pieces of a row of a table: a bar, the cells, and a bar.
pub open spec fn row_pieces(line: Seq<char>, base: Look) -> LineModel {
    seq![("\u{2502}"@, bar_look())] + cell_pieces(
        text::pieces(between_bars(text::trimmed(line)), '|'),
        base,
    ) + seq![("\u{2502}"@, bar_look())]
}

/// Puts all pieces of one list behind those of another.
pub fn push_all(pieces: &mut Vec<Piece>, more: Vec<Piece>)
    ensures
        piece_views(final(pieces)@) == piece_views(old(pieces)@) + piece_views(more@),
{
    let mut more = more;
    let ghost a = pieces@;
    let ghost b = more@;
    pieces.append(&mut more);
    assert(piece_views(pieces@) =~= piece_views(a) + piece_views(b));
}

/// Renders a row of a table.
pub fn render_table_row(line: &str, base: Look) -> (r: Vec<Piece>)
    ensures
        piece_views(r@) == row_pieces(line@, base),
{
    let bar = Look::plain().fg(Hue::Cyan).dim();
    let v = text::chars_of(text::trim(line).as_str());
    let inner = if v.len() >= 2 && v[0] == '|' && v[v.len() - 1] == '|' {
        text::text_of(&v, 1, v.len() - 1)
    } else {
        assert(v@.subrange(0, v.len() as int) =~= v@);
        text::text_of(&v, 0, v.len())
    };
    assert(inner@ == between_bars(text::trimmed(line@)));
    let cells = text::split(inner.as_str(), '|');
    let ghost all = text::pieces(inner@, '|');
    let mut spans: Vec<Piece> = Vec::new();
    push(&mut spans, "\u{2502}".to_owned(), bar);
    let ghost head: LineModel = seq![("\u{2502}"@, bar_look())];
    assert(piece_views(spans@) =~= head + cell_pieces(all.take(0), base));
    let mut i: usize = 0;
    while i < cells.len()
        invariant
            i <= cells.len(),
            bar == bar_look(),
            text::views(cells@) == all,
            piece_views(spans@) == head + cell_pieces(all.take(i as int), base),
        decreases cells.len() - i,
    {
        if i > 0 {
            push(&mut spans, "\u{2502}".to_owned(), bar);
        }
        let cell = text::trim(cells[i].as_str());
        push_all(&mut spans, parse_inline_markdown(cell.as_str(), base));
        proof {
            let next = all.take(i + 1);
            assert(next.drop_last() =~= all.take(i as int));
            assert(next.last() == cells@[i as int]@);
            assert(piece_views(spans@) =~= head + cell_pieces(next, base));
        }
        i += 1;
    }
    assert(all.take(i as int) =~= all);
    push(&mut spans, "\u{2502}".to_owned(), bar);
    assert(piece_views(spans@) =~= row_pieces(line@, base));
    spans
}

// ---------------------------------------------------------------------------
// Selection
// ---------------------------------------------------------------------------

/// A piece that begins at a column, with what lies in a selection marked.
pub open spec fn marked_piece(piece: (Seq<char>, Look), begin: int, from: int, to: int) -> LineModel {
    let (s, look) = piece;
    let end = begin + s.len();
    let marked = look.bg(selection_bg());
    if end <= from || begin >= to {
        seq![(s, look)]
    } else if begin >= from && end <= to {
        seq![(s, marked)]
    } else {
        let lo = if from > begin {
            from - begin
        } else {
            0
        };
        let hi = if to < end {
            to - begin
        } else {
            end - begin
        };
        (if begin < from {
            seq![(s.take(lo), look)]
        } else {
            seq![]
        }) + (if lo < hi {
            seq![(s.subrange(lo, hi), marked)]
        } else {
            seq![]
        }) + (if end > to {
            seq![(s.skip(hi), look)]
        } else {
            seq![]
        })
    }
}

/// How many characters a line has.
pub open spec fn line_len(line: LineModel) -> int
    decreases line.len(),
{
    if line.len() == 0 {
        0
    } else {
        line_len(line.drop_last()) + line.last().0.len()
    }
}

/// A line with what lies in a selection marked.
pub open spec fn marked_line(line: LineModel, from: int, to: int) -> LineModel
    decreases line.len(),
{
    if line.len() == 0 {
        seq![]
    } else {
        marked_line(line.drop_last(), from, to) + marked_piece(
            line.last(),
            line_len(line.drop_last()),
            from,
            to,
        )
    }
}

/// Puts a piece with what lies in a selection marked.
fn mark_piece(piece: &Piece, begin: u128, from: usize, to: usize, spans: &mut Vec<Piece>)
    requires
        begin + piece.text@.len() <= u128::MAX,
    ensures
        piece_views(final(spans)@) == piece_views(old(spans)@) + marked_piece(
            piece@,
            begin as int,
            from as int,
            to as int,
        ),
{
    let v = text::chars_of(piece.text.as_str());
    let end: u128 = begin + v.len() as u128;
    let a: u128 = from as u128;
    let b: u128 = to as u128;
    let marked = piece.look.bg(selection_bg());
    let ghost was = piece_views(spans@);
    if end <= a || begin >= b {
        push(spans, piece.text.clone(), piece.look);
    } else if begin >= a && end <= b {
        push(spans, piece.text.clone(), marked);
    } else {
        let lo: usize = if a > begin { (a - begin) as usize } else { 0 };
        let hi: usize = if b < end { (b - begin) as usize } else { (end - begin) as usize };
        if begin < a {
            assert(v@.subrange(0, lo as int) =~= v@.take(lo as int));
            push(spans, text::text_of(&v, 0, lo), piece.look);
        }
        if lo < hi {
            push(spans, text::text_of(&v, lo, hi), marked);
        }
        if end > b {
            assert(v@.subrange(hi as int, v.len() as int) =~= v@.skip(hi as int));
            push(spans, text::text_of(&v, hi, v.len()), piece.look);
        }
    }
    assert(piece_views(spans@) =~= was + marked_piece(
        piece@,
        begin as int,
        from as int,
        to as int,
    ));
}

/// Marks what lies in a selection, from one column up to another.
pub fn apply_selection_to_line(line: &ChatLine, sel_start: usize, sel_end: usize) -> (r: ChatLine)
    ensures
        r@ == marked_line(line@, sel_start as int, sel_end as int),
{
    let mut spans: Vec<Piece> = Vec::new();
    let mut offset: u128 = 0;
    let mut i: usize = 0;
    assert(piece_views(spans@) =~= marked_line(line@.take(0), sel_start as int, sel_end as int));
    while i < line.pieces.len()
        invariant
            i <= line.pieces.len(),
            offset == line_len(line@.take(i as int)),
            offset <= i * usize::MAX,
            piece_views(spans@) == marked_line(
                line@.take(i as int),
                sel_start as int,
                sel_end as int,
            ),
        decreases line.pieces.len() - i,
    {
        let ghost was = piece_views(spans@);
        let len: usize = text::chars_of(line.pieces[i].text.as_str()).len();
        proof {
            let next = line@.take(i + 1);
            assert(next.drop_last() =~= line@.take(i as int));
            assert(next.last() == line@[i as int]);
            assert(i * usize::MAX + usize::MAX == (i + 1) * usize::MAX) by (nonlinear_arith);
            assert((i + 1) * usize::MAX <= usize::MAX * usize::MAX) by (nonlinear_arith)
                requires
                    i + 1 <= usize::MAX,
            ;
            assert(usize::MAX * usize::MAX <= u128::MAX) by (nonlinear_arith)
                requires
                    usize::MAX <= u64::MAX,
            ;
        }
        mark_piece(&line.pieces[i], offset, sel_start, sel_end, &mut spans);
        offset = offset + len as u128;
        i += 1;
    }
    assert(line@.take(i as int) =~= line@);
    ChatLine { pieces: spans }
}

/// Marking a selection changes no text: the line reads as before.
pub proof fn selection_keeps_text(line: LineModel, from: int, to: int)
    requires
        0 <= from <= to,
    ensures
        line_text(marked_line(line, from, to)) == line_text(line),
    decreases line.len(),
{
    if line.len() > 0 {
        let head = line.drop_last();
        let begin = line_len(head);
        selection_keeps_text(head, from, to);
        line_len_bounds(head);
        piece_keeps_text(line.last(), begin, from, to);
        line_text_adds(marked_line(head, from, to), marked_piece(line.last(), begin, from, to));
    }
}

/// A line has no negative number of characters.
pub proof fn line_len_bounds(line: LineModel)
    ensures
        line_len(line) >= 0,
    decreases line.len(),
{
    if line.len() > 0 {
        line_len_bounds(line.drop_last());
    }
}

/// The text of two lines in one is the texts of both.
pub proof fn line_text_adds(a: LineModel, b: LineModel)
    ensures
        line_text(a + b) == line_text(a) + line_text(b),
    decreases b.len(),
{
    if b.len() == 0 {
        assert(a + b =~= a);
        assert(line_text(a) + line_text(b) =~= line_text(a));
    } else {
        line_text_adds(a, b.drop_last());
        assert((a + b).drop_last() =~= a + b.drop_last());
        assert(line_text(a + b) =~= line_text(a) + line_text(b));
    }
}

/// Marking a piece changes no text.
proof fn piece_keeps_text(piece: (Seq<char>, Look), begin: int, from: int, to: int)
    requires
        0 <= begin,
        0 <= from <= to,
    ensures
        line_text(marked_piece(piece, begin, from, to)) == piece.0,
{
    let s = piece.0;
    let r = marked_piece(piece, begin, from, to);
    reveal_with_fuel(line_text, 4);
    assert(r.len() >= 1 ==> r.drop_last().len() == r.len() - 1);
    assert(line_text(r) =~= s);
}

/// A line of one piece has the text of that piece, and one more piece adds its text.
pub proof fn pieces_add_their_text(line: LineModel, s: Seq<char>, look: Look)
    ensures
        line_text(seq![(s, look)]) == s,
        line_text(line.push((s, look))) == line_text(line) + s,
        line_text(Seq::empty()) == Seq::<char>::empty(),
{
    let one: LineModel = seq![(s, look)];
    assert(one.drop_last() =~= Seq::<(Seq<char>, Look)>::empty());
    assert(line_text(one.drop_last()) == Seq::<char>::empty());
    assert(Seq::<char>::empty() + s =~= s);
    assert(line.push((s, look)).drop_last() =~= line);
}

proof fn a_double_is_found(a: Seq<char>, c: char, rest: Seq<char>)
    requires
        forall|i: int| 0 <= i < a.len() ==> #[trigger] a[i] != c,
    ensures
        double_at(a + seq![c, c] + rest, c) == a.len(),
    decreases a.len(),
{
    let s = a + seq![c, c] + rest;
    if a.len() == 0 {
        assert(s[0] == c && s[1] == c);
    } else {
        assert(s[0] == a[0]);
        assert(s.skip(1) =~= a.skip(1) + seq![c, c] + rest);
        assert forall|i: int| 0 <= i < a.skip(1).len() implies #[trigger] a.skip(1)[i] != c by {
            assert(a.skip(1)[i] == a[i + 1]);
        }
        a_double_is_found(a.skip(1), c, rest);
    }
}

/// What stands between two stars is bold, between one star italic, between two tildes crossed
/// out, and between two back quotes code; the marks are not shown, and what follows is shown
/// as before.
pub proof fn marks_change_the_look(w: Seq<char>, rest: Seq<char>, base: Look)
    requires
        w.len() > 0,
        forall|i: int|
            0 <= i < w.len() ==> #[trigger] w[i] != '*' && w[i] != '`' && w[i] != '~',
    ensures
        inline(seq!['*', '*'] + (w + seq!['*', '*'] + rest), base) == seq![(w, base.bold())]
            + inline(rest, base),
        inline(seq!['*'] + (w + seq!['*'] + rest), base) == seq![(w, base.italic())] + inline(
            rest,
            base,
        ),
        inline(seq!['~', '~'] + (w + seq!['~', '~'] + rest), base) == seq![
            (w, base.crossed_out()),
        ] + inline(rest, base),
        inline(seq!['`'] + (w + seq!['`'] + rest), base) == seq![
            (w, Look::plain().fg(Hue::White).bg(Hue::DarkGray)),
        ] + inline(rest, base),
{
    a_double_is_found(w, '*', rest);
    a_double_is_found(w, '~', rest);
    text::the_first_place_is_found(w, '*', rest);
    text::the_first_place_is_found(w, '`', rest);
    a_mark_opens(seq!['*', '*'], w + seq!['*', '*'] + rest, base);
    a_mark_opens(seq!['*'], w + seq!['*'] + rest, base);
    a_mark_opens(seq!['~', '~'], w + seq!['~', '~'] + rest, base);
    a_mark_opens(seq!['`'], w + seq!['`'] + rest, base);
    let two = w + seq!['*', '*'] + rest;
    assert(two.take(w.len() as int) =~= w);
    assert(two.skip(w.len() as int + 2) =~= rest);
    let one = w + seq!['*'] + rest;
    assert(one.take(w.len() as int) =~= w);
    assert(one.skip(w.len() as int + 1) =~= rest);
    let waves = w + seq!['~', '~'] + rest;
    assert(waves.take(w.len() as int) =~= w);
    assert(waves.skip(w.len() as int + 2) =~= rest);
    let quoted = w + seq!['`'] + rest;
    assert(quoted.take(w.len() as int) =~= w);
    assert(quoted.skip(w.len() as int + 1) =~= rest);
    assert((seq!['*'] + one)[1] == w[0]);
    assert(delimited(two, '*', true, base.bold(), base) == seq![(w, base.bold())] + inline(
        rest,
        base,
    ));
    assert(delimited(one, '*', false, base.italic(), base) == seq![(w, base.italic())] + inline(
        rest,
        base,
    ));
    assert(delimited(waves, '~', true, base.crossed_out(), base) == seq![(w, base.crossed_out())]
        + inline(rest, base));
    assert(delimited(quoted, '`', false, code_look(), base) == seq![(w, code_look())] + inline(
        rest,
        base,
    ));
}

proof fn a_mark_opens(mark: Seq<char>, s: Seq<char>, base: Look)
    requires
        mark == seq!['*', '*'] || mark == seq!['*'] || mark == seq!['~', '~'] || mark == seq!['`']
            || mark == seq!['['],
    ensures
        inline(mark + s, base) == markup(mark + s, base),
        (mark + s).skip(mark.len() as int) == s,
{
    let t = mark + s;
    assert(t[0] == mark[0]);
    if mark == seq!['~', '~'] {
        assert(t[1] == '~');
    }
    assert(opens(t));
    assert(t.skip(0) =~= t);
    assert(Seq::<(Seq<char>, Look)>::empty() + markup(t, base) =~= markup(t, base));
    assert(t.skip(mark.len() as int) =~= s);
}

/// A link shows its words, underlined, and not where it leads; brackets that are no link are
/// shown.
pub proof fn links_show_their_words(w: Seq<char>, url: Seq<char>, rest: Seq<char>, base: Look)
    requires
        forall|i: int| 0 <= i < w.len() ==> #[trigger] w[i] != ']',
        forall|i: int| 0 <= i < url.len() ==> #[trigger] url[i] != ')',
    ensures
        inline(seq!['['] + (w + seq![']'] + (seq!['('] + (url + seq![')'] + rest))), base)
            == seq![(w, base.fg(Hue::Cyan).underlined())] + inline(rest, base),
        rest.len() == 0 || rest[0] != '(' ==> inline(seq!['['] + (w + seq![']'] + rest), base)
            == seq![("["@ + w + "]"@, base)] + inline(rest, base),
{
    let link = seq!['('] + (url + seq![')'] + rest);
    a_link_is_read(w, url, rest, base);
    a_bracket_opens(w + seq![']'] + link, base);
    a_bracket_opens(w + seq![']'] + rest, base);
    if rest.len() == 0 || rest[0] != '(' {
        a_bracket_is_read(w, rest, base);
    }
}

proof fn a_bracket_opens(s: Seq<char>, base: Look)
    ensures
        inline(seq!['['] + s, base) == bracketed(s, base),
{
    a_mark_opens(seq!['['], s, base);
    assert((seq!['['] + s)[0] == '[');
}

proof fn a_link_is_read(w: Seq<char>, url: Seq<char>, rest: Seq<char>, base: Look)
    requires
        forall|i: int| 0 <= i < w.len() ==> #[trigger] w[i] != ']',
        forall|i: int| 0 <= i < url.len() ==> #[trigger] url[i] != ')',
    ensures
        bracketed(w + seq![']'] + (seq!['('] + (url + seq![')'] + rest)), base) == seq![
            (w, base.fg(Hue::Cyan).underlined()),
        ] + inline(rest, base),
{
    let tail = url + seq![')'] + rest;
    let s = w + seq![']'] + (seq!['('] + tail);
    let n = w.len() as int;
    text::the_first_place_is_found(w, ']', seq!['('] + tail);
    text::the_first_place_is_found(url, ')', rest);
    assert(s[n + 1] == '(');
    assert(s.take(n) =~= w);
    assert(s.skip(n + 2) =~= tail);
    assert(tail.skip(url.len() as int + 1) =~= rest);
}

proof fn a_bracket_is_read(w: Seq<char>, rest: Seq<char>, base: Look)
    requires
        forall|i: int| 0 <= i < w.len() ==> #[trigger] w[i] != ']',
        rest.len() == 0 || rest[0] != '(',
    ensures
        bracketed(w + seq![']'] + rest, base) == seq![("["@ + w + "]"@, base)] + inline(
            rest,
            base,
        ),
{
    let s = w + seq![']'] + rest;
    let n = w.len() as int;
    text::the_first_place_is_found(w, ']', rest);
    assert(s.take(n) =~= w);
    assert(s.skip(n + 1) =~= rest);
    if rest.len() > 0 {
        assert(s[n + 1] == rest[0]);
    }
}

/// What stands before the first mark is shown as it is.
pub proof fn text_before_a_mark_is_shown(a: Seq<char>, rest: Seq<char>, base: Look)
    requires
        a.len() > 0,
        forall|i: int|
            0 <= i < a.len() ==> #[trigger] a[i] != '*' && a[i] != '`' && a[i] != '[' && a[i]
                != '~',
        rest.len() > 0,
        rest[0] == '*' || rest[0] == '`' || rest[0] == '[',
    ensures
        inline(a + rest, base) == seq![(a, base)] + inline(rest, base),
{
    let s = a + rest;
    the_text_ends_at_a_mark(a, rest);
    assert(s.take(a.len() as int) =~= a);
    assert(s.skip(a.len() as int) =~= rest);
    assert(rest.skip(0) =~= rest);
    assert(Seq::<(Seq<char>, Look)>::empty() + markup(rest, base) =~= markup(rest, base));
}

proof fn the_text_ends_at_a_mark(a: Seq<char>, rest: Seq<char>)
    requires
        forall|i: int|
            0 <= i < a.len() ==> #[trigger] a[i] != '*' && a[i] != '`' && a[i] != '[' && a[i]
                != '~',
        rest.len() > 0,
        rest[0] == '*' || rest[0] == '`' || rest[0] == '[',
    ensures
        plain_len(a + rest) == a.len(),
        plain_len(rest) == 0,
    decreases a.len(),
{
    let s = a + rest;
    if a.len() > 0 {
        assert(s[0] == a[0]);
        assert(s.skip(1) =~= a.skip(1) + rest);
        assert forall|i: int| 0 <= i < a.skip(1).len() implies #[trigger] a.skip(1)[i] != '*'
            && a.skip(1)[i] != '`' && a.skip(1)[i] != '[' && a.skip(1)[i] != '~' by {
            assert(a.skip(1)[i] == a[i + 1]);
        }
        the_text_ends_at_a_mark(a.skip(1), rest);
    } else {
        assert(s =~= rest);
    }
}

proof fn hashes_are_counted(n: int, rest: Seq<char>)
    requires
        0 <= n,
        rest.len() == 0 || rest[0] != '#',
    ensures
        leading(text::repeated('#', n) + rest, '#') == n,
    decreases n,
{
    let s = text::repeated('#', n) + rest;
    if n > 0 {
        assert(s[0] == '#');
        assert(s.skip(1) =~= text::repeated('#', n - 1) + rest);
        hashes_are_counted(n - 1, rest);
    } else {
        assert(s =~= rest);
    }
}

/// One to six hashes and a blank make a heading of that level; without the blank there is
/// none.
pub proof fn hashes_make_headings(n: int, title: Seq<char>)
    requires
        1 <= n <= 6,
        title.len() > 0,
        title[0] != '#',
        !text::is_space(title[0]),
        !text::is_space(title.last()),
    ensures
        level_of(text::repeated('#', n) + (seq![' '] + title)) == Some(n as usize),
        leading(text::repeated('#', n) + (seq![' '] + title), '#') == n,
        text::trimmed((text::repeated('#', n) + (seq![' '] + title)).skip(n)) == title,
        level_of(text::repeated('#', n) + title) is None,
        level_of(title) is None,
{
    let rest = seq![' '] + title;
    let s = text::repeated('#', n) + rest;
    hashes_are_counted(n, rest);
    assert(s[0] == '#' && s.last() == title.last());
    text::bare_text_is_kept(s);
    assert(s[n] == ' ');
    assert(s.skip(n) =~= rest);
    text::bare_text_is_kept(title);
    let t = text::repeated('#', n) + title;
    hashes_are_counted(n, title);
    assert(t[0] == '#' && t.last() == title.last());
    text::bare_text_is_kept(t);
    assert(t[n] == title[0]);
}

/// A piece of a line is marked where it lies in the selection, and only there.
pub proof fn only_the_selection_is_marked(s: Seq<char>, look: Look, from: int, to: int)
    requires
        0 < from < to < s.len(),
    ensures
        marked_piece((s, look), 0, 0, s.len() as int) == seq![
            (s, look.bg(Hue::Rgb(60, 80, 180))),
        ],
        marked_piece((s, look), 0, from, to) == seq![
            (s.take(from), look),
            (s.subrange(from, to), look.bg(Hue::Rgb(60, 80, 180))),
            (s.skip(to), look),
        ],
        marked_piece((s, look), to, 0, from) == seq![(s, look)],
        marked_piece((s, look), 0, s.len() as int, s.len() as int + 1) == seq![(s, look)],
{
}

/// A row of a table is shown between bars, with a bar between its cells.
pub proof fn rows_are_shown_between_bars(line: Seq<char>, base: Look, cells: Seq<Seq<char>>, cell: Seq<char>)
    ensures
        row_pieces(line, base)[0].0 == "\u{2502}"@,
        row_pieces(line, base).last().0 == "\u{2502}"@,
        cells.len() > 0 ==> cell_pieces(cells.push(cell), base) == cell_pieces(cells, base)
            + seq![("\u{2502}"@, Look::plain().fg(Hue::Cyan).dim())] + inline(
            text::trimmed(cell),
            base,
        ),
        cell_pieces(seq![cell], base) == inline(text::trimmed(cell), base),
{
    assert(cells.push(cell).drop_last() =~= cells);
    let one = seq![cell];
    assert(one.drop_last() =~= seq![]);
    assert(cell_pieces(one.drop_last(), base) =~= seq![]);
    assert(cell_pieces(one, base) =~= inline(text::trimmed(cell), base));
}

/// A line is a row of a table when it begins with a bar, and a separator when it holds nothing
/// but bars, hyphens, colons and blanks.
pub proof fn bars_make_rows(line: Seq<char>)
    requires
        line.len() > 0,
        !text::is_space(line[0]),
        !text::is_space(line.last()),
    ensures
        is_row(line) == (line[0] == '|'),
        is_separator(line) ==> is_row(line),
        line[0] == '|' && line.len() >= 2 && line.last() == '|' ==> between_bars(line)
            == line.subrange(1, line.len() - 1),
        line[0] == '|' && (forall|i: int|
            1 <= i < line.len() ==> #[trigger] line[i] == '-' || line[i] == '|') ==> is_separator(
            line,
        ),
{
    text::bare_text_is_kept(line);
}

} // verus!
