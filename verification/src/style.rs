//! Styled text: colours, attributes, spans and blocks.

use vstd::prelude::*;

verus! {

/// A terminal colour.
#[derive(Clone, Copy, Debug, PartialEq, Eq, Structural)]
pub enum Colour {
    Reset,
    Black,
    DarkGrey,
    Red,
    DarkRed,
    Green,
    DarkGreen,
    Yellow,
    DarkYellow,
    Blue,
    DarkBlue,
    Magenta,
    DarkMagenta,
    Cyan,
    DarkCyan,
    White,
    Grey,
    Rgb { r: u8, g: u8, b: u8 },
    AnsiValue(u8),
}

/// How a piece of text looks.
#[derive(Clone, Copy, Debug, PartialEq, Eq, Structural)]
pub struct Style {
    pub fg: Option<Colour>,
    pub bg: Option<Colour>,
    pub bold: bool,
    pub italic: bool,
    pub underline: bool,
    pub strikethrough: bool,
}

impl Style {
    /// The style that changes nothing.
    #[verifier::allow_in_spec]
    pub fn plain() -> (r: Style)
        returns
            (Style {
                fg: None,
                bg: None,
                bold: false,
                italic: false,
                underline: false,
                strikethrough: false,
            }),
    {
        Style {
            fg: None,
            bg: None,
            bold: false,
            italic: false,
            underline: false,
            strikethrough: false,
        }
    }

    /// The same style with a foreground colour.
    #[verifier::allow_in_spec]
    pub fn fg(self, c: Colour) -> (r: Style)
        returns
            (Style { fg: Some(c), ..self }),
    {
        Style { fg: Some(c), ..self }
    }

    /// The same style with a background colour.
    #[verifier::allow_in_spec]
    pub fn bg(self, c: Colour) -> (r: Style)
        returns
            (Style { bg: Some(c), ..self }),
    {
        Style { bg: Some(c), ..self }
    }

    /// The same style in bold.
    #[verifier::allow_in_spec]
    pub fn bold(self) -> (r: Style)
        returns
            (Style { bold: true, ..self }),
    {
        Style { bold: true, ..self }
    }

    /// The same style in italics.
    #[verifier::allow_in_spec]
    pub fn italic(self) -> (r: Style)
        returns
            (Style { italic: true, ..self }),
    {
        Style { italic: true, ..self }
    }

    /// The same style underlined.
    #[verifier::allow_in_spec]
    pub fn underline(self) -> (r: Style)
        returns
            (Style { underline: true, ..self }),
    {
        Style { underline: true, ..self }
    }
}

impl Default for Style {
    fn default() -> (r: Style)
        ensures
            r == Style::plain(),
    {
        Style::plain()
    }
}

/// A piece of text in one style.
pub struct Span {
    pub text: String,
    pub style: Style,
}

impl View for Span {
    type V = (Seq<char>, Style);

    open spec fn view(&self) -> (Seq<char>, Style) {
        (self.text@, self.style)
    }
}

impl Span {
    /// The text in the style.
    pub fn new(text: String, style: Style) -> (r: Span)
        ensures
            r@ == (text@, style),
    {
        Span { text, style }
    }
}

/// The texts and styles of a list of spans.
pub open spec fn span_views(v: Seq<Span>) -> Seq<(Seq<char>, Style)> {
    Seq::new(v.len(), |i: int| v[i]@)
}

/// Spans one after the other.
pub struct StyledText {
    pub spans: Vec<Span>,
}

impl View for StyledText {
    type V = Seq<(Seq<char>, Style)>;

    open spec fn view(&self) -> Seq<(Seq<char>, Style)> {
        span_views(self.spans@)
    }
}

impl StyledText {
    /// No text.
    pub fn new() -> (r: StyledText)
        ensures
            r@ == Seq::<(Seq<char>, Style)>::empty(),
    {
        let r = StyledText { spans: Vec::new() };
        assert(r@ =~= Seq::empty());
        r
    }

    /// One span.
    pub fn of(span: Span) -> (r: StyledText)
        ensures
            r@ == seq![span@],
    {
        let mut r = StyledText::new();
        r.push(span);
        assert(r@ =~= seq![span@]);
        r
    }

    /// Puts a span at the end.
    pub fn push(&mut self, span: Span)
        ensures
            final(self)@ == old(self)@.push(span@),
    {
        self.spans.push(span);
        assert(self@ =~= old(self)@.push(span@));
    }

    /// The spans in order.
    pub fn spans(&self) -> (r: &Vec<Span>)
        ensures
            span_views(r@) == self@,
    {
        &self.spans
    }

    /// Whether there is no span.
    pub fn is_empty(&self) -> (r: bool)
        ensures
            r == (self@.len() == 0),
    {
        self.spans.len() == 0
    }
}

/// A block of output.
pub struct StyledBlock {
    pub content: StyledText,
}

impl View for StyledBlock {
    type V = Seq<(Seq<char>, Style)>;

    open spec fn view(&self) -> Seq<(Seq<char>, Style)> {
        self.content@
    }
}

impl StyledBlock {
    /// A block with the text.
    pub fn new(content: StyledText) -> (r: StyledBlock)
        ensures
            r@ == content@,
    {
        StyledBlock { content }
    }

    /// A block of one span.
    pub fn line(text: String, style: Style) -> (r: StyledBlock)
        ensures
            r@ == seq![(text@, style)],
    {
        StyledBlock::new(StyledText::of(Span::new(text, style)))
    }
}

} // verus!
