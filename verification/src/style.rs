//! Styled text as the terminal front end draws it: colours, modifiers,
//! styles, spans, lines and whole texts. The front end maps these one for one
//! onto its drawing toolkit.
use vstd::prelude::*;

verus! {

/// A terminal colour.
#[derive(Clone, Copy, PartialEq, Eq, Debug, Structural)]
pub enum Color {
    Reset,
    Black,
    Red,
    Green,
    Yellow,
    Blue,
    Magenta,
    Cyan,
    Gray,
    DarkGray,
    LightRed,
    LightGreen,
    LightYellow,
    LightBlue,
    LightMagenta,
    LightCyan,
    White,
    Rgb(u8, u8, u8),
    Indexed(u8),
}

/// A set of text modifiers, one bit each.
#[derive(Clone, Copy, PartialEq, Eq, Debug, Structural)]
pub struct Modifier {
    pub bits: u16,
}

/// No modifier.
pub const MOD_NONE: u16 = 0x0000;

/// Bold text.
pub const MOD_BOLD: u16 = 0x0001;

/// Dimmed text.
pub const MOD_DIM: u16 = 0x0002;

/// Italic text.
pub const MOD_ITALIC: u16 = 0x0004;

/// Underlined text.
pub const MOD_UNDERLINED: u16 = 0x0008;

/// Reversed colours.
pub const MOD_REVERSED: u16 = 0x0040;

/// Struck-through text.
pub const MOD_CROSSED_OUT: u16 = 0x0100;

/// Foreground, background and added modifiers of a piece of text; `None`
/// leaves the terminal's own colour in place.
#[derive(Clone, Copy, PartialEq, Eq, Debug, Structural)]
pub struct Style {
    pub fg: Option<Color>,
    pub bg: Option<Color>,
    pub add_modifier: Modifier,
}

/// The style that sets only the foreground colour.
pub open spec fn fg_style(c: Color) -> Style {
    Style { fg: Some(c), bg: None, add_modifier: Modifier { bits: MOD_NONE } }
}

/// The style that sets the foreground colour and the modifiers `m`.
pub open spec fn fg_mod_style(c: Color, m: u16) -> Style {
    Style { fg: Some(c), bg: None, add_modifier: Modifier { bits: m } }
}

/// The style that sets both colours.
pub open spec fn fg_bg_style(c: Color, b: Color) -> Style {
    Style { fg: Some(c), bg: Some(b), add_modifier: Modifier { bits: MOD_NONE } }
}

impl Style {
    /// The style that changes nothing.
    pub fn new() -> (r: Style)
        ensures
            r == (Style { fg: None, bg: None, add_modifier: Modifier { bits: MOD_NONE } }),
    {
        Style { fg: None, bg: None, add_modifier: Modifier { bits: MOD_NONE } }
    }

    /// This style with foreground colour `c`.
    pub fn fg(self, c: Color) -> (r: Style)
        ensures
            r == (Style { fg: Some(c), ..self }),
    {
        Style { fg: Some(c), ..self }
    }

    /// This style with background colour `c`.
    pub fn bg(self, c: Color) -> (r: Style)
        ensures
            r == (Style { bg: Some(c), ..self }),
    {
        Style { bg: Some(c), ..self }
    }

    /// This style with the modifiers of `m` added.
    pub fn add_modifier(self, m: Modifier) -> (r: Style)
        ensures
            r == (Style { add_modifier: Modifier { bits: self.add_modifier.bits | m.bits }, ..self }),
    {
        Style { add_modifier: Modifier { bits: self.add_modifier.bits | m.bits }, ..self }
    }
}

/// A run of text in one style.
#[derive(Clone, Debug)]
pub struct Span {
    pub content: String,
    pub style: Style,
}

impl View for Span {
    type V = (Seq<char>, Style);

    open spec fn view(&self) -> (Seq<char>, Style) {
        (self.content@, self.style)
    }
}

impl Span {
    /// A span of `content` in `style`.
    pub fn styled(content: String, style: Style) -> (r: Span)
        ensures
            r@ == (content@, style),
    {
        Span { content, style }
    }
}

/// One screen line, as a sequence of spans.
#[derive(Clone, Debug)]
pub struct Line {
    pub spans: Vec<Span>,
}

/// The view of a line: the text and style of each span.
pub open spec fn spans_view(spans: Seq<Span>) -> Seq<(Seq<char>, Style)> {
    spans.map_values(|s: Span| s@)
}

impl View for Line {
    type V = Seq<(Seq<char>, Style)>;

    open spec fn view(&self) -> Seq<(Seq<char>, Style)> {
        spans_view(self.spans@)
    }
}

/// The text of a line: its spans' contents, one after the other.
pub open spec fn line_text(spans: Seq<(Seq<char>, Style)>) -> Seq<char>
    decreases spans.len(),
{
    if spans.len() == 0 {
        Seq::empty()
    } else {
        line_text(spans.drop_last()) + spans.last().0
    }
}

impl Line {
    /// A line made of `spans`.
    pub fn from_spans(spans: Vec<Span>) -> (r: Line)
        ensures
            r@ == spans_view(spans@),
    {
        Line { spans }
    }

    /// The line's text without its styles.
    pub fn to_string(&self) -> (r: String)
        ensures
            r@ == line_text(self@),
    {
        let mut out = String::new();
        let mut i: usize = 0;
        while i < self.spans.len()
            invariant
                0 <= i <= self.spans@.len(),
                out@ == line_text(self@.take(i as int)),
            decreases self.spans@.len() - i,
        {
            let piece = crate::chars::str_to_chars(self.spans[i].content.as_str());
            let mut k: usize = 0;
            let ghost before = out@;
            while k < piece.len()
                invariant
                    0 <= k <= piece@.len(),
                    out@ == before + piece@.take(k as int),
                decreases piece@.len() - k,
            {
                crate::chars::push_char(&mut out, piece[k]);
                assert(piece@.take(k + 1) =~= piece@.take(k as int).push(piece@[k as int]));
                k = k + 1;
            }
            assert(piece@.take(piece@.len() as int) =~= piece@);
            assert(self@.take(i + 1).drop_last() =~= self@.take(i as int));
            i = i + 1;
        }
        assert(self@.take(self@.len() as int) =~= self@);
        out
    }
}

/// A whole text, line by line.
#[derive(Clone, Debug)]
pub struct Text {
    pub lines: Vec<Line>,
}

/// The view of a text: the view of each line.
pub open spec fn lines_view(lines: Seq<Line>) -> Seq<Seq<(Seq<char>, Style)>> {
    lines.map_values(|l: Line| l@)
}

impl View for Text {
    type V = Seq<Seq<(Seq<char>, Style)>>;

    open spec fn view(&self) -> Seq<Seq<(Seq<char>, Style)>> {
        lines_view(self.lines@)
    }
}

} // verus!
