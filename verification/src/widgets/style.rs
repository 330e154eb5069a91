//! Styled text: the colours and emphasis the panels use.

use vstd::prelude::*;

verus! {

/// A foreground colour.
#[derive(Debug, Clone, Copy, PartialEq, Eq, Structural)]
pub enum Color {
    Reset,
    Black,
    White,
    DarkGray,
    Red,
    Green,
    Yellow,
    Blue,
    Magenta,
    Cyan,
    Rgb(u8, u8, u8),
}

/// How a piece of text is drawn.
#[derive(Debug, Clone, Copy, PartialEq, Eq, Structural)]
pub struct Style {
    /// `None` keeps the colour already there.
    pub fg: Option<Color>,
    /// `None` keeps the background already there.
    pub bg: Option<Color>,
    pub bold: bool,
    pub italic: bool,
    pub reversed: bool,
}

/// A piece of text with one style.
#[derive(Debug, Clone, PartialEq)]
pub struct Span {
    pub text: String,
    pub style: Style,
}

/// A span as the spec sees it.
pub open spec fn span_view(s: Span) -> (Seq<char>, Style) {
    (s.text@, s.style)
}

/// A list of spans as the spec sees it.
pub open spec fn spans_view(v: Seq<Span>) -> Seq<(Seq<char>, Style)> {
    v.map_values(|s: Span| span_view(s))
}

/// The terminal's own style.
pub open spec fn plain_style() -> Style {
    Style { fg: None, bg: None, bold: false, italic: false, reversed: false }
}

/// Text in colour `c`.
pub open spec fn fg_style(c: Color) -> Style {
    Style { fg: Some(c), bg: None, bold: false, italic: false, reversed: false }
}

/// The terminal's own style.
pub fn plain() -> (s: Style)
    ensures
        s == plain_style(),
{
    Style { fg: None, bg: None, bold: false, italic: false, reversed: false }
}

/// Text in colour `c`.
pub fn fg(c: Color) -> (s: Style)
    ensures
        s == fg_style(c),
{
    Style { fg: Some(c), bg: None, bold: false, italic: false, reversed: false }
}

impl Span {
    /// A span of `text` in `style`.
    pub fn styled(text: String, style: Style) -> (s: Span)
        ensures
            s.text == text,
            s.style == style,
    {
        Span { text, style }
    }
}

/// One row of a panel: its spans, and a style laid over the whole row
/// after they are drawn (`None` leaves the row as the spans drew it).
#[derive(Debug, Clone, PartialEq)]
pub struct Row {
    pub spans: Vec<Span>,
    pub patch: Option<Style>,
}

/// The reversed-video style laid over the selected rows.
pub open spec fn reversed_style() -> Style {
    Style { fg: None, bg: None, bold: false, italic: false, reversed: true }
}

/// The reversed-video style laid over the selected rows.
pub fn reversed() -> (s: Style)
    ensures
        s == reversed_style(),
{
    Style { fg: None, bg: None, bold: false, italic: false, reversed: true }
}


/// Appends a span of `text` in `style`.
pub(crate) fn push_span(v: &mut Vec<Span>, text: String, style: Style)
    ensures
        spans_view(final(v)@) == spans_view(old(v)@).push((text@, style)),
{
    let ghost before = v@;
    v.push(Span { text, style });
    assert(spans_view(v@) =~= spans_view(before).push((text@, style)));
}

/// Appends a span of a copy of `text` in `style`.
pub(crate) fn push_text(v: &mut Vec<Span>, text: &str, style: Style)
    ensures
        spans_view(final(v)@) == spans_view(old(v)@).push((text@, style)),
{
    push_span(v, String::from_str(text), style);
}

/// A row of the given spans with nothing laid over it.
pub open spec fn row_shows(r: Row, spans: Seq<(Seq<char>, Style)>, patch: Option<Style>) -> bool {
    spans_view(r.spans@) == spans && r.patch == patch
}

/// A row of one span.
pub(crate) fn single_row(text: String, style: Style, patch: Option<Style>) -> (r: Row)
    ensures
        row_shows(r, seq![(text@, style)], patch),
{
    let mut v: Vec<Span> = Vec::new();
    push_span(&mut v, text, style);
    assert(spans_view(v@) =~= seq![(text@, style)]);
    Row { spans: v, patch }
}


/// How many rows a panel `height` rows high shows of a list of `n` entries
/// scrolled to entry `scroll`.
pub open spec fn window(n: int, scroll: int, height: int) -> int {
    if scroll >= n {
        0
    } else if n - scroll < height {
        n - scroll
    } else {
        height
    }
}

} // verus!
