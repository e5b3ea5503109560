//! Colours, styles and styled texts.
use vstd::prelude::*;

verus! {

/// A colour of the terminal.
#[derive(Copy, Clone, Debug, PartialEq, Eq, Structural)]
pub enum Color {
    Black,
    Cyan,
    Green,
    Yellow,
    Magenta,
    Gray,
    DarkGray,
    White,
    Rgb(u8, u8, u8),
}

/// How a text looks.
#[derive(Copy, Clone, Debug, PartialEq, Eq)]
pub struct Style {
    pub fg: Option<Color>,
    pub bg: Option<Color>,
    pub bold: bool,
    pub italic: bool,
}

impl Style {
    /// The style of the terminal itself.
    #[verifier::allow_in_spec]
    pub fn new() -> (style: Style)
        returns
            (Style { fg: None, bg: None, bold: false, italic: false }),
    {
        Style { fg: None, bg: None, bold: false, italic: false }
    }

    /// The style with another colour of the text.
    #[verifier::allow_in_spec]
    pub fn fg(self, color: Color) -> (style: Style)
        returns
            (Style { fg: Some(color), ..self }),
    {
        Style { fg: Some(color), ..self }
    }

    /// The style with another colour behind the text.
    #[verifier::allow_in_spec]
    pub fn bg(self, color: Color) -> (style: Style)
        returns
            (Style { bg: Some(color), ..self }),
    {
        Style { bg: Some(color), ..self }
    }

    /// The style in bold.
    #[verifier::allow_in_spec]
    pub fn bold(self) -> (style: Style)
        returns
            (Style { bold: true, ..self }),
    {
        Style { bold: true, ..self }
    }

    /// The style in italics.
    #[verifier::allow_in_spec]
    pub fn italic(self) -> (style: Style)
        returns
            (Style { italic: true, ..self }),
    {
        Style { italic: true, ..self }
    }
}

/// The border of a pane: it stands out while the pane has the focus.
#[verifier::allow_in_spec]
pub fn border_style(focused: bool) -> (style: Style)
    returns
        Style::new().fg(
            if focused {
                Color::Yellow
            } else {
                Color::White
            },
        ),
{
    Style::new().fg(
        if focused {
            Color::Yellow
        } else {
            Color::White
        },
    )
}

/// The selected line of a list.
#[verifier::allow_in_spec]
pub fn highlight_style() -> (style: Style)
    returns
        Style::new().bg(Color::Rgb(60, 60, 60)).bold(),
{
    Style::new().bg(Color::Rgb(60, 60, 60)).bold()
}

/// The number of a pane, and the name of the program.
#[verifier::allow_in_spec]
pub fn badge_style() -> (style: Style)
    returns
        Style::new().fg(Color::Black).bg(Color::Cyan),
{
    Style::new().fg(Color::Black).bg(Color::Cyan)
}

/// The title of a pane.
#[verifier::allow_in_spec]
pub fn title_style() -> (style: Style)
    returns
        Style::new().fg(Color::Green).bold(),
{
    Style::new().fg(Color::Green).bold()
}

/// The name of a folder: it stands out where the folder is the current one.
#[verifier::allow_in_spec]
pub fn folder_style(current: bool) -> (style: Style)
    returns
        (if current {
            Style::new().fg(Color::Cyan).bold()
        } else {
            Style::new().fg(Color::Gray)
        }),
{
    if current {
        Style::new().fg(Color::Cyan).bold()
    } else {
        Style::new().fg(Color::Gray)
    }
}

/// The name of a column.
#[verifier::allow_in_spec]
pub fn header_style() -> (style: Style)
    returns
        Style::new().fg(Color::Cyan).bold(),
{
    Style::new().fg(Color::Cyan).bold()
}

/// A text in one style.
#[derive(Clone, Debug, PartialEq, Eq)]
pub struct Span {
    pub content: String,
    pub style: Style,
}

/// The content of a [`Span`].
#[verifier::ext_equal]
pub struct SpanView {
    pub content: Seq<char>,
    pub style: Style,
}

impl View for Span {
    type V = SpanView;

    open spec fn view(&self) -> SpanView {
        SpanView { content: self.content@, style: self.style }
    }
}

impl SpanView {
    /// A text in a style.
    pub open spec fn of(content: Seq<char>, style: Style) -> SpanView {
        SpanView { content, style }
    }
}

/// The contents of a line of texts.
pub open spec fn span_views(spans: Seq<Span>) -> Seq<SpanView> {
    spans.map_values(|s: Span| s@)
}

/// The contents of lines of texts.
pub open spec fn line_views(lines: Seq<Vec<Span>>) -> Seq<Seq<SpanView>> {
    lines.map_values(|l: Vec<Span>| span_views(l@))
}

/// The side on which a text stands.
#[derive(Copy, Clone, Debug, PartialEq, Eq, Structural)]
pub enum Alignment {
    Left,
    Right,
}

/// The edge of a pane at which a title stands.
#[derive(Copy, Clone, Debug, PartialEq, Eq, Structural)]
pub enum Edge {
    Top,
    Bottom,
}

/// The sides of a pane that have a border.
#[derive(Copy, Clone, Debug, PartialEq, Eq, Structural)]
pub struct Sides {
    pub top: bool,
    pub right: bool,
    pub bottom: bool,
    pub left: bool,
}

/// All sides.
#[verifier::allow_in_spec]
pub fn all_sides() -> (sides: Sides)
    returns
        (Sides { top: true, right: true, bottom: true, left: true }),
{
    Sides { top: true, right: true, bottom: true, left: true }
}

/// A title of a pane besides its first one.
#[derive(Clone, Debug, PartialEq, Eq)]
pub struct Title {
    pub text: Span,
    pub edge: Edge,
    pub alignment: Alignment,
}

/// The content of a [`Title`].
#[verifier::ext_equal]
pub struct TitleView {
    pub text: SpanView,
    pub edge: Edge,
    pub alignment: Alignment,
}

impl View for Title {
    type V = TitleView;

    open spec fn view(&self) -> TitleView {
        TitleView { text: self.text@, edge: self.edge, alignment: self.alignment }
    }
}

/// Puts a text in a style.
pub fn span(content: &str, style: Style) -> (span: Span)
    ensures
        span@ == SpanView::of(content@, style),
{
    Span { content: content.to_string(), style }
}

} // verus!
