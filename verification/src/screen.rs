//! What is on the screen: every text, where it stands, and its style.
use crate::app::{AppView, Focus, Selection};
use crate::layout::{Areas, Constraint, Rect};
use crate::mail::{EnvelopeView, FolderView};
use crate::style::{
    all_sides, badge_style, border_style, folder_style, header_style, highlight_style,
    title_style, Alignment, Color, Edge, Sides, Span, SpanView, Style, Title, TitleView,
};
use vstd::prelude::*;

verus! {

/// The list of folders.
#[derive(Clone, Debug, PartialEq, Eq)]
pub struct FolderPane {
    pub area: Rect,
    pub title: Vec<Span>,
    pub border: Style,
    pub sides: Sides,
    pub items: Vec<Span>,
    pub highlight: Style,
    /// Which item is highlighted, and the first one that is shown.
    pub state: Selection,
}

/// The content of a [`FolderPane`].
#[verifier::ext_equal]
pub struct FolderPaneView {
    pub area: Rect,
    pub title: Seq<SpanView>,
    pub border: Style,
    pub sides: Sides,
    pub items: Seq<SpanView>,
    pub highlight: Style,
    pub state: Selection,
}

impl View for FolderPane {
    type V = FolderPaneView;

    open spec fn view(&self) -> FolderPaneView {
        FolderPaneView {
            area: self.area,
            title: crate::style::span_views(self.title@),
            border: self.border,
            sides: self.sides,
            items: crate::style::span_views(self.items@),
            highlight: self.highlight,
            state: self.state,
        }
    }
}

/// The names of the folders, in their order. The current one stands out.
pub open spec fn folder_items(
    folders: Seq<FolderView>,
    current: Seq<char>,
) -> Seq<SpanView> {
    folders.map_values(
        |f: FolderView| SpanView::of(f.name, folder_style(f.name == current)),
    )
}

/// The pane of the folders.
pub open spec fn folder_pane(app: AppView, area: Rect) -> FolderPaneView {
    FolderPaneView {
        area,
        title: seq![SpanView::of(" 1 "@, badge_style()), SpanView::of(" Folders "@, title_style())],
        border: border_style(app.focus == Focus::Folders),
        sides: all_sides(),
        items: folder_items(app.folders, app.current_folder),
        highlight: highlight_style(),
        state: app.folders_state,
    }
}

/// The lines of a table of envelopes.
#[derive(Clone, Debug, PartialEq, Eq)]
pub struct EnvelopeTable {
    pub header: Vec<Span>,
    pub header_style: Style,
    pub header_height: u16,
    pub rows: Vec<Vec<Span>>,
    pub widths: Vec<Constraint>,
    pub highlight: Style,
    pub highlight_symbol: String,
    /// Which row is highlighted, and the first one that is shown.
    pub state: Selection,
}

/// The content of an [`EnvelopeTable`].
#[verifier::ext_equal]
pub struct EnvelopeTableView {
    pub header: Seq<SpanView>,
    pub header_style: Style,
    pub header_height: u16,
    pub rows: Seq<Seq<SpanView>>,
    pub widths: Seq<Constraint>,
    pub highlight: Style,
    pub highlight_symbol: Seq<char>,
    pub state: Selection,
}

impl View for EnvelopeTable {
    type V = EnvelopeTableView;

    open spec fn view(&self) -> EnvelopeTableView {
        EnvelopeTableView {
            header: crate::style::span_views(self.header@),
            header_style: self.header_style,
            header_height: self.header_height,
            rows: crate::style::line_views(self.rows@),
            widths: self.widths@,
            highlight: self.highlight,
            highlight_symbol: self.highlight_symbol@,
            state: self.state,
        }
    }
}

/// What the pane of the envelopes holds.
#[derive(Clone, Debug, PartialEq, Eq)]
pub enum EnvelopeList {
    /// A note that there are none.
    Empty(Span),
    Table(EnvelopeTable),
}

/// The content of an [`EnvelopeList`].
#[verifier::ext_equal]
pub enum EnvelopeListView {
    Empty(SpanView),
    Table(EnvelopeTableView),
}

impl View for EnvelopeList {
    type V = EnvelopeListView;

    open spec fn view(&self) -> EnvelopeListView {
        match self {
            EnvelopeList::Empty(note) => EnvelopeListView::Empty(note@),
            EnvelopeList::Table(table) => EnvelopeListView::Table(table@),
        }
    }
}

/// The line of an envelope: its date, its sender and its subject.
pub open spec fn envelope_row(envelope: EnvelopeView) -> Seq<SpanView> {
    seq![
        SpanView::of(
            crate::text::short_date(envelope.date),
            Style::new().fg(Color::Rgb(150, 150, 150)),
        ),
        SpanView::of(envelope.from, Style::new().fg(Color::Green)),
        SpanView::of(envelope.subject, Style::new().fg(Color::White)),
    ]
}

/// The list of envelopes.
pub open spec fn envelope_list(
    envelopes: Seq<EnvelopeView>,
    state: Selection,
) -> EnvelopeListView {
    if envelopes.len() == 0 {
        EnvelopeListView::Empty(
            SpanView::of("No messages found in this folder."@, Style::new().fg(Color::DarkGray)),
        )
    } else {
        EnvelopeListView::Table(
            EnvelopeTableView {
                header: seq![
                    SpanView::of("Date & Time"@, header_style()),
                    SpanView::of("Sender"@, header_style()),
                    SpanView::of("Subject"@, header_style()),
                ],
                header_style: Style::new().bg(Color::Rgb(40, 40, 40)),
                header_height: 1,
                rows: envelopes.map_values(|e: EnvelopeView| envelope_row(e)),
                widths: seq![Constraint::Length(17), Constraint::Length(30), Constraint::Min(0)],
                highlight: highlight_style(),
                highlight_symbol: ">> "@,
                state,
            },
        )
    }
}

/// The envelopes of the current page.
#[derive(Clone, Debug, PartialEq, Eq)]
pub struct EnvelopePane {
    pub area: Rect,
    pub title: Vec<Span>,
    /// The name of the program.
    pub branding: Title,
    /// How many envelopes there are.
    pub count: Title,
    pub border: Style,
    pub sides: Sides,
    pub list: EnvelopeList,
}

/// The content of an [`EnvelopePane`].
#[verifier::ext_equal]
pub struct EnvelopePaneView {
    pub area: Rect,
    pub title: Seq<SpanView>,
    pub branding: TitleView,
    pub count: TitleView,
    pub border: Style,
    pub sides: Sides,
    pub list: EnvelopeListView,
}

impl View for EnvelopePane {
    type V = EnvelopePaneView;

    open spec fn view(&self) -> EnvelopePaneView {
        EnvelopePaneView {
            area: self.area,
            title: crate::style::span_views(self.title@),
            branding: self.branding@,
            count: self.count@,
            border: self.border,
            sides: self.sides,
            list: self.list@,
        }
    }
}

/// The first folder of a name.
pub open spec fn folder_named(
    folders: Seq<FolderView>,
    name: Seq<char>,
) -> Option<FolderView>
    decreases folders.len(),
{
    if folders.len() == 0 {
        None
    } else if folders[0].name == name {
        Some(folders[0])
    } else {
        folder_named(folders.skip(1), name)
    }
}

/// The number of messages in a folder, where the description of the first folder
/// of that name is a number.
pub open spec fn total_messages(
    folders: Seq<FolderView>,
    name: Seq<char>,
) -> Option<usize> {
    match folder_named(folders, name) {
        Some(folder) => crate::text::usize_of(folder.desc),
        None => None,
    }
}

/// How many envelopes are shown, and of how many messages where that is known.
pub open spec fn count_line(shown: nat, total: Option<usize>) -> Seq<char> {
    match total {
        Some(total) => " "@ + crate::text::digits(shown) + " / "@ + crate::text::digits(
            total as nat,
        ) + " "@,
        None => " "@ + crate::text::digits(shown) + " "@,
    }
}

/// The pane of the envelopes.
pub open spec fn envelope_pane(app: AppView, area: Rect) -> EnvelopePaneView {
    EnvelopePaneView {
        area,
        title: seq![
            SpanView::of(" 2 "@, badge_style()),
            SpanView::of(" Envelopes ("@ + app.current_folder + ") "@, title_style()),
            SpanView::of(
                " [Page "@ + crate::text::digits(app.current_page + 1) + "] "@,
                Style::new().fg(Color::Magenta),
            ),
        ],
        branding: TitleView {
            text: SpanView::of(" Himalaya-TUI "@, badge_style().bold()),
            edge: Edge::Top,
            alignment: Alignment::Right,
        },
        count: TitleView {
            text: SpanView::of(
                count_line(
                    app.envelopes.len(),
                    total_messages(app.folders, app.current_folder),
                ),
                Style::new(),
            ),
            edge: Edge::Bottom,
            alignment: Alignment::Right,
        },
        border: border_style(app.focus == Focus::Envelopes),
        sides: all_sides(),
        list: envelope_list(app.envelopes, app.envelopes_state),
    }
}

/// The message that is being read.
#[derive(Clone, Debug, PartialEq, Eq)]
pub struct MessagePane {
    pub area: Rect,
    pub title: Vec<Span>,
    pub border: Style,
    pub sides: Sides,
    pub text: Span,
    /// Whether the blanks at the start of a line are left out where long lines are
    /// wrapped.
    pub trim: bool,
    /// The first line that is shown.
    pub scroll: u16,
    /// The first column that is shown.
    pub column: u16,
}

/// The content of a [`MessagePane`].
#[verifier::ext_equal]
pub struct MessagePaneView {
    pub area: Rect,
    pub title: Seq<SpanView>,
    pub border: Style,
    pub sides: Sides,
    pub text: SpanView,
    pub trim: bool,
    pub scroll: u16,
    pub column: u16,
}

impl View for MessagePane {
    type V = MessagePaneView;

    open spec fn view(&self) -> MessagePaneView {
        MessagePaneView {
            area: self.area,
            title: crate::style::span_views(self.title@),
            border: self.border,
            sides: self.sides,
            text: self.text@,
            trim: self.trim,
            scroll: self.scroll,
            column: self.column,
        }
    }
}

/// The title of the message pane: the subject is added where there is one.
pub open spec fn message_title(subject: Option<Seq<char>>) -> Seq<SpanView> {
    let title = seq![
        SpanView::of(" 3 "@, badge_style()),
        SpanView::of(" Message Preview "@, title_style()),
    ];
    match subject {
        Some(subject) => title.push(
            SpanView::of(" "@ + subject + " "@, Style::new().fg(Color::White).bg(Color::Magenta)),
        ),
        None => title,
    }
}

/// The pane of the message.
pub open spec fn message_pane(app: AppView, area: Rect) -> MessagePaneView {
    MessagePaneView {
        area,
        title: message_title(app.current_message_subject),
        border: border_style(app.focus == Focus::Message),
        sides: all_sides(),
        text: SpanView::of(
            match app.current_message {
                Some(message) => message,
                None => "\n  Select an email and press Enter to read."@,
            },
            Style::new().fg(Color::White),
        ),
        trim: false,
        scroll: app.message_scroll,
        column: 0,
    }
}

/// The line at the bottom of the screen.
#[derive(Clone, Debug, PartialEq, Eq)]
pub struct FooterPane {
    pub area: Rect,
    pub spans: Vec<Span>,
    pub style: Style,
}

/// The content of a [`FooterPane`].
#[verifier::ext_equal]
pub struct FooterPaneView {
    pub area: Rect,
    pub spans: Seq<SpanView>,
    pub style: Style,
}

impl View for FooterPane {
    type V = FooterPaneView;

    open spec fn view(&self) -> FooterPaneView {
        FooterPaneView {
            area: self.area,
            spans: crate::style::span_views(self.spans@),
            style: self.style,
        }
    }
}

/// The keys, in short.
pub const HELP_TEXT: &'static str =
    " [1-3]: Panes | Enter: Read | n/p: Next/Prev Page | q: Quit | ?: Help | r: Reply | c: Compose | f: Forward | d: Download | R: Refresh ";

/// The line at the bottom of a screen: the keys, and the version at the right
/// end.
pub open spec fn footer_pane(area: Rect, width: nat, version: Seq<char>) -> FooterPaneView {
    FooterPaneView {
        area,
        spans: seq![
            SpanView::of(HELP_TEXT@, Style::new().fg(Color::White)),
            SpanView::of(
                crate::text::right_aligned(
                    " v"@ + version + " "@,
                    (width - HELP_TEXT@.len()) as nat,
                ),
                Style::new().fg(Color::Gray).italic(),
            ),
        ],
        style: Style::new().bg(Color::Rgb(50, 50, 50)),
    }
}

/// The explanation of all keys.
#[derive(Clone, Debug, PartialEq, Eq)]
pub struct HelpPane {
    pub area: Rect,
    pub title: String,
    pub border: Style,
    pub sides: Sides,
    pub lines: Vec<Span>,
    pub alignment: Alignment,
    /// Whether the blanks at the start of a line are left out where long lines are
    /// wrapped.
    pub trim: bool,
}

/// The content of a [`HelpPane`].
#[verifier::ext_equal]
pub struct HelpPaneView {
    pub area: Rect,
    pub title: Seq<char>,
    pub border: Style,
    pub sides: Sides,
    pub lines: Seq<SpanView>,
    pub alignment: Alignment,
    pub trim: bool,
}

impl View for HelpPane {
    type V = HelpPaneView;

    open spec fn view(&self) -> HelpPaneView {
        HelpPaneView {
            area: self.area,
            title: self.title@,
            border: self.border,
            sides: self.sides,
            lines: crate::style::span_views(self.lines@),
            alignment: self.alignment,
            trim: self.trim,
        }
    }
}

/// The lines of the help.
pub open spec fn help_lines() -> Seq<SpanView> {
    let plain = Style::new();
    seq![
        SpanView::of("Navigation:"@, plain.bold()),
        SpanView::of("  1, 2, 3     : Switch to Folders (1), List (2) or Preview (3)"@, plain),
        SpanView::of("  Tab         : Cycle between panels"@, plain),
        SpanView::of("  j/k, Arrows : Scroll lists or message content"@, plain),
        SpanView::of("  Enter       : Select folder or Read email"@, plain),
        SpanView::of("  n / p       : Next / Previous Page"@, plain),
        SpanView::of(""@, plain),
        SpanView::of("Actions:"@, plain.bold()),
        SpanView::of("  c           : Compose new email"@, plain),
        SpanView::of("  r           : Reply to selected email"@, plain),
        SpanView::of("  f           : Forward selected email"@, plain),
        SpanView::of("  d           : Download all attachments"@, plain),
        SpanView::of("  R           : Force refresh current view"@, plain),
        SpanView::of("  q           : Quit Himalaya"@, plain),
        SpanView::of(""@, plain),
        SpanView::of("Press any key to close this help"@, plain.fg(Color::DarkGray)),
    ]
}

/// The pane of the help.
pub open spec fn help_pane(area: Rect) -> HelpPaneView {
    HelpPaneView {
        area,
        title: " Keyboard Shortcuts "@,
        border: Style::new().fg(Color::Yellow),
        sides: all_sides(),
        lines: help_lines(),
        alignment: Alignment::Left,
        trim: true,
    }
}

/// One step of painting a screen.
#[derive(Copy, Clone, Debug, PartialEq, Eq, Structural)]
pub enum Layer {
    /// The pane of the folders.
    Folders,
    /// The pane of the envelopes.
    Envelopes,
    /// The pane of the message.
    Message,
    /// The line at the bottom.
    Footer,
    /// An area is emptied of what was painted there before.
    Clear(Rect),
    /// The pane of the help.
    Help,
}

/// The steps of painting a screen: the panes and the footer, and then the help over
/// its emptied area, where it is there.
pub open spec fn layers_of(help: Option<Rect>) -> Seq<Layer> {
    let below = seq![Layer::Folders, Layer::Envelopes, Layer::Message, Layer::Footer];
    match help {
        Some(area) => below.push(Layer::Clear(area)).push(Layer::Help),
        None => below,
    }
}

/// Everything on the screen.
#[derive(Clone, Debug, PartialEq, Eq)]
pub struct Screen {
    pub folders: FolderPane,
    pub envelopes: EnvelopePane,
    pub message: MessagePane,
    pub footer: FooterPane,
    pub help: Option<HelpPane>,
    /// The order in which the screen is painted.
    pub layers: Vec<Layer>,
}

/// The content of a [`Screen`].
#[verifier::ext_equal]
pub struct ScreenView {
    pub folders: FolderPaneView,
    pub envelopes: EnvelopePaneView,
    pub message: MessagePaneView,
    pub footer: FooterPaneView,
    pub help: Option<HelpPaneView>,
    pub layers: Seq<Layer>,
}

impl View for Screen {
    type V = ScreenView;

    open spec fn view(&self) -> ScreenView {
        ScreenView {
            folders: self.folders@,
            envelopes: self.envelopes@,
            message: self.message@,
            footer: self.footer@,
            help: match self.help {
                Some(help) => Some(help@),
                None => None,
            },
            layers: self.layers@,
        }
    }
}

/// What a state of the interface looks like in the given areas of a screen of the
/// given width.
pub open spec fn screen_of(
    app: AppView,
    areas: Areas,
    width: nat,
    version: Seq<char>,
) -> ScreenView {
    ScreenView {
        folders: folder_pane(app, areas.folders),
        envelopes: envelope_pane(app, areas.envelopes),
        message: message_pane(app, areas.message),
        footer: footer_pane(areas.footer, width, version),
        help: match areas.help {
            Some(area) => Some(help_pane(area)),
            None => None,
        },
        layers: layers_of(areas.help),
    }
}

/// Whether a state can be shown on a screen of the given width: the keys fit into
/// the footer, the number of the page can be counted from one, and every date can
/// be cut.
pub open spec fn can_show(app: AppView, width: nat) -> bool {
    &&& width >= HELP_TEXT@.len()
    &&& app.current_page < usize::MAX
    &&& forall|i: int|
        0 <= i < app.envelopes.len() ==> crate::text::can_shorten(
            #[trigger] app.envelopes[i].date,
        )
}

} // verus!
