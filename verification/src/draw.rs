//! Composing the screen from the state of the interface.
use crate::app::{App, Focus, Selection};
use crate::layout::{arrange, Areas, Constraint, Rect};
use crate::mail::{Envelope, Folder};
use crate::screen::{
    EnvelopeList, EnvelopePane, EnvelopeTable, FolderPane, FooterPane, HelpPane, Layer,
    MessagePane, Screen, HELP_TEXT,
};
use crate::style::{
    all_sides, badge_style, border_style, folder_style, header_style, highlight_style, span,
    title_style, Alignment, Color, Edge, Span, Style, Title,
};
use crate::text::{align_right, date_time, decimal, parse_usize};
use vstd::prelude::*;
use vstd::string::{StrSliceExecFns, StringExecFns};

verus! {

/// Puts a text between two others.
fn surround(before: &str, content: &str, after: &str) -> (text: String)
    ensures
        text@ == before@ + content@ + after@,
{
    let mut text = before.to_string();
    text.append(content);
    text.append(after);
    text
}

/// Lists the names of the folders.
fn draw_folder_items(folders: &Vec<Folder>, current: &String) -> (items: Vec<Span>)
    ensures
        crate::style::span_views(items@) == crate::screen::folder_items(
            crate::mail::folder_views(folders@),
            current@,
        ),
{
    let ghost goal = crate::screen::folder_items(crate::mail::folder_views(folders@), current@);
    let mut items: Vec<Span> = Vec::new();
    let mut i: usize = 0;
    while i < folders.len()
        invariant
            i <= folders@.len(),
            items@.len() == i,
            goal == crate::screen::folder_items(crate::mail::folder_views(folders@), current@),
            forall|j: int| 0 <= j < i ==> #[trigger] items@[j]@ == goal[j],
        decreases folders@.len() - i,
    {
        let name = &folders[i].name;
        items.push(span(name.as_str(), folder_style(name.eq(current))));
        i = i + 1;
    }
    assert(crate::style::span_views(items@) =~= goal);
    items
}

/// Finds the number of messages in the folder of the given name.
pub fn total_messages(folders: &Vec<Folder>, name: &String) -> (total: Option<usize>)
    ensures
        total == crate::screen::total_messages(crate::mail::folder_views(folders@), name@),
{
    let ghost views = crate::mail::folder_views(folders@);
    let mut i: usize = 0;
    assert(views.skip(0) =~= views);
    while i < folders.len()
        invariant
            i <= folders@.len(),
            views == crate::mail::folder_views(folders@),
            crate::screen::folder_named(views, name@) == crate::screen::folder_named(
                views.skip(i as int),
                name@,
            ),
        decreases folders@.len() - i,
    {
        assert(views.skip(i as int).skip(1) =~= views.skip(i + 1));
        if folders[i].name.eq(name) {
            return parse_usize(folders[i].desc.as_str());
        }
        i = i + 1;
    }
    None
}

/// Says how many envelopes are shown, and of how many messages.
pub fn count_line(shown: usize, total: Option<usize>) -> (line: String)
    ensures
        line@ == crate::screen::count_line(shown as nat, total),
{
    match total {
        Some(total) => {
            let mut line = surround(" ", decimal(shown).as_str(), " / ");
            line.append(decimal(total).as_str());
            line.append(" ");
            line
        },
        None => surround(" ", decimal(shown).as_str(), " "),
    }
}

/// Makes the line of an envelope.
fn draw_row(envelope: &Envelope) -> (row: Vec<Span>)
    requires
        crate::text::can_shorten(envelope@.date),
    ensures
        crate::style::span_views(row@) == crate::screen::envelope_row(envelope@),
{
    let row = vec![
        Span {
            content: date_time(envelope.date.as_str()),
            style: Style::new().fg(Color::Rgb(150, 150, 150)),
        },
        span(envelope.from.as_str(), Style::new().fg(Color::Green)),
        span(envelope.subject.as_str(), Style::new().fg(Color::White)),
    ];
    assert(crate::style::span_views(row@) =~= crate::screen::envelope_row(envelope@));
    row
}

/// Lists the envelopes.
fn draw_list(envelopes: &Vec<Envelope>, state: Selection) -> (list: EnvelopeList)
    requires
        forall|i: int|
            0 <= i < envelopes@.len() ==> crate::text::can_shorten(
                #[trigger] envelopes@[i].date@,
            ),
    ensures
        list@ == crate::screen::envelope_list(crate::mail::envelope_views(envelopes@), state),
{
    if envelopes.len() == 0 {
        return EnvelopeList::Empty(
            span("No messages found in this folder.", Style::new().fg(Color::DarkGray)),
        );
    }
    let ghost views = crate::mail::envelope_views(envelopes@);
    let mut rows: Vec<Vec<Span>> = Vec::new();
    let mut i: usize = 0;
    while i < envelopes.len()
        invariant
            i <= envelopes@.len(),
            rows@.len() == i,
            views == crate::mail::envelope_views(envelopes@),
            forall|i: int|
                0 <= i < envelopes@.len() ==> crate::text::can_shorten(
                    #[trigger] envelopes@[i].date@,
                ),
            forall|j: int|
                0 <= j < i ==> crate::style::span_views(#[trigger] rows@[j]@)
                    == crate::screen::envelope_row(views[j]),
        decreases envelopes@.len() - i,
    {
        rows.push(draw_row(&envelopes[i]));
        i = i + 1;
    }
    let header = vec![
        span("Date & Time", header_style()),
        span("Sender", header_style()),
        span("Subject", header_style()),
    ];
    let table = EnvelopeTable {
        header,
        header_style: Style::new().bg(Color::Rgb(40, 40, 40)),
        header_height: 1,
        rows,
        widths: vec![Constraint::Length(17), Constraint::Length(30), Constraint::Min(0)],
        highlight: highlight_style(),
        highlight_symbol: ">> ".to_string(),
        state,
    };
    assert(EnvelopeList::Table(table)@ =~~= crate::screen::envelope_list(views, state));
    EnvelopeList::Table(table)
}

/// Explains the keys.
fn draw_help(area: Rect) -> (pane: HelpPane)
    ensures
        pane@ == crate::screen::help_pane(area),
{
    let plain = Style::new();
    let lines = vec![
        span("Navigation:", plain.bold()),
        span("  1, 2, 3     : Switch to Folders (1), List (2) or Preview (3)", plain),
        span("  Tab         : Cycle between panels", plain),
        span("  j/k, Arrows : Scroll lists or message content", plain),
        span("  Enter       : Select folder or Read email", plain),
        span("  n / p       : Next / Previous Page", plain),
        span("", plain),
        span("Actions:", plain.bold()),
        span("  c           : Compose new email", plain),
        span("  r           : Reply to selected email", plain),
        span("  f           : Forward selected email", plain),
        span("  d           : Download all attachments", plain),
        span("  R           : Force refresh current view", plain),
        span("  q           : Quit Himalaya", plain),
        span("", plain),
        span("Press any key to close this help", plain.fg(Color::DarkGray)),
    ];
    assert(crate::style::span_views(lines@) =~= crate::screen::help_lines());
    HelpPane {
        area,
        title: " Keyboard Shortcuts ".to_string(),
        border: Style::new().fg(Color::Yellow),
        sides: all_sides(),
        lines,
        alignment: Alignment::Left,
        trim: true,
    }
}

/// Makes the line at the bottom of a screen of the given width.
fn draw_footer(area: Rect, width: u16, version: &str) -> (pane: FooterPane)
    requires
        width >= HELP_TEXT@.len(),
    ensures
        pane@ == crate::screen::footer_pane(area, width as nat, version@),
{
    let text = surround(" v", version, " ");
    let rest: usize = width as usize - HELP_TEXT.unicode_len();
    let spans = vec![
        span(HELP_TEXT, Style::new().fg(Color::White)),
        Span {
            content: align_right(text.as_str(), rest),
            style: Style::new().fg(Color::Gray).italic(),
        },
    ];
    let pane = FooterPane { area, spans, style: Style::new().bg(Color::Rgb(50, 50, 50)) };
    assert(pane@ =~~= crate::screen::footer_pane(area, width as nat, version@));
    pane
}

impl App {
    /// Fills the pane of the folders.
    fn draw_folders(&self, area: Rect) -> (pane: FolderPane)
        ensures
            pane@ == crate::screen::folder_pane(self@, area),
    {
        let pane = FolderPane {
            area,
            title: vec![span(" 1 ", badge_style()), span(" Folders ", title_style())],
            border: border_style(self.focus == Focus::Folders),
            sides: all_sides(),
            items: draw_folder_items(&self.folders, &self.current_folder),
            highlight: highlight_style(),
            state: self.folders_state,
        };
        assert(pane@ =~~= crate::screen::folder_pane(self@, area));
        pane
    }

    /// Fills the pane of the envelopes.
    fn draw_envelopes(&self, area: Rect) -> (pane: EnvelopePane)
        requires
            self.current_page < usize::MAX,
            forall|i: int|
                0 <= i < self.envelopes@.len() ==> crate::text::can_shorten(
                    #[trigger] self.envelopes@[i].date@,
                ),
        ensures
            pane@ == crate::screen::envelope_pane(self@, area),
    {
        let folder = surround(" Envelopes (", self.current_folder.as_str(), ") ");
        let page = surround(" [Page ", decimal(self.current_page + 1).as_str(), "] ");
        let title = vec![
            span(" 2 ", badge_style()),
            Span { content: folder, style: title_style() },
            Span { content: page, style: Style::new().fg(Color::Magenta) },
        ];
        let count = count_line(
            self.envelopes.len(),
            total_messages(&self.folders, &self.current_folder),
        );
        let pane = EnvelopePane {
            area,
            title,
            branding: Title {
                text: span(" Himalaya-TUI ", badge_style().bold()),
                edge: Edge::Top,
                alignment: Alignment::Right,
            },
            count: Title {
                text: Span { content: count, style: Style::new() },
                edge: Edge::Bottom,
                alignment: Alignment::Right,
            },
            border: border_style(self.focus == Focus::Envelopes),
            sides: all_sides(),
            list: draw_list(&self.envelopes, self.envelopes_state),
        };
        assert(pane@ =~~= crate::screen::envelope_pane(self@, area));
        pane
    }

    /// Fills the pane of the message.
    fn draw_message(&self, area: Rect) -> (pane: MessagePane)
        ensures
            pane@ == crate::screen::message_pane(self@, area),
    {
        let mut title = vec![span(" 3 ", badge_style()), span(" Message Preview ", title_style())];
        if let Some(subject) = &self.current_message_subject {
            title.push(
                Span {
                    content: surround(" ", subject.as_str(), " "),
                    style: Style::new().fg(Color::White).bg(Color::Magenta),
                },
            );
        }
        let text = match &self.current_message {
            Some(message) => message.as_str(),
            None => "\n  Select an email and press Enter to read.",
        };
        let pane = MessagePane {
            area,
            title,
            border: border_style(self.focus == Focus::Message),
            sides: all_sides(),
            text: span(text, Style::new().fg(Color::White)),
            trim: false,
            scroll: self.message_scroll,
            column: 0,
        };
        assert(pane@ =~~= crate::screen::message_pane(self@, area));
        pane
    }

    /// Composes the screen, given the areas of its parts and its width.
    pub fn compose(&self, areas: Areas, width: u16, version: &str) -> (screen: Screen)
        requires
            crate::screen::can_show(self@, width as nat),
        ensures
            screen@ == crate::screen::screen_of(self@, areas, width as nat, version@),
    {
        assert forall|i: int| 0 <= i < self.envelopes@.len() implies crate::text::can_shorten(
            #[trigger] self.envelopes@[i].date@,
        ) by {
            assert(crate::text::can_shorten(self@.envelopes[i].date));
        }
        let mut layers = vec![Layer::Folders, Layer::Envelopes, Layer::Message, Layer::Footer];
        if let Some(area) = areas.help {
            layers.push(Layer::Clear(area));
            layers.push(Layer::Help);
        }
        assert(layers@ =~= crate::screen::layers_of(areas.help));
        Screen {
            folders: self.draw_folders(areas.folders),
            envelopes: self.draw_envelopes(areas.envelopes),
            message: self.draw_message(areas.message),
            footer: draw_footer(areas.footer, width, version),
            help: match areas.help {
                Some(area) => Some(draw_help(area)),
                None => None,
            },
            layers,
        }
    }

    /// Composes a screen of the given size.
    pub fn draw(&self, size: Rect, version: &str) -> (screen: Screen)
        requires
            crate::screen::can_show(self@, size.width as nat),
        ensures
            screen@ == crate::screen::screen_of(
                self@,
                crate::layout::areas_of(size, self.show_help),
                size.width as nat,
                version@,
            ),
    {
        let areas = arrange(size, self.show_help);
        self.compose(areas, size.width, version)
    }
}

} // verus!
