//! What is on the screen.
use crate::app::{AppView, Focus};
use crate::layout::{Areas, Constraint};
use crate::mail::FolderView;
use crate::screen::{EnvelopeListView, Layer};
use crate::style::{Alignment, Color, Edge, Sides, Style};
use vstd::prelude::*;

verus! {

/// The plain style has nothing set. Each change to a style sets one thing and keeps the
/// others.
pub proof fn law_style_changes(style: Style, color: Color)
    ensures
        Style::new() == (Style { fg: None, bg: None, bold: false, italic: false }),
        style.fg(color) == (Style {
            fg: Some(color),
            bg: style.bg,
            bold: style.bold,
            italic: style.italic,
        }),
        style.bg(color) == (Style {
            fg: style.fg,
            bg: Some(color),
            bold: style.bold,
            italic: style.italic,
        }),
        style.bold() == (Style {
            fg: style.fg,
            bg: style.bg,
            bold: true,
            italic: style.italic,
        }),
        style.italic() == (Style {
            fg: style.fg,
            bg: style.bg,
            bold: style.bold,
            italic: true,
        }),
{
}

/// The colours of the interface. The border of the pane with the focus is yellow, that
/// of any other is white. The name of the current folder is cyan and bold, that of any
/// other is gray.
pub proof fn law_colors()
    ensures
        crate::style::border_style(true) == (Style {
            fg: Some(Color::Yellow),
            bg: None,
            bold: false,
            italic: false,
        }),
        crate::style::border_style(false) == (Style {
            fg: Some(Color::White),
            bg: None,
            bold: false,
            italic: false,
        }),
        crate::style::highlight_style() == (Style {
            fg: None,
            bg: Some(Color::Rgb(60, 60, 60)),
            bold: true,
            italic: false,
        }),
        crate::style::badge_style() == (Style {
            fg: Some(Color::Black),
            bg: Some(Color::Cyan),
            bold: false,
            italic: false,
        }),
        crate::style::title_style() == (Style {
            fg: Some(Color::Green),
            bg: None,
            bold: true,
            italic: false,
        }),
        crate::style::folder_style(true) == (Style {
            fg: Some(Color::Cyan),
            bg: None,
            bold: true,
            italic: false,
        }),
        crate::style::folder_style(false) == (Style {
            fg: Some(Color::Gray),
            bg: None,
            bold: false,
            italic: false,
        }),
        crate::style::header_style() == (Style {
            fg: Some(Color::Cyan),
            bg: None,
            bold: true,
            italic: false,
        }),
        crate::style::all_sides() == (Sides { top: true, right: true, bottom: true, left: true }),
{
}

/// The pane of the folders lists the name of each folder, in their order. The names
/// equal to that of the current folder stand out. The selected item is highlighted.
pub proof fn law_folder_pane(app: AppView, areas: Areas, width: nat, version: Seq<char>)
    ensures
        ({
            let pane = crate::screen::screen_of(app, areas, width, version).folders;
            &&& pane.area == areas.folders
            &&& pane.title.len() == 2
            &&& pane.title[0].content == " 1 "@
            &&& pane.title[0].style == crate::style::badge_style()
            &&& pane.title[1].content == " Folders "@
            &&& pane.title[1].style == crate::style::title_style()
            &&& pane.border == crate::style::border_style(app.focus == Focus::Folders)
            &&& pane.sides == crate::style::all_sides()
            &&& pane.highlight == crate::style::highlight_style()
            &&& pane.state == app.folders_state
            &&& pane.items.len() == app.folders.len()
            &&& forall|i: int|
                0 <= i < app.folders.len() ==> {
                    let item = #[trigger] pane.items[i];
                    &&& item.content == app.folders[i].name
                    &&& item.style == crate::style::folder_style(
                        app.folders[i].name == app.current_folder,
                    )
                }
        }),
{
}

/// The pane of the envelopes tells the current folder, the page, counted from one, and
/// how many envelopes there are. Its list is that of the envelopes, with the selected
/// one highlighted.
pub proof fn law_envelope_pane(app: AppView, areas: Areas, width: nat, version: Seq<char>)
    ensures
        ({
            let pane = crate::screen::screen_of(app, areas, width, version).envelopes;
            &&& pane.area == areas.envelopes
            &&& pane.title.len() == 3
            &&& pane.title[0].content == " 2 "@
            &&& pane.title[0].style == crate::style::badge_style()
            &&& pane.title[1].content == " Envelopes ("@ + app.current_folder + ") "@
            &&& pane.title[1].style == crate::style::title_style()
            &&& pane.title[2].content == " [Page "@ + crate::text::digits(app.current_page + 1)
                + "] "@
            &&& pane.title[2].style == Style::new().fg(Color::Magenta)
            &&& pane.branding.text.content == " Himalaya-TUI "@
            &&& pane.branding.text.style == crate::style::badge_style().bold()
            &&& pane.branding.edge == Edge::Top
            &&& pane.branding.alignment == Alignment::Right
            &&& pane.count.text.content == crate::screen::count_line(
                app.envelopes.len(),
                crate::screen::total_messages(app.folders, app.current_folder),
            )
            &&& pane.count.text.style == Style::new()
            &&& pane.count.edge == Edge::Bottom
            &&& pane.count.alignment == Alignment::Right
            &&& pane.border == crate::style::border_style(app.focus == Focus::Envelopes)
            &&& pane.sides == crate::style::all_sides()
        }),
{
}

/// Where there are no envelopes, a note says so. Else there is a row for each envelope,
/// in their order, with its date in short form, its sender and its subject, below the
/// names of these columns.
pub proof fn law_envelope_rows(app: AppView, areas: Areas, width: nat, version: Seq<char>)
    ensures
        match crate::screen::screen_of(app, areas, width, version).envelopes.list {
            EnvelopeListView::Empty(note) => {
                &&& app.envelopes.len() == 0
                &&& note.content == "No messages found in this folder."@
                &&& note.style == Style::new().fg(Color::DarkGray)
            },
            EnvelopeListView::Table(table) => {
                &&& app.envelopes.len() > 0
                &&& table.header.len() == 3
                &&& table.header[0].content == "Date & Time"@
                &&& table.header[1].content == "Sender"@
                &&& table.header[2].content == "Subject"@
                &&& forall|i: int|
                    0 <= i < 3 ==> (#[trigger] table.header[i]).style
                        == crate::style::header_style()
                &&& table.header_style == Style::new().bg(Color::Rgb(40, 40, 40))
                &&& table.header_height == 1
                &&& table.widths.len() == 3
                &&& table.widths[0] == Constraint::Length(17)
                &&& table.widths[1] == Constraint::Length(30)
                &&& table.widths[2] == Constraint::Min(0)
                &&& table.highlight == crate::style::highlight_style()
                &&& table.highlight_symbol == ">> "@
                &&& table.state == app.envelopes_state
                &&& table.rows.len() == app.envelopes.len()
                &&& forall|i: int|
                    0 <= i < app.envelopes.len() ==> {
                        let row = #[trigger] table.rows[i];
                        &&& row.len() == 3
                        &&& row[0].content == crate::text::short_date(app.envelopes[i].date)
                        &&& row[0].style == Style::new().fg(Color::Rgb(150, 150, 150))
                        &&& row[1].content == app.envelopes[i].from
                        &&& row[1].style == Style::new().fg(Color::Green)
                        &&& row[2].content == app.envelopes[i].subject
                        &&& row[2].style == Style::new().fg(Color::White)
                    }
            },
        },
{
}

/// The pane of the message shows the whole text of the message that is being read, from
/// the line that it is scrolled to and without leaving out blanks, and its subject in the
/// title. Where no message is being read, it says how to read one.
pub proof fn law_message_pane(app: AppView, areas: Areas, width: nat, version: Seq<char>)
    ensures
        ({
            let pane = crate::screen::screen_of(app, areas, width, version).message;
            &&& pane.area == areas.message
            &&& app.current_message matches Some(message) ==> pane.text.content == message
            &&& app.current_message is None ==> pane.text.content
                == "\n  Select an email and press Enter to read."@
            &&& pane.text.style == Style::new().fg(Color::White)
            &&& pane.scroll == app.message_scroll
            &&& pane.column == 0
            &&& !pane.trim
            &&& pane.border == crate::style::border_style(app.focus == Focus::Message)
            &&& pane.sides == crate::style::all_sides()
            &&& pane.title.len() == (if app.current_message_subject is Some {
                3int
            } else {
                2
            })
            &&& pane.title[0].content == " 3 "@
            &&& pane.title[0].style == crate::style::badge_style()
            &&& pane.title[1].content == " Message Preview "@
            &&& pane.title[1].style == crate::style::title_style()
            &&& app.current_message_subject matches Some(subject) ==> {
                &&& pane.title[2].content == " "@ + subject + " "@
                &&& pane.title[2].style == Style::new().fg(Color::White).bg(Color::Magenta)
            }
        }),
{
}

/// The footer names the keys, and ends with the version, which is aligned to the right
/// in the rest of the width.
pub proof fn law_footer(app: AppView, areas: Areas, width: nat, version: Seq<char>)
    requires
        width >= crate::screen::HELP_TEXT@.len(),
    ensures
        ({
            let pane = crate::screen::screen_of(app, areas, width, version).footer;
            let keys =
                " [1-3]: Panes | Enter: Read | n/p: Next/Prev Page | q: Quit | ?: Help | r: Reply | c: Compose | f: Forward | d: Download | R: Refresh "@;
            &&& pane.area == areas.footer
            &&& pane.spans.len() == 2
            &&& pane.spans[0].content == keys
            &&& pane.spans[0].style == Style::new().fg(Color::White)
            &&& pane.spans[1].content == crate::text::right_aligned(
                " v"@ + version + " "@,
                (width - keys.len()) as nat,
            )
            &&& pane.spans[1].style == Style::new().fg(Color::Gray).italic()
            &&& pane.style == Style::new().bg(Color::Rgb(50, 50, 50))
            &&& crate::screen::HELP_TEXT@ == keys
        }),
{
}

/// The help, where it has an area, explains all keys there.
pub proof fn law_help_pane(app: AppView, areas: Areas, width: nat, version: Seq<char>)
    ensures
        ({
            let screen = crate::screen::screen_of(app, areas, width, version);
            match areas.help {
                Some(area) => {
                    &&& screen.help matches Some(pane)
                    &&& pane.area == area
                    &&& pane.title == " Keyboard Shortcuts "@
                    &&& pane.border == Style::new().fg(Color::Yellow)
                    &&& pane.sides == crate::style::all_sides()
                    &&& pane.alignment == Alignment::Left
                    &&& pane.trim
                    &&& screen.layers == seq![
                        Layer::Folders,
                        Layer::Envelopes,
                        Layer::Message,
                        Layer::Footer,
                        Layer::Clear(area),
                        Layer::Help,
                    ]
                },
                None => {
                    &&& screen.help is None
                    &&& screen.layers == seq![
                        Layer::Folders,
                        Layer::Envelopes,
                        Layer::Message,
                        Layer::Footer,
                    ]
                },
            }
        }),
{
    let below = seq![Layer::Folders, Layer::Envelopes, Layer::Message, Layer::Footer];
    if let Some(area) = areas.help {
        assert(below.push(Layer::Clear(area)).push(Layer::Help) =~= seq![
            Layer::Folders,
            Layer::Envelopes,
            Layer::Message,
            Layer::Footer,
            Layer::Clear(area),
            Layer::Help,
        ]);
    }
}

/// The lines of the help. The names of its parts are bold, and its last line is in
/// another colour.
pub proof fn law_help_lines(app: AppView, areas: Areas, width: nat, version: Seq<char>)
    requires
        areas.help is Some,
    ensures
        ({
            let lines = crate::screen::screen_of(app, areas, width, version).help->0.lines;
            &&& lines.len() == 16
            &&& lines[0].content == "Navigation:"@
            &&& lines[1].content
                == "  1, 2, 3     : Switch to Folders (1), List (2) or Preview (3)"@
            &&& lines[2].content == "  Tab         : Cycle between panels"@
            &&& lines[3].content == "  j/k, Arrows : Scroll lists or message content"@
            &&& lines[4].content == "  Enter       : Select folder or Read email"@
            &&& lines[5].content == "  n / p       : Next / Previous Page"@
            &&& lines[6].content == ""@
            &&& lines[7].content == "Actions:"@
            &&& lines[8].content == "  c           : Compose new email"@
            &&& lines[9].content == "  r           : Reply to selected email"@
            &&& lines[10].content == "  f           : Forward selected email"@
            &&& lines[11].content == "  d           : Download all attachments"@
            &&& lines[12].content == "  R           : Force refresh current view"@
            &&& lines[13].content == "  q           : Quit Himalaya"@
            &&& lines[14].content == ""@
            &&& lines[15].content == "Press any key to close this help"@
            &&& forall|i: int|
                0 <= i < 15 ==> (#[trigger] lines[i]).style == (if i == 0 || i == 7 {
                    Style::new().bold()
                } else {
                    Style::new()
                })
            &&& lines[15].style == Style::new().fg(Color::DarkGray)
        }),
{
}

/// The count of the envelopes is followed by the number of messages, where that is
/// known.
pub proof fn law_count_line(shown: nat, total: usize)
    ensures
        crate::screen::count_line(shown, Some(total)) == " "@ + crate::text::digits(shown)
            + " / "@ + crate::text::digits(total as nat) + " "@,
        crate::screen::count_line(shown, None) == " "@ + crate::text::digits(shown) + " "@,
{
}

/// Where no folder has a name, the number of its messages is not known.
pub proof fn law_unknown_folder(folders: Seq<FolderView>, name: Seq<char>)
    requires
        forall|i: int| 0 <= i < folders.len() ==> (#[trigger] folders[i]).name != name,
    ensures
        crate::screen::total_messages(folders, name) is None,
    decreases folders.len(),
{
    if folders.len() > 0 {
        let rest = folders.skip(1);
        assert(folders[0].name != name);
        assert forall|i: int| 0 <= i < rest.len() implies (#[trigger] rest[i]).name != name by {
            assert(rest[i] == folders[i + 1]);
        }
        law_unknown_folder(rest, name);
    }
}

/// A state can be shown if the keys have room in the footer, the page can be counted from
/// one, and every date can be shortened.
pub proof fn law_can_show(app: AppView, width: nat)
    ensures
        crate::screen::can_show(app, width) <==> width >= crate::screen::HELP_TEXT@.len()
            && app.current_page < usize::MAX && (forall|i: int|
            0 <= i < app.envelopes.len() ==> crate::text::can_shorten(
                (#[trigger] app.envelopes[i]).date,
            )),
        crate::screen::HELP_TEXT@.len() == 134,
{
    reveal_strlit(
        " [1-3]: Panes | Enter: Read | n/p: Next/Prev Page | q: Quit | ?: Help | r: Reply | c: Compose | f: Forward | d: Download | R: Refresh ",
    );
    if forall|i: int|
        0 <= i < app.envelopes.len() ==> crate::text::can_shorten(
            (#[trigger] app.envelopes[i]).date,
        ) {
        assert forall|i: int| 0 <= i < app.envelopes.len() implies crate::text::can_shorten(
            #[trigger] app.envelopes[i].date,
        ) by {
            assert(crate::text::can_shorten(app.envelopes[i].date));
        }
    }
    if crate::screen::can_show(app, width) {
        assert forall|i: int| 0 <= i < app.envelopes.len() implies crate::text::can_shorten(
            (#[trigger] app.envelopes[i]).date,
        ) by {
            assert(crate::text::can_shorten(app.envelopes[i].date));
        }
    }
}

} // verus!
