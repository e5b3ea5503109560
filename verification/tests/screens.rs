use himalaya_tui::app::{App, Focus, Selection};
use himalaya_tui::draw::{count_line, total_messages};
use himalaya_tui::layout::{arrange, center, centered_rect, Areas, Constraint, Rect};
use himalaya_tui::mail::{Envelope, Folder};
use himalaya_tui::screen::{EnvelopeList, Layer, Screen, HELP_TEXT};
use himalaya_tui::style::{all_sides, border_style, Alignment, Color, Edge, Span, Style};

fn rect(x: u16, y: u16, width: u16, height: u16) -> Rect {
    Rect { x, y, width, height }
}

fn folder(name: &str, desc: &str) -> Folder {
    Folder { name: name.to_string(), desc: desc.to_string() }
}

fn app() -> App {
    App::new(
        vec![folder("INBOX", "17"), folder("Sent", "all sent"), folder("INBOX", "18")],
        vec![Envelope {
            id: "1".to_string(),
            subject: "Tea at Two".to_string(),
            from: "t@example.org".to_string(),
            date: "2024-05-06T07:08:09+00:00".to_string(),
        }],
        0,
    )
}

fn show(app: &App) -> Screen {
    app.draw(rect(0, 0, 200, 50), "1.2.3")
}

fn texts(spans: &Vec<Span>) -> Vec<String> {
    spans.iter().map(|s| s.content.clone()).collect()
}

#[test]
fn popup_is_in_the_middle() {
    assert_eq!(centered_rect(60, 60, rect(0, 0, 200, 50)), rect(40, 10, 120, 30));
    assert_eq!(centered_rect(100, 100, rect(3, 4, 20, 10)), rect(3, 4, 20, 10));
    assert_eq!(centered_rect(50, 20, rect(0, 0, 100, 100)), rect(25, 40, 50, 20));
}

#[test]
fn popup_constraints() {
    assert_eq!(
        center(60),
        vec![
            Constraint::Percentage(20),
            Constraint::Percentage(60),
            Constraint::Percentage(20)
        ]
    );
    assert_eq!(
        center(55),
        vec![
            Constraint::Percentage(22),
            Constraint::Percentage(55),
            Constraint::Percentage(22)
        ]
    );
}

#[test]
fn panes_share_the_screen() {
    assert_eq!(
        arrange(rect(0, 0, 200, 51), false),
        Areas {
            folders: rect(0, 0, 40, 50),
            envelopes: rect(40, 0, 160, 20),
            message: rect(40, 20, 160, 30),
            footer: rect(0, 50, 200, 1),
            help: None,
        }
    );
    let areas = arrange(rect(0, 0, 200, 50), true);
    assert_eq!(areas.help, Some(rect(40, 10, 120, 30)));
    assert_eq!(areas.footer, rect(0, 49, 200, 1));
    assert_eq!(areas.envelopes.width, areas.message.width);
}

#[test]
fn an_empty_screen_can_be_arranged() {
    let nothing = rect(0, 0, 0, 0);
    let areas = arrange(nothing, true);
    assert_eq!(
        areas,
        Areas {
            folders: nothing,
            envelopes: nothing,
            message: nothing,
            footer: nothing,
            help: Some(nothing),
        }
    );
    let areas = arrange(rect(2, 3, 10, 0), false);
    assert_eq!(areas.folders, rect(2, 3, 2, 0));
    assert_eq!(areas.footer, rect(2, 3, 10, 0));
}

fn percent_of(percent: u16, length: u16) -> u16 {
    ((percent as u32 * length as u32 + 50) / 100) as u16
}

#[test]
fn popups_take_their_percentages() {
    assert_eq!(centered_rect(61, 61, rect(0, 0, 100, 50)), rect(19, 10, 61, 30));
    assert_eq!(centered_rect(50, 50, rect(5, 5, 1, 3)), rect(5, 6, 1, 1));
    for percent in 0..=100 {
        let margin = (100 - percent) / 2;
        for length in 0..=40 {
            let start = percent_of(margin, length);
            let end = percent_of(margin + percent, length);
            assert_eq!(
                centered_rect(percent, percent, rect(7, 3, length, length)),
                rect(7 + start, 3 + start, end - start, end - start)
            );
        }
    }
}

#[test]
fn popups_end_where_coordinates_do() {
    assert_eq!(
        centered_rect(60, 60, rect(65435, 65525, 500, 200)),
        rect(65455, 65527, 60, 6)
    );
    assert_eq!(centered_rect(100, 100, rect(65535, 65535, 1, 1)), rect(65535, 65535, 0, 0));
}

#[test]
fn panes_fill_screens_of_all_sizes() {
    for height in 1..=60 {
        for width in 1..=60 {
            let areas = arrange(rect(4, 9, width, height), false);
            let column = percent_of(20, width);
            let row = percent_of(40, height - 1);
            assert_eq!(areas.folders, rect(4, 9, column, height - 1));
            assert_eq!(areas.envelopes, rect(4 + column, 9, width - column, row));
            assert_eq!(
                areas.message,
                rect(4 + column, 9 + row, width - column, height - 1 - row)
            );
            assert_eq!(areas.footer, rect(4, 9 + height - 1, width, 1));
        }
    }
}

#[test]
fn folders_are_listed_and_the_current_one_stands_out() {
    let screen = show(&app());
    assert_eq!(texts(&screen.folders.title), vec![" 1 ", " Folders "]);
    assert_eq!(texts(&screen.folders.items), vec!["INBOX", "Sent", "INBOX"]);
    let current = Style::new().fg(Color::Cyan).bold();
    let other = Style::new().fg(Color::Gray);
    assert_eq!(screen.folders.items[0].style, current);
    assert_eq!(screen.folders.items[1].style, other);
    assert_eq!(screen.folders.items[2].style, current);
    assert_eq!(screen.folders.highlight, Style::new().bg(Color::Rgb(60, 60, 60)).bold());
}

#[test]
fn the_focused_border_is_yellow() {
    let mut app = app();
    for focus in [Focus::Folders, Focus::Envelopes, Focus::Message] {
        app.focus = focus;
        let screen = show(&app);
        assert_eq!(screen.folders.border, border_style(focus == Focus::Folders));
        assert_eq!(screen.envelopes.border, border_style(focus == Focus::Envelopes));
        assert_eq!(screen.message.border, border_style(focus == Focus::Message));
    }
    assert_eq!(border_style(true).fg, Some(Color::Yellow));
    assert_eq!(border_style(false).fg, Some(Color::White));
}

#[test]
fn envelopes_are_listed() {
    let mut app = app();
    app.current_page = 4;
    let screen = show(&app);
    assert_eq!(
        texts(&screen.envelopes.title),
        vec![" 2 ", " Envelopes (INBOX) ", " [Page 5] "]
    );
    assert_eq!(screen.envelopes.branding.text.content, " Himalaya-TUI ");
    assert_eq!(screen.envelopes.branding.edge, Edge::Top);
    assert_eq!(screen.envelopes.branding.alignment, Alignment::Right);
    assert_eq!(screen.envelopes.count.text.content, " 1 / 17 ");
    assert_eq!(screen.envelopes.count.text.style, Style::new());
    assert_eq!(screen.envelopes.count.edge, Edge::Bottom);
    assert_eq!(screen.envelopes.count.alignment, Alignment::Right);
    match &screen.envelopes.list {
        EnvelopeList::Table(table) => {
            assert_eq!(texts(&table.header), vec!["Date & Time", "Sender", "Subject"]);
            assert_eq!(table.rows.len(), 1);
            assert_eq!(
                texts(&table.rows[0]),
                vec!["2024-05-06 07:08", "t@example.org", "Tea at Two"]
            );
            assert_eq!(table.rows[0][0].style.fg, Some(Color::Rgb(150, 150, 150)));
            assert_eq!(
                table.widths,
                vec![Constraint::Length(17), Constraint::Length(30), Constraint::Min(0)]
            );
            assert_eq!(table.highlight_symbol, ">> ");
            assert_eq!(table.header_height, 1);
        }
        EnvelopeList::Empty(_) => panic!("there is an envelope"),
    }
}

#[test]
fn no_envelopes_are_noted() {
    let mut app = app();
    app.envelopes = vec![];
    app.current_folder = "Sent".to_string();
    let screen = show(&app);
    assert_eq!(screen.envelopes.count.text.content, " 0 ");
    match screen.envelopes.list {
        EnvelopeList::Empty(note) => {
            assert_eq!(note.content, "No messages found in this folder.");
            assert_eq!(note.style, Style::new().fg(Color::DarkGray));
        }
        EnvelopeList::Table(_) => panic!("there is no envelope"),
    }
}

#[test]
fn totals_come_from_the_first_folder_of_the_name() {
    let folders = vec![folder("a", "x"), folder("b", "5"), folder("a", "6")];
    assert_eq!(total_messages(&folders, &"a".to_string()), None);
    assert_eq!(total_messages(&folders, &"b".to_string()), Some(5));
    assert_eq!(total_messages(&folders, &"c".to_string()), None);
    assert_eq!(count_line(3, Some(12)), " 3 / 12 ");
    assert_eq!(count_line(3, None), " 3 ");
}

#[test]
fn the_message_is_shown_under_its_subject() {
    let mut app = app();
    let screen = show(&app);
    assert_eq!(texts(&screen.message.title), vec![" 3 ", " Message Preview "]);
    assert_eq!(screen.message.text.content, "\n  Select an email and press Enter to read.");
    assert_eq!(screen.message.scroll, 0);
    assert!(!screen.message.trim);

    app.current_message = Some("Hello".to_string());
    app.current_message_subject = Some("Hi".to_string());
    app.message_scroll = 3;
    let screen = show(&app);
    assert_eq!(texts(&screen.message.title), vec![" 3 ", " Message Preview ", " Hi "]);
    assert_eq!(
        screen.message.title[2].style,
        Style::new().fg(Color::White).bg(Color::Magenta)
    );
    assert_eq!(screen.message.text.content, "Hello");
    assert_eq!(screen.message.scroll, 3);
    assert_eq!(screen.message.column, 0);
}

#[test]
fn the_footer_ends_with_the_version() {
    let screen = show(&app());
    assert_eq!(HELP_TEXT.len(), 134);
    let line: String = texts(&screen.footer.spans).concat();
    assert_eq!(line.len(), 200);
    assert!(line.starts_with(HELP_TEXT));
    assert!(line.ends_with(" v1.2.3 "));
    assert!(screen.footer.spans[1].style.italic);

    // No room is left for the version: it is not cut.
    let screen = app().draw(rect(0, 0, 134, 50), "1.2.3");
    assert_eq!(screen.footer.spans[1].content, " v1.2.3 ");
}

#[test]
fn the_help_is_shown_when_asked_for() {
    let mut app = app();
    assert_eq!(show(&app).help, None);
    app.show_help = true;
    let help = show(&app).help.unwrap();
    assert_eq!(help.area, rect(40, 10, 120, 30));
    assert_eq!(help.title, " Keyboard Shortcuts ");
    assert_eq!(help.border, Style::new().fg(Color::Yellow));
    assert_eq!(help.lines.len(), 16);
    assert_eq!(help.lines[0].content, "Navigation:");
    assert!(help.lines[0].style.bold);
    assert_eq!(help.lines[6].content, "");
    assert_eq!(help.lines[13].content, "  q           : Quit Himalaya");
    assert_eq!(help.lines[15].style, Style::new().fg(Color::DarkGray));
    assert_eq!(help.alignment, Alignment::Left);
    assert!(help.trim);
}

#[test]
fn the_help_is_painted_last() {
    let below = vec![Layer::Folders, Layer::Envelopes, Layer::Message, Layer::Footer];
    let mut app = app();
    assert_eq!(show(&app).layers, below);
    app.show_help = true;
    let layers = show(&app).layers;
    assert_eq!(layers[..4], below[..]);
    assert_eq!(layers[4..], [Layer::Clear(rect(40, 10, 120, 30)), Layer::Help]);
}

#[test]
fn selections_are_shown() {
    let mut app = app();
    app.folders_state = Selection { offset: 1, selected: Some(2) };
    app.envelopes_state = Selection { offset: 0, selected: None };
    let screen = show(&app);
    assert_eq!(screen.folders.state, Selection { offset: 1, selected: Some(2) });
    match screen.envelopes.list {
        EnvelopeList::Table(table) => {
            assert_eq!(table.state, Selection { offset: 0, selected: None });
        }
        EnvelopeList::Empty(_) => panic!("there is an envelope"),
    }
}

#[test]
fn panes_have_borders_on_all_sides() {
    let mut app = app();
    app.show_help = true;
    let screen = show(&app);
    assert_eq!(screen.folders.sides, all_sides());
    assert_eq!(screen.envelopes.sides, all_sides());
    assert_eq!(screen.message.sides, all_sides());
    assert_eq!(screen.help.unwrap().sides, all_sides());
    assert!(all_sides().top && all_sides().right && all_sides().bottom && all_sides().left);
}

#[test]
fn composing_uses_the_given_areas() {
    let areas = Areas {
        folders: rect(1, 1, 1, 1),
        envelopes: rect(2, 2, 2, 2),
        message: rect(3, 3, 3, 3),
        footer: rect(4, 4, 4, 4),
        help: Some(rect(5, 5, 5, 5)),
    };
    let screen = app().compose(areas, 150, "9");
    assert_eq!(screen.folders.area, rect(1, 1, 1, 1));
    assert_eq!(screen.envelopes.area, rect(2, 2, 2, 2));
    assert_eq!(screen.message.area, rect(3, 3, 3, 3));
    assert_eq!(screen.footer.area, rect(4, 4, 4, 4));
    assert_eq!(screen.help.unwrap().area, rect(5, 5, 5, 5));
    assert_eq!(screen.footer.spans[1].content.len(), 16);
}
