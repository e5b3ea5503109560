use himalaya_tui::action::Action;
use himalaya_tui::app::{above, below, App, Focus, Key, Outcome, Refresh, Selection, Stage, TICK_RATE};
use himalaya_tui::mail::{initial_page, Envelope, Folder, Request};

fn folder(name: &str) -> Folder {
    Folder { name: name.to_string(), desc: String::new() }
}

fn envelope(id: &str) -> Envelope {
    Envelope {
        id: id.to_string(),
        subject: format!("subject of {}", id),
        from: format!("{}@example.org", id),
        date: "2024-05-06T07:08:09".to_string(),
    }
}

fn app() -> App {
    App::new(
        vec![folder("INBOX"), folder("Sent"), folder("Trash")],
        vec![envelope("11"), envelope("12"), envelope("13"), envelope("x")],
        1000,
    )
}

fn nothing() -> Outcome {
    Outcome::Done(Action::Nothing)
}

fn envelopes_of(folder: &str, page: usize) -> Request {
    Request::Envelopes { folder: folder.to_string(), page }
}

#[test]
fn starts_on_the_first_page_of_the_inbox() {
    let app = app();
    assert_eq!(app.current_folder, "INBOX");
    assert_eq!(app.current_page, 0);
    assert_eq!(app.folders_state, Selection { offset: 0, selected: Some(0) });
    assert_eq!(app.envelopes_state, Selection { offset: 0, selected: Some(0) });
    assert_eq!(app.current_message, None);
    assert_eq!(app.current_message_subject, None);
    assert_eq!(app.message_scroll, 0);
    assert_eq!(app.focus, Focus::Envelopes);
    assert!(!app.show_help);
    assert!(!app.should_quit);
    assert_eq!(app.last_tick, 1000);
    assert_eq!(app.tick_rate, TICK_RATE);
    assert_eq!(app.stage, Stage::Stopped);
    let (folder, page) = initial_page();
    assert_eq!((folder.as_str(), page), ("INBOX", 0));
    assert_eq!(app.page_request(), envelopes_of(&folder, page));
}

#[test]
fn an_empty_inbox_has_no_selection() {
    let app = App::new(vec![], vec![], 0);
    assert_eq!(app.envelopes_state.selected, None);
    assert_eq!(app.folders_state.selected, Some(0));
}

#[test]
fn tick_rate_is_one_minute() {
    assert_eq!(TICK_RATE, std::time::Duration::from_secs(60).as_nanos());
}

#[test]
fn selecting_nothing_shows_the_list_from_its_start() {
    let mut selection = Selection { offset: 4, selected: Some(5) };
    selection.select(Some(6));
    assert_eq!(selection, Selection { offset: 4, selected: Some(6) });
    selection.select(None);
    assert_eq!(selection, Selection::new());
}

#[test]
fn below_wraps_to_the_first_item() {
    assert_eq!(below(None, 3), 0);
    assert_eq!(below(Some(0), 3), 1);
    assert_eq!(below(Some(1), 3), 2);
    assert_eq!(below(Some(2), 3), 0);
    assert_eq!(below(Some(9), 3), 0);
    assert_eq!(below(Some(0), 1), 0);
    assert_eq!(below(Some(0), 0), 0);
    assert_eq!(below(Some(usize::MAX), 3), 0);
}

#[test]
fn above_wraps_to_the_last_item() {
    assert_eq!(above(None, 3), 0);
    assert_eq!(above(Some(0), 3), 2);
    assert_eq!(above(Some(1), 3), 0);
    assert_eq!(above(Some(2), 3), 1);
    assert_eq!(above(Some(9), 3), 8);
    assert_eq!(above(Some(0), 1), 0);
    assert_eq!(above(Some(0), 0), 0);
}

#[test]
fn steps_down_go_round() {
    let mut i = 2;
    for _ in 0..5 {
        i = below(Some(i), 5);
    }
    assert_eq!(i, 2);
    for i in 0..5 {
        assert_eq!(above(Some(below(Some(i), 5)), 5), i);
        assert_eq!(below(Some(above(Some(i), 5)), 5), i);
    }
}

#[test]
fn q_asks_to_quit() {
    let mut app = app();
    assert_eq!(app.handle_input(Key::Char('q')), nothing());
    assert!(app.should_quit);
}

#[test]
fn any_key_closes_the_help() {
    for key in [Key::Char('q'), Key::Char('n'), Key::Char('?'), Key::Enter, Key::Tab, Key::Other] {
        let mut app = app();
        let before = app.clone();
        assert_eq!(app.handle_input(Key::Char('?')), nothing());
        assert!(app.show_help);
        assert_eq!(app.handle_input(key), nothing());
        assert_eq!(app, before);
    }
}

#[test]
fn pages_turn_forward_and_back() {
    let mut app = app();
    let before = app.clone();
    assert_eq!(
        app.handle_input(Key::Char('n')),
        Outcome::Fetch(envelopes_of("INBOX", 1), Stage::TurningPage)
    );
    assert_eq!(app.current_page, 1);
    assert_eq!(
        app.handle_input(Key::Char('p')),
        Outcome::Fetch(envelopes_of("INBOX", 0), Stage::TurningPage)
    );
    assert_eq!(app, before);
    assert_eq!(app.handle_input(Key::Char('p')), nothing());
    assert_eq!(app, before);
}

#[test]
fn refresh_fetches_the_current_page() {
    let mut app = app();
    app.current_page = 3;
    let before = app.clone();
    assert_eq!(
        app.handle_input(Key::Char('R')),
        Outcome::Fetch(envelopes_of("INBOX", 3), Stage::RefreshingEnvelopes(Refresh::Wanted))
    );
    assert_eq!(app, before);
}

#[test]
fn actions_are_about_the_selected_envelope() {
    let mut app = app();
    app.envelopes_state.select(Some(2));
    let before = app.clone();
    assert_eq!(app.handle_input(Key::Char('c')), Outcome::Done(Action::Write));
    assert_eq!(app.handle_input(Key::Char('r')), Outcome::Done(Action::Reply("13".to_string())));
    assert_eq!(app.handle_input(Key::Char('f')), Outcome::Done(Action::Forward("13".to_string())));
    assert_eq!(app.handle_input(Key::Char('d')), Outcome::Done(Action::Download("13".to_string())));
    assert_eq!(app, before);
}

#[test]
fn no_envelope_no_action() {
    for selected in [None, Some(4), Some(usize::MAX)] {
        let mut app = app();
        app.envelopes_state.select(selected);
        for c in ['r', 'f', 'd'] {
            assert_eq!(app.handle_input(Key::Char(c)), nothing());
        }
        assert_eq!(app.handle_input(Key::Char('c')), Outcome::Done(Action::Write));
    }
}

#[test]
fn tab_cycles_through_the_panes() {
    let mut app = app();
    let mut seen = vec![];
    for _ in 0..3 {
        app.handle_input(Key::Tab);
        seen.push(app.focus);
    }
    assert_eq!(seen, vec![Focus::Message, Focus::Folders, Focus::Envelopes]);
}

#[test]
fn numbers_choose_a_pane() {
    let mut app = app();
    app.handle_input(Key::Char('1'));
    assert_eq!(app.focus, Focus::Folders);
    app.handle_input(Key::Char('3'));
    assert_eq!(app.focus, Focus::Message);
    app.handle_input(Key::Char('2'));
    assert_eq!(app.focus, Focus::Envelopes);
}

#[test]
fn arrows_and_letters_move_in_the_focused_list() {
    let mut app = app();
    app.handle_input(Key::Down);
    app.handle_input(Key::Char('j'));
    assert_eq!(app.envelopes_state.selected, Some(2));
    assert_eq!(app.folders_state.selected, Some(0));
    app.handle_input(Key::Up);
    app.handle_input(Key::Char('k'));
    app.handle_input(Key::Char('k'));
    assert_eq!(app.envelopes_state.selected, Some(3));
    app.handle_input(Key::Down);
    assert_eq!(app.envelopes_state.selected, Some(0));

    app.handle_input(Key::Char('1'));
    app.handle_input(Key::Up);
    assert_eq!(app.folders_state.selected, Some(2));
    app.handle_input(Key::Down);
    assert_eq!(app.folders_state.selected, Some(0));
    assert_eq!(app.envelopes_state.selected, Some(0));
}

#[test]
fn the_message_scrolls_between_its_limits() {
    let mut app = app();
    app.focus = Focus::Message;
    app.handle_input(Key::Up);
    assert_eq!(app.message_scroll, 0);
    app.handle_input(Key::Down);
    app.handle_input(Key::Char('j'));
    assert_eq!(app.message_scroll, 2);
    app.handle_input(Key::Char('k'));
    assert_eq!(app.message_scroll, 1);
    app.message_scroll = u16::MAX;
    app.handle_input(Key::Down);
    assert_eq!(app.message_scroll, u16::MAX);
}

#[test]
fn moving_in_an_empty_list_selects_its_start() {
    let mut app = App::new(vec![], vec![], 0);
    app.handle_input(Key::Down);
    assert_eq!(app.envelopes_state.selected, Some(0));
    app.handle_input(Key::Up);
    assert_eq!(app.envelopes_state.selected, Some(0));
}

#[test]
fn enter_opens_the_selected_folder() {
    let mut app = app();
    app.focus = Focus::Folders;
    app.folders_state.select(Some(1));
    app.current_page = 7;
    app.current_message = Some("text".to_string());
    app.current_message_subject = Some("subject".to_string());
    assert_eq!(
        app.handle_input(Key::Enter),
        Outcome::Fetch(envelopes_of("Sent", 0), Stage::OpeningFolder)
    );
    assert_eq!(app.current_folder, "Sent");
    assert_eq!(app.current_page, 0);
    assert_eq!(app.current_message, None);
    assert_eq!(app.current_message_subject, None);
    assert_eq!(app.focus, Focus::Folders);
}

#[test]
fn enter_opens_the_selected_message() {
    let mut app = app();
    app.envelopes_state.select(Some(1));
    let before = app.clone();
    assert_eq!(
        app.handle_input(Key::Enter),
        Outcome::Fetch(
            Request::Message { folder: "INBOX".to_string(), id: 12 },
            Stage::OpeningMessage { subject: "subject of 12".to_string() }
        )
    );
    assert_eq!(app, before);
}

#[test]
fn enter_does_nothing_without_something_to_open() {
    let mut app = app();
    // The identifier of the last envelope is no number.
    app.envelopes_state.select(Some(3));
    assert_eq!(app.handle_input(Key::Enter), nothing());
    app.envelopes_state.select(Some(4));
    assert_eq!(app.handle_input(Key::Enter), nothing());
    app.envelopes_state.select(None);
    assert_eq!(app.handle_input(Key::Enter), nothing());
    app.focus = Focus::Folders;
    app.folders_state.select(Some(3));
    assert_eq!(app.handle_input(Key::Enter), nothing());
    app.folders_state.select(None);
    assert_eq!(app.handle_input(Key::Enter), nothing());
    app.focus = Focus::Message;
    assert_eq!(app.handle_input(Key::Enter), nothing());
}

#[test]
fn other_keys_do_nothing() {
    let mut app = app();
    let before = app.clone();
    for key in [Key::Other, Key::Char('x'), Key::Char('Q'), Key::Char('4'), Key::Char('ä')] {
        assert_eq!(app.handle_input(key), nothing());
        assert_eq!(app, before);
    }
}

#[test]
fn command_lines() {
    assert_eq!(Action::Nothing.command_line(), Vec::<String>::new());
    assert_eq!(Action::Write.command_line(), vec!["himalaya", "message", "write"]);
    assert_eq!(
        Action::Reply("5".to_string()).command_line(),
        vec!["himalaya", "message", "reply", "5"]
    );
    assert_eq!(
        Action::Forward("6".to_string()).command_line(),
        vec!["himalaya", "message", "forward", "6"]
    );
    assert_eq!(
        Action::Download("7".to_string()).command_line(),
        vec!["himalaya", "attachments", "download", "7"]
    );
}
