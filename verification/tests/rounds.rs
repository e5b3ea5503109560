use himalaya_tui::app::{App, Focus, Key, Refresh, Stage, TICK_RATE};
use himalaya_tui::mail::{Envelope, Folder, Request};
use himalaya_tui::run::{Effect, Event};

fn folder(name: &str) -> Folder {
    Folder { name: name.to_string(), desc: "3".to_string() }
}

fn envelope(id: &str) -> Envelope {
    Envelope {
        id: id.to_string(),
        subject: format!("subject of {}", id),
        from: "someone@example.org".to_string(),
        date: "2024-05-06T07:08:09".to_string(),
    }
}

const START: u128 = 5_000;

/// An interface that waits for a key.
fn polling() -> App {
    let mut app = App::new(
        vec![folder("INBOX"), folder("Sent")],
        vec![envelope("1"), envelope("2")],
        START,
    );
    assert_eq!(app.run(Event::Start, START), Effect::Draw);
    assert_eq!(app.run(Event::Drawn, START), Effect::Poll(TICK_RATE));
    app
}

fn page(folder: &str, page: usize) -> Effect {
    Effect::Fetch(Request::Envelopes { folder: folder.to_string(), page })
}

#[test]
fn waits_until_the_next_refresh_is_due() {
    let mut app = App::new(vec![], vec![], START);
    app.run(Event::Start, START);
    assert_eq!(app.run(Event::Drawn, START + 10), Effect::Poll(TICK_RATE - 10));
    assert_eq!(app.run(Event::Idle, START + 20), Effect::Draw);
    assert_eq!(app.run(Event::Drawn, START + TICK_RATE - 1), Effect::Poll(1));
    assert_eq!(app.run(Event::Idle, START + TICK_RATE - 1), Effect::Draw);
    assert_eq!(app.run(Event::Drawn, START + TICK_RATE), Effect::Poll(0));
    assert_eq!(app.timeout(START + 3 * TICK_RATE), 0);
    assert_eq!(app.elapsed(START + 3), 3);
    assert_eq!(app.elapsed(START - 1), 0);
    assert_eq!(app.timeout(START - 1), TICK_RATE);
}

#[test]
fn a_key_without_effect_leads_to_the_next_round() {
    let mut app = polling();
    assert_eq!(app.run(Event::Key(Key::Other), START), Effect::Draw);
    assert_eq!(app.stage, Stage::Drawing);
}

#[test]
fn a_refresh_that_is_due_keeps_the_selection() {
    let mut app = polling();
    app.envelopes_state.select(Some(1));
    let now = START + TICK_RATE;
    assert_eq!(app.run(Event::Idle, now), page("INBOX", 0));
    assert_eq!(app.stage, Stage::RefreshingEnvelopes(Refresh::Due));
    assert_eq!(
        app.run(Event::Envelopes(Some(vec![envelope("8"), envelope("9")])), now + 1),
        Effect::Fetch(Request::Folders)
    );
    assert_eq!(app.last_tick, START);
    assert_eq!(app.run(Event::Folders(Some(vec![folder("New")])), now + 2), Effect::Draw);
    assert_eq!(app.envelopes, vec![envelope("8"), envelope("9")]);
    assert_eq!(app.folders, vec![folder("New")]);
    assert_eq!(app.envelopes_state.selected, Some(1));
    assert_eq!(app.last_tick, now + 2);
    assert_eq!(app.run(Event::Drawn, now + 3), Effect::Poll(TICK_RATE - 1));
}

#[test]
fn a_refresh_that_fails_changes_nothing_but_the_clock() {
    let mut app = polling();
    let before = app.clone();
    let now = START + TICK_RATE + 5;
    app.run(Event::Idle, now);
    assert_eq!(app.run(Event::Envelopes(None), now), Effect::Fetch(Request::Folders));
    assert_eq!(app.run(Event::Folders(None), now), Effect::Draw);
    assert_eq!(app, App { stage: Stage::Drawing, last_tick: now, ..before });
}

#[test]
fn a_refresh_that_is_wanted_selects_the_first_envelope() {
    let mut app = polling();
    app.envelopes_state.select(Some(1));
    assert_eq!(app.run(Event::Key(Key::Char('R')), START), page("INBOX", 0));
    assert_eq!(
        app.run(Event::Envelopes(Some(vec![envelope("8")])), START),
        Effect::Fetch(Request::Folders)
    );
    assert_eq!(app.envelopes_state.selected, Some(0));
    assert_eq!(app.run(Event::Folders(Some(vec![])), START), Effect::Draw);
    assert_eq!(app.folders, vec![]);
    assert_eq!(app.last_tick, START);
}

#[test]
fn a_wanted_refresh_is_followed_by_one_that_is_due() {
    let mut app = polling();
    let now = START + TICK_RATE;
    assert_eq!(app.run(Event::Key(Key::Char('R')), START), page("INBOX", 0));
    assert_eq!(app.run(Event::Envelopes(None), now), Effect::Fetch(Request::Folders));
    assert_eq!(app.run(Event::Folders(None), now), page("INBOX", 0));
    assert_eq!(app.stage, Stage::RefreshingEnvelopes(Refresh::Due));
}

#[test]
fn turning_the_page_shows_its_envelopes() {
    let mut app = polling();
    app.envelopes_state.select(Some(1));
    assert_eq!(app.run(Event::Key(Key::Char('n')), START), page("INBOX", 1));
    assert_eq!(app.run(Event::Envelopes(Some(vec![envelope("3")])), START), Effect::Draw);
    assert_eq!(app.envelopes, vec![envelope("3")]);
    assert_eq!(app.envelopes_state.selected, Some(0));
    assert_eq!(app.current_page, 1);
}

#[test]
fn turning_the_page_can_fail() {
    let mut app = polling();
    app.envelopes_state.select(Some(1));
    let before = app.clone();
    app.run(Event::Key(Key::Char('n')), START);
    assert_eq!(app.run(Event::Envelopes(None), START), Effect::Draw);
    assert_eq!(app, App { stage: Stage::Drawing, current_page: 1, ..before });
}

#[test]
fn opening_a_folder_moves_the_focus() {
    for fetched in [Some(vec![envelope("4")]), None] {
        let mut app = polling();
        app.focus = Focus::Folders;
        app.folders_state.select(Some(1));
        assert_eq!(app.run(Event::Key(Key::Enter), START), page("Sent", 0));
        assert_eq!(app.focus, Focus::Folders);
        assert_eq!(app.run(Event::Envelopes(fetched.clone()), START), Effect::Draw);
        assert_eq!(app.focus, Focus::Envelopes);
        assert_eq!(app.current_folder, "Sent");
        let shown = fetched.unwrap_or(vec![envelope("1"), envelope("2")]);
        assert_eq!(app.envelopes, shown);
    }
}

#[test]
fn opening_a_message_shows_it_from_its_start() {
    let mut app = polling();
    app.message_scroll = 9;
    app.envelopes_state.select(Some(1));
    assert_eq!(
        app.run(Event::Key(Key::Enter), START),
        Effect::Fetch(Request::Message { folder: "INBOX".to_string(), id: 2 })
    );
    assert_eq!(app.run(Event::Message(Some("Hello".to_string())), START), Effect::Draw);
    assert_eq!(app.current_message, Some("Hello".to_string()));
    assert_eq!(app.current_message_subject, Some("subject of 2".to_string()));
    assert_eq!(app.message_scroll, 0);
    assert_eq!(app.focus, Focus::Message);
}

#[test]
fn a_message_that_cannot_be_fetched_changes_nothing() {
    let mut app = polling();
    app.message_scroll = 9;
    let before = app.clone();
    app.run(Event::Key(Key::Enter), START);
    assert_eq!(app.run(Event::Message(None), START), Effect::Draw);
    assert_eq!(app, App { stage: Stage::Drawing, ..before });
}

#[test]
fn an_action_suspends_and_then_refreshes() {
    let mut app = polling();
    app.envelopes_state.select(Some(1));
    assert_eq!(
        app.run(Event::Key(Key::Char('f')), START),
        Effect::Suspend(vec![
            "himalaya".to_string(),
            "message".to_string(),
            "forward".to_string(),
            "2".to_string(),
        ])
    );
    assert_eq!(app.stage, Stage::Suspended);
    assert_eq!(app.run(Event::Resumed, START), page("INBOX", 0));
    assert_eq!(
        app.run(Event::Envelopes(Some(vec![envelope("7")])), START),
        Effect::Fetch(Request::Folders)
    );
    assert_eq!(app.envelopes_state.selected, Some(0));
    assert_eq!(app.run(Event::Folders(None), START), Effect::Draw);
}

#[test]
fn quitting_stops_at_once() {
    let mut app = polling();
    assert_eq!(app.run(Event::Key(Key::Char('q')), START), Effect::Quit);
    assert_eq!(app.stage, Stage::Stopped);
    assert_eq!(app.run(Event::Start, START), Effect::Draw);
}

#[test]
fn quitting_waits_for_a_refresh_that_is_due() {
    let mut app = polling();
    let now = START + TICK_RATE;
    assert_eq!(app.run(Event::Key(Key::Char('q')), now), page("INBOX", 0));
    assert_eq!(app.run(Event::Envelopes(None), now), Effect::Fetch(Request::Folders));
    assert_eq!(app.run(Event::Folders(None), now), Effect::Quit);
}

#[test]
fn the_help_swallows_the_quit_key() {
    let mut app = polling();
    assert_eq!(app.run(Event::Key(Key::Char('?')), START), Effect::Draw);
    app.run(Event::Drawn, START);
    assert_eq!(app.run(Event::Key(Key::Char('q')), START), Effect::Draw);
    assert!(!app.should_quit);
    assert!(!app.show_help);
}

#[test]
fn the_longest_round_ends() {
    let mut app = polling();
    let now = START + TICK_RATE;
    app.run(Event::Key(Key::Char('c')), START);
    app.run(Event::Resumed, now);
    app.run(Event::Envelopes(None), now);
    app.run(Event::Folders(None), now);
    app.run(Event::Envelopes(None), now);
    assert_eq!(app.run(Event::Folders(None), now), Effect::Draw);
}
