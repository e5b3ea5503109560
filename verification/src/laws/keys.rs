//! What each key does, and to what.
use crate::action::ActionView;
use crate::app::{AppView, Focus, Key, OutcomeView, Refresh, Selection, StageView};
use crate::mail::RequestView;
use vstd::prelude::*;

verus! {

/// The interface starts with what was fetched for it: all folders and envelopes, the
/// inbox at its first page with the focus on its envelopes, the first folder
/// selected, and the first envelope too, where there is one. No message is read, the
/// help is closed, and the first refresh is due after a minute.
pub proof fn law_start(
    folders: Seq<crate::mail::FolderView>,
    envelopes: Seq<crate::mail::EnvelopeView>,
    now: nat,
)
    ensures
        ({
            let app = AppView::initial(folders, envelopes, now);
            &&& app.folders == folders
            &&& app.envelopes == envelopes
            &&& app.folders_state.selected == Some(0usize)
            &&& app.folders_state.offset == 0
            &&& envelopes.len() > 0 ==> app.envelopes_state.selected == Some(0usize)
            &&& envelopes.len() == 0 ==> app.envelopes_state.selected is None
            &&& app.envelopes_state.offset == 0
            &&& app.current_folder == "INBOX"@
            &&& app.current_page == 0
            &&& app.current_message is None
            &&& app.current_message_subject is None
            &&& app.message_scroll == 0
            &&& app.focus == Focus::Envelopes
            &&& !app.show_help
            &&& app.last_tick == now
            &&& app.tick_rate == 60_000_000_000nat
            &&& !app.should_quit
            &&& app.stage == StageView::Stopped
        }),
        crate::mail::inbox() == "INBOX"@,
        crate::app::TICK_RATE == 60_000_000_000u128,
{
}

/// Selecting an item of a list keeps the part of the list that is shown. Selecting
/// none shows the list from its start.
pub proof fn law_select(selection: Selection, i: usize)
    ensures
        selection.with(Some(i)).selected == Some(i),
        selection.with(Some(i)).offset == selection.offset,
        selection.with(None).selected is None,
        selection.with(None).offset == 0,
{
}

/// The item below the selected one of a list is the next one, and the first one below
/// the last. The item above it is the one before, and the last one above the first.
/// Where nothing is selected, both are the first.
pub proof fn law_neighbours(i: usize, len: nat)
    requires
        len <= usize::MAX,
    ensures
        i + 1 < len ==> crate::app::index_below(Some(i), len) == i + 1,
        i + 1 >= len ==> crate::app::index_below(Some(i), len) == 0,
        i > 0 ==> crate::app::index_above(Some(i), len) == i - 1,
        i == 0 && len > 0 ==> crate::app::index_above(Some(i), len) == len - 1,
        i == 0 && len == 0 ==> crate::app::index_above(Some(i), len) == 0,
        crate::app::index_below(None, len) == 0,
        crate::app::index_above(None, len) == 0,
{
}

/// The keys to quit and to open the help do that and nothing else.
pub proof fn law_quit_and_help(app: AppView)
    requires
        !app.show_help,
    ensures
        app.press(Key::Char('q')) == (
            AppView { should_quit: true, ..app },
            OutcomeView::Done(ActionView::Nothing),
        ),
        app.press(Key::Char('?')) == (
            AppView { show_help: true, ..app },
            OutcomeView::Done(ActionView::Nothing),
        ),
{
}

/// A key without a meaning does nothing.
pub proof fn law_other_keys(app: AppView, c: char)
    requires
        !app.show_help,
        c != 'q',
        c != '?',
        c != 'R',
        c != 'n',
        c != 'p',
        c != 'c',
        c != 'r',
        c != 'f',
        c != 'd',
        c != '1',
        c != '2',
        c != '3',
        c != 'j',
        c != 'k',
    ensures
        app.press(Key::Char(c)) == (app, OutcomeView::Done(ActionView::Nothing)),
        app.press(Key::Other) == (app, OutcomeView::Done(ActionView::Nothing)),
{
}

/// The tab key moves the focus from the folders to the envelopes, from there to the
/// message, and from there to the folders, and does nothing else.
pub proof fn law_tab_order(app: AppView)
    requires
        !app.show_help,
    ensures
        app.press(Key::Tab).1 == OutcomeView::Done(ActionView::Nothing),
        app.focus == Focus::Folders ==> app.press(Key::Tab).0 == (
        AppView { focus: Focus::Envelopes, ..app }),
        app.focus == Focus::Envelopes ==> app.press(Key::Tab).0 == (
        AppView { focus: Focus::Message, ..app }),
        app.focus == Focus::Message ==> app.press(Key::Tab).0 == (
        AppView { focus: Focus::Folders, ..app }),
{
}

/// A step down in a list selects the next item, and the first one after the last, or
/// where nothing was selected. It changes nothing but the selected item.
pub proof fn law_step_down_in_lists(app: AppView)
    requires
        !app.show_help,
        app.folders.len() <= usize::MAX,
        app.envelopes.len() <= usize::MAX,
    ensures
        ({
            let (after, outcome) = app.press(Key::Down);
            let state = after.folders_state;
            app.focus == Focus::Folders ==> {
                &&& outcome == OutcomeView::Done(ActionView::Nothing)
                &&& after == AppView { folders_state: state, ..app }
                &&& state.offset == app.folders_state.offset
                &&& match app.folders_state.selected {
                    Some(i) => state.selected matches Some(j) && j == (if i + 1
                        < app.folders.len() {
                        i + 1
                    } else {
                        0
                    }),
                    None => state.selected == Some(0usize),
                }
            }
        }),
        ({
            let (after, outcome) = app.press(Key::Down);
            let state = after.envelopes_state;
            app.focus == Focus::Envelopes ==> {
                &&& outcome == OutcomeView::Done(ActionView::Nothing)
                &&& after == AppView { envelopes_state: state, ..app }
                &&& state.offset == app.envelopes_state.offset
                &&& match app.envelopes_state.selected {
                    Some(i) => state.selected matches Some(j) && j == (if i + 1
                        < app.envelopes.len() {
                        i + 1
                    } else {
                        0
                    }),
                    None => state.selected == Some(0usize),
                }
            }
        }),
{
}

/// A step up in a list selects the item before, and the last one before the first. The
/// first one is selected where nothing was, or where the list is empty. It changes
/// nothing but the selected item.
pub proof fn law_step_up_in_lists(app: AppView)
    requires
        !app.show_help,
        app.folders.len() <= usize::MAX,
        app.envelopes.len() <= usize::MAX,
    ensures
        ({
            let (after, outcome) = app.press(Key::Up);
            let state = after.folders_state;
            app.focus == Focus::Folders ==> {
                &&& outcome == OutcomeView::Done(ActionView::Nothing)
                &&& after == AppView { folders_state: state, ..app }
                &&& state.offset == app.folders_state.offset
                &&& match app.folders_state.selected {
                    Some(i) => state.selected matches Some(j) && (if i > 0 {
                        j == i - 1
                    } else if app.folders.len() > 0 {
                        j == app.folders.len() - 1
                    } else {
                        j == 0
                    }),
                    None => state.selected == Some(0usize),
                }
            }
        }),
        ({
            let (after, outcome) = app.press(Key::Up);
            let state = after.envelopes_state;
            app.focus == Focus::Envelopes ==> {
                &&& outcome == OutcomeView::Done(ActionView::Nothing)
                &&& after == AppView { envelopes_state: state, ..app }
                &&& state.offset == app.envelopes_state.offset
                &&& match app.envelopes_state.selected {
                    Some(i) => state.selected matches Some(j) && (if i > 0 {
                        j == i - 1
                    } else if app.envelopes.len() > 0 {
                        j == app.envelopes.len() - 1
                    } else {
                        j == 0
                    }),
                    None => state.selected == Some(0usize),
                }
            }
        }),
{
}

/// A step in the message scrolls it by one line, as far as that goes, and does nothing
/// else.
pub proof fn law_steps_scroll_message(app: AppView)
    requires
        !app.show_help,
        app.focus == Focus::Message,
    ensures
        ({
            let (after, outcome) = app.press(Key::Down);
            &&& outcome == OutcomeView::Done(ActionView::Nothing)
            &&& after == AppView { message_scroll: after.message_scroll, ..app }
            &&& app.message_scroll < u16::MAX ==> after.message_scroll == app.message_scroll + 1
            &&& app.message_scroll == u16::MAX ==> after.message_scroll == u16::MAX
        }),
        ({
            let (after, outcome) = app.press(Key::Up);
            &&& outcome == OutcomeView::Done(ActionView::Nothing)
            &&& after == AppView { message_scroll: after.message_scroll, ..app }
            &&& app.message_scroll > 0 ==> after.message_scroll == app.message_scroll - 1
            &&& app.message_scroll == 0 ==> after.message_scroll == 0
        }),
{
}

/// Turning the page counts the page up or down by one, and fetches the envelopes of
/// that page of the current folder. Nothing else changes before they have come.
pub proof fn law_turn_page(app: AppView)
    requires
        !app.show_help,
    ensures
        ({
            let (after, outcome) = app.press(Key::Char('n'));
            &&& after == AppView { current_page: app.current_page + 1, ..app }
            &&& outcome == OutcomeView::Fetch(
                RequestView::Envelopes {
                    folder: app.current_folder,
                    page: app.current_page + 1,
                },
                StageView::TurningPage,
            )
        }),
        app.current_page > 0 ==> {
            let (after, outcome) = app.press(Key::Char('p'));
            &&& after == AppView { current_page: (app.current_page - 1) as nat, ..app }
            &&& outcome == OutcomeView::Fetch(
                RequestView::Envelopes {
                    folder: app.current_folder,
                    page: (app.current_page - 1) as nat,
                },
                StageView::TurningPage,
            )
        },
        app.current_page == 0 ==> app.press(Key::Char('p')) == (
            app,
            OutcomeView::Done(ActionView::Nothing),
        ),
{
}

/// The refresh key fetches the current page of the current folder again, and changes
/// nothing before it has come.
pub proof fn law_refresh_key(app: AppView)
    requires
        !app.show_help,
    ensures
        app.press(Key::Char('R')) == (
            app,
            OutcomeView::Fetch(
                RequestView::Envelopes {
                    folder: app.current_folder,
                    page: app.current_page,
                },
                StageView::RefreshingEnvelopes(Refresh::Wanted),
            ),
        ),
        app.page_request() == (RequestView::Envelopes {
            folder: app.current_folder,
            page: app.current_page,
        }),
{
}

/// The key to compose a message asks for that, whatever is selected.
pub proof fn law_compose(app: AppView)
    requires
        !app.show_help,
    ensures
        app.press(Key::Char('c')) == (app, OutcomeView::Done(ActionView::Write)),
{
}

/// Replying, forwarding and downloading are about the envelope at the selected place
/// of the list, and leave the interface as it is.
pub proof fn law_actions_on_selected(app: AppView, i: usize)
    requires
        !app.show_help,
        app.envelopes_state.selected == Some(i),
        i < app.envelopes.len(),
    ensures
        app.press(Key::Char('r')) == (
            app,
            OutcomeView::Done(ActionView::Reply(app.envelopes[i as int].id)),
        ),
        app.press(Key::Char('f')) == (
            app,
            OutcomeView::Done(ActionView::Forward(app.envelopes[i as int].id)),
        ),
        app.press(Key::Char('d')) == (
            app,
            OutcomeView::Done(ActionView::Download(app.envelopes[i as int].id)),
        ),
        app.selected_envelope() == Some(app.envelopes[i as int]),
{
}

/// Without an envelope at the selected place, replying, forwarding, downloading and
/// opening a message do nothing.
pub proof fn law_no_envelope_selected(app: AppView)
    requires
        !app.show_help,
        match app.envelopes_state.selected {
            Some(i) => i >= app.envelopes.len(),
            None => true,
        },
    ensures
        app.press(Key::Char('r')) == (app, OutcomeView::Done(ActionView::Nothing)),
        app.press(Key::Char('f')) == (app, OutcomeView::Done(ActionView::Nothing)),
        app.press(Key::Char('d')) == (app, OutcomeView::Done(ActionView::Nothing)),
        app.focus == Focus::Envelopes ==> app.press(Key::Enter) == (
            app,
            OutcomeView::Done(ActionView::Nothing),
        ),
        app.selected_envelope() is None,
{
}

/// The enter key on the envelopes fetches the message of the envelope at the selected
/// place from the current folder, to be shown under its subject, where its identifier
/// is a number. Else it does nothing.
pub proof fn law_enter_on_envelope(app: AppView, i: usize)
    requires
        !app.show_help,
        app.focus == Focus::Envelopes,
        app.envelopes_state.selected == Some(i),
        i < app.envelopes.len(),
    ensures
        match crate::text::usize_of(app.envelopes[i as int].id) {
            Some(id) => app.press(Key::Enter) == (
                app,
                OutcomeView::Fetch(
                    RequestView::Message { folder: app.current_folder, id: id as nat },
                    StageView::OpeningMessage { subject: app.envelopes[i as int].subject },
                ),
            ),
            None => app.press(Key::Enter) == (app, OutcomeView::Done(ActionView::Nothing)),
        },
{
}

/// The enter key on the folders makes the folder at the selected place the current
/// one, at its first page and with no message, and fetches that page.
pub proof fn law_enter_on_folder(app: AppView, i: usize)
    requires
        !app.show_help,
        app.focus == Focus::Folders,
        app.folders_state.selected == Some(i),
        i < app.folders.len(),
    ensures
        app.press(Key::Enter) == (
            AppView {
                current_folder: app.folders[i as int].name,
                current_page: 0,
                current_message: None,
                current_message_subject: None,
                ..app
            },
            OutcomeView::Fetch(
                RequestView::Envelopes { folder: app.folders[i as int].name, page: 0 },
                StageView::OpeningFolder,
            ),
        ),
        app.selected_folder() == Some(app.folders[i as int]),
{
}

/// The enter key does nothing on the message, nor on the folders where none is at the
/// selected place.
pub proof fn law_enter_without_effect(app: AppView)
    requires
        !app.show_help,
    ensures
        app.focus == Focus::Message ==> app.press(Key::Enter) == (
            app,
            OutcomeView::Done(ActionView::Nothing),
        ),
        app.focus == Focus::Folders && match app.folders_state.selected {
            Some(i) => i >= app.folders.len(),
            None => true,
        } ==> app.press(Key::Enter) == (app, OutcomeView::Done(ActionView::Nothing))
            && app.selected_folder() is None,
{
}

} // verus!
