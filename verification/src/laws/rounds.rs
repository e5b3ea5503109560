//! What each event leads to.
use crate::action::ActionView;
use crate::app::{AppView, Focus, Key, OutcomeView, Refresh, Selection, StageView};
use crate::mail::{EnvelopeView, FolderView, RequestView};
use crate::run::{EffectView, EventView};
use vstd::prelude::*;

verus! {

/// The time since the last refresh that was due, and the time until the next one, add
/// up to the time between the two. The refresh is due when the latter is over.
pub proof fn law_times(app: AppView, now: nat)
    ensures
        now >= app.last_tick ==> app.last_tick + app.elapsed(now) == now,
        now < app.last_tick ==> app.elapsed(now) == 0,
        app.elapsed(now) <= app.tick_rate ==> app.elapsed(now) + app.timeout(now)
            == app.tick_rate,
        app.elapsed(now) > app.tick_rate ==> app.timeout(now) == 0,
        app.is_due(now) <==> now >= app.last_tick + app.tick_rate || app.tick_rate == 0,
{
}

/// When there is nothing left to do for a key, the refresh comes next if the time for
/// it has come: the current page of the current folder is fetched. Else the interface
/// stops if it is to, and draws the screen again if not.
pub proof fn law_end_of_work(app: AppView, now: nat)
    ensures
        now >= app.last_tick + app.tick_rate || app.tick_rate == 0 ==> app.step(
            EventView::Idle,
            now,
        ) == (
            AppView { stage: StageView::RefreshingEnvelopes(Refresh::Due), ..app },
            EffectView::Fetch(
                RequestView::Envelopes { folder: app.current_folder, page: app.current_page },
            ),
        ),
        now < app.last_tick + app.tick_rate && app.tick_rate > 0 && app.should_quit ==> app.step(
            EventView::Idle,
            now,
        ) == (AppView { stage: StageView::Stopped, ..app }, EffectView::Quit),
        now < app.last_tick + app.tick_rate && app.tick_rate > 0 && !app.should_quit ==> app.step(
            EventView::Idle,
            now,
        ) == (AppView { stage: StageView::Drawing, ..app }, EffectView::Draw),
{
}

/// A start leads to drawing, and nothing else changes.
pub proof fn law_start_draws(app: AppView, now: nat)
    ensures
        app.step(EventView::Start, now) == (
            AppView { stage: StageView::Drawing, ..app },
            EffectView::Draw,
        ),
{
}

/// After drawing, a key is waited for until the next refresh is due, and nothing else
/// changes.
pub proof fn law_drawn_polls(app: AppView, now: nat)
    ensures
        ({
            let (after, effect) = app.step(EventView::Drawn, now);
            &&& after == AppView { stage: StageView::Polling, ..app }
            &&& effect matches EffectView::Poll(timeout)
            &&& now < app.last_tick ==> timeout == app.tick_rate
            &&& app.last_tick <= now <= app.last_tick + app.tick_rate ==> now + timeout
                == app.last_tick + app.tick_rate
            &&& now > app.last_tick + app.tick_rate ==> timeout == 0
        }),
{
}

/// The work on a key goes on as the key asks for: what it asks to fetch is fetched, the
/// command of an action is run, and the work ends where there is neither.
pub proof fn law_work_on_keys(app: AppView, key: Key, now: nat)
    ensures
        ({
            let (pressed, outcome) = app.press(key);
            let (after, effect) = app.step(EventView::Key(key), now);
            match outcome {
                OutcomeView::Fetch(request, stage) => {
                    &&& after == AppView { stage, ..pressed }
                    &&& effect == EffectView::Fetch(request)
                },
                OutcomeView::Done(ActionView::Nothing) => {
                    (after, effect) == pressed.step(EventView::Idle, now)
                },
                OutcomeView::Done(action) => {
                    &&& after == AppView { stage: StageView::Suspended, ..pressed }
                    &&& effect == EffectView::Suspend(action.command_line())
                },
            }
        }),
{
}

/// Replying to, forwarding or downloading from the selected envelope runs the command
/// of the mail program for it, with its identifier. Composing runs the command to
/// write.
pub proof fn law_commands_on_selected(app: AppView, i: usize, now: nat)
    requires
        !app.show_help,
        app.envelopes_state.selected == Some(i),
        i < app.envelopes.len(),
    ensures
        ({
            let id = app.envelopes[i as int].id;
            let suspended = AppView { stage: StageView::Suspended, ..app };
            &&& app.step(EventView::Key(Key::Char('r')), now) == (
                suspended,
                EffectView::Suspend(seq!["himalaya"@, "message"@, "reply"@, id]),
            )
            &&& app.step(EventView::Key(Key::Char('f')), now) == (
                suspended,
                EffectView::Suspend(seq!["himalaya"@, "message"@, "forward"@, id]),
            )
            &&& app.step(EventView::Key(Key::Char('d')), now) == (
                suspended,
                EffectView::Suspend(seq!["himalaya"@, "attachments"@, "download"@, id]),
            )
            &&& app.step(EventView::Key(Key::Char('c')), now) == (
                suspended,
                EffectView::Suspend(seq!["himalaya"@, "message"@, "write"@]),
            )
        }),
{
}

/// When a command has ended, the current page of the current folder is fetched again,
/// and nothing changes before it has come.
pub proof fn law_resumed(app: AppView, now: nat)
    ensures
        app.step(EventView::Resumed, now) == (
            AppView { stage: StageView::RefreshingEnvelopes(Refresh::Wanted), ..app },
            EffectView::Fetch(
                RequestView::Envelopes { folder: app.current_folder, page: app.current_page },
            ),
        ),
{
}

/// Of a page that was turned to, all envelopes are shown, with the first one selected.
/// Nothing else changes, and the work on the key ends.
pub proof fn law_page_turned(app: AppView, envelopes: Seq<EnvelopeView>, now: nat)
    requires
        !(app.stage is RefreshingEnvelopes),
        !(app.stage is OpeningFolder),
    ensures
        app.step(EventView::Envelopes(Some(envelopes)), now) == (AppView {
            envelopes,
            envelopes_state: Selection {
                offset: app.envelopes_state.offset,
                selected: Some(0),
            },
            ..app
        }).step(EventView::Idle, now),
        app.step(EventView::Envelopes(None), now) == app.step(EventView::Idle, now),
{
}

/// Turning the page and getting its envelopes shows them all: the page, the envelopes,
/// the selection of the first one and the stage of the work are all that changes.
pub proof fn law_turn_and_show_page(
    app: AppView,
    now: nat,
    envelopes: Seq<EnvelopeView>,
    later: nat,
)
    requires
        !app.show_help,
    ensures
        ({
            let asked = app.step(EventView::Key(Key::Char('n')), now).0;
            let shown = asked.step(EventView::Envelopes(Some(envelopes)), later).0;
            shown == AppView {
                current_page: app.current_page + 1,
                envelopes,
                envelopes_state: Selection {
                    offset: app.envelopes_state.offset,
                    selected: Some(0),
                },
                stage: shown.stage,
                ..app
            }
        }),
        app.current_page > 0 ==> ({
            let asked = app.step(EventView::Key(Key::Char('p')), now).0;
            let shown = asked.step(EventView::Envelopes(Some(envelopes)), later).0;
            shown == AppView {
                current_page: (app.current_page - 1) as nat,
                envelopes,
                envelopes_state: Selection {
                    offset: app.envelopes_state.offset,
                    selected: Some(0),
                },
                stage: shown.stage,
                ..app
            }
        }),
{
}

/// Of a folder that was opened, all envelopes are shown, with the first one selected
/// and the focus on them. The focus moves there too where they could not be fetched.
/// Nothing else changes, and the work on the key ends.
pub proof fn law_folder_opened(app: AppView, envelopes: Seq<EnvelopeView>, now: nat)
    requires
        app.stage is OpeningFolder,
    ensures
        app.step(EventView::Envelopes(Some(envelopes)), now) == (AppView {
            envelopes,
            envelopes_state: Selection {
                offset: app.envelopes_state.offset,
                selected: Some(0),
            },
            focus: Focus::Envelopes,
            ..app
        }).step(EventView::Idle, now),
        app.step(EventView::Envelopes(None), now) == (AppView {
            focus: Focus::Envelopes,
            ..app
        }).step(EventView::Idle, now),
{
}

/// A refresh shows all envelopes that were fetched, and then fetches the folders. Only
/// one that was wanted selects the first envelope. Nothing else changes.
pub proof fn law_envelopes_refreshed(
    app: AppView,
    refresh: Refresh,
    envelopes: Seq<EnvelopeView>,
    now: nat,
)
    requires
        app.stage == StageView::RefreshingEnvelopes(refresh),
    ensures
        ({
            let (after, effect) = app.step(EventView::Envelopes(Some(envelopes)), now);
            &&& effect == EffectView::Fetch(RequestView::Folders)
            &&& after == AppView {
                envelopes,
                envelopes_state: after.envelopes_state,
                stage: StageView::RefreshingFolders(refresh),
                ..app
            }
            &&& after.envelopes_state.offset == app.envelopes_state.offset
            &&& refresh == Refresh::Wanted ==> after.envelopes_state.selected == Some(0usize)
            &&& refresh == Refresh::Due ==> after.envelopes_state.selected
                == app.envelopes_state.selected
        }),
        app.step(EventView::Envelopes(None), now) == (
            AppView { stage: StageView::RefreshingFolders(refresh), ..app },
            EffectView::Fetch(RequestView::Folders),
        ),
{
}

/// A refresh ends with all folders that were fetched. One that was due sets the clock
/// and then the interface stops if it is to, and draws if not. Of any other, the work on
/// the key ends. Nothing else changes.
pub proof fn law_folders_refreshed(
    app: AppView,
    folders: Option<Seq<FolderView>>,
    now: nat,
)
    ensures
        ({
            let shown = match folders {
                Some(folders) => AppView { folders, ..app },
                None => app,
            };
            let (after, effect) = app.step(EventView::Folders(folders), now);
            if app.stage == StageView::RefreshingFolders(Refresh::Due) {
                if app.should_quit {
                    &&& after == AppView { last_tick: now, stage: StageView::Stopped, ..shown }
                    &&& effect == EffectView::Quit
                } else {
                    &&& after == AppView { last_tick: now, stage: StageView::Drawing, ..shown }
                    &&& effect == EffectView::Draw
                }
            } else {
                (after, effect) == shown.step(EventView::Idle, now)
            }
        }),
{
}

/// A message that was fetched is shown whole and from its start, under the subject of
/// its envelope and with the focus on it. Nothing else changes, and the work on the key
/// ends. Nothing changes at all where it could not be fetched, or was not waited for.
pub proof fn law_message_opened(
    app: AppView,
    subject: Seq<char>,
    message: Seq<char>,
    now: nat,
)
    ensures
        app.stage == (StageView::OpeningMessage { subject }) ==> app.step(
            EventView::Message(Some(message)),
            now,
        ) == (AppView {
            current_message: Some(message),
            current_message_subject: Some(subject),
            message_scroll: 0,
            focus: Focus::Message,
            ..app
        }).step(EventView::Idle, now),
        !(app.stage is OpeningMessage) ==> app.step(EventView::Message(Some(message)), now)
            == app.step(EventView::Idle, now),
        app.step(EventView::Message(None), now) == app.step(EventView::Idle, now),
{
}

/// Opening the envelope at the selected place and getting its message shows that
/// message, under the subject of that envelope.
pub proof fn law_open_selected_message(
    app: AppView,
    i: usize,
    now: nat,
    message: Seq<char>,
    later: nat,
)
    requires
        !app.show_help,
        app.focus == Focus::Envelopes,
        app.envelopes_state.selected == Some(i),
        i < app.envelopes.len(),
        crate::text::usize_of(app.envelopes[i as int].id) is Some,
    ensures
        ({
            let (asked, effect) = app.step(EventView::Key(Key::Enter), now);
            let shown = asked.step(EventView::Message(Some(message)), later).0;
            &&& effect == EffectView::Fetch(
                RequestView::Message {
                    folder: app.current_folder,
                    id: crate::text::usize_of(app.envelopes[i as int].id)->0 as nat,
                },
            )
            &&& shown == AppView {
                current_message: Some(message),
                current_message_subject: Some(app.envelopes[i as int].subject),
                message_scroll: 0,
                focus: Focus::Message,
                stage: shown.stage,
                ..app
            }
        }),
{
}

/// Opening the folder at the selected place and getting its envelopes shows them all.
pub proof fn law_open_selected_folder(
    app: AppView,
    i: usize,
    now: nat,
    envelopes: Seq<EnvelopeView>,
    later: nat,
)
    requires
        !app.show_help,
        app.focus == Focus::Folders,
        app.folders_state.selected == Some(i),
        i < app.folders.len(),
    ensures
        ({
            let (asked, effect) = app.step(EventView::Key(Key::Enter), now);
            let shown = asked.step(EventView::Envelopes(Some(envelopes)), later).0;
            &&& effect == EffectView::Fetch(
                RequestView::Envelopes { folder: app.folders[i as int].name, page: 0 },
            )
            &&& shown == AppView {
                current_folder: app.folders[i as int].name,
                current_page: 0,
                current_message: None,
                current_message_subject: None,
                envelopes,
                envelopes_state: Selection {
                    offset: app.envelopes_state.offset,
                    selected: Some(0),
                },
                focus: Focus::Envelopes,
                stage: shown.stage,
                ..app
            }
        }),
{
}

} // verus!
