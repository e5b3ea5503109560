//! What holds of the interface as a whole.
use crate::action::ActionView;
use crate::app::{AppView, Focus, Key, OutcomeView, Refresh, Selection, StageView};
use crate::layout::{Areas, Rect};
use crate::mail::{EnvelopeView, FolderView, RequestView};
use crate::run::{EffectView, EventView};
use crate::screen::{EnvelopeListView, Layer};
use vstd::prelude::*;

pub mod keys;
pub mod rounds;
pub mod screens;
pub mod texts;
pub mod views;

verus! {

/// Whether the selection points at an item of a list.
pub open spec fn points_into(selection: Selection, len: nat) -> bool {
    selection.selected matches Some(i) && i < len
}

/// In a list, the item above the one below is the item itself, and so is the item
/// below the one above.
pub proof fn law_below_and_above(i: usize, len: nat)
    requires
        i < len <= usize::MAX,
    ensures
        crate::app::index_above(Some(crate::app::index_below(Some(i), len)), len) == i,
        crate::app::index_below(Some(crate::app::index_above(Some(i), len)), len) == i,
{
}

/// A step down leads to an item of the list, whatever was selected, unless the
/// list is empty. A step up does where the selection was in the list, or missing.
pub proof fn law_steps_stay_in_list(selected: Option<usize>, len: nat)
    requires
        0 < len <= usize::MAX,
    ensures
        crate::app::index_below(selected, len) < len,
        (selected matches Some(i) ==> i < len) ==> crate::app::index_above(selected, len) < len,
{
}

/// The item that so many steps down lead to.
pub open spec fn steps_down(i: usize, len: nat, steps: nat) -> usize
    decreases steps,
{
    if steps == 0 {
        i
    } else {
        crate::app::index_below(Some(steps_down(i, len, (steps - 1) as nat)), len)
    }
}

/// Steps down go round the list: each number of steps is counted modulo the length
/// of the list, so that as many steps as there are items lead back.
pub proof fn law_steps_go_round(i: usize, len: nat, steps: nat)
    requires
        i < len <= usize::MAX,
    ensures
        steps_down(i, len, steps) == (i + steps) % (len as int),
        steps == len ==> steps_down(i, len, steps) == i,
    decreases steps,
{
    if steps > 0 {
        let before = (steps - 1) as nat;
        law_steps_go_round(i, len, before);
        let k = (i + before) % (len as int);
        vstd::arithmetic::div_mod::lemma_add_mod_noop(i + before, 1, len as int);
        assert(len > 1 ==> 1int % (len as int) == 1) by {
            if len > 1 {
                vstd::arithmetic::div_mod::lemma_small_mod(1, len);
            }
        }
        if k + 1 < len {
            vstd::arithmetic::div_mod::lemma_small_mod((k + 1) as nat, len);
        } else {
            vstd::arithmetic::div_mod::lemma_mod_self_0(len as int);
        }
        if len == 1 {
            assert((i + steps) % 1 == 0);
        }
    } else {
        vstd::arithmetic::div_mod::lemma_small_mod(i as nat, len);
    }
    if steps == len {
        vstd::arithmetic::div_mod::lemma_mod_add_multiples_vanish(i as int, len as int);
        vstd::arithmetic::div_mod::lemma_small_mod(i as nat, len);
    }
}

/// A step up undoes a step down, in each pane: in a list where the selection
/// points into it, in the message unless it is scrolled to the limit.
pub proof fn law_up_undoes_down(app: AppView)
    requires
        match app.focus {
            Focus::Folders => points_into(app.folders_state, app.folders.len())
                && app.folders.len() <= usize::MAX,
            Focus::Envelopes => points_into(app.envelopes_state, app.envelopes.len())
                && app.envelopes.len() <= usize::MAX,
            Focus::Message => app.message_scroll < u16::MAX,
        },
    ensures
        app.down().up() == app,
{
}

/// A step down undoes a step up, in each pane: in a list where the selection
/// points into it, in the message unless its start is shown.
pub proof fn law_down_undoes_up(app: AppView)
    requires
        match app.focus {
            Focus::Folders => points_into(app.folders_state, app.folders.len())
                && app.folders.len() <= usize::MAX,
            Focus::Envelopes => points_into(app.envelopes_state, app.envelopes.len())
                && app.envelopes.len() <= usize::MAX,
            Focus::Message => app.message_scroll > 0,
        },
    ensures
        app.up().down() == app,
{
}

/// While the help is shown, any key closes it and does nothing else. So the help
/// can be looked at without any trace.
pub proof fn law_any_key_closes_help(app: AppView, key: Key)
    ensures
        app.show_help ==> app.press(key) == (
            AppView { show_help: false, ..app },
            OutcomeView::Done(ActionView::Nothing),
        ),
        !app.show_help ==> app.press(Key::Char('?')).0.press(key) == (
            app,
            OutcomeView::Done(ActionView::Nothing),
        ),
{
}

/// The keys 1, 2 and 3 move the focus to the folders, the envelopes and the
/// message, from wherever it is, and do nothing else. The letters j and k do the
/// same as the arrows down and up.
pub proof fn law_keys_for_panes_and_steps(app: AppView)
    requires
        !app.show_help,
    ensures
        ({
            let nothing = OutcomeView::Done(ActionView::Nothing);
            &&& app.press(Key::Char('1')) == (
                AppView { focus: Focus::Folders, ..app },
                nothing,
            )
            &&& app.press(Key::Char('2')) == (
                AppView { focus: Focus::Envelopes, ..app },
                nothing,
            )
            &&& app.press(Key::Char('3')) == (
                AppView { focus: Focus::Message, ..app },
                nothing,
            )
        }),
        app.press(Key::Char('j')) == app.press(Key::Down),
        app.press(Key::Char('k')) == app.press(Key::Up),
{
}

/// The tab key goes through all three panes and comes back after the third time.
pub proof fn law_tab_cycles(app: AppView)
    requires
        !app.show_help,
    ensures
        ({
            let once = app.press(Key::Tab).0;
            let twice = once.press(Key::Tab).0;
            let thrice = twice.press(Key::Tab).0;
            &&& once.focus != app.focus
            &&& twice.focus != app.focus
            &&& once.focus != twice.focus
            &&& thrice == app
        }),
{
}

/// Turning to the next page and back, or to the previous page and back, leads to
/// the same page, and to nothing else that is different. There is no page before
/// the first one: turning back there changes nothing and fetches nothing.
pub proof fn law_pages(app: AppView)
    requires
        !app.show_help,
    ensures
        app.press(Key::Char('n')).0.press(Key::Char('p')).0 == app,
        app.current_page > 0 ==> app.press(Key::Char('p')).0.press(Key::Char('n')).0 == app,
        app.current_page == 0 ==> app.press(Key::Char('p')) == (
            app,
            OutcomeView::Done(ActionView::Nothing),
        ),
{
}

/// A key that asks for an action of the mail program leaves the interface as it
/// is. Replying, forwarding and downloading are about the selected envelope, and
/// nothing is done where none is selected.
pub proof fn law_actions(app: AppView, key: Key)
    requires
        !app.show_help,
    ensures
        !(app.press(key).1 == OutcomeView::Done(ActionView::Nothing))
            && app.press(key).1 is Done ==> app.press(key).0 == app,
        app.press(Key::Char('c')).1 == OutcomeView::Done(
            ActionView::Write,
        ),
        match app.selected_envelope() {
            Some(e) => {
                &&& app.press(Key::Char('r')).1 == OutcomeView::Done(
                    ActionView::Reply(e.id),
                )
                &&& app.press(Key::Char('f')).1 == OutcomeView::Done(
                    ActionView::Forward(e.id),
                )
                &&& app.press(Key::Char('d')).1 == OutcomeView::Done(
                    ActionView::Download(e.id),
                )
            },
            None => {
                let nothing = OutcomeView::Done(ActionView::Nothing);
                &&& app.press(Key::Char('r')) == (app, nothing)
                &&& app.press(Key::Char('f')) == (app, nothing)
                &&& app.press(Key::Char('d')) == (app, nothing)
            },
        },
{
}

/// Only a key leads to a command of the mail program, and what is then run is the
/// command line of the action that the key asks for.
pub proof fn law_commands_come_from_keys(
    app: AppView,
    event: EventView,
    now: nat,
)
    requires
        app.step(event, now).1 is Suspend,
    ensures
        ({
            let args = app.step(event, now).1->Suspend_0;
            &&& event matches EventView::Key(key)
            &&& app.press(key).1 matches OutcomeView::Done(action)
            &&& args == action.command_line()
            &&& args.len() >= 3
            &&& args.first() == "himalaya"@
        }),
{
}

/// What the work asks for next is what it then waits for: whatever event answers
/// it is one that the interface waits for. A key is only waited for right after
/// drawing.
pub proof fn law_answers_are_awaited(
    app: AppView,
    event: EventView,
    now: nat,
    answer: EventView,
)
    requires
        crate::run::answers(app.step(event, now).1, answer),
    ensures
        app.step(event, now).0.awaits(answer),
        app.step(event, now).1 is Poll ==> event is Drawn,
{
}

/// Envelopes are fetched for the folder and the page that are then current, and
/// messages from the folder that is then current.
pub proof fn law_fetches_what_is_current(
    app: AppView,
    event: EventView,
    now: nat,
)
    ensures
        match app.step(event, now).1 {
            EffectView::Fetch(
                RequestView::Envelopes { folder, page },
            ) => folder == app.step(event, now).0.current_folder && page == app.step(
                event,
                now,
            ).0.current_page,
            EffectView::Fetch(RequestView::Message { folder, id }) => folder
                == app.step(event, now).0.current_folder,
            _ => true,
        },
{
}

/// Where fetching fails, what is shown stays as it is. Only the focus moves on to
/// the envelopes of a folder that was opened, and a refresh that was due counts
/// as done.
pub proof fn law_failed_fetch(app: AppView, now: nat)
    ensures
        ({
            let after = app.step(EventView::Envelopes(None), now).0;
            after == AppView { stage: after.stage, focus: after.focus, ..app } && (
            after.focus == app.focus || app.stage is OpeningFolder)
        }),
        ({
            let after = app.step(EventView::Folders(None), now).0;
            after == AppView { stage: after.stage, last_tick: after.last_tick, ..app }
        }),
        ({
            let after = app.step(EventView::Message(None), now).0;
            after == AppView { stage: after.stage, ..app }
        }),
{
}

/// The screen is never drawn again once the interface is to stop, unless it is
/// started again, and it stops only if it is to.
pub proof fn law_stops_when_asked(
    app: AppView,
    event: EventView,
    now: nat,
)
    ensures
        app.step(event, now).1 == EffectView::Draw && !(event is Start) ==> !app.step(
            event,
            now,
        ).0.should_quit,
        app.step(event, now).1 == EffectView::Quit ==> app.step(
            event,
            now,
        ).0.should_quit,
        app.should_quit ==> app.step(event, now).0.should_quit,
{
}

/// The key to quit stops the interface at once, or after the refresh that is due
/// at that time, whether that succeeds or not.
pub proof fn law_quit_key(
    app: AppView,
    now: nat,
    envelopes: Option<Seq<EnvelopeView>>,
    folders: Option<Seq<FolderView>>,
    later: nat,
    still_later: nat,
)
    requires
        !app.show_help,
    ensures
        ({
            let (asked, effect) = app.step(
                EventView::Key(Key::Char('q')),
                now,
            );
            if app.is_due(now) {
                let (half, next) = asked.step(EventView::Envelopes(envelopes), later);
                let (done, last) = half.step(EventView::Folders(folders), still_later);
                &&& effect == EffectView::Fetch(app.page_request())
                &&& next == EffectView::Fetch(RequestView::Folders)
                &&& last == EffectView::Quit
            } else {
                effect == EffectView::Quit
            }
        }),
{
}

/// A key is waited for until the next refresh is due, and no longer: there is no
/// time to wait exactly where it is due, and it is due when the time is over.
pub proof fn law_timeout(app: AppView, now: nat)
    ensures
        app.timeout(now) <= app.tick_rate,
        app.timeout(now) == 0 <==> app.is_due(now),
        now >= app.last_tick ==> app.is_due(now + app.timeout(now)),
        now >= app.last_tick ==> forall|t: nat|
            t < now + app.timeout(now) && !app.is_due(now) ==> !#[trigger] app.is_due(t),
{
}

/// Only a refresh that was due moves the clock, to the time at which it ended. The
/// next one is due after the whole time from then on.
pub proof fn law_clock(app: AppView, event: EventView, now: nat)
    ensures
        app.step(event, now).0.tick_rate == app.tick_rate,
        event is Folders && app.stage == StageView::RefreshingFolders(Refresh::Due)
            ==> {
            let after = app.step(event, now).0;
            &&& after.last_tick == now
            &&& forall|t: nat| #[trigger]
                after.is_due(t) <==> t >= now + app.tick_rate || app.tick_rate == 0
        },
        !(event is Folders && app.stage == StageView::RefreshingFolders(Refresh::Due))
            ==> app.step(event, now).0.last_tick == app.last_tick,
{
}

/// A refresh that was due keeps the selection; one that was wanted selects the
/// first envelope. Both go on to the folders, whose selection they keep, and
/// neither changes the folder, the page, the message or the focus.
pub proof fn law_refresh(
    app: AppView,
    refresh: Refresh,
    envelopes: Seq<EnvelopeView>,
    folders: Seq<FolderView>,
    now: nat,
    later: nat,
)
    requires
        app.stage == StageView::RefreshingEnvelopes(refresh),
    ensures
        ({
            let half = app.step(EventView::Envelopes(Some(envelopes)), now).0;
            let done = half.step(EventView::Folders(Some(folders)), later).0;
            &&& half.stage == StageView::RefreshingFolders(refresh)
            &&& done == AppView {
                envelopes,
                folders,
                envelopes_state: if refresh == Refresh::Due {
                    app.envelopes_state
                } else {
                    app.envelopes_state.with(Some(0))
                },
                last_tick: if refresh == Refresh::Due {
                    later
                } else {
                    app.last_tick
                },
                stage: done.stage,
                ..app
            }
        }),
{
}

/// The refresh key starts a refresh of the current view, and changes nothing
/// before something has been fetched. A command of the mail program is followed by
/// a refresh of the same sort.
pub proof fn law_wanted_refresh(app: AppView, now: nat)
    requires
        !app.show_help,
    ensures
        app.step(EventView::Key(Key::Char('R')), now) == (
            AppView {
                stage: StageView::RefreshingEnvelopes(Refresh::Wanted),
                ..app
            },
            EffectView::Fetch(app.page_request()),
        ),
        app.step(EventView::Resumed, now) == app.step(
            EventView::Key(Key::Char('R')),
            now,
        ),
{
}

/// Opening a folder shows its first page, and no message, with the focus on its
/// envelopes, of which the first one is selected where they could be fetched.
pub proof fn law_open_folder(
    app: AppView,
    now: nat,
    envelopes: Option<Seq<EnvelopeView>>,
    later: nat,
)
    requires
        !app.show_help,
        app.focus == Focus::Folders,
        app.selected_folder() is Some,
    ensures
        ({
            let (asked, effect) = app.step(EventView::Key(Key::Enter), now);
            let opened = asked.step(EventView::Envelopes(envelopes), later).0;
            &&& effect == EffectView::Fetch(
                RequestView::Envelopes {
                    folder: app.selected_folder()->0.name,
                    page: 0,
                },
            )
            &&& opened.current_folder == app.selected_folder()->0.name
            &&& opened.current_page == 0
            &&& opened.current_message is None
            &&& opened.current_message_subject is None
            &&& opened.focus == Focus::Envelopes
            &&& match envelopes {
                Some(envelopes) => opened.envelopes == envelopes
                    && opened.envelopes_state.selected == Some(0usize),
                None => opened.envelopes == app.envelopes && opened.envelopes_state
                    == app.envelopes_state,
            }
        }),
{
}

/// Opening a message fetches the one of the selected envelope from the current
/// folder, and shows it from its start under the subject of that envelope.
pub proof fn law_open_message(
    app: AppView,
    id: usize,
    now: nat,
    message: Seq<char>,
    later: nat,
)
    requires
        !app.show_help,
        app.focus == Focus::Envelopes,
        app.selected_envelope() is Some,
        crate::text::usize_of(app.selected_envelope()->0.id) == Some(id),
    ensures
        ({
            let (asked, effect) = app.step(EventView::Key(Key::Enter), now);
            let opened = asked.step(EventView::Message(Some(message)), later).0;
            &&& effect == EffectView::Fetch(
                RequestView::Message { folder: app.current_folder, id: id as nat },
            )
            &&& opened == AppView {
                current_message: Some(message),
                current_message_subject: Some(app.selected_envelope()->0.subject),
                message_scroll: 0,
                focus: Focus::Message,
                stage: opened.stage,
                ..app
            }
        }),
{
}

/// A selection is never lost: where an item of a list is selected, one still is
/// after any event.
pub proof fn law_selection_stays(
    app: AppView,
    event: EventView,
    now: nat,
)
    ensures
        app.folders_state.selected is Some ==> app.step(
            event,
            now,
        ).0.folders_state.selected is Some,
        app.envelopes_state.selected is Some ==> app.step(
            event,
            now,
        ).0.envelopes_state.selected is Some,
{
}

/// The interface starts on the page that is fetched for it.
pub proof fn law_starts_on_initial_page(
    folders: Seq<FolderView>,
    envelopes: Seq<EnvelopeView>,
    now: nat,
)
    ensures
        AppView::initial(folders, envelopes, now).page_request() == (
        RequestView::Envelopes { folder: crate::mail::inbox(), page: 0 }),
{
}

/// How many events can still come before the screen is drawn again or the
/// interface stops.
pub open spec fn events_left(stage: StageView) -> nat {
    match stage {
        StageView::Stopped => 0,
        StageView::RefreshingFolders(Refresh::Due) => 1,
        StageView::RefreshingEnvelopes(Refresh::Due) => 2,
        StageView::TurningPage => 3,
        StageView::OpeningFolder => 3,
        StageView::OpeningMessage { .. } => 3,
        StageView::RefreshingFolders(Refresh::Wanted) => 3,
        StageView::RefreshingEnvelopes(Refresh::Wanted) => 4,
        StageView::Suspended => 5,
        StageView::Polling => 6,
        StageView::Drawing => 7,
    }
}

/// Every round comes to an end: with each event that the interface waits for, it
/// draws again, stops, or gets nearer to that.
pub proof fn law_rounds_end(app: AppView, event: EventView, now: nat)
    requires
        app.awaits(event),
        !(event is Start),
    ensures
        ({
            let (after, effect) = app.step(event, now);
            ||| effect == EffectView::Draw
            ||| effect == EffectView::Quit
            ||| events_left(after.stage) < events_left(app.stage)
        }),
{
}

/// On the screen, the border of the pane that has the focus stands out, and that
/// of the other panes does not.
pub proof fn law_focus_is_visible(
    app: AppView,
    areas: Areas,
    width: nat,
    version: Seq<char>,
)
    ensures
        ({
            let screen = crate::screen::screen_of(app, areas, width, version);
            let focused = crate::style::border_style(true);
            &&& screen.folders.border == focused <==> app.focus == Focus::Folders
            &&& screen.envelopes.border == focused <==> app.focus == Focus::Envelopes
            &&& screen.message.border == focused <==> app.focus == Focus::Message
        }),
{
}

/// The lists on the screen hold one line for each folder and each envelope, in
/// their order, and the name of a folder stands out exactly where it is that of
/// the current folder.
pub proof fn law_lists_are_complete(
    app: AppView,
    areas: Areas,
    width: nat,
    version: Seq<char>,
)
    ensures
        ({
            let screen = crate::screen::screen_of(app, areas, width, version);
            &&& screen.folders.items.len() == app.folders.len()
            &&& forall|i: int|
                0 <= i < app.folders.len() ==> {
                    let item = #[trigger] screen.folders.items[i];
                    &&& item.content == app.folders[i].name
                    &&& item.style.bold <==> app.folders[i].name == app.current_folder
                }
            &&& match screen.envelopes.list {
                EnvelopeListView::Empty(_) => app.envelopes.len() == 0,
                EnvelopeListView::Table(table) => {
                    &&& app.envelopes.len() > 0
                    &&& table.rows.len() == app.envelopes.len()
                    &&& forall|i: int|
                        0 <= i < app.envelopes.len() ==> #[trigger] table.rows[i]
                            == crate::screen::envelope_row(app.envelopes[i])
                    &&& table.header.len() == table.widths.len()
                    &&& forall|i: int|
                        0 <= i < table.rows.len() ==> (#[trigger] table.rows[i]).len()
                            == table.widths.len()
                },
            }
        }),
{
}

/// The help is on the screen exactly while it is to be shown.
pub proof fn law_help_is_visible(app: AppView, size: Rect, version: Seq<char>)
    ensures
        crate::screen::screen_of(
            app,
            crate::layout::areas_of(size, app.show_help),
            size.width as nat,
            version,
        ).help is Some <==> app.show_help,
{
}

/// The panes and the footer are painted first. The help, while it is to be shown, is
/// painted last, over the emptied middle of the screen. Else the footer is last.
pub proof fn law_help_is_on_top(app: AppView, size: Rect, version: Seq<char>)
    ensures
        ({
            let areas = crate::layout::areas_of(size, app.show_help);
            let screen = crate::screen::screen_of(app, areas, size.width as nat, version);
            let middle = crate::layout::center_of(60, 60, size);
            let layers = screen.layers;
            let below = seq![Layer::Folders, Layer::Envelopes, Layer::Message, Layer::Footer];
            &&& app.show_help ==> layers == below + seq![Layer::Clear(middle), Layer::Help]
            &&& app.show_help ==> (screen.help matches Some(help) && help.area == middle)
            &&& !app.show_help ==> layers == below && layers.last() == Layer::Footer
        }),
{
    crate::layout::law_help_is_centered(size);
    let middle = crate::layout::center_of(60, 60, size);
    let below = seq![Layer::Folders, Layer::Envelopes, Layer::Message, Layer::Footer];
    assert(below.push(Layer::Clear(middle)).push(Layer::Help) =~= below + seq![
        Layer::Clear(middle),
        Layer::Help,
    ]);
}

/// The selections are on the screen: that of the folders, and that of the envelopes
/// where there are any.
pub proof fn law_selection_is_visible(
    app: AppView,
    areas: Areas,
    width: nat,
    version: Seq<char>,
)
    ensures
        ({
            let screen = crate::screen::screen_of(app, areas, width, version);
            &&& screen.folders.state == app.folders_state
            &&& match screen.envelopes.list {
                EnvelopeListView::Empty(_) => app.envelopes.len() == 0,
                EnvelopeListView::Table(table) => table.state == app.envelopes_state,
            }
        }),
{
}

/// The footer fills the width of the screen where the version fits in beside the
/// keys, and ends with the version either way.
pub proof fn law_footer_fills_line(
    area: Rect,
    width: nat,
    version: Seq<char>,
)
    requires
        width >= crate::screen::HELP_TEXT@.len(),
    ensures
        ({
            let spans = crate::screen::footer_pane(area, width, version).spans;
            let text = spans[0].content + spans[1].content;
            let ending = " v"@ + version + " "@;
            &&& spans.len() == 2
            &&& crate::screen::HELP_TEXT@.len() + ending.len() <= width ==> text.len() == width
            &&& ending.is_suffix_of(text)
        }),
{
    let spans = crate::screen::footer_pane(area, width, version).spans;
    let text = spans[0].content + spans[1].content;
    let ending = " v"@ + version + " "@;
    assert(text.subrange(text.len() - ending.len(), text.len() as int) =~= ending);
}

/// Where several folders have the same name, the number of messages is that of
/// the first of them.
pub proof fn law_first_folder_counts(
    folders: Seq<FolderView>,
    name: Seq<char>,
    i: int,
)
    requires
        0 <= i < folders.len(),
        folders[i].name == name,
        forall|j: int| 0 <= j < i ==> (#[trigger] folders[j]).name != name,
    ensures
        crate::screen::total_messages(folders, name) == crate::text::usize_of(folders[i].desc),
    decreases i,
{
    if i > 0 {
        let rest = folders.skip(1);
        assert forall|j: int| 0 <= j < i - 1 implies (#[trigger] rest[j]).name != name by {
            assert(rest[j] == folders[j + 1]);
        }
        law_first_folder_counts(rest, name, i - 1);
    }
}

} // verus!
