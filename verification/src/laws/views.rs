//! What the views of values hold: all of their content.
use crate::action::{Action, ActionView};
use crate::app::{App, Outcome, OutcomeView, Stage, StageView};
use crate::mail::{Envelope, Folder, Request, RequestView};
use crate::run::{Effect, EffectView, Event, EventView};
use crate::screen::{EnvelopeList, EnvelopeListView, EnvelopeTable, Screen};
use crate::style::{Span, Title};
use vstd::prelude::*;

verus! {

/// The views of a folder, an envelope, a text that may be missing, and a list of texts
/// hold their texts.
pub proof fn law_text_views(
    folder: Folder,
    envelope: Envelope,
    text: Option<String>,
    parts: Seq<String>,
)
    ensures
        folder@.name == folder.name@,
        folder@.desc == folder.desc@,
        envelope@.id == envelope.id@,
        envelope@.subject == envelope.subject@,
        envelope@.from == envelope.from@,
        envelope@.date == envelope.date@,
        text matches Some(t) ==> crate::mail::text_view(text) == Some(t@),
        text is None ==> crate::mail::text_view(text) is None,
        crate::text::texts(parts).len() == parts.len(),
        forall|i: int|
            0 <= i < parts.len() ==> #[trigger] crate::text::texts(parts)[i] == parts[i]@,
{
}

/// The views of lists of folders and envelopes hold one item for each, in their order.
pub proof fn law_list_views(folders: Seq<Folder>, envelopes: Seq<Envelope>)
    ensures
        crate::mail::folder_views(folders).len() == folders.len(),
        forall|i: int|
            0 <= i < folders.len() ==> #[trigger] crate::mail::folder_views(folders)[i]
                == folders[i]@,
        crate::mail::envelope_views(envelopes).len() == envelopes.len(),
        forall|i: int|
            0 <= i < envelopes.len() ==> #[trigger] crate::mail::envelope_views(envelopes)[i]
                == envelopes[i]@,
{
}

/// The view of the interface holds all of its state.
pub proof fn law_app_view(app: App)
    ensures
        app@.envelopes.len() == app.envelopes@.len(),
        forall|i: int|
            0 <= i < app.envelopes@.len() ==> #[trigger] app@.envelopes[i]
                == app.envelopes@[i]@,
        app@.folders.len() == app.folders@.len(),
        forall|i: int|
            0 <= i < app.folders@.len() ==> #[trigger] app@.folders[i] == app.folders@[i]@,
        app@.envelopes_state == app.envelopes_state,
        app@.folders_state == app.folders_state,
        app@.current_folder == app.current_folder@,
        app@.current_page == app.current_page,
        match app.current_message {
            Some(message) => app@.current_message == Some(message@),
            None => app@.current_message is None,
        },
        match app.current_message_subject {
            Some(subject) => app@.current_message_subject == Some(subject@),
            None => app@.current_message_subject is None,
        },
        app@.message_scroll == app.message_scroll,
        app@.focus == app.focus,
        app@.show_help == app.show_help,
        app@.last_tick == app.last_tick,
        app@.tick_rate == app.tick_rate,
        app@.should_quit == app.should_quit,
        app@.stage == app.stage@,
{
}

/// The views of what is asked for and waited for hold all of it.
pub proof fn law_work_views(action: Action, request: Request, stage: Stage, outcome: Outcome)
    ensures
        match action {
            Action::Nothing => action@ == ActionView::Nothing,
            Action::Write => action@ == ActionView::Write,
            Action::Reply(id) => action@ == ActionView::Reply(id@),
            Action::Forward(id) => action@ == ActionView::Forward(id@),
            Action::Download(id) => action@ == ActionView::Download(id@),
        },
        match request {
            Request::Envelopes { folder, page } => request@ == (RequestView::Envelopes {
                folder: folder@,
                page: page as nat,
            }),
            Request::Folders => request@ == RequestView::Folders,
            Request::Message { folder, id } => request@ == (RequestView::Message {
                folder: folder@,
                id: id as nat,
            }),
        },
        match stage {
            Stage::Stopped => stage@ == StageView::Stopped,
            Stage::Drawing => stage@ == StageView::Drawing,
            Stage::Polling => stage@ == StageView::Polling,
            Stage::TurningPage => stage@ == StageView::TurningPage,
            Stage::OpeningFolder => stage@ == StageView::OpeningFolder,
            Stage::OpeningMessage { subject } => stage@ == (StageView::OpeningMessage {
                subject: subject@,
            }),
            Stage::Suspended => stage@ == StageView::Suspended,
            Stage::RefreshingEnvelopes(refresh) => stage@ == StageView::RefreshingEnvelopes(
                refresh,
            ),
            Stage::RefreshingFolders(refresh) => stage@ == StageView::RefreshingFolders(refresh),
        },
        match outcome {
            Outcome::Done(action) => outcome@ == OutcomeView::Done(action@),
            Outcome::Fetch(request, stage) => outcome@ == OutcomeView::Fetch(request@, stage@),
        },
{
}

/// The views of events and effects hold all of their content.
pub proof fn law_event_views(event: Event, effect: Effect)
    ensures
        match event {
            Event::Start => event@ == EventView::Start,
            Event::Drawn => event@ == EventView::Drawn,
            Event::Idle => event@ == EventView::Idle,
            Event::Key(key) => event@ == EventView::Key(key),
            Event::Envelopes(Some(envelopes)) => event@ == EventView::Envelopes(
                Some(envelopes@.map_values(|e: Envelope| e@)),
            ),
            Event::Envelopes(None) => event@ == EventView::Envelopes(None),
            Event::Folders(Some(folders)) => event@ == EventView::Folders(
                Some(folders@.map_values(|f: Folder| f@)),
            ),
            Event::Folders(None) => event@ == EventView::Folders(None),
            Event::Message(Some(message)) => event@ == EventView::Message(Some(message@)),
            Event::Message(None) => event@ == EventView::Message(None),
            Event::Resumed => event@ == EventView::Resumed,
        },
        match effect {
            Effect::Draw => effect@ == EffectView::Draw,
            Effect::Poll(timeout) => effect@ == EffectView::Poll(timeout as nat),
            Effect::Fetch(request) => effect@ == EffectView::Fetch(request@),
            Effect::Suspend(args) => effect@ == EffectView::Suspend(
                args@.map_values(|s: String| s@),
            ),
            Effect::Quit => effect@ == EffectView::Quit,
        },
{
}

/// The views of styled texts hold the texts and their styles.
pub proof fn law_span_views(
    span: Span,
    title: Title,
    spans: Seq<Span>,
    lines: Seq<Vec<Span>>,
    content: Seq<char>,
    style: crate::style::Style,
)
    ensures
        span@.content == span.content@,
        span@.style == span.style,
        title@.text == title.text@,
        title@.edge == title.edge,
        title@.alignment == title.alignment,
        crate::style::SpanView::of(content, style).content == content,
        crate::style::SpanView::of(content, style).style == style,
        crate::style::span_views(spans).len() == spans.len(),
        forall|i: int|
            0 <= i < spans.len() ==> #[trigger] crate::style::span_views(spans)[i] == spans[i]@,
        crate::style::line_views(lines).len() == lines.len(),
        forall|i: int|
            0 <= i < lines.len() ==> #[trigger] crate::style::line_views(lines)[i]
                == lines[i]@.map_values(|s: Span| s@),
{
}

/// The view of a table of envelopes holds all of it.
pub proof fn law_table_view(table: EnvelopeTable)
    ensures
        table@.header == table.header@.map_values(|s: Span| s@),
        table@.header_style == table.header_style,
        table@.header_height == table.header_height,
        table@.rows == table.rows@.map_values(
            |row: Vec<Span>| row@.map_values(|s: Span| s@),
        ),
        table@.widths == table.widths@,
        table@.highlight == table.highlight,
        table@.highlight_symbol == table.highlight_symbol@,
        table@.state == table.state,
{
    assert(table@.rows =~~= table.rows@.map_values(
        |row: Vec<Span>| row@.map_values(|s: Span| s@),
    ));
}

/// The view of a screen holds all of it.
pub proof fn law_screen_view(screen: Screen)
    ensures
        ({
            let (pane, view) = (screen.folders, screen@.folders);
            &&& view.area == pane.area
            &&& view.title == pane.title@.map_values(|s: Span| s@)
            &&& view.border == pane.border
            &&& view.sides == pane.sides
            &&& view.items == pane.items@.map_values(|s: Span| s@)
            &&& view.highlight == pane.highlight
            &&& view.state == pane.state
        }),
        ({
            let (pane, view) = (screen.envelopes, screen@.envelopes);
            &&& view.area == pane.area
            &&& view.title == pane.title@.map_values(|s: Span| s@)
            &&& view.branding == pane.branding@
            &&& view.count == pane.count@
            &&& view.border == pane.border
            &&& view.sides == pane.sides
            &&& match pane.list {
                EnvelopeList::Empty(note) => view.list == EnvelopeListView::Empty(note@),
                EnvelopeList::Table(table) => view.list == EnvelopeListView::Table(table@),
            }
        }),
        ({
            let (pane, view) = (screen.message, screen@.message);
            &&& view.area == pane.area
            &&& view.title == pane.title@.map_values(|s: Span| s@)
            &&& view.border == pane.border
            &&& view.sides == pane.sides
            &&& view.text == pane.text@
            &&& view.trim == pane.trim
            &&& view.scroll == pane.scroll
            &&& view.column == pane.column
        }),
        ({
            let (pane, view) = (screen.footer, screen@.footer);
            &&& view.area == pane.area
            &&& view.spans == pane.spans@.map_values(|s: Span| s@)
            &&& view.style == pane.style
        }),
        match screen.help {
            Some(pane) => {
                &&& screen@.help matches Some(view)
                &&& view.area == pane.area
                &&& view.title == pane.title@
                &&& view.border == pane.border
                &&& view.sides == pane.sides
                &&& view.lines == pane.lines@.map_values(|s: Span| s@)
                &&& view.alignment == pane.alignment
                &&& view.trim == pane.trim
            },
            None => screen@.help is None,
        },
        screen@.layers == screen.layers@,
{
}

} // verus!
