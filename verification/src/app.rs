//! The state of the interface and what each key does to it.
use crate::action::{Action, ActionView};
use crate::mail::{Envelope, EnvelopeView, Folder, FolderView, Request, RequestView};
use crate::text::parse_usize;
use vstd::prelude::*;

verus! {

/// The pane that has the focus.
#[derive(Copy, Clone, Debug, PartialEq, Eq, Structural)]
pub enum Focus {
    Folders,
    Envelopes,
    Message,
}

/// A key, as far as the interface tells keys apart.
#[derive(Copy, Clone, Debug, PartialEq, Eq, Structural)]
pub enum Key {
    Char(char),
    Tab,
    Down,
    Up,
    Enter,
    Other,
}

/// Which item of a list is selected, and the first item that is on the screen.
#[derive(Copy, Clone, Debug, PartialEq, Eq)]
pub struct Selection {
    pub offset: usize,
    pub selected: Option<usize>,
}

impl Selection {
    /// The selection with another item selected. Without one, the list is shown
    /// from its start again.
    pub open spec fn with(self, index: Option<usize>) -> Selection {
        Selection {
            offset: if index is Some {
                self.offset
            } else {
                0
            },
            selected: index,
        }
    }

    /// Nothing is selected and the list is shown from its start.
    pub fn new() -> (selection: Selection)
        ensures
            selection == (Selection { offset: 0, selected: None }),
    {
        Selection { offset: 0, selected: None }
    }

    /// Selects an item, or none.
    pub fn select(&mut self, index: Option<usize>)
        ensures
            *final(self) == old(self).with(index),
    {
        self.selected = index;
        if index.is_none() {
            self.offset = 0;
        }
    }
}

/// The item below the selected one; the first item below the last one, and where
/// nothing is selected.
pub open spec fn index_below(selected: Option<usize>, len: nat) -> usize {
    match selected {
        Some(i) => if i + 1 < len {
            (i + 1) as usize
        } else {
            0
        },
        None => 0,
    }
}

/// The item above the selected one; the last item above the first one, and the
/// first one where nothing is selected or nothing is there.
pub open spec fn index_above(selected: Option<usize>, len: nat) -> usize {
    match selected {
        Some(i) => if i > 0 {
            (i - 1) as usize
        } else if len > 0 {
            (len - 1) as usize
        } else {
            0
        },
        None => 0,
    }
}

/// Finds the item below the selected one of `len`.
pub fn below(selected: Option<usize>, len: usize) -> (i: usize)
    ensures
        i == index_below(selected, len as nat),
{
    match selected {
        Some(i) => if i >= len.saturating_sub(1) {
            0
        } else {
            i + 1
        },
        None => 0,
    }
}

/// Finds the item above the selected one of `len`.
pub fn above(selected: Option<usize>, len: usize) -> (i: usize)
    ensures
        i == index_above(selected, len as nat),
{
    match selected {
        Some(i) => if i == 0 {
            len.saturating_sub(1)
        } else {
            i - 1
        },
        None => 0,
    }
}

/// Why the envelopes and folders are fetched again.
#[derive(Copy, Clone, Debug, PartialEq, Eq, Structural)]
pub enum Refresh {
    /// A key asked for it, or a command of the mail program has ended.
    Wanted,
    /// The time for it has come.
    Due,
}

/// What the interface is waiting for.
#[derive(Clone, Debug, PartialEq, Eq)]
pub enum Stage {
    /// To be started.
    Stopped,
    /// The end of drawing.
    Drawing,
    /// A key, or the end of the time to wait for one.
    Polling,
    /// The envelopes of the page that was turned to.
    TurningPage,
    /// The envelopes of the folder that was opened.
    OpeningFolder,
    /// The text of the message of the given subject.
    OpeningMessage { subject: String },
    /// The end of a command of the mail program.
    Suspended,
    /// The envelopes, and then the folders, of a refresh.
    RefreshingEnvelopes(Refresh),
    /// The folders of a refresh.
    RefreshingFolders(Refresh),
}

/// The content of a [`Stage`].
#[verifier::ext_equal]
pub enum StageView {
    Stopped,
    Drawing,
    Polling,
    TurningPage,
    OpeningFolder,
    OpeningMessage { subject: Seq<char> },
    Suspended,
    RefreshingEnvelopes(Refresh),
    RefreshingFolders(Refresh),
}

impl View for Stage {
    type V = StageView;

    open spec fn view(&self) -> StageView {
        match self {
            Stage::Stopped => StageView::Stopped,
            Stage::Drawing => StageView::Drawing,
            Stage::Polling => StageView::Polling,
            Stage::TurningPage => StageView::TurningPage,
            Stage::OpeningFolder => StageView::OpeningFolder,
            Stage::OpeningMessage { subject } => StageView::OpeningMessage { subject: subject@ },
            Stage::Suspended => StageView::Suspended,
            Stage::RefreshingEnvelopes(refresh) => StageView::RefreshingEnvelopes(*refresh),
            Stage::RefreshingFolders(refresh) => StageView::RefreshingFolders(*refresh),
        }
    }
}

/// How the work on a key goes on.
#[derive(Clone, Debug, PartialEq, Eq)]
pub enum Outcome {
    /// It is done, up to the action.
    Done(Action),
    /// It waits for something that has to be fetched.
    Fetch(Request, Stage),
}

/// The content of an [`Outcome`].
#[verifier::ext_equal]
pub enum OutcomeView {
    Done(ActionView),
    Fetch(RequestView, StageView),
}

impl View for Outcome {
    type V = OutcomeView;

    open spec fn view(&self) -> OutcomeView {
        match self {
            Outcome::Done(action) => OutcomeView::Done(action@),
            Outcome::Fetch(request, stage) => OutcomeView::Fetch(request@, stage@),
        }
    }
}

/// The state of the interface. Times are nanoseconds on a clock that never goes
/// back.
#[derive(Clone, Debug, PartialEq, Eq)]
pub struct App {
    /// One page of the current folder.
    pub envelopes: Vec<Envelope>,
    pub envelopes_state: Selection,
    pub folders: Vec<Folder>,
    pub folders_state: Selection,
    pub current_folder: String,
    /// The page of the current folder, counted from zero.
    pub current_page: usize,
    /// The message that is being read.
    pub current_message: Option<String>,
    pub current_message_subject: Option<String>,
    /// The first line of the message that is on the screen.
    pub message_scroll: u16,
    pub focus: Focus,
    pub show_help: bool,
    /// When everything was last refreshed because it was due.
    pub last_tick: u128,
    /// The time from one refresh that is due to the next.
    pub tick_rate: u128,
    pub should_quit: bool,
    pub stage: Stage,
}

/// The content of an [`App`].
#[verifier::ext_equal]
pub struct AppView {
    pub envelopes: Seq<EnvelopeView>,
    pub envelopes_state: Selection,
    pub folders: Seq<FolderView>,
    pub folders_state: Selection,
    pub current_folder: Seq<char>,
    pub current_page: nat,
    pub current_message: Option<Seq<char>>,
    pub current_message_subject: Option<Seq<char>>,
    pub message_scroll: u16,
    pub focus: Focus,
    pub show_help: bool,
    pub last_tick: nat,
    pub tick_rate: nat,
    pub should_quit: bool,
    pub stage: StageView,
}

impl View for App {
    type V = AppView;

    open spec fn view(&self) -> AppView {
        AppView {
            envelopes: crate::mail::envelope_views(self.envelopes@),
            envelopes_state: self.envelopes_state,
            folders: crate::mail::folder_views(self.folders@),
            folders_state: self.folders_state,
            current_folder: self.current_folder@,
            current_page: self.current_page as nat,
            current_message: crate::mail::text_view(self.current_message),
            current_message_subject: crate::mail::text_view(self.current_message_subject),
            message_scroll: self.message_scroll,
            focus: self.focus,
            show_help: self.show_help,
            last_tick: self.last_tick as nat,
            tick_rate: self.tick_rate as nat,
            should_quit: self.should_quit,
            stage: self.stage@,
        }
    }
}

/// One minute.
pub const TICK_RATE: u128 = 60_000_000_000;

/// The focus that follows when the panes are cycled through.
pub open spec fn next_focus(focus: Focus) -> Focus {
    match focus {
        Focus::Folders => Focus::Envelopes,
        Focus::Envelopes => Focus::Message,
        Focus::Message => Focus::Folders,
    }
}

impl AppView {
    /// The interface at its start: the inbox is open at its first page, the first
    /// folder is selected, and so is the first envelope where there is one.
    pub open spec fn initial(
        folders: Seq<FolderView>,
        envelopes: Seq<EnvelopeView>,
        now: nat,
    ) -> AppView {
        AppView {
            envelopes,
            envelopes_state: Selection {
                offset: 0,
                selected: if envelopes.len() > 0 {
                    Some(0)
                } else {
                    None
                },
            },
            folders,
            folders_state: Selection { offset: 0, selected: Some(0) },
            current_folder: crate::mail::inbox(),
            current_page: 0,
            current_message: None,
            current_message_subject: None,
            message_scroll: 0,
            focus: Focus::Envelopes,
            show_help: false,
            last_tick: now,
            tick_rate: TICK_RATE as nat,
            should_quit: false,
            stage: StageView::Stopped,
        }
    }

    /// The request for the envelopes on the current page of the current folder.
    pub open spec fn page_request(self) -> RequestView {
        RequestView::Envelopes {
            folder: self.current_folder,
            page: self.current_page,
        }
    }

    /// The selected envelope, where the selection points at one.
    pub open spec fn selected_envelope(self) -> Option<EnvelopeView> {
        match self.envelopes_state.selected {
            Some(i) => if i < self.envelopes.len() {
                Some(self.envelopes[i as int])
            } else {
                None
            },
            None => None,
        }
    }

    /// The selected folder, where the selection points at one.
    pub open spec fn selected_folder(self) -> Option<FolderView> {
        match self.folders_state.selected {
            Some(i) => if i < self.folders.len() {
                Some(self.folders[i as int])
            } else {
                None
            },
            None => None,
        }
    }

    /// One step down in the pane that has the focus.
    pub open spec fn down(self) -> AppView {
        match self.focus {
            Focus::Folders => AppView {
                folders_state: self.folders_state.with(
                    Some(index_below(self.folders_state.selected, self.folders.len())),
                ),
                ..self
            },
            Focus::Envelopes => AppView {
                envelopes_state: self.envelopes_state.with(
                    Some(index_below(self.envelopes_state.selected, self.envelopes.len())),
                ),
                ..self
            },
            Focus::Message => AppView {
                message_scroll: if self.message_scroll < u16::MAX {
                    (self.message_scroll + 1) as u16
                } else {
                    u16::MAX
                },
                ..self
            },
        }
    }

    /// One step up in the pane that has the focus.
    pub open spec fn up(self) -> AppView {
        match self.focus {
            Focus::Folders => AppView {
                folders_state: self.folders_state.with(
                    Some(index_above(self.folders_state.selected, self.folders.len())),
                ),
                ..self
            },
            Focus::Envelopes => AppView {
                envelopes_state: self.envelopes_state.with(
                    Some(index_above(self.envelopes_state.selected, self.envelopes.len())),
                ),
                ..self
            },
            Focus::Message => AppView {
                message_scroll: if self.message_scroll > 0 {
                    (self.message_scroll - 1) as u16
                } else {
                    0
                },
                ..self
            },
        }
    }

    /// Another folder is current: its first page is to be shown, and no message
    /// is being read.
    pub open spec fn in_folder(self, name: Seq<char>) -> AppView {
        AppView {
            current_folder: name,
            current_page: 0,
            current_message: None,
            current_message_subject: None,
            ..self
        }
    }

    /// What the enter key does: it opens the selected folder, or the message of
    /// the selected envelope where its identifier is a number.
    pub open spec fn enter(self) -> (AppView, OutcomeView) {
        let nothing = (self, OutcomeView::Done(ActionView::Nothing));
        match self.focus {
            Focus::Folders => match self.selected_folder() {
                Some(folder) => {
                    let opened = self.in_folder(folder.name);
                    (opened, OutcomeView::Fetch(opened.page_request(), StageView::OpeningFolder))
                },
                None => nothing,
            },
            Focus::Envelopes => match self.selected_envelope() {
                Some(envelope) => match crate::text::usize_of(envelope.id) {
                    Some(id) => (
                        self,
                        OutcomeView::Fetch(
                            RequestView::Message {
                                folder: self.current_folder,
                                id: id as nat,
                            },
                            StageView::OpeningMessage { subject: envelope.subject },
                        ),
                    ),
                    None => nothing,
                },
                None => nothing,
            },
            Focus::Message => nothing,
        }
    }

    /// What a key does.
    pub open spec fn press(self, key: Key) -> (AppView, OutcomeView) {
        let nothing = OutcomeView::Done(ActionView::Nothing);
        if self.show_help {
            (AppView { show_help: false, ..self }, nothing)
        } else {
            match key {
                Key::Char(c) => if c == 'q' {
                    (AppView { should_quit: true, ..self }, nothing)
                } else if c == '?' {
                    (AppView { show_help: true, ..self }, nothing)
                } else if c == 'R' {
                    (
                        self,
                        OutcomeView::Fetch(
                            self.page_request(),
                            StageView::RefreshingEnvelopes(Refresh::Wanted),
                        ),
                    )
                } else if c == 'n' {
                    let turned = AppView { current_page: self.current_page + 1, ..self };
                    (turned, OutcomeView::Fetch(turned.page_request(), StageView::TurningPage))
                } else if c == 'p' {
                    if self.current_page > 0 {
                        let turned = AppView {
                            current_page: (self.current_page - 1) as nat,
                            ..self
                        };
                        (turned, OutcomeView::Fetch(turned.page_request(), StageView::TurningPage))
                    } else {
                        (self, nothing)
                    }
                } else if c == 'c' {
                    (self, OutcomeView::Done(ActionView::Write))
                } else if c == 'r' {
                    (
                        self,
                        match self.selected_envelope() {
                            Some(e) => OutcomeView::Done(ActionView::Reply(e.id)),
                            None => nothing,
                        },
                    )
                } else if c == 'f' {
                    (
                        self,
                        match self.selected_envelope() {
                            Some(e) => OutcomeView::Done(ActionView::Forward(e.id)),
                            None => nothing,
                        },
                    )
                } else if c == 'd' {
                    (
                        self,
                        match self.selected_envelope() {
                            Some(e) => OutcomeView::Done(
                                ActionView::Download(e.id),
                            ),
                            None => nothing,
                        },
                    )
                } else if c == '1' {
                    (AppView { focus: Focus::Folders, ..self }, nothing)
                } else if c == '2' {
                    (AppView { focus: Focus::Envelopes, ..self }, nothing)
                } else if c == '3' {
                    (AppView { focus: Focus::Message, ..self }, nothing)
                } else if c == 'j' {
                    (self.down(), nothing)
                } else if c == 'k' {
                    (self.up(), nothing)
                } else {
                    (self, nothing)
                },
                Key::Tab => (AppView { focus: next_focus(self.focus), ..self }, nothing),
                Key::Down => (self.down(), nothing),
                Key::Up => (self.up(), nothing),
                Key::Enter => self.enter(),
                Key::Other => (self, nothing),
            }
        }
    }
}

impl App {
    /// The interface to an account whose folders, and the envelopes on the first
    /// page of whose inbox, have been fetched.
    pub fn new(folders: Vec<Folder>, envelopes: Vec<Envelope>, now: u128) -> (app: App)
        ensures
            app@ == AppView::initial(
                crate::mail::folder_views(folders@),
                crate::mail::envelope_views(envelopes@),
                now as nat,
            ),
    {
        let mut folders_state = Selection::new();
        folders_state.select(Some(0));

        let mut envelopes_state = Selection::new();
        if envelopes.len() > 0 {
            envelopes_state.select(Some(0));
        }
        App {
            envelopes,
            envelopes_state,
            folders,
            folders_state,
            current_folder: "INBOX".to_string(),
            current_page: 0,
            current_message: None,
            current_message_subject: None,
            message_scroll: 0,
            focus: Focus::Envelopes,
            show_help: false,
            last_tick: now,
            tick_rate: TICK_RATE,
            should_quit: false,
            stage: Stage::Stopped,
        }
    }

    /// The request for the envelopes on the current page of the current folder.
    pub fn page_request(&self) -> (request: Request)
        ensures
            request@ == self@.page_request(),
    {
        Request::Envelopes { folder: self.current_folder.clone(), page: self.current_page }
    }

    /// The place of the selected envelope, where the selection points at one.
    fn selected_index(&self) -> (index: Option<usize>)
        ensures
            match index {
                Some(i) => i < self.envelopes@.len() && self@.selected_envelope() == Some(
                    self.envelopes@[i as int]@,
                ),
                None => self@.selected_envelope() is None,
            },
    {
        match self.envelopes_state.selected {
            Some(i) => if i < self.envelopes.len() {
                Some(i)
            } else {
                None
            },
            None => None,
        }
    }

    /// Moves one step down in the pane that has the focus.
    fn move_down(&mut self)
        ensures
            final(self)@ == old(self)@.down(),
    {
        match self.focus {
            Focus::Folders => {
                let i: usize = below(self.folders_state.selected, self.folders.len());
                self.folders_state.select(Some(i));
            },
            Focus::Envelopes => {
                let i: usize = below(self.envelopes_state.selected, self.envelopes.len());
                self.envelopes_state.select(Some(i));
            },
            Focus::Message => {
                self.message_scroll = self.message_scroll.saturating_add(1);
            },
        }
    }

    /// Moves one step up in the pane that has the focus.
    fn move_up(&mut self)
        ensures
            final(self)@ == old(self)@.up(),
    {
        match self.focus {
            Focus::Folders => {
                let i: usize = above(self.folders_state.selected, self.folders.len());
                self.folders_state.select(Some(i));
            },
            Focus::Envelopes => {
                let i: usize = above(self.envelopes_state.selected, self.envelopes.len());
                self.envelopes_state.select(Some(i));
            },
            Focus::Message => {
                self.message_scroll = self.message_scroll.saturating_sub(1);
            },
        }
    }

    /// Opens the selected folder or message.
    fn open_selected(&mut self) -> (outcome: Outcome)
        ensures
            (final(self)@, outcome@) == old(self)@.enter(),
    {
        match self.focus {
            Focus::Folders => match self.folders_state.selected {
                Some(i) => if i < self.folders.len() {
                    self.current_folder = self.folders[i].name.clone();
                    self.current_page = 0;
                    self.current_message = None;
                    self.current_message_subject = None;
                    Outcome::Fetch(self.page_request(), Stage::OpeningFolder)
                } else {
                    Outcome::Done(Action::Nothing)
                },
                None => Outcome::Done(Action::Nothing),
            },
            Focus::Envelopes => match self.selected_index() {
                Some(i) => match parse_usize(self.envelopes[i].id.as_str()) {
                    Some(id) => Outcome::Fetch(
                        Request::Message { folder: self.current_folder.clone(), id },
                        Stage::OpeningMessage { subject: self.envelopes[i].subject.clone() },
                    ),
                    None => Outcome::Done(Action::Nothing),
                },
                None => Outcome::Done(Action::Nothing),
            },
            Focus::Message => Outcome::Done(Action::Nothing),
        }
    }

    /// Does what a key stands for, as far as nothing has to be fetched for it.
    pub fn handle_input(&mut self, key: Key) -> (outcome: Outcome)
        requires
            !old(self).show_help && key == Key::Char('n') ==> old(self).current_page < usize::MAX,
        ensures
            (final(self)@, outcome@) == old(self)@.press(key),
    {
        if self.show_help {
            self.show_help = false;
            return Outcome::Done(Action::Nothing);
        }
        match key {
            Key::Char('q') => {
                self.should_quit = true;
            },
            Key::Char('?') => {
                self.show_help = true;
            },
            Key::Char('R') => {
                return Outcome::Fetch(
                    self.page_request(),
                    Stage::RefreshingEnvelopes(Refresh::Wanted),
                );
            },
            Key::Char('n') => {
                self.current_page = self.current_page + 1;
                return Outcome::Fetch(self.page_request(), Stage::TurningPage);
            },
            Key::Char('p') => {
                if self.current_page > 0 {
                    self.current_page = self.current_page - 1;
                    return Outcome::Fetch(self.page_request(), Stage::TurningPage);
                }
            },
            Key::Char('c') => {
                return Outcome::Done(Action::Write);
            },
            Key::Char('r') => {
                if let Some(i) = self.selected_index() {
                    return Outcome::Done(Action::Reply(self.envelopes[i].id.clone()));
                }
            },
            Key::Char('f') => {
                if let Some(i) = self.selected_index() {
                    return Outcome::Done(Action::Forward(self.envelopes[i].id.clone()));
                }
            },
            Key::Char('d') => {
                if let Some(i) = self.selected_index() {
                    return Outcome::Done(Action::Download(self.envelopes[i].id.clone()));
                }
            },
            Key::Tab => {
                self.focus = match self.focus {
                    Focus::Folders => Focus::Envelopes,
                    Focus::Envelopes => Focus::Message,
                    Focus::Message => Focus::Folders,
                };
            },
            Key::Char('1') => {
                self.focus = Focus::Folders;
            },
            Key::Char('2') => {
                self.focus = Focus::Envelopes;
            },
            Key::Char('3') => {
                self.focus = Focus::Message;
            },
            Key::Down | Key::Char('j') => {
                self.move_down();
            },
            Key::Up | Key::Char('k') => {
                self.move_up();
            },
            Key::Enter => {
                return self.open_selected();
            },
            _ => {},
        }
        Outcome::Done(Action::Nothing)
    }
}

} // verus!
