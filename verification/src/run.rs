//! The order of the interface's work: what happened, and what is to be done
//! next.
use crate::action::Action;
use crate::app::{App, AppView, Focus, Key, Outcome, OutcomeView, Refresh, Stage, StageView};
use crate::mail::{Envelope, EnvelopeView, Folder, FolderView, Request, RequestView};
use vstd::prelude::*;

verus! {

/// Something that happened to the interface. What was to be fetched is missing
/// where fetching failed.
#[derive(Clone, Debug, PartialEq, Eq)]
pub enum Event {
    /// The interface is started, or started again.
    Start,
    /// The screen has been drawn.
    Drawn,
    /// The time to wait for a key is over, or something else than a key came.
    Idle,
    /// A key was pressed.
    Key(Key),
    /// A page of envelopes was fetched.
    Envelopes(Option<Vec<Envelope>>),
    /// The folders were fetched.
    Folders(Option<Vec<Folder>>),
    /// A message was fetched.
    Message(Option<String>),
    /// The command of the mail program has ended.
    Resumed,
}

/// The content of an [`Event`].
#[verifier::ext_equal]
pub enum EventView {
    Start,
    Drawn,
    Idle,
    Key(Key),
    Envelopes(Option<Seq<EnvelopeView>>),
    Folders(Option<Seq<FolderView>>),
    Message(Option<Seq<char>>),
    Resumed,
}

/// The texts of envelopes that may be missing.
pub open spec fn fetched_envelopes(envelopes: Option<Vec<Envelope>>) -> Option<
    Seq<EnvelopeView>,
> {
    match envelopes {
        Some(envelopes) => Some(crate::mail::envelope_views(envelopes@)),
        None => None,
    }
}

/// The texts of folders that may be missing.
pub open spec fn fetched_folders(folders: Option<Vec<Folder>>) -> Option<
    Seq<FolderView>,
> {
    match folders {
        Some(folders) => Some(crate::mail::folder_views(folders@)),
        None => None,
    }
}

impl View for Event {
    type V = EventView;

    open spec fn view(&self) -> EventView {
        match self {
            Event::Start => EventView::Start,
            Event::Drawn => EventView::Drawn,
            Event::Idle => EventView::Idle,
            Event::Key(key) => EventView::Key(*key),
            Event::Envelopes(envelopes) => EventView::Envelopes(fetched_envelopes(*envelopes)),
            Event::Folders(folders) => EventView::Folders(fetched_folders(*folders)),
            Event::Message(message) => EventView::Message(crate::mail::text_view(*message)),
            Event::Resumed => EventView::Resumed,
        }
    }
}

/// What is to be done next.
#[derive(Clone, Debug, PartialEq, Eq)]
pub enum Effect {
    /// Draw the screen.
    Draw,
    /// Wait for a key, for at most the given time in nanoseconds.
    Poll(u128),
    /// Fetch something from the account.
    Fetch(Request),
    /// Leave the screen to a command of the mail program.
    Suspend(Vec<String>),
    /// Stop.
    Quit,
}

/// The content of an [`Effect`].
#[verifier::ext_equal]
pub enum EffectView {
    Draw,
    Poll(nat),
    Fetch(RequestView),
    Suspend(Seq<Seq<char>>),
    Quit,
}

impl View for Effect {
    type V = EffectView;

    open spec fn view(&self) -> EffectView {
        match self {
            Effect::Draw => EffectView::Draw,
            Effect::Poll(timeout) => EffectView::Poll(*timeout as nat),
            Effect::Fetch(request) => EffectView::Fetch(request@),
            Effect::Suspend(args) => EffectView::Suspend(crate::text::texts(args@)),
            Effect::Quit => EffectView::Quit,
        }
    }
}

/// Whether an event is what carrying out an effect leads to.
pub open spec fn answers(effect: EffectView, event: EventView) -> bool {
    match effect {
        EffectView::Draw => event is Drawn,
        EffectView::Poll(_) => event is Idle || event is Key,
        EffectView::Fetch(request) => match request {
            RequestView::Envelopes { .. } => event is Envelopes,
            RequestView::Folders => event is Folders,
            RequestView::Message { .. } => event is Message,
        },
        EffectView::Suspend(_) => event is Resumed,
        EffectView::Quit => false,
    }
}

impl AppView {
    /// Whether the interface waits for an event of this sort. It can be started
    /// at any time.
    pub open spec fn awaits(self, event: EventView) -> bool {
        event is Start || match self.stage {
            StageView::Stopped => false,
            StageView::Drawing => event is Drawn,
            StageView::Polling => event is Idle || event is Key,
            StageView::TurningPage => event is Envelopes,
            StageView::OpeningFolder => event is Envelopes,
            StageView::OpeningMessage { .. } => event is Message,
            StageView::Suspended => event is Resumed,
            StageView::RefreshingEnvelopes(_) => event is Envelopes,
            StageView::RefreshingFolders(_) => event is Folders,
        }
    }

    /// The time since the last refresh that was due.
    pub open spec fn elapsed(self, now: nat) -> nat {
        if now >= self.last_tick {
            (now - self.last_tick) as nat
        } else {
            0
        }
    }

    /// Whether the next refresh is due.
    pub open spec fn is_due(self, now: nat) -> bool {
        self.elapsed(now) >= self.tick_rate
    }

    /// The time until the next refresh is due.
    pub open spec fn timeout(self, now: nat) -> nat {
        if self.is_due(now) {
            0
        } else {
            (self.tick_rate - self.elapsed(now)) as nat
        }
    }

    /// The envelopes that were fetched are shown, with the first one selected
    /// where that is wanted. Nothing changes where fetching failed.
    pub open spec fn with_envelopes(
        self,
        envelopes: Option<Seq<EnvelopeView>>,
        select_first: bool,
    ) -> AppView {
        match envelopes {
            Some(envelopes) => AppView {
                envelopes,
                envelopes_state: if select_first {
                    self.envelopes_state.with(Some(0))
                } else {
                    self.envelopes_state
                },
                ..self
            },
            None => self,
        }
    }

    /// The folders that were fetched are shown. Nothing changes where fetching
    /// failed.
    pub open spec fn with_folders(
        self,
        folders: Option<Seq<FolderView>>,
    ) -> AppView {
        match folders {
            Some(folders) => AppView { folders, ..self },
            None => self,
        }
    }

    /// The message that was fetched is shown from its start. Nothing changes
    /// where fetching failed.
    pub open spec fn with_message(
        self,
        message: Option<Seq<char>>,
        subject: Seq<char>,
    ) -> AppView {
        match message {
            Some(message) => AppView {
                current_message: Some(message),
                current_message_subject: Some(subject),
                message_scroll: 0,
                focus: Focus::Message,
                ..self
            },
            None => self,
        }
    }

    /// Waits for what an effect leads to.
    pub open spec fn wait(
        self,
        stage: StageView,
        effect: EffectView,
    ) -> (AppView, EffectView) {
        (AppView { stage, ..self }, effect)
    }

    /// A round is over: the next one begins with drawing, unless the interface
    /// is to stop.
    pub open spec fn end_round(self) -> (AppView, EffectView) {
        if self.should_quit {
            self.wait(StageView::Stopped, EffectView::Quit)
        } else {
            self.wait(StageView::Drawing, EffectView::Draw)
        }
    }

    /// The work on a key, if there was one, is over: the refresh comes next where
    /// it is due.
    pub open spec fn end_input(self, now: nat) -> (AppView, EffectView) {
        if self.is_due(now) {
            self.wait(
                StageView::RefreshingEnvelopes(Refresh::Due),
                EffectView::Fetch(self.page_request()),
            )
        } else {
            self.end_round()
        }
    }

    /// What happens on a key.
    pub open spec fn on_key(self, key: Key, now: nat) -> (AppView, EffectView) {
        let (pressed, outcome) = self.press(key);
        match outcome {
            OutcomeView::Done(action) => if action is Nothing {
                pressed.end_input(now)
            } else {
                pressed.wait(
                    StageView::Suspended,
                    EffectView::Suspend(action.command_line()),
                )
            },
            OutcomeView::Fetch(request, stage) => pressed.wait(
                stage,
                EffectView::Fetch(request),
            ),
        }
    }

    /// What happens when envelopes were to be fetched. Outside of a refresh, the
    /// work on a key was waiting for them.
    pub open spec fn on_envelopes(
        self,
        envelopes: Option<Seq<EnvelopeView>>,
        now: nat,
    ) -> (AppView, EffectView) {
        match self.stage {
            StageView::RefreshingEnvelopes(refresh) => self.with_envelopes(
                envelopes,
                refresh == Refresh::Wanted,
            ).wait(
                StageView::RefreshingFolders(refresh),
                EffectView::Fetch(RequestView::Folders),
            ),
            StageView::OpeningFolder => (AppView {
                focus: Focus::Envelopes,
                ..self.with_envelopes(envelopes, true)
            }).end_input(now),
            _ => self.with_envelopes(envelopes, true).end_input(now),
        }
    }

    /// What happens when the folders were to be fetched, which ends a refresh.
    pub open spec fn on_folders(
        self,
        folders: Option<Seq<FolderView>>,
        now: nat,
    ) -> (AppView, EffectView) {
        match self.stage {
            StageView::RefreshingFolders(Refresh::Due) => (AppView {
                last_tick: now,
                ..self.with_folders(folders)
            }).end_round(),
            _ => self.with_folders(folders).end_input(now),
        }
    }

    /// What happens when a message was to be fetched. One that was not waited for
    /// is dropped.
    pub open spec fn on_message(
        self,
        message: Option<Seq<char>>,
        now: nat,
    ) -> (AppView, EffectView) {
        match self.stage {
            StageView::OpeningMessage { subject } => self.with_message(
                message,
                subject,
            ).end_input(now),
            _ => self.end_input(now),
        }
    }

    /// What happens on an event.
    pub open spec fn step(self, event: EventView, now: nat) -> (AppView, EffectView) {
        match event {
            EventView::Start => self.wait(StageView::Drawing, EffectView::Draw),
            EventView::Drawn => self.wait(
                StageView::Polling,
                EffectView::Poll(self.timeout(now)),
            ),
            EventView::Idle => self.end_input(now),
            EventView::Key(key) => self.on_key(key, now),
            EventView::Envelopes(envelopes) => self.on_envelopes(envelopes, now),
            EventView::Folders(folders) => self.on_folders(folders, now),
            EventView::Message(message) => self.on_message(message, now),
            EventView::Resumed => self.wait(
                StageView::RefreshingEnvelopes(Refresh::Wanted),
                EffectView::Fetch(self.page_request()),
            ),
        }
    }
}

impl App {
    /// The time since the last refresh that was due.
    pub fn elapsed(&self, now: u128) -> (elapsed: u128)
        ensures
            elapsed == self@.elapsed(now as nat),
    {
        now.saturating_sub(self.last_tick)
    }

    /// The time until the next refresh is due.
    pub fn timeout(&self, now: u128) -> (timeout: u128)
        ensures
            timeout == self@.timeout(now as nat),
    {
        match self.tick_rate.checked_sub(self.elapsed(now)) {
            Some(rest) => rest,
            None => 0,
        }
    }

    /// Takes over envelopes that were fetched.
    fn receive_envelopes(&mut self, envelopes: Option<Vec<Envelope>>, select_first: bool)
        ensures
            final(self)@ == old(self)@.with_envelopes(fetched_envelopes(envelopes), select_first),
    {
        if let Some(envelopes) = envelopes {
            self.envelopes = envelopes;
            if select_first {
                self.envelopes_state.select(Some(0));
            }
        }
    }

    /// Takes over folders that were fetched.
    fn receive_folders(&mut self, folders: Option<Vec<Folder>>)
        ensures
            final(self)@ == old(self)@.with_folders(fetched_folders(folders)),
    {
        if let Some(folders) = folders {
            self.folders = folders;
        }
    }

    /// Takes over a message that was fetched.
    fn receive_message(&mut self, message: Option<String>, subject: String)
        ensures
            final(self)@ == old(self)@.with_message(crate::mail::text_view(message), subject@),
    {
        if let Some(message) = message {
            self.current_message = Some(message);
            self.current_message_subject = Some(subject);
            self.message_scroll = 0;
            self.focus = Focus::Message;
        }
    }

    /// Ends a round.
    fn end_round(&mut self) -> (effect: Effect)
        ensures
            (final(self)@, effect@) == old(self)@.end_round(),
    {
        if self.should_quit {
            self.stage = Stage::Stopped;
            Effect::Quit
        } else {
            self.stage = Stage::Drawing;
            Effect::Draw
        }
    }

    /// Ends the work on a key, if there was one.
    fn end_input(&mut self, now: u128) -> (effect: Effect)
        ensures
            (final(self)@, effect@) == old(self)@.end_input(now as nat),
    {
        if self.elapsed(now) >= self.tick_rate {
            self.stage = Stage::RefreshingEnvelopes(Refresh::Due);
            Effect::Fetch(self.page_request())
        } else {
            self.end_round()
        }
    }

    /// Does what a key stands for.
    fn receive_key(&mut self, key: Key, now: u128) -> (effect: Effect)
        requires
            !old(self).show_help && key == Key::Char('n') ==> old(self).current_page < usize::MAX,
        ensures
            (final(self)@, effect@) == old(self)@.on_key(key, now as nat),
    {
        match self.handle_input(key) {
            Outcome::Done(Action::Nothing) => self.end_input(now),
            Outcome::Done(action) => {
                self.stage = Stage::Suspended;
                Effect::Suspend(action.command_line())
            },
            Outcome::Fetch(request, stage) => {
                self.stage = stage;
                Effect::Fetch(request)
            },
        }
    }

    /// Goes on when envelopes were to be fetched.
    fn finish_envelopes(&mut self, envelopes: Option<Vec<Envelope>>, now: u128) -> (effect: Effect)
        ensures
            (final(self)@, effect@) == old(self)@.on_envelopes(
                fetched_envelopes(envelopes),
                now as nat,
            ),
    {
        match self.stage {
            Stage::RefreshingEnvelopes(refresh) => {
                self.receive_envelopes(envelopes, refresh == Refresh::Wanted);
                self.stage = Stage::RefreshingFolders(refresh);
                Effect::Fetch(Request::Folders)
            },
            Stage::OpeningFolder => {
                self.receive_envelopes(envelopes, true);
                self.focus = Focus::Envelopes;
                self.end_input(now)
            },
            _ => {
                self.receive_envelopes(envelopes, true);
                self.end_input(now)
            },
        }
    }

    /// Goes on when the folders were to be fetched.
    fn finish_folders(&mut self, folders: Option<Vec<Folder>>, now: u128) -> (effect: Effect)
        ensures
            (final(self)@, effect@) == old(self)@.on_folders(fetched_folders(folders), now as nat),
    {
        self.receive_folders(folders);
        match self.stage {
            Stage::RefreshingFolders(Refresh::Due) => {
                self.last_tick = now;
                self.end_round()
            },
            _ => self.end_input(now),
        }
    }

    /// Goes on when a message was to be fetched.
    fn finish_message(&mut self, message: Option<String>, now: u128) -> (effect: Effect)
        ensures
            (final(self)@, effect@) == old(self)@.on_message(
                crate::mail::text_view(message),
                now as nat,
            ),
    {
        let mut stage = Stage::Stopped;
        std::mem::swap(&mut stage, &mut self.stage);
        if let Stage::OpeningMessage { subject } = stage {
            self.receive_message(message, subject);
        }
        self.end_input(now)
    }

    /// Goes on with the work of the interface: from what happened, at the given
    /// time, to what is to be done next.
    pub fn run(&mut self, event: Event, now: u128) -> (effect: Effect)
        requires
            event matches Event::Key(key) ==> (!old(self).show_help && key == Key::Char('n')
                ==> old(self).current_page < usize::MAX),
        ensures
            (final(self)@, effect@) == old(self)@.step(event@, now as nat),
    {
        match event {
            Event::Start => {
                self.stage = Stage::Drawing;
                Effect::Draw
            },
            Event::Drawn => {
                self.stage = Stage::Polling;
                Effect::Poll(self.timeout(now))
            },
            Event::Idle => self.end_input(now),
            Event::Key(key) => self.receive_key(key, now),
            Event::Envelopes(envelopes) => self.finish_envelopes(envelopes, now),
            Event::Folders(folders) => self.finish_folders(folders, now),
            Event::Message(message) => self.finish_message(message, now),
            Event::Resumed => {
                self.stage = Stage::RefreshingEnvelopes(Refresh::Wanted);
                Effect::Fetch(self.page_request())
            },
        }
    }
}

} // verus!
