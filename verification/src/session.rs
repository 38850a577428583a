//! The interactive session: its state, the effect of input on it, and the
//! protocol by which it drives the event loop.
//!
//! The loop itself lives with the caller, because only the caller can
//! draw, wait for a key or look at a file. The session tells it what to do
//! next as a [`Command`]; the caller does it and reports the outcome as an
//! [`Event`]. One round of the loop asks to classify the selected path,
//! to read it if it is a file, to draw, and to wait for input; then the
//! next round begins, until the quit key is pressed.

use vstd::prelude::*;
use crate::entry::{paths_of, Entry};
use crate::frame::{Frame, FrameView};
use crate::keys::{Action, Input, Key, QUIT_KEY};
use crate::preview::{Preview, PreviewView, NOTHING_SELECTED};
use crate::selection::{index_model, Selection, SelectionView};

verus! {

/// How long one wait for input may last, in milliseconds.
pub const POLL_TIMEOUT_MS: u64 = 250;

/// Whether the session still runs.
#[derive(Clone, Copy, Debug, PartialEq, Eq)]
pub enum Phase {
    /// The loop goes on.
    Running,
    /// The quit key was pressed. Nothing leads out of this phase.
    Terminating,
}

/// What the caller reports back to the session.
#[derive(Debug, PartialEq, Eq)]
pub enum Event {
    /// The loop begins.
    Started,
    /// The path handed out by [`Command::Classify`] is a directory, or not.
    Classified(bool),
    /// The contents of the file handed out by [`Command::Read`], or `None`
    /// if it could not be read as text.
    Read(Option<String>),
    /// The frame handed out by [`Command::Draw`] is on the screen.
    Drawn,
    /// The wait asked for by [`Command::Poll`] is over.
    Polled(Input),
}

/// What the session asks the caller to do next.
#[derive(Debug, PartialEq, Eq)]
pub enum Command {
    /// Find out whether this path is a directory.
    Classify(String),
    /// Read the file at this path as text.
    Read(String),
    /// Draw this frame.
    Draw(Frame),
    /// Wait for input for at most this many milliseconds.
    Poll(u64),
    /// Leave the loop.
    Exit,
}

/// The model of an [`Event`].
pub enum EventView {
    Started,
    Classified(bool),
    Read(Option<Seq<char>>),
    Drawn,
    Polled(Input),
}

/// The model of a [`Command`].
pub enum CommandView {
    Classify(Seq<char>),
    Read(Seq<char>),
    Draw(FrameView),
    Poll(u64),
    Exit,
}

impl View for Event {
    type V = EventView;

    open spec fn view(&self) -> EventView {
        match self {
            Event::Started => EventView::Started,
            Event::Classified(directory) => EventView::Classified(*directory),
            Event::Read(Some(text)) => EventView::Read(Some(text@)),
            Event::Read(None) => EventView::Read(None),
            Event::Drawn => EventView::Drawn,
            Event::Polled(input) => EventView::Polled(*input),
        }
    }
}

impl View for Command {
    type V = CommandView;

    open spec fn view(&self) -> CommandView {
        match self {
            Command::Classify(path) => CommandView::Classify(path@),
            Command::Read(path) => CommandView::Read(path@),
            Command::Draw(frame) => CommandView::Draw(frame@),
            Command::Poll(timeout) => CommandView::Poll(*timeout),
            Command::Exit => CommandView::Exit,
        }
    }
}

/// What a file turned out to hold, as the preview to show for it.
pub open spec fn preview_of_read(contents: Option<Seq<char>>) -> PreviewView {
    match contents {
        Some(text) => PreviewView::Contents(text),
        None => PreviewView::Unreadable,
    }
}

/// The model of a [`Session`]: the texts of the entries, the index of the
/// selected one, and the phase.
pub struct SessionView {
    pub entries: Seq<Seq<char>>,
    pub selected: Option<nat>,
    pub phase: Phase,
}

impl SessionView {
    /// The selection, seen over the list it ranges over.
    pub open spec fn selection(self) -> SelectionView {
        SelectionView { index: self.selected, count: self.entries.len() }
    }

    /// The selection points at an entry, and is absent exactly when there
    /// is no entry.
    pub open spec fn valid(self) -> bool {
        self.selection().valid()
    }

    /// The state a session begins in: running, with the first entry
    /// selected if there is one.
    pub open spec fn start(entries: Seq<Seq<char>>) -> SessionView {
        SessionView {
            entries,
            selected: SelectionView::start(entries.len()).index,
            phase: Phase::Running,
        }
    }

    /// The state after one input. The quit key ends the session, the arrows
    /// move the selection without leaving the list, and nothing else has
    /// an effect. A session that is terminating stays as it is.
    pub open spec fn handle(self, input: Input) -> SessionView {
        match self.phase {
            Phase::Terminating => self,
            Phase::Running => match input.action() {
                Action::Quit => SessionView { phase: Phase::Terminating, ..self },
                Action::Down => SessionView { selected: self.selection().down().index, ..self },
                Action::Up => SessionView { selected: self.selection().up().index, ..self },
                Action::Nothing => self,
            },
        }
    }

    /// The state after a sequence of inputs, handled in order.
    pub open spec fn after(self, inputs: Seq<Input>) -> SessionView
        decreases inputs.len(),
    {
        if inputs.len() == 0 {
            self
        } else {
            self.after(inputs.drop_last()).handle(inputs.last())
        }
    }

    /// The frame for this state, given what is known of the selected
    /// entry. Without a selection the preview says so, whatever is known.
    pub open spec fn frame(self, preview: PreviewView) -> FrameView {
        FrameView {
            labels: self.entries,
            highlighted: self.selected,
            preview: if self.selected is Some {
                preview.text()
            } else {
                PreviewView::Nothing.text()
            },
        }
    }

    /// What the preview of a round shows, when the selected path is a
    /// directory or not and the file there holds `contents`.
    pub open spec fn shown(self, directory: bool, contents: Option<Seq<char>>) -> PreviewView {
        if self.selected is None {
            PreviewView::Nothing
        } else if directory {
            PreviewView::Directory
        } else {
            preview_of_read(contents)
        }
    }

    /// The command that opens a render step: look at the selected entry,
    /// or draw at once if there is none.
    pub open spec fn render(self) -> CommandView {
        match self.selected {
            Some(i) => CommandView::Classify(self.entries[i as int]),
            None => CommandView::Draw(self.frame(PreviewView::Nothing)),
        }
    }

    /// The next state and the next command, for every state and event.
    pub open spec fn step(self, event: EventView) -> (SessionView, CommandView) {
        match self.phase {
            Phase::Terminating => (self, CommandView::Exit),
            Phase::Running => match event {
                EventView::Started => (self, self.render()),
                EventView::Classified(directory) => match self.selected {
                    Some(i) => if directory {
                        (self, CommandView::Draw(self.frame(PreviewView::Directory)))
                    } else {
                        (self, CommandView::Read(self.entries[i as int]))
                    },
                    None => (self, CommandView::Draw(self.frame(PreviewView::Nothing))),
                },
                EventView::Read(contents) => (
                    self,
                    CommandView::Draw(self.frame(preview_of_read(contents))),
                ),
                EventView::Drawn => (self, CommandView::Poll(POLL_TIMEOUT_MS)),
                EventView::Polled(input) => {
                    let next = self.handle(input);
                    match next.phase {
                        Phase::Terminating => (next, CommandView::Exit),
                        Phase::Running => (next, next.render()),
                    }
                },
            },
        }
    }

    /// An input never touches the entries, and leaves a valid state valid.
    pub proof fn lemma_handle_keeps_valid(self, input: Input)
        requires
            self.valid(),
        ensures
            self.handle(input).valid(),
            self.handle(input).entries == self.entries,
    {
    }

    /// Over a list that is not empty, the selection stays on an entry of
    /// the list through every sequence of inputs: it stops at either end
    /// and never wraps around.
    pub proof fn lemma_selection_stays_in_range(self, inputs: Seq<Input>)
        requires
            self.valid(),
            self.entries.len() > 0,
        ensures
            self.after(inputs).entries == self.entries,
            self.after(inputs).selected matches Some(i) && 0 <= i <= self.entries.len() - 1,
        decreases inputs.len(),
    {
        if inputs.len() > 0 {
            self.lemma_selection_stays_in_range(inputs.drop_last());
            self.after(inputs.drop_last()).lemma_handle_keeps_valid(inputs.last());
        }
    }

    /// Over an empty list nothing is ever selected, whatever the inputs,
    /// and the preview of every frame says that nothing is selected.
    pub proof fn lemma_empty_list_selects_nothing(self, inputs: Seq<Input>, preview: PreviewView)
        requires
            self.valid(),
            self.entries.len() == 0,
        ensures
            self.after(inputs).entries == self.entries,
            self.after(inputs).selected is None,
            self.after(inputs).frame(preview).preview == NOTHING_SELECTED@,
        decreases inputs.len(),
    {
        if inputs.len() > 0 {
            self.lemma_empty_list_selects_nothing(inputs.drop_last(), preview);
        }
    }

    /// One round of a running session. With nothing selected the frame is
    /// drawn at once. Otherwise the session asks whether the selected path
    /// is a directory, reads it if it is not, and then draws: the notice
    /// for a directory, the contents of a file, or the error notice for a
    /// file that could not be read. Once the frame is drawn the session
    /// waits for input, for the fixed time and no longer.
    pub proof fn lemma_round_draws_then_polls(self, directory: bool, contents: Option<Seq<char>>)
        requires
            self.valid(),
            self.phase is Running,
        ensures
            ({
                let draw = CommandView::Draw(self.frame(self.shown(directory, contents)));
                let opening = self.step(EventView::Started).1;
                let classified = self.step(EventView::Classified(directory)).1;
                match self.selected {
                    None => opening == draw,
                    Some(i) => {
                        &&& opening == CommandView::Classify(self.entries[i as int])
                        &&& directory ==> classified == draw
                        &&& !directory ==> classified == CommandView::Read(self.entries[i as int])
                        &&& !directory ==> self.step(EventView::Read(contents)).1 == draw
                    },
                }
            }),
            self.step(EventView::Drawn) == (self, CommandView::Poll(POLL_TIMEOUT_MS)),
    {
    }

    /// Rendering is repeatable. No step of a render round changes the
    /// state, and neither does a wait that brings no key; after such a
    /// wait the next round opens as the first one did. The frame is a
    /// function of the state and of what the filesystem reports, so the
    /// second round draws what the first one drew.
    pub proof fn lemma_render_is_repeatable(self, event: EventView)
        requires
            event matches EventView::Polled(input) ==> input is Timeout || input is Other,
        ensures
            self.step(event).0 == self,
            self.step(EventView::Polled(Input::Timeout)).1 == self.step(EventView::Started).1,
    {
    }

    /// The quit key ends the session from every state, within the round
    /// in which it is read: the session is terminating, the command is to
    /// leave the loop, and so is the answer to every later event. Entries
    /// and selection stay as they were.
    pub proof fn lemma_quit_leaves_the_loop(self, later: EventView)
        ensures
            ({
                let (next, command) = self.step(EventView::Polled(Input::Key(Key::Char(QUIT_KEY))));
                &&& next.phase is Terminating
                &&& command is Exit
                &&& next.entries == self.entries
                &&& next.selected == self.selected
                &&& next.step(later) == (next, CommandView::Exit)
            }),
    {
    }

    /// A running session ends on the quit key and on nothing else.
    pub proof fn lemma_only_quit_terminates(self, event: EventView)
        requires
            self.phase is Running,
        ensures
            self.step(event).0.phase is Terminating <==> event == EventView::Polled(
                Input::Key(Key::Char(QUIT_KEY)),
            ),
    {
    }

    /// Each step keeps a valid state valid, and only says to leave the
    /// loop once the session is terminating.
    pub proof fn lemma_step_keeps_valid(self, event: EventView)
        requires
            self.valid(),
        ensures
            self.step(event).0.valid(),
            self.step(event).0.entries == self.entries,
            self.step(event).1 is Exit <==> self.step(event).0.phase is Terminating,
    {
    }
}

/// The state of one interactive session over a fixed list of entries.
#[derive(Debug)]
pub struct Session {
    entries: Vec<Entry>,
    cursor: Selection,
    phase: Phase,
}

impl View for Session {
    type V = SessionView;

    closed spec fn view(&self) -> SessionView {
        SessionView {
            entries: paths_of(self.entries@),
            selected: self.cursor@.index,
            phase: self.phase,
        }
    }
}

impl Session {
    #[verifier::type_invariant]
    closed spec fn well_formed(&self) -> bool {
        &&& self.cursor@.count == self.entries@.len()
        &&& self.cursor@.valid()
    }

    /// A running session over the given entries, with the first one
    /// selected if there is any.
    pub fn new(entries: Vec<Entry>) -> (session: Session)
        ensures
            session@ == SessionView::start(paths_of(entries@)),
            session@.valid(),
    {
        let cursor = Selection::new(entries.len());
        Session { entries, cursor, phase: Phase::Running }
    }

    /// The phase of the session.
    pub fn phase(&self) -> (phase: Phase)
        ensures
            phase == self@.phase,
    {
        self.phase
    }

    /// Whether the loop goes on.
    pub fn is_running(&self) -> (running: bool)
        ensures
            running == (self@.phase is Running),
    {
        match self.phase {
            Phase::Running => true,
            Phase::Terminating => false,
        }
    }

    /// The entries, in list order.
    pub fn entries(&self) -> (entries: &Vec<Entry>)
        ensures
            paths_of(entries@) == self@.entries,
    {
        &self.entries
    }

    /// The index of the selected entry.
    pub fn selected(&self) -> (index: Option<usize>)
        ensures
            index_model(index) == self@.selected,
            self@.valid(),
    {
        proof {
            use_type_invariant(self);
        }
        self.cursor.index()
    }

    /// The selected entry.
    pub fn selected_entry(&self) -> (entry: Option<&Entry>)
        ensures
            match entry {
                Some(e) => self@.selected matches Some(i) && e@ == self@.entries[i as int],
                None => self@.selected is None,
            },
            self@.valid(),
    {
        proof {
            use_type_invariant(self);
        }
        match self.cursor.index() {
            Some(i) => Some(&self.entries[i]),
            None => None,
        }
    }

    /// Applies one input to the session.
    pub fn handle(&mut self, input: Input)
        ensures
            final(self)@ == old(self)@.handle(input),
            final(self)@.valid(),
    {
        proof {
            use_type_invariant(&*self);
        }
        match self.phase {
            Phase::Terminating => {},
            Phase::Running => match input.to_action() {
                Action::Quit => {
                    self.phase = Phase::Terminating;
                },
                Action::Down => {
                    self.cursor.down();
                },
                Action::Up => {
                    self.cursor.up();
                },
                Action::Nothing => {},
            },
        }
    }

    /// The label of every entry, in list order.
    pub fn labels(&self) -> (labels: Vec<String>)
        ensures
            labels.deep_view() == self@.entries,
    {
        let mut labels: Vec<String> = Vec::new();
        let mut i: usize = 0;
        while i < self.entries.len()
            invariant
                i <= self.entries@.len(),
                labels@.len() == i,
                forall|j: int| 0 <= j < i ==> labels@[j]@ == self.entries@[j]@,
            decreases self.entries@.len() - i,
        {
            labels.push(self.entries[i].label());
            i += 1;
        }
        assert(labels.deep_view() =~= paths_of(self.entries@));
        labels
    }

    /// The frame to draw, given what is known of the selected entry.
    /// Drawing leaves the session as it is.
    pub fn frame(&self, preview: Preview) -> (frame: Frame)
        ensures
            frame@ == self@.frame(preview@),
    {
        let highlighted = self.cursor.index();
        let text = match highlighted {
            Some(_) => preview.into_text(),
            None => Preview::Nothing.into_text(),
        };
        Frame { labels: self.labels(), highlighted, preview: text }
    }

    /// The command that opens a render step.
    pub fn render(&self) -> (command: Command)
        ensures
            command@ == self@.render(),
    {
        proof {
            use_type_invariant(self);
        }
        match self.cursor.index() {
            Some(i) => Command::Classify(self.entries[i].label()),
            None => Command::Draw(self.frame(Preview::Nothing)),
        }
    }

    /// Takes in what the caller reports and says what to do next.
    pub fn step(&mut self, event: Event) -> (command: Command)
        ensures
            (final(self)@, command@) == old(self)@.step(event@),
            final(self)@.valid(),
    {
        proof {
            use_type_invariant(&*self);
        }
        match self.phase {
            Phase::Terminating => Command::Exit,
            Phase::Running => match event {
                Event::Started => self.render(),
                Event::Classified(directory) => match self.cursor.index() {
                    Some(i) => if directory {
                        Command::Draw(self.frame(Preview::Directory))
                    } else {
                        Command::Read(self.entries[i].label())
                    },
                    None => Command::Draw(self.frame(Preview::Nothing)),
                },
                Event::Read(contents) => {
                    let preview = match contents {
                        Some(text) => Preview::Contents(text),
                        None => Preview::Unreadable,
                    };
                    Command::Draw(self.frame(preview))
                },
                Event::Drawn => Command::Poll(POLL_TIMEOUT_MS),
                Event::Polled(input) => {
                    self.handle(input);
                    match self.phase {
                        Phase::Terminating => Command::Exit,
                        Phase::Running => self.render(),
                    }
                },
            },
        }
    }
}

} // verus!
