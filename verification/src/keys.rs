//! Keyboard input and what the session makes of it.

use vstd::prelude::*;

verus! {

/// The character that ends the session.
pub const QUIT_KEY: char = 'q';

/// A key press, reduced to what the session tells apart.
#[derive(Clone, Copy, Debug, PartialEq, Eq)]
pub enum Key {
    /// A character key.
    Char(char),
    /// The up arrow.
    Up,
    /// The down arrow.
    Down,
    /// Any other key.
    Other,
}

/// What one bounded wait for input brought.
#[derive(Clone, Copy, Debug, PartialEq, Eq)]
pub enum Input {
    /// The wait ran out with nothing to read.
    Timeout,
    /// A key was pressed.
    Key(Key),
    /// Something that is not a key press arrived (a resize, the mouse).
    Other,
}

/// The meaning of an input for the session.
#[derive(Clone, Copy, Debug, PartialEq, Eq)]
pub enum Action {
    /// End the session.
    Quit,
    /// Select the entry after the current one.
    Down,
    /// Select the entry before the current one.
    Up,
    /// Leave everything as it is.
    Nothing,
}

impl Key {
    /// The action bound to a key: the quit key quits, the two arrows
    /// navigate, every other key does nothing.
    pub open spec fn action(self) -> Action {
        match self {
            Key::Char(c) => if c == QUIT_KEY {
                Action::Quit
            } else {
                Action::Nothing
            },
            Key::Down => Action::Down,
            Key::Up => Action::Up,
            Key::Other => Action::Nothing,
        }
    }

    /// Computes [`Key::action`].
    pub fn to_action(self) -> (action: Action)
        ensures
            action == self.action(),
    {
        match self {
            Key::Char(c) => if c == QUIT_KEY {
                Action::Quit
            } else {
                Action::Nothing
            },
            Key::Down => Action::Down,
            Key::Up => Action::Up,
            Key::Other => Action::Nothing,
        }
    }
}

impl Input {
    /// The action an input stands for. Only key presses act; a timeout and
    /// any other terminal event leave the session alone.
    pub open spec fn action(self) -> Action {
        match self {
            Input::Key(key) => key.action(),
            Input::Timeout => Action::Nothing,
            Input::Other => Action::Nothing,
        }
    }

    /// Computes [`Input::action`].
    pub fn to_action(self) -> (action: Action)
        ensures
            action == self.action(),
    {
        match self {
            Input::Key(key) => key.to_action(),
            Input::Timeout => Action::Nothing,
            Input::Other => Action::Nothing,
        }
    }
}

} // verus!
