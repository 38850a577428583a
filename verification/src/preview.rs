//! What the preview pane shows.

use vstd::prelude::*;

verus! {

/// Shown when nothing is selected.
pub const NOTHING_SELECTED: &'static str = "No file selected.";

/// Shown in place of the contents of a directory.
pub const DIRECTORY_NOTICE: &'static str = "This is a directory.";

/// Shown when the selected file could not be read as text.
pub const READ_ERROR_NOTICE: &'static str = "Error reading file.";

/// What is known of the selected entry when a frame is drawn.
#[derive(Debug, PartialEq, Eq)]
pub enum Preview {
    /// There is nothing to look at.
    Nothing,
    /// The entry is a directory.
    Directory,
    /// The entry is a file with these contents.
    Contents(String),
    /// The entry is a file that could not be read.
    Unreadable,
}

/// The model of a [`Preview`].
pub enum PreviewView {
    Nothing,
    Directory,
    Contents(Seq<char>),
    Unreadable,
}

impl View for Preview {
    type V = PreviewView;

    open spec fn view(&self) -> PreviewView {
        match self {
            Preview::Nothing => PreviewView::Nothing,
            Preview::Directory => PreviewView::Directory,
            Preview::Contents(text) => PreviewView::Contents(text@),
            Preview::Unreadable => PreviewView::Unreadable,
        }
    }
}

impl PreviewView {
    /// The text of the pane: the contents of a readable file as they are,
    /// and a fixed notice in every other case.
    pub open spec fn text(self) -> Seq<char> {
        match self {
            PreviewView::Nothing => NOTHING_SELECTED@,
            PreviewView::Directory => DIRECTORY_NOTICE@,
            PreviewView::Contents(text) => text,
            PreviewView::Unreadable => READ_ERROR_NOTICE@,
        }
    }
}

impl Preview {
    /// The text of the pane.
    pub fn into_text(self) -> (text: String)
        ensures
            text@ == self@.text(),
    {
        match self {
            Preview::Nothing => NOTHING_SELECTED.to_owned(),
            Preview::Directory => DIRECTORY_NOTICE.to_owned(),
            Preview::Contents(text) => text,
            Preview::Unreadable => READ_ERROR_NOTICE.to_owned(),
        }
    }
}

} // verus!
