//! One path surfaced in the list.

use vstd::prelude::*;

verus! {

/// A filesystem path shown in the list, held as its text.
///
/// An entry is fixed once it is made. Its view is the sequence of its
/// characters, which is also the label the list shows for it.
#[derive(Debug, PartialEq, Eq)]
pub struct Entry {
    path: String,
}

impl View for Entry {
    type V = Seq<char>;

    closed spec fn view(&self) -> Seq<char> {
        self.path@
    }
}

/// The texts of a sequence of entries, in order.
pub open spec fn paths_of(entries: Seq<Entry>) -> Seq<Seq<char>> {
    entries.map_values(|entry: Entry| entry@)
}

impl Entry {
    /// The entry for the path with the given text.
    pub fn new(path: String) -> (entry: Entry)
        ensures
            entry@ == path@,
    {
        Entry { path }
    }

    /// The text of the path.
    pub fn path(&self) -> (path: &str)
        ensures
            path@ == self@,
    {
        self.path.as_str()
    }

    /// The label the list shows for the entry: the text of its path.
    pub fn label(&self) -> (label: String)
        ensures
            label@ == self@,
    {
        self.path.clone()
    }
}

} // verus!
