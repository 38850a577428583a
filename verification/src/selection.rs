//! The selection: which entry of the list is highlighted.

use vstd::prelude::*;

verus! {

/// The model of a selection over a list of `count` entries: the index of
/// the highlighted entry, or none.
pub struct SelectionView {
    pub index: Option<nat>,
    pub count: nat,
}

impl SelectionView {
    /// A selection points into its list, and is absent exactly when the
    /// list is empty.
    pub open spec fn valid(self) -> bool {
        match self.index {
            Some(i) => i < self.count,
            None => self.count == 0,
        }
    }

    /// The selection a session starts with: the first entry, if there is one.
    pub open spec fn start(count: nat) -> SelectionView {
        SelectionView { index: if count > 0 { Some(0nat) } else { None }, count }
    }

    /// One step towards the end of the list; the last entry stays selected.
    pub open spec fn down(self) -> SelectionView {
        match self.index {
            Some(i) => if i + 1 < self.count {
                SelectionView { index: Some((i + 1) as nat), count: self.count }
            } else {
                self
            },
            None => self,
        }
    }

    /// One step towards the start of the list; the first entry stays selected.
    pub open spec fn up(self) -> SelectionView {
        match self.index {
            Some(i) => if i > 0 {
                SelectionView { index: Some((i - 1) as nat), count: self.count }
            } else {
                self
            },
            None => self,
        }
    }

    /// Both moves keep a valid selection valid and on the same list. On a
    /// list with entries, down leads to the smaller of the next index and
    /// the last one, and up to the larger of the previous index and the
    /// first one: a move changes the index by one or not at all, and never
    /// jumps from one end to the other.
    pub proof fn lemma_moves_are_clamped(self)
        requires
            self.valid(),
        ensures
            self.down().valid(),
            self.up().valid(),
            self.down().count == self.count,
            self.up().count == self.count,
            self.index matches Some(i) ==> {
                &&& self.down().index == Some(
                    if i + 1 <= self.count - 1 {
                        (i + 1) as nat
                    } else {
                        (self.count - 1) as nat
                    },
                )
                &&& self.up().index == Some(
                    if i - 1 >= 0 {
                        (i - 1) as nat
                    } else {
                        0nat
                    },
                )
            },
            self.index is None ==> self.down() == self && self.up() == self,
    {
    }
}

/// The index of an executable selection as the model holds it.
pub open spec fn index_model(index: Option<usize>) -> Option<nat> {
    match index {
        Some(i) => Some(i as nat),
        None => None,
    }
}

/// The selection of a list whose length is fixed when the selection is made.
#[derive(Clone, Copy, Debug, PartialEq, Eq)]
pub struct Selection {
    index: Option<usize>,
    count: usize,
}

impl View for Selection {
    type V = SelectionView;

    closed spec fn view(&self) -> SelectionView {
        SelectionView { index: index_model(self.index), count: self.count as nat }
    }
}

impl Selection {
    #[verifier::type_invariant]
    closed spec fn well_formed(&self) -> bool {
        self@.valid()
    }

    /// The starting selection for a list of `count` entries.
    pub fn new(count: usize) -> (selection: Selection)
        ensures
            selection@ == SelectionView::start(count as nat),
    {
        Selection { index: if count > 0 { Some(0) } else { None }, count }
    }

    /// The index of the selected entry.
    pub fn index(&self) -> (index: Option<usize>)
        ensures
            index_model(index) == self@.index,
            self@.valid(),
    {
        proof {
            use_type_invariant(self);
        }
        self.index
    }

    /// The length of the list the selection ranges over.
    pub fn count(&self) -> (count: usize)
        ensures
            count == self@.count,
            self@.valid(),
    {
        proof {
            use_type_invariant(self);
        }
        self.count
    }

    /// Moves the selection one entry down, unless it is on the last one.
    pub fn down(&mut self)
        ensures
            final(self)@ == old(self)@.down(),
            final(self)@.valid(),
        no_unwind
    {
        proof {
            use_type_invariant(&*self);
        }
        if let Some(i) = self.index {
            if i < self.count - 1 {
                self.index = Some(i + 1);
            }
        }
    }

    /// Moves the selection one entry up, unless it is on the first one.
    pub fn up(&mut self)
        ensures
            final(self)@ == old(self)@.up(),
            final(self)@.valid(),
        no_unwind
    {
        proof {
            use_type_invariant(&*self);
        }
        if let Some(i) = self.index {
            if i > 0 {
                self.index = Some(i - 1);
            }
        }
    }
}

} // verus!
