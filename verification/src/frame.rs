//! What one render step puts on the screen.

use vstd::prelude::*;
use crate::selection::index_model;

verus! {

/// The title of the list pane.
pub const LIST_TITLE: &'static str = "Dotfiles";

/// The title of the preview pane.
pub const PREVIEW_TITLE: &'static str = "Preview";

/// The marker drawn in front of the highlighted label.
pub const HIGHLIGHT_MARKER: &'static str = ">> ";

/// The share of the screen's width given to the list pane, in percent.
pub const LIST_WIDTH_PERCENT: u16 = 30;

/// The share of the screen's width given to the preview pane, in percent.
pub const PREVIEW_WIDTH_PERCENT: u16 = 70;

/// The blank columns left on either side of the preview text.
pub const PREVIEW_PADDING: u16 = 1;

/// The contents of the two panes for one render step.
#[derive(Debug, PartialEq, Eq)]
pub struct Frame {
    /// The label of every entry, in list order.
    pub labels: Vec<String>,
    /// The index of the label to highlight.
    pub highlighted: Option<usize>,
    /// The text of the preview pane.
    pub preview: String,
}

/// The model of a [`Frame`].
pub struct FrameView {
    pub labels: Seq<Seq<char>>,
    pub highlighted: Option<nat>,
    pub preview: Seq<char>,
}

impl View for Frame {
    type V = FrameView;

    open spec fn view(&self) -> FrameView {
        FrameView {
            labels: self.labels.deep_view(),
            highlighted: index_model(self.highlighted),
            preview: self.preview@,
        }
    }
}

} // verus!
