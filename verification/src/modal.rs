//! Overlays shown on top of the panels.

use vstd::prelude::*;

use crate::action::CompletionItem;
use crate::types::OpLogEntry;
use crate::widgets::help::help_entries;

verus! {

#[derive(Debug, Clone)]
pub enum Modal {
    OpLog { entries: Vec<OpLogEntry>, cursor: usize, scroll: usize },
    BookmarkPicker {
        /// (bookmark_name, change_id)
        bookmarks: Vec<(String, String)>,
        cursor: usize,
    },
    FuzzyFind {
        query: String,
        /// graph line indices from node_indices
        matches: Vec<usize>,
        cursor: usize,
    },
    Help { context: HelpContext, scroll: usize },
    /// Search over the changes, or a revset being typed, with completions
    /// for the word under the cursor.
    Omnibar {
        query: String,
        /// graph line indices of the matching changes
        matches: Vec<usize>,
        cursor: usize,
        completions: Vec<CompletionItem>,
        completion_cursor: usize,
    },
    /// The description of change `change_id` being edited: `text` is what
    /// the text editor holds (the editing itself happens in the editor
    /// widget of the terminal front end).
    Describe { change_id: String, text: String },
    /// A bookmark name being typed for change `change_id`, with the known
    /// names to complete it from.
    BookmarkInput { change_id: String, input: String, completions: Vec<String>, cursor: usize },
}

#[derive(Debug, Clone, Copy, PartialEq, Eq)]
pub enum HelpContext {
    Graph,
    DetailFileList,
    DetailDiffView,
}

/// Number of help lines the help overlay scrolls through: the entries of
/// its page.
pub open spec fn help_line_count(c: HelpContext) -> usize {
    help_entries(c).len() as usize
}

impl HelpContext {
    /// The number of entries on this help page.
    pub fn line_count(self) -> (n: usize)
        ensures
            n == help_line_count(self),
            n == help_entries(self).len(),
    {
        match self {
            HelpContext::Graph => 20,
            HelpContext::DetailFileList => 4,
            HelpContext::DetailDiffView => 3,
        }
    }
}

} // verus!
