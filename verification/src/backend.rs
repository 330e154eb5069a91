//! The interface through which the application reaches a jj repository.

use vstd::prelude::*;

use crate::types::{DiffHunk, FileDiff, FileHunkSelection, GraphData, OpLogEntry};

verus! {

/// Abstraction over jj repo access. Implementations may shell out to jj CLI
/// or link against jj-lib directly. Errors are reported as their message.
///
/// Contract: Implementations must return a `GraphData` where every `GraphLine`
/// with a `change_id` has a corresponding entry in `details`, and
/// `working_copy_index` (if `Some`) points to a node line;
/// `crate::cli::parse_graph_output` guarantees both.
pub trait RepoBackend {
    /// Load the full change graph for display.
    /// If `revset` is `Some`, passes `-r <revset>` to `jj log` to filter results.
    fn load_graph(&self, revset: Option<&str>) -> Result<GraphData, String>;

    /// Compute diff hunks for a specific file in a change.
    fn file_diff(&self, change_id: &str, path: &str) -> Result<Vec<DiffHunk>, String>;

    /// Return all file diffs for a change, grouped by file.
    fn change_diff(&self, change_id: &str) -> Result<Vec<FileDiff>, String>;

    /// Load the operation log.
    fn op_log(&self) -> Result<Vec<OpLogEntry>, String>;

    /// Set the description on a change.
    fn describe(&self, change_id: &str, text: &str) -> Result<String, String>;

    /// Create a new empty change after the given revision.
    fn new_change(&self, after: &str) -> Result<String, String>;

    /// Move the working copy to the given change.
    fn edit_change(&self, change_id: &str) -> Result<String, String>;

    /// Abandon (delete) the given change.
    fn abandon(&self, change_id: &str) -> Result<String, String>;

    /// Undo the most recent operation.
    fn undo(&self) -> Result<String, String>;

    /// Redo the most recently undone operation.
    fn redo(&self) -> Result<String, String>;

    /// Create or move a bookmark to the given revision.
    fn bookmark_set(&self, change_id: &str, name: &str) -> Result<String, String>;

    /// Delete a bookmark by name.
    fn bookmark_delete(&self, name: &str) -> Result<String, String>;

    /// Push a bookmark to its remote.
    fn git_push(&self, bookmark: &str) -> Result<String, String>;

    /// Fetch all remotes.
    fn git_fetch(&self) -> Result<String, String>;

    /// Rebase a single revision onto a new parent, reparenting its descendants.
    fn rebase_single(&self, source: &str, destination: &str) -> Result<String, String>;

    /// Rebase a revision and all of its descendants onto a new parent.
    fn rebase_with_descendants(&self, source: &str, destination: &str) -> Result<String, String>;

    /// Split a change into two: fully selected files move to a new child,
    /// the rest stay in the original.
    fn split(&self, change_id: &str, selections: &[FileHunkSelection]) -> Result<String, String>;

    /// Squash the files of a change that have a selected hunk into its parent.
    fn squash_partial(&self, change_id: &str, selections: &[FileHunkSelection]) -> Result<
        String,
        String,
    >;
}

} // verus!
