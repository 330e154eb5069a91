//! What the event loop decides between the work it does outside: a key
//! press, the terminal's size, and the end of an editor or merge tool
//! session.

use vstd::prelude::*;

use crate::action::Action;
use crate::app::{AppState, ConflictView, HunkPicker};
use crate::input::{KeyEvent, route_key, route_spec};
use crate::text::{append_str, decimal, push_char, push_decimal};
use crate::types::GraphData;

verus! {

/// A key press clears the status message; the key then asks for the
/// action its routing gives.
pub fn key_pressed(state: &mut AppState, key: KeyEvent) -> (r: Option<Action>)
    ensures
        *final(state) == (AppState { status_message: None, ..*old(state) }),
        r == route_spec(*final(state), key),
{
    state.status_message = None;
    route_key(state, key)
}

/// The rows a scrolled detail view gets on a terminal `terminal_height`
/// rows high: all but the status bar and the panel's borders.
pub open spec fn viewport_for(terminal_height: usize) -> usize {
    if terminal_height >= 4 {
        (terminal_height - 4) as usize
    } else {
        0
    }
}

/// The state with the hunk picker's and the conflict view's viewport
/// heights fitted to a terminal `terminal_height` rows high.
pub open spec fn fitted(s: AppState, terminal_height: usize) -> AppState {
    AppState {
        hunk_picker: match s.hunk_picker {
            Some(hp) => Some(HunkPicker { viewport_height: viewport_for(terminal_height), ..hp }),
            None => None,
        },
        conflict_view: match s.conflict_view {
            Some(cv) => Some(ConflictView { viewport_height: viewport_for(terminal_height), ..cv }),
            None => None,
        },
        ..s
    }
}

/// Fits the scrolled detail views to a terminal `terminal_height` rows
/// high, so that dispatch keeps their cursors in view.
pub fn fit_viewports(state: &mut AppState, terminal_height: usize)
    ensures
        *final(state) == fitted(*old(state), terminal_height),
{
    let rows = if terminal_height >= 4 {
        terminal_height - 4
    } else {
        0
    };
    if let Some(hp) = &mut state.hunk_picker {
        hp.viewport_height = rows;
    }
    if let Some(cv) = &mut state.conflict_view {
        cv.viewport_height = rows;
    }
}

/// The prefix of the error an editor session that failed leaves.
pub open spec fn editor_failed_text(error: Seq<char>) -> Seq<char> {
    "Editor failed: "@ + error
}

/// An editor session ended with `result`: the edited text asks for
/// `EditorComplete`; a failure is shown as the error and asks for nothing.
pub fn editor_finished(state: &mut AppState, change_id: String, result: Result<String, String>) -> (r:
    Option<Action>)
    ensures
        match result {
            Ok(text) => r == Some(Action::EditorComplete { change_id, text }) && *final(state)
                == *old(state),
            Err(e) => {
                &&& r is None
                &&& final(state).error matches Some(m) && m@ == editor_failed_text(e@)
                &&& *final(state) == (AppState { error: final(state).error, ..*old(state) })
            },
        },
{
    match result {
        Ok(text) => Some(Action::EditorComplete { change_id, text }),
        Err(e) => {
            let mut m = String::new();
            append_str(&mut m, "Editor failed: ");
            append_str(&mut m, e.as_str());
            state.error = Some(m);
            None
        },
    }
}

/// How a merge tool session ended.
pub enum MergeToolOutcome {
    /// The tool succeeded; the graph was then reloaded, stamped with
    /// `generation`.
    Resolved { generation: u64, graph: Result<GraphData, String> },
    /// The tool exited unsuccessfully, with this exit code if it had one.
    Exited { code: Option<i32> },
    /// The tool could not be started.
    NotLaunched { error: String },
}

/// An integer as `Display` writes it.
pub open spec fn signed_decimal(i: int) -> Seq<char> {
    if i < 0 {
        "-"@ + decimal((-i) as nat)
    } else {
        decimal(i as nat)
    }
}

fn push_signed(s: &mut String, i: i32)
    ensures
        final(s)@ == old(s)@ + signed_decimal(i as int),
{
    if i < 0 {
        push_char(s, '-');
        let ghost mid = s@;
        let n: usize = (-(i as i64)) as usize;
        push_decimal(s, n);
        assert(final(s)@ =~= old(s)@ + signed_decimal(i as int)) by {
            assert(mid == old(s)@.push('-'));
            assert("-"@ =~= seq!['-']) by {
                reveal_strlit("-");
            }
        }
    } else {
        push_decimal(s, i as usize);
    }
}

/// The action that reports how the merge tool session for `path` ended:
/// the reloaded graph when it succeeded; otherwise a failure naming the
/// exit status (-1 when there was none) or why it could not start.
pub open spec fn merge_tool_reported(path: String, o: MergeToolOutcome, r: Action) -> bool {
    match o {
        MergeToolOutcome::Resolved { generation, graph } => r == Action::MergeToolComplete {
            path,
            graph: Some((generation, graph)),
        },
        MergeToolOutcome::Exited { code } => r matches Action::MergeToolFailed { path: p, error }
            && p == path && error@ == "Merge tool exited with status "@ + signed_decimal(
            match code {
                Some(c) => c as int,
                None => -1,
            },
        ),
        MergeToolOutcome::NotLaunched { error: e } => r matches Action::MergeToolFailed {
            path: p,
            error,
        } && p == path && error@ == "Failed to launch merge tool: "@ + e@,
    }
}

/// The action that reports how the merge tool session for `path` ended.
pub fn merge_tool_finished(path: String, outcome: MergeToolOutcome) -> (r: Action)
    ensures
        merge_tool_reported(path, outcome, r),
{
    match outcome {
        MergeToolOutcome::Resolved { generation, graph } => Action::MergeToolComplete {
            path,
            graph: Some((generation, graph)),
        },
        MergeToolOutcome::Exited { code } => {
            let mut error = String::new();
            append_str(&mut error, "Merge tool exited with status ");
            let c: i32 = match code {
                Some(c) => c,
                None => -1,
            };
            push_signed(&mut error, c);
            Action::MergeToolFailed { path, error }
        },
        MergeToolOutcome::NotLaunched { error: e } => {
            let mut error = String::new();
            append_str(&mut error, "Failed to launch merge tool: ");
            append_str(&mut error, e.as_str());
            Action::MergeToolFailed { path, error }
        },
    }
}

} // verus!
