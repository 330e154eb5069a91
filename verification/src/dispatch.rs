//! The state machine: how each action changes the application state and
//! which effects it asks for.

use vstd::prelude::*;

use crate::action::{Action, DetailMode, PanelFocus};
use crate::app::{AppState, initial_cursor};
use crate::effect::Effect;
use crate::fuzzy::{fuzzy_match, is_ranking};
use crate::modal::{HelpContext, Modal, help_line_count};
use crate::omnibar::{
    accept_completion, accepted_query, bookmark_names, byte_len, completions_spec,
    compute_completions, current_word, items_view,
};
use crate::text::{chars_of, concat2, lowercase_of, pop_char, push_char, string_from};
use crate::types::{
    DiffHunk, FileChange, FileStatus, OpLogEntry, GraphData, is_node, opt_string_view, strings_view,
};

verus! {

// ---------------------------------------------------------------------------
// Vocabulary
// ---------------------------------------------------------------------------

/// The error text set when the cursor is found on a connector line.
pub open spec fn internal_error_text() -> Seq<char> {
    "Internal error: cursor on non-change line"@
}

/// Whether line `c` exists and is a connector line.
pub open spec fn on_connector(g: GraphData, c: usize) -> bool {
    c < g.lines@.len() && g.lines@[c as int].change_id is None
}

/// The first node index greater than `c`.
pub open spec fn first_greater(ns: Seq<usize>, c: usize) -> Option<usize>
    decreases ns.len(),
{
    if ns.len() == 0 {
        None
    } else if ns[0] > c {
        Some(ns[0])
    } else {
        first_greater(ns.drop_first(), c)
    }
}

/// The last node index smaller than `c`.
pub open spec fn last_smaller(ns: Seq<usize>, c: usize) -> Option<usize>
    decreases ns.len(),
{
    if ns.len() == 0 {
        None
    } else if ns.last() < c {
        Some(ns.last())
    } else {
        last_smaller(ns.drop_last(), c)
    }
}

/// The first node line (in graph order) whose change ID is `id`.
pub open spec fn node_with_id(g: GraphData, ns: Seq<usize>, id: Seq<char>) -> Option<usize>
    decreases ns.len(),
{
    if ns.len() == 0 {
        None
    } else if ns[0] < g.lines@.len() && opt_string_view(g.lines@[ns[0] as int].change_id) == Some(
        id,
    ) {
        Some(ns[0])
    } else {
        node_with_id(g, ns.drop_first(), id)
    }
}

pub open spec fn err_view(s: AppState) -> Option<Seq<char>> {
    opt_string_view(s.error)
}

/// The final state `t` after the cursor check ran on graph `g` with the
/// cursor at `c` and the error at `ev`: a cursor left on a connector line
/// is reported and moved to the first node line (if there is one).
pub open spec fn checked(g: GraphData, c: usize, ev: Option<Seq<char>>, t: AppState) -> bool {
    if on_connector(g, c) {
        &&& t.cursor == (if g.node_index_seq().len() > 0 {
            g.node_index_seq()[0]
        } else {
            c
        })
        &&& err_view(t) == Some(internal_error_text())
    } else {
        &&& t.cursor == c
        &&& err_view(t) == ev
    }
}

/// The fields that no action handled here touches are unchanged.
pub open spec fn keep_rest(s: AppState, t: AppState) -> bool {
    &&& t.pending_mutation == s.pending_mutation
    &&& t.pending_background == s.pending_background
    &&& t.status_message == s.status_message
    &&& t.active_revset == s.active_revset
    &&& t.omnibar_fallback_idx == s.omnibar_fallback_idx
    &&& t.target_pick == s.target_pick
    &&& t.hunk_picker == s.hunk_picker
    &&& t.conflict_view == s.conflict_view
    &&& t.forge == s.forge
    &&& t.pr_status == s.pr_status
    &&& t.pending_forge_fetch == s.pending_forge_fetch
    &&& t.layout == s.layout
}

/// The graph snapshot and its bookkeeping are unchanged.
pub open spec fn keep_graph(s: AppState, t: AppState) -> bool {
    &&& t.graph == s.graph
    &&& t.cursor_follows_working_copy == s.cursor_follows_working_copy
    &&& t.graph_generation == s.graph_generation
}

/// Quit flag, focus and modal are unchanged.
pub open spec fn keep_ui(s: AppState, t: AppState) -> bool {
    &&& t.should_quit == s.should_quit
    &&& t.focus == s.focus
    &&& t.modal == s.modal
}

/// The detail pane's state is unchanged.
pub open spec fn keep_detail(s: AppState, t: AppState) -> bool {
    &&& t.detail_cursor == s.detail_cursor
    &&& t.detail_mode == s.detail_mode
    &&& t.diff_scroll == s.diff_scroll
    &&& t.diff_data == s.diff_data
}

/// The detail pane is back at the top of the file list.
pub open spec fn detail_reset(t: AppState) -> bool {
    &&& t.detail_cursor == 0
    &&& t.detail_mode == DetailMode::FileList
    &&& t.diff_scroll == 0
    &&& t.diff_data@.len() == 0
}

/// No effect, only the cursor moved (to `c`, then checked), and the detail
/// pane is reset.
pub open spec fn navigated(s: AppState, t: AppState, e: Seq<Effect>, c: usize) -> bool {
    &&& e.len() == 0
    &&& keep_rest(s, t)
    &&& keep_graph(s, t)
    &&& keep_ui(s, t)
    &&& detail_reset(t)
    &&& checked(s.graph, c, err_view(s), t)
}

/// No effect, and nothing but what the cursor check may change.
pub open spec fn only_checked(s: AppState, t: AppState, e: Seq<Effect>) -> bool {
    &&& e.len() == 0
    &&& keep_rest(s, t)
    &&& keep_graph(s, t)
    &&& keep_ui(s, t)
    &&& keep_detail(s, t)
    &&& checked(s.graph, s.cursor, err_view(s), t)
}

/// Nothing changed at all (the cursor check did not run).
pub open spec fn untouched(s: AppState, t: AppState) -> bool {
    &&& keep_rest(s, t)
    &&& keep_graph(s, t)
    &&& keep_ui(s, t)
    &&& keep_detail(s, t)
    &&& t.cursor == s.cursor
    &&& t.error == s.error
}

/// Only the detail pane changed (then the cursor check ran); no effect.
pub open spec fn detail_step(s: AppState, t: AppState, e: Seq<Effect>) -> bool {
    &&& e.len() == 0
    &&& keep_rest(s, t)
    &&& keep_graph(s, t)
    &&& keep_ui(s, t)
    &&& checked(s.graph, s.cursor, err_view(s), t)
}

/// The change ID under the cursor of `s`, if it is on a node line.
pub open spec fn selected_id(s: AppState) -> Option<Seq<char>> {
    if is_node(s.graph.lines@, s.cursor as int) {
        opt_string_view(s.graph.lines@[s.cursor as int].change_id)
    } else {
        None
    }
}

// ---------------------------------------------------------------------------
// Exec helpers
// ---------------------------------------------------------------------------

/// Reports and repairs a cursor left on a connector line.
fn enforce_cursor(state: &mut AppState)
    requires
        old(state).graph.wf(),
    ensures
        keep_rest(*old(state), *final(state)),
        keep_graph(*old(state), *final(state)),
        keep_ui(*old(state), *final(state)),
        keep_detail(*old(state), *final(state)),
        final(state).graph.wf(),
        checked(old(state).graph, old(state).cursor, err_view(*old(state)), *final(state)),
{
    let c = state.cursor;
    if c < state.graph.lines.len() && state.graph.lines[c].change_id.is_none() {
        state.error = Some(String::from_str("Internal error: cursor on non-change line"));
        let nodes = state.graph.node_indices();
        if nodes.len() > 0 {
            state.cursor = nodes[0];
        }
    }
}

pub(crate) fn first_greater_exec(ns: &[usize], c: usize) -> (r: Option<usize>)
    ensures
        r == first_greater(ns@, c),
{
    let mut i: usize = 0;
    assert(ns@.skip(0) =~= ns@);
    while i < ns.len()
        invariant
            i <= ns@.len(),
            first_greater(ns@, c) == first_greater(ns@.skip(i as int), c),
        decreases ns@.len() - i,
    {
        assert(ns@.skip(i as int).drop_first() =~= ns@.skip(i + 1));
        if ns[i] > c {
            return Some(ns[i]);
        }
        i += 1;
    }
    None
}

fn last_smaller_exec(ns: &[usize], c: usize) -> (r: Option<usize>)
    ensures
        r == last_smaller(ns@, c),
{
    let mut i: usize = ns.len();
    assert(ns@.take(ns@.len() as int) =~= ns@);
    while i > 0
        invariant
            i <= ns@.len(),
            last_smaller(ns@, c) == last_smaller(ns@.take(i as int), c),
        decreases i,
    {
        assert(ns@.take(i as int).drop_last() =~= ns@.take(i - 1));
        if ns[i - 1] < c {
            return Some(ns[i - 1]);
        }
        i -= 1;
    }
    None
}

fn node_with_id_exec(g: &GraphData, id: &String) -> (r: Option<usize>)
    ensures
        r == node_with_id(*g, g.node_index_seq(), id@),
{
    let ns = g.node_indices();
    let mut i: usize = 0;
    assert(ns@.skip(0) =~= ns@);
    while i < ns.len()
        invariant
            i <= ns@.len(),
            ns@ == g.node_index_seq(),
            node_with_id(*g, ns@, id@) == node_with_id(*g, ns@.skip(i as int), id@),
        decreases ns@.len() - i,
    {
        assert(ns@.skip(i as int).drop_first() =~= ns@.skip(i + 1));
        let n = ns[i];
        if n < g.lines.len() {
            match &g.lines[n].change_id {
                Some(cid) => {
                    if *cid == *id {
                        return Some(n);
                    }
                },
                None => {},
            }
        }
        i += 1;
    }
    None
}


/// The cursor after a move to `r`, or the old one when there is nowhere to go.
pub open spec fn or_stay(s: AppState, r: Option<usize>) -> usize {
    match r {
        Some(n) => n,
        None => s.cursor,
    }
}

/// Moves the cursor to line `c`, resets the detail pane and runs the
/// cursor check.
fn move_to(state: &mut AppState, c: usize) -> (e: Vec<Effect>)
    requires
        old(state).graph.wf(),
    ensures
        final(state).graph.wf(),
        navigated(*old(state), *final(state), e@, c),
{
    state.cursor = c;
    state.reset_detail();
    enforce_cursor(state);
    Vec::new()
}

/// Runs the cursor check only.
fn settle(state: &mut AppState) -> (e: Vec<Effect>)
    requires
        old(state).graph.wf(),
    ensures
        final(state).graph.wf(),
        only_checked(*old(state), *final(state), e@),
{
    enforce_cursor(state);
    Vec::new()
}

// ---------------------------------------------------------------------------
// Graph snapshots
// ---------------------------------------------------------------------------

/// Where the cursor goes when snapshot `g` replaces the graph of `s`: the
/// working copy when the state asked to follow it; otherwise the line of the
/// change that was selected, if it is still there; otherwise the start
/// position of `g`.
pub open spec fn reload_cursor(s: AppState, g: GraphData) -> usize {
    if s.cursor_follows_working_copy {
        initial_cursor(g)
    } else {
        match selected_id(s) {
            Some(id) => match node_with_id(g, g.node_index_seq(), id) {
                Some(i) => i,
                None => initial_cursor(g),
            },
            None => initial_cursor(g),
        }
    }
}

/// What a `GraphLoaded` action does: a snapshot older than the current
/// generation is ignored; a loaded graph replaces the current one (cursor
/// placed by `reload_cursor`, detail pane reset, generation recorded); a
/// failure is reported.
pub open spec fn graph_loaded(
    s: AppState,
    generation: u64,
    result: Result<GraphData, String>,
    t: AppState,
    e: Seq<Effect>,
) -> bool {
    if generation < s.graph_generation {
        only_checked(s, t, e)
    } else {
        match result {
            Ok(g) => {
                &&& e.len() == 0
                &&& keep_rest(s, t)
                &&& keep_ui(s, t)
                &&& t.graph == g
                &&& t.graph_generation == generation
                &&& !t.cursor_follows_working_copy
                &&& detail_reset(t)
                &&& checked(g, reload_cursor(s, g), err_view(s), t)
            },
            Err(msg) => {
                &&& e.len() == 0
                &&& keep_rest(s, t)
                &&& keep_graph(s, t)
                &&& keep_ui(s, t)
                &&& keep_detail(s, t)
                &&& checked(s.graph, s.cursor, Some("Failed to load graph: "@ + msg@), t)
            },
        }
    }
}

fn load_graph_result(state: &mut AppState, generation: u64, result: Result<GraphData, String>) -> (e:
    Vec<Effect>)
    requires
        old(state).graph.wf(),
        result matches Ok(g) ==> g.wf(),
    ensures
        final(state).graph.wf(),
        graph_loaded(*old(state), generation, result, *final(state), e@),
{
    if generation < state.graph_generation {
        return settle(state);
    }
    match result {
        Ok(new_graph) => {
            let prev_id: Option<String> = match state.selected_change_id() {
                Some(id) => Some(String::from_str(id)),
                None => None,
            };
            let ghost s0 = *state;
            state.graph = new_graph;
            state.graph_generation = generation;
            state.reset_detail();
            let start = match state.graph.working_copy_index {
                Some(w) => w,
                None => {
                    let nodes = state.graph.node_indices();
                    if nodes.len() > 0 {
                        nodes[0]
                    } else {
                        0
                    }
                },
            };
            if state.cursor_follows_working_copy {
                state.cursor_follows_working_copy = false;
                state.cursor = start;
            } else {
                state.cursor = match prev_id {
                    Some(id) => match node_with_id_exec(&state.graph, &id) {
                        Some(i) => i,
                        None => start,
                    },
                    None => start,
                };
            }
            assert(state.cursor == reload_cursor(s0, state.graph));
            enforce_cursor(state);
        },
        Err(msg) => {
            state.error = Some(concat2("Failed to load graph: ", msg.as_str()));
            enforce_cursor(state);
        },
    }
    Vec::new()
}


// ---------------------------------------------------------------------------
// Detail pane
// ---------------------------------------------------------------------------

/// `DetailMoveDown`: the file cursor moves down one file, staying on the
/// last file of the selected change.
pub open spec fn detail_moved_down(s: AppState, t: AppState, e: Seq<Effect>) -> bool {
    &&& detail_step(s, t, e)
    &&& t.detail_mode == s.detail_mode
    &&& t.diff_scroll == s.diff_scroll
    &&& t.diff_data == s.diff_data
    &&& t.detail_cursor == match s.graph.detail_at_spec(s.cursor as int) {
        Some(d) => if s.detail_cursor + 1 < d.files@.len() {
            (s.detail_cursor + 1) as usize
        } else {
            s.detail_cursor
        },
        None => s.detail_cursor,
    }
}

fn detail_move_down(state: &mut AppState) -> (e: Vec<Effect>)
    requires
        old(state).graph.wf(),
    ensures
        final(state).graph.wf(),
        detail_moved_down(*old(state), *final(state), e@),
{
    let len = match state.selected_detail() {
        Some(detail) => detail.files.len(),
        None => 0,
    };
    if len > 0 && state.detail_cursor < len - 1 {
        state.detail_cursor = state.detail_cursor + 1;
    }
    enforce_cursor(state);
    Vec::new()
}

/// The `=> ` that separates the old and new path of a rename.
pub open spec fn arrow() -> Seq<char> {
    seq!['=', '>', ' ']
}

/// Whether `p` occurs in `s` at position `i`.
pub open spec fn occurs_at(s: Seq<char>, p: Seq<char>, i: int) -> bool {
    0 <= i && i + p.len() <= s.len() && s.subrange(i, i + p.len()) == p
}

/// The first position at or after `i` where `p` occurs in `s`.
pub open spec fn find_from(s: Seq<char>, p: Seq<char>, i: int) -> Option<int>
    decreases s.len() - i,
{
    if i < 0 || i >= s.len() || i + p.len() > s.len() {
        None
    } else if occurs_at(s, p, i) {
        Some(i)
    } else {
        find_from(s, p, i + 1)
    }
}

proof fn lemma_find_from(s: Seq<char>, p: Seq<char>, i: int)
    ensures
        find_from(s, p, i) matches Some(j) ==> i <= j && occurs_at(s, p, j) && j < s.len(),
    decreases s.len() - i,
{
    if !(i < 0 || i >= s.len() || i + p.len() > s.len()) && !occurs_at(s, p, i) {
        lemma_find_from(s, p, i + 1);
    }
}

/// The second `=> `-separated field of `raw`, if `raw` has one.
pub open spec fn second_field(raw: Seq<char>) -> Option<Seq<char>> {
    match find_from(raw, arrow(), 0) {
        None => None,
        Some(p) => Some(
            match find_from(raw, arrow(), p + 3) {
                Some(q) => raw.subrange(p + 3, q),
                None => raw.skip(p + 3),
            },
        ),
    }
}

/// The destination of a rename written `... => new}`: the second field
/// without its closing brace; `raw` itself when it is not of that shape.
pub open spec fn rename_target(raw: Seq<char>) -> Seq<char> {
    match second_field(raw) {
        Some(f) => if f.len() > 0 && f.last() == '}' {
            f.drop_last()
        } else {
            raw
        },
        None => raw,
    }
}

/// The path whose diff is loaded for file entry `f`.
pub open spec fn diff_path(f: FileChange) -> Seq<char> {
    if f.status == FileStatus::Renamed {
        rename_target(f.path@)
    } else {
        f.path@
    }
}

fn find_arrow(v: &Vec<char>, lo: usize) -> (r: Option<usize>)
    ensures
        match r {
            Some(i) => find_from(v@, arrow(), lo as int) == Some(i as int),
            None => find_from(v@, arrow(), lo as int) is None,
        },
{
    let n = v.len();
    let mut i = lo;
    while i < n && n - i >= 3
        invariant
            n == v@.len(),
            lo <= i,
            find_from(v@, arrow(), lo as int) == find_from(v@, arrow(), i as int),
        decreases n - i,
    {
        let hit = v[i] == '=' && v[i + 1] == '>' && v[i + 2] == ' ';
        if hit {
            assert(v@.subrange(i as int, i + 3) =~= arrow());
            return Some(i);
        }
        assert(!occurs_at(v@, arrow(), i as int)) by {
            if occurs_at(v@, arrow(), i as int) {
                assert(v@.subrange(i as int, i + 3)[0] == v@[i as int]);
                assert(v@.subrange(i as int, i + 3)[1] == v@[i + 1]);
                assert(v@.subrange(i as int, i + 3)[2] == v@[i + 2]);
            }
        }
        i += 1;
    }
    None
}

/// The path to load the diff of for file entry `f`.
fn diff_path_of(f: &FileChange) -> (p: String)
    ensures
        p@ == diff_path(*f),
{
    match f.status {
        FileStatus::Renamed => {},
        _ => {
            return f.path.clone();
        },
    }
    let v = chars_of(f.path.as_str());
    proof {
        lemma_find_from(v@, arrow(), 0);
    }
    match find_arrow(&v, 0) {
        None => f.path.clone(),
        Some(p) => {
            proof {
                lemma_find_from(v@, arrow(), p + 3);
            }
            let start = p + 3;
            let end = match find_arrow(&v, start) {
                Some(q) => q,
                None => v.len(),
            };
            proof {
                match find_from(v@, arrow(), start as int) {
                    Some(q) => {},
                    None => {
                        assert(v@.subrange(start as int, v@.len() as int) =~= v@.skip(start as int));
                    },
                }
            }
            if end > start && v[end - 1] == '}' {
                let r = string_from(&v, start, end - 1);
                assert(r@ =~= v@.subrange(start as int, end as int).drop_last());
                r
            } else {
                f.path.clone()
            }
        },
    }
}

/// The change and file entry under the cursors, if both exist.
pub open spec fn entered_file(s: AppState) -> Option<(Seq<char>, FileChange)> {
    match s.graph.detail_at_spec(s.cursor as int) {
        Some(d) => if s.detail_cursor < d.files@.len() {
            Some((s.graph.lines@[s.cursor as int].change_id->0@, d.files@[s.detail_cursor as int]))
        } else {
            None
        },
        None => None,
    }
}

/// `DetailEnter`: asks for the diff of the file under the cursor; nothing
/// happens when there is no such file.
pub open spec fn detail_entered(s: AppState, t: AppState, e: Seq<Effect>) -> bool {
    match entered_file(s) {
        Some((cid, f)) => {
            &&& untouched(s, t)
            &&& e.len() == 1
            &&& e[0] matches Effect::LoadFileDiff { change_id, path }
            &&& change_id@ == cid
            &&& path@ == diff_path(f)
        },
        None => only_checked(s, t, e),
    }
}

fn detail_enter(state: &mut AppState) -> (e: Vec<Effect>)
    requires
        old(state).graph.wf(),
    ensures
        final(state).graph.wf(),
        detail_entered(*old(state), *final(state), e@),
{
    let c = state.cursor;
    if c < state.graph.lines.len() {
        match &state.graph.lines[c].change_id {
            Some(cid) => match state.graph.detail(cid.as_str()) {
                Some(d) => {
                    if state.detail_cursor < d.files.len() {
                        let path = diff_path_of(&d.files[state.detail_cursor]);
                        return vec![Effect::LoadFileDiff { change_id: cid.clone(), path }];
                    }
                },
                None => {},
            },
            None => {},
        }
    }
    settle(state)
}

/// `FileDiffLoaded`: a loaded diff is shown from its top; a failure clears
/// the diff and is reported.
pub open spec fn file_diff_loaded(
    s: AppState,
    result: Result<Vec<DiffHunk>, String>,
    t: AppState,
    e: Seq<Effect>,
) -> bool {
    &&& e.len() == 0
    &&& keep_rest(s, t)
    &&& keep_graph(s, t)
    &&& keep_ui(s, t)
    &&& t.detail_cursor == s.detail_cursor
    &&& match result {
        Ok(h) => {
            &&& t.diff_data == h
            &&& t.diff_scroll == 0
            &&& t.detail_mode == DetailMode::DiffView
            &&& checked(s.graph, s.cursor, err_view(s), t)
        },
        Err(msg) => {
            &&& t.diff_data@.len() == 0
            &&& t.diff_scroll == s.diff_scroll
            &&& t.detail_mode == s.detail_mode
            &&& checked(s.graph, s.cursor, Some("Failed to load diff: "@ + msg@), t)
        },
    }
}

fn load_file_diff_result(state: &mut AppState, result: Result<Vec<DiffHunk>, String>) -> (e: Vec<
    Effect,
>)
    requires
        old(state).graph.wf(),
    ensures
        final(state).graph.wf(),
        file_diff_loaded(*old(state), result, *final(state), e@),
{
    match result {
        Ok(hunks) => {
            state.diff_data = hunks;
            state.diff_scroll = 0;
            state.detail_mode = DetailMode::DiffView;
        },
        Err(msg) => {
            state.diff_data = Vec::new();
            state.error = Some(concat2("Failed to load diff: ", msg.as_str()));
        },
    }
    enforce_cursor(state);
    Vec::new()
}


/// `DetailBack`: from a diff back to the file list (diff cleared); from the
/// file list back to the graph panel; otherwise nothing.
pub open spec fn detail_went_back(s: AppState, t: AppState, e: Seq<Effect>) -> bool {
    &&& e.len() == 0
    &&& keep_rest(s, t)
    &&& keep_graph(s, t)
    &&& t.should_quit == s.should_quit
    &&& t.modal == s.modal
    &&& t.detail_cursor == s.detail_cursor
    &&& checked(s.graph, s.cursor, err_view(s), t)
    &&& match s.detail_mode {
        DetailMode::DiffView => {
            &&& t.detail_mode == DetailMode::FileList
            &&& t.diff_scroll == 0
            &&& t.diff_data@.len() == 0
            &&& t.focus == s.focus
        },
        DetailMode::FileList => {
            &&& t.focus == PanelFocus::Graph
            &&& t.detail_mode == s.detail_mode
            &&& t.diff_scroll == s.diff_scroll
            &&& t.diff_data == s.diff_data
        },
        _ => {
            &&& t.focus == s.focus
            &&& keep_detail(s, t)
        },
    }
}

fn detail_back(state: &mut AppState) -> (e: Vec<Effect>)
    requires
        old(state).graph.wf(),
    ensures
        final(state).graph.wf(),
        detail_went_back(*old(state), *final(state), e@),
{
    match state.detail_mode {
        DetailMode::DiffView => {
            state.detail_mode = DetailMode::FileList;
            state.diff_scroll = 0;
            state.diff_data = Vec::new();
        },
        DetailMode::FileList => {
            state.focus = PanelFocus::Graph;
        },
        _ => {},
    }
    enforce_cursor(state);
    Vec::new()
}

// ---------------------------------------------------------------------------
// Diff scrolling
// ---------------------------------------------------------------------------

/// The line offset of the header of hunk `k` in the rendered diff: each
/// hunk takes its header line plus its lines.
pub open spec fn hunk_offset(h: Seq<DiffHunk>, k: int) -> int
    decreases k,
{
    if k <= 0 {
        0
    } else {
        hunk_offset(h, k - 1) + 1 + h[k - 1].lines@.len()
    }
}

/// The number of lines of the rendered diff.
pub open spec fn diff_total(h: Seq<DiffHunk>) -> int {
    hunk_offset(h, h.len() as int)
}

/// Whether the rendered diff of `hunks` has at most `usize::MAX` lines.
pub fn diff_total_fits(hunks: &Vec<DiffHunk>) -> (b: bool)
    ensures
        b == (diff_total(hunks@) <= usize::MAX),
{
    let mut total: usize = 0;
    let mut k: usize = 0;
    while k < hunks.len()
        invariant
            k <= hunks@.len(),
            total == hunk_offset(hunks@, k as int),
        decreases hunks@.len() - k,
    {
        let n = hunks[k].lines.len();
        if total > usize::MAX - 1 || total + 1 > usize::MAX - n {
            proof {
                lemma_offset_mono(hunks@, k + 1, hunks@.len() as int);
            }
            return false;
        }
        total = total + 1 + n;
        k += 1;
    }
    true
}

proof fn lemma_offset_mono(h: Seq<DiffHunk>, a: int, b: int)
    requires
        0 <= a <= b,
    ensures
        hunk_offset(h, a) <= hunk_offset(h, b),
        a < b ==> hunk_offset(h, a) < hunk_offset(h, b),
    decreases b - a,
{
    if a < b {
        lemma_offset_mono(h, a, b - 1);
    }
}

/// The first hunk header at or after hunk `k` that lies below line `scroll`.
pub open spec fn next_header(h: Seq<DiffHunk>, scroll: int, k: int) -> Option<int>
    decreases h.len() - k,
{
    if k < 0 || k >= h.len() {
        None
    } else if hunk_offset(h, k) > scroll {
        Some(hunk_offset(h, k))
    } else {
        next_header(h, scroll, k + 1)
    }
}

/// The last hunk header before hunk `k` that lies above line `scroll`.
pub open spec fn prev_header(h: Seq<DiffHunk>, scroll: int, k: int) -> Option<int>
    decreases k,
{
    if k <= 0 {
        None
    } else if hunk_offset(h, k - 1) < scroll {
        Some(hunk_offset(h, k - 1))
    } else {
        prev_header(h, scroll, k - 1)
    }
}

/// Only the diff scroll position changed, to `n` (then the cursor check
/// ran); no effect.
pub open spec fn scrolled_to(s: AppState, t: AppState, e: Seq<Effect>, n: int) -> bool {
    &&& detail_step(s, t, e)
    &&& t.detail_cursor == s.detail_cursor
    &&& t.detail_mode == s.detail_mode
    &&& t.diff_data == s.diff_data
    &&& t.diff_scroll == n
}

fn scroll_to(state: &mut AppState, n: usize) -> (e: Vec<Effect>)
    requires
        old(state).graph.wf(),
    ensures
        final(state).graph.wf(),
        scrolled_to(*old(state), *final(state), e@, n as int),
{
    state.diff_scroll = n;
    enforce_cursor(state);
    Vec::new()
}

/// The length of the rendered diff (requires it to fit in `usize`).
fn diff_len(h: &Vec<DiffHunk>) -> (n: usize)
    requires
        diff_total(h@) <= usize::MAX,
    ensures
        n == diff_total(h@),
{
    let mut total: usize = 0;
    let mut k: usize = 0;
    while k < h.len()
        invariant
            k <= h@.len(),
            total == hunk_offset(h@, k as int),
            diff_total(h@) <= usize::MAX,
        decreases h@.len() - k,
    {
        proof {
            lemma_offset_mono(h@, k + 1, h@.len() as int);
        }
        total = total + 1 + h[k].lines.len();
        k += 1;
    }
    total
}

/// Where `DiffScrollDown` puts the scroll position: one line further, while
/// that stays inside the diff.
pub open spec fn scroll_down_target(s: AppState) -> int {
    if s.diff_scroll + 1 < diff_total(s.diff_data@) {
        s.diff_scroll + 1
    } else {
        s.diff_scroll as int
    }
}

/// The offset of the next hunk header below `scroll`.
fn next_header_exec(h: &Vec<DiffHunk>, scroll: usize) -> (r: Option<usize>)
    requires
        diff_total(h@) <= usize::MAX,
    ensures
        match r {
            Some(o) => next_header(h@, scroll as int, 0) == Some(o as int),
            None => next_header(h@, scroll as int, 0) is None,
        },
{
    let mut offset: usize = 0;
    let mut k: usize = 0;
    while k < h.len()
        invariant
            k <= h@.len(),
            offset == hunk_offset(h@, k as int),
            diff_total(h@) <= usize::MAX,
            next_header(h@, scroll as int, 0) == next_header(h@, scroll as int, k as int),
        decreases h@.len() - k,
    {
        if offset > scroll {
            return Some(offset);
        }
        proof {
            lemma_offset_mono(h@, k + 1, h@.len() as int);
        }
        offset = offset + 1 + h[k].lines.len();
        k += 1;
    }
    None
}

/// The offset of the previous hunk header above `scroll`.
fn prev_header_exec(h: &Vec<DiffHunk>, scroll: usize) -> (r: Option<usize>)
    requires
        diff_total(h@) <= usize::MAX,
    ensures
        match r {
            Some(o) => prev_header(h@, scroll as int, h@.len() as int) == Some(o as int),
            None => prev_header(h@, scroll as int, h@.len() as int) is None,
        },
{
    let mut offsets: Vec<usize> = Vec::new();
    let mut offset: usize = 0;
    let mut k: usize = 0;
    while k < h.len()
        invariant
            k <= h@.len(),
            offset == hunk_offset(h@, k as int),
            offsets@.len() == k,
            forall|j: int| 0 <= j < k ==> offsets@[j] == hunk_offset(h@, j),
            diff_total(h@) <= usize::MAX,
        decreases h@.len() - k,
    {
        proof {
            lemma_offset_mono(h@, k + 1, h@.len() as int);
        }
        offsets.push(offset);
        offset = offset + 1 + h[k].lines.len();
        k += 1;
    }
    let mut i: usize = offsets.len();
    while i > 0
        invariant
            i <= offsets@.len(),
            offsets@.len() == h@.len(),
            forall|j: int| 0 <= j < offsets@.len() ==> offsets@[j] == hunk_offset(h@, j),
            prev_header(h@, scroll as int, h@.len() as int) == prev_header(
                h@,
                scroll as int,
                i as int,
            ),
        decreases i,
    {
        if offsets[i - 1] < scroll {
            return Some(offsets[i - 1]);
        }
        i -= 1;
    }
    None
}

/// The scroll position after a hunk jump that found `r`.
pub open spec fn jump_target(s: AppState, r: Option<int>) -> int {
    match r {
        Some(o) => o,
        None => s.diff_scroll as int,
    }
}

// ---------------------------------------------------------------------------
// Panels and overlays
// ---------------------------------------------------------------------------

/// The other panel.
pub open spec fn other_panel(f: PanelFocus) -> PanelFocus {
    match f {
        PanelFocus::Graph => PanelFocus::Detail,
        PanelFocus::Detail => PanelFocus::Graph,
    }
}

/// Only the UI fields changed, as `ui` says (then the cursor check ran);
/// no effect.
pub open spec fn ui_step(s: AppState, t: AppState, e: Seq<Effect>) -> bool {
    &&& e.len() == 0
    &&& keep_rest(s, t)
    &&& keep_graph(s, t)
    &&& keep_detail(s, t)
    &&& checked(s.graph, s.cursor, err_view(s), t)
}

fn toggle_focus(state: &mut AppState) -> (e: Vec<Effect>)
    requires
        old(state).graph.wf(),
    ensures
        final(state).graph.wf(),
        ui_step(*old(state), *final(state), e@),
        final(state).focus == other_panel(old(state).focus),
        final(state).should_quit == old(state).should_quit,
        final(state).modal == old(state).modal,
{
    state.focus = match state.focus {
        PanelFocus::Graph => PanelFocus::Detail,
        PanelFocus::Detail => PanelFocus::Graph,
    };
    enforce_cursor(state);
    Vec::new()
}

fn quit(state: &mut AppState) -> (e: Vec<Effect>)
    requires
        old(state).graph.wf(),
    ensures
        final(state).graph.wf(),
        ui_step(*old(state), *final(state), e@),
        final(state).should_quit,
        final(state).focus == old(state).focus,
        final(state).modal == old(state).modal,
{
    state.should_quit = true;
    enforce_cursor(state);
    Vec::new()
}

/// Replaces the modal (then runs the cursor check).
fn set_modal(state: &mut AppState, m: Option<Modal>) -> (e: Vec<Effect>)
    requires
        old(state).graph.wf(),
    ensures
        final(state).graph.wf(),
        ui_step(*old(state), *final(state), e@),
        final(state).modal == m,
        final(state).should_quit == old(state).should_quit,
        final(state).focus == old(state).focus,
{
    state.modal = m;
    enforce_cursor(state);
    Vec::new()
}

/// `Refresh`: clears the error and asks for the graph to be reloaded.
pub open spec fn refreshed(s: AppState, t: AppState, e: Seq<Effect>) -> bool {
    &&& keep_rest(s, t)
    &&& keep_graph(s, t)
    &&& keep_ui(s, t)
    &&& keep_detail(s, t)
    &&& t.cursor == s.cursor
    &&& t.error is None
    &&& e == seq![Effect::LoadGraph { revset: None }]
}

fn refresh(state: &mut AppState) -> (e: Vec<Effect>)
    ensures
        refreshed(*old(state), *final(state), e@),
        final(state).graph == old(state).graph,
{
    state.error = None;
    let e = vec![Effect::LoadGraph { revset: None }];
    assert(e@ =~= seq![Effect::LoadGraph { revset: None }]);
    e
}

/// `ToggleOpLog`: closes an open operation log; otherwise asks for it to be
/// loaded.
pub open spec fn op_log_toggled(s: AppState, t: AppState, e: Seq<Effect>) -> bool {
    if s.modal matches Some(Modal::OpLog { .. }) {
        &&& ui_step(s, t, e)
        &&& t.modal is None
        &&& t.should_quit == s.should_quit
        &&& t.focus == s.focus
    } else {
        &&& untouched(s, t)
        &&& e == seq![Effect::LoadOpLog]
    }
}

fn toggle_op_log(state: &mut AppState) -> (e: Vec<Effect>)
    requires
        old(state).graph.wf(),
    ensures
        final(state).graph.wf(),
        op_log_toggled(*old(state), *final(state), e@),
{
    let open = match &state.modal {
        Some(Modal::OpLog { .. }) => true,
        _ => false,
    };
    if open {
        set_modal(state, None)
    } else {
        let e = vec![Effect::LoadOpLog];
        assert(e@ =~= seq![Effect::LoadOpLog]);
        e
    }
}

/// `OpLogLoaded`: the loaded log opens at its top; a failure is reported.
pub open spec fn op_log_loaded(
    s: AppState,
    result: Result<Vec<OpLogEntry>, String>,
    t: AppState,
    e: Seq<Effect>,
) -> bool {
    &&& e.len() == 0
    &&& keep_rest(s, t)
    &&& keep_graph(s, t)
    &&& keep_detail(s, t)
    &&& t.should_quit == s.should_quit
    &&& t.focus == s.focus
    &&& match result {
        Ok(entries) => {
            &&& t.modal == Some(Modal::OpLog { entries, cursor: 0, scroll: 0 })
            &&& checked(s.graph, s.cursor, err_view(s), t)
        },
        Err(msg) => {
            &&& t.modal == s.modal
            &&& checked(s.graph, s.cursor, Some("Failed to load op log: "@ + msg@), t)
        },
    }
}

fn load_op_log_result(state: &mut AppState, result: Result<Vec<OpLogEntry>, String>) -> (e: Vec<
    Effect,
>)
    requires
        old(state).graph.wf(),
    ensures
        final(state).graph.wf(),
        op_log_loaded(*old(state), result, *final(state), e@),
{
    match result {
        Ok(entries) => {
            state.modal = Some(Modal::OpLog { entries, cursor: 0, scroll: 0 });
        },
        Err(msg) => {
            state.error = Some(concat2("Failed to load op log: ", msg.as_str()));
        },
    }
    enforce_cursor(state);
    Vec::new()
}


/// The bookmarks of node line `i`, each paired with the line's change ID.
pub open spec fn bookmarks_at(g: GraphData, i: usize) -> Seq<(Seq<char>, Seq<char>)> {
    if i < g.lines@.len() && g.lines@[i as int].change_id is Some {
        let id = g.lines@[i as int].change_id->0@;
        match g.detail_spec(id) {
            Some(d) => Seq::new(d.bookmarks@.len(), |k: int| (d.bookmarks@[k]@, id)),
            None => Seq::empty(),
        }
    } else {
        Seq::empty()
    }
}

/// The bookmarks of the node lines `ns`, in order, with their change IDs.
pub open spec fn bookmark_list(g: GraphData, ns: Seq<usize>) -> Seq<(Seq<char>, Seq<char>)>
    decreases ns.len(),
{
    if ns.len() == 0 {
        Seq::empty()
    } else {
        bookmark_list(g, ns.drop_last()) + bookmarks_at(g, ns.last())
    }
}

/// A list of string pairs, as the spec sees it.
pub open spec fn pairs_view(v: Seq<(String, String)>) -> Seq<(Seq<char>, Seq<char>)> {
    v.map_values(|p: (String, String)| (p.0@, p.1@))
}

/// Every bookmark of the graph, in graph order, with its change ID.
pub(crate) fn collect_bookmarks(g: &GraphData) -> (r: Vec<(String, String)>)
    ensures
        pairs_view(r@) == bookmark_list(*g, g.node_index_seq()),
{
    let nodes = g.node_indices();
    let ghost ns = g.node_index_seq();
    let mut out: Vec<(String, String)> = Vec::new();
    let mut i: usize = 0;
    while i < nodes.len()
        invariant
            i <= nodes@.len(),
            nodes@ == ns,
            pairs_view(out@) == bookmark_list(*g, ns.take(i as int)),
        decreases nodes@.len() - i,
    {
        assert(ns.take(i + 1).drop_last() =~= ns.take(i as int));
        let idx = nodes[i];
        let ghost before = pairs_view(out@);
        if idx < g.lines.len() {
            match &g.lines[idx].change_id {
                Some(cid) => {
                    match g.detail(cid.as_str()) {
                        Some(d) => {
                            let mut k: usize = 0;
                            while k < d.bookmarks.len()
                                invariant
                                    k <= d.bookmarks@.len(),
                                    pairs_view(out@) == before + Seq::new(
                                        k as nat,
                                        |j: int| (d.bookmarks@[j]@, cid@),
                                    ),
                                decreases d.bookmarks@.len() - k,
                            {
                                let ghost prev = out@;
                                let pair = (d.bookmarks[k].clone(), cid.clone());
                                out.push(pair);
                                assert(out@ == prev.push(pair));
                                assert(pairs_view(out@) =~= pairs_view(prev).push(
                                    (d.bookmarks@[k as int]@, cid@),
                                ));
                                assert(pairs_view(out@) =~= before + Seq::new(
                                    (k + 1) as nat,
                                    |j: int| (d.bookmarks@[j]@, cid@),
                                ));
                                k += 1;
                            }
                        },
                        None => {},
                    }
                },
                None => {},
            }
        }
        assert(pairs_view(out@) =~= bookmark_list(*g, ns.take(i + 1)));
        i += 1;
    }
    assert(ns.take(nodes@.len() as int) =~= ns);
    out
}

/// The help page that fits the focused panel and detail mode.
pub open spec fn help_context(s: AppState) -> HelpContext {
    match s.focus {
        PanelFocus::Graph => HelpContext::Graph,
        PanelFocus::Detail => match s.detail_mode {
            DetailMode::DiffView => HelpContext::DetailDiffView,
            _ => HelpContext::DetailFileList,
        },
    }
}

/// Whether `m` is the fuzzy finder showing query `q`, the matches of `q` in
/// `g` and the cursor on the first match.
pub open spec fn fuzzy_shows(m: Option<Modal>, g: GraphData, q: Seq<char>) -> bool {
    &&& m matches Some(Modal::FuzzyFind { query, matches, cursor })
    &&& query@ == q
    &&& (if q.len() == 0 {
        matches@ == g.node_index_seq()
    } else {
        is_ranking(g, q, matches@)
    })
    &&& cursor == 0
}

/// One step down in a list of `len` entries, staying on the last one.
pub open spec fn step_down(c: usize, len: int) -> usize {
    if c + 1 < len {
        (c + 1) as usize
    } else {
        c
    }
}

/// One step up, staying at the top.
pub open spec fn step_up(c: usize) -> usize {
    if c > 0 {
        (c - 1) as usize
    } else {
        0
    }
}

/// The overlay after `ModalMoveDown`: its cursor (or the help page's scroll
/// position) moves one line down, within its list.
pub open spec fn modal_down(m: Option<Modal>) -> Option<Modal> {
    match m {
        Some(Modal::OpLog { entries, cursor, scroll }) => Some(
            Modal::OpLog { entries, cursor: step_down(cursor, entries@.len() as int), scroll },
        ),
        Some(Modal::BookmarkPicker { bookmarks, cursor }) => Some(
            Modal::BookmarkPicker { bookmarks, cursor: step_down(cursor, bookmarks@.len() as int) },
        ),
        Some(Modal::FuzzyFind { query, matches, cursor }) => Some(
            Modal::FuzzyFind { query, matches, cursor: step_down(cursor, matches@.len() as int) },
        ),
        Some(Modal::Help { context, scroll }) => Some(
            Modal::Help { context, scroll: step_down(scroll, help_line_count(context) as int) },
        ),
        Some(Modal::Omnibar { query, matches, cursor, completions, completion_cursor }) => Some(
            if completions@.len() > 0 {
                Modal::Omnibar {
                    query,
                    matches,
                    cursor,
                    completions,
                    completion_cursor: step_down(completion_cursor, completions@.len() as int),
                }
            } else {
                Modal::Omnibar {
                    query,
                    matches,
                    cursor: step_down(cursor, matches@.len() as int),
                    completions,
                    completion_cursor,
                }
            },
        ),
        Some(other) => Some(other),
        None => None,
    }
}

/// The overlay after `ModalMoveUp`.
pub open spec fn modal_up(m: Option<Modal>) -> Option<Modal> {
    match m {
        Some(Modal::OpLog { entries, cursor, scroll }) => Some(
            Modal::OpLog { entries, cursor: step_up(cursor), scroll },
        ),
        Some(Modal::BookmarkPicker { bookmarks, cursor }) => Some(
            Modal::BookmarkPicker { bookmarks, cursor: step_up(cursor) },
        ),
        Some(Modal::FuzzyFind { query, matches, cursor }) => Some(
            Modal::FuzzyFind { query, matches, cursor: step_up(cursor) },
        ),
        Some(Modal::Help { context, scroll }) => Some(Modal::Help { context, scroll: step_up(scroll) }),
        Some(Modal::Omnibar { query, matches, cursor, completions, completion_cursor }) => Some(
            if completions@.len() > 0 {
                Modal::Omnibar {
                    query,
                    matches,
                    cursor,
                    completions,
                    completion_cursor: step_up(completion_cursor),
                }
            } else {
                Modal::Omnibar { query, matches, cursor: step_up(cursor), completions, completion_cursor }
            },
        ),
        Some(other) => Some(other),
        None => None,
    }
}

fn down_in(c: usize, len: usize) -> (r: usize)
    ensures
        r == step_down(c, len as int),
{
    if len > 0 && c < len - 1 {
        c + 1
    } else {
        c
    }
}

fn up_in(c: usize) -> (r: usize)
    ensures
        r == step_up(c),
{
    if c > 0 {
        c - 1
    } else {
        0
    }
}

fn modal_move(state: &mut AppState, down: bool) -> (e: Vec<Effect>)
    requires
        old(state).graph.wf(),
    ensures
        final(state).graph.wf(),
        ui_step(*old(state), *final(state), e@),
        final(state).should_quit == old(state).should_quit,
        final(state).focus == old(state).focus,
        final(state).modal == if down {
            modal_down(old(state).modal)
        } else {
            modal_up(old(state).modal)
        },
{
    let m = state.modal.take();
    let moved = match m {
        Some(Modal::OpLog { entries, cursor, scroll }) => {
            let c = if down {
                down_in(cursor, entries.len())
            } else {
                up_in(cursor)
            };
            Some(Modal::OpLog { entries, cursor: c, scroll })
        },
        Some(Modal::BookmarkPicker { bookmarks, cursor }) => {
            let c = if down {
                down_in(cursor, bookmarks.len())
            } else {
                up_in(cursor)
            };
            Some(Modal::BookmarkPicker { bookmarks, cursor: c })
        },
        Some(Modal::FuzzyFind { query, matches, cursor }) => {
            let c = if down {
                down_in(cursor, matches.len())
            } else {
                up_in(cursor)
            };
            Some(Modal::FuzzyFind { query, matches, cursor: c })
        },
        Some(Modal::Help { context, scroll }) => {
            let c = if down {
                down_in(scroll, context.line_count())
            } else {
                up_in(scroll)
            };
            Some(Modal::Help { context, scroll: c })
        },
        Some(Modal::Omnibar { query, matches, cursor, completions, completion_cursor }) => {
            if completions.len() > 0 {
                let c = if down {
                    down_in(completion_cursor, completions.len())
                } else {
                    up_in(completion_cursor)
                };
                Some(Modal::Omnibar { query, matches, cursor, completions, completion_cursor: c })
            } else {
                let c = if down {
                    down_in(cursor, matches.len())
                } else {
                    up_in(cursor)
                };
                Some(Modal::Omnibar { query, matches, cursor: c, completions, completion_cursor })
            }
        },
        Some(other) => Some(other),
        None => None,
    };
    set_modal(state, moved)
}

/// `ModalEnter`: picking a bookmark jumps to its change (when that change is
/// in the graph), picking a fuzzy match jumps to its line, and either way the
/// picker closes; other overlays stay as they are.
pub open spec fn modal_entered(s: AppState, t: AppState, e: Seq<Effect>) -> bool {
    &&& e.len() == 0
    &&& keep_rest(s, t)
    &&& keep_graph(s, t)
    &&& t.should_quit == s.should_quit
    &&& t.focus == s.focus
    &&& match s.modal {
        Some(Modal::BookmarkPicker { bookmarks, cursor }) => {
            &&& t.modal is None
            &&& match (if cursor < bookmarks@.len() {
                node_with_id(s.graph, s.graph.node_index_seq(), bookmarks@[cursor as int].1@)
            } else {
                None
            }) {
                Some(i) => detail_reset(t) && checked(s.graph, i, err_view(s), t),
                None => keep_detail(s, t) && checked(s.graph, s.cursor, err_view(s), t),
            }
        },
        Some(Modal::FuzzyFind { matches, cursor, .. }) => {
            &&& t.modal is None
            &&& if cursor < matches@.len() {
                detail_reset(t) && checked(s.graph, matches@[cursor as int], err_view(s), t)
            } else {
                keep_detail(s, t) && checked(s.graph, s.cursor, err_view(s), t)
            }
        },
        _ => {
            &&& t.modal == s.modal
            &&& keep_detail(s, t)
            &&& checked(s.graph, s.cursor, err_view(s), t)
        },
    }
}

fn modal_enter(state: &mut AppState) -> (e: Vec<Effect>)
    requires
        old(state).graph.wf(),
    ensures
        final(state).graph.wf(),
        modal_entered(*old(state), *final(state), e@),
{
    let m = state.modal.take();
    match m {
        Some(Modal::BookmarkPicker { bookmarks, cursor }) => {
            if cursor < bookmarks.len() {
                match node_with_id_exec(&state.graph, &bookmarks[cursor].1) {
                    Some(idx) => {
                        state.cursor = idx;
                        state.reset_detail();
                    },
                    None => {},
                }
            }
        },
        Some(Modal::FuzzyFind { matches, cursor, .. }) => {
            if cursor < matches.len() {
                state.cursor = matches[cursor];
                state.reset_detail();
            }
        },
        other => {
            state.modal = other;
        },
    }
    enforce_cursor(state);
    Vec::new()
}

/// `FuzzyInput` / `FuzzyBackspace`: the finder's query is edited as `edit`
/// says, its matches recomputed and its cursor put back on the first match;
/// nothing happens when the finder is not open.
pub open spec fn fuzzy_edited(
    s: AppState,
    t: AppState,
    e: Seq<Effect>,
    edit: spec_fn(Seq<char>) -> Seq<char>,
) -> bool {
    &&& ui_step(s, t, e)
    &&& t.should_quit == s.should_quit
    &&& t.focus == s.focus
    &&& match s.modal {
        Some(Modal::FuzzyFind { query, .. }) => fuzzy_shows(t.modal, s.graph, edit(query@)),
        _ => t.modal == s.modal,
    }
}

/// The query with `c` typed at its end.
pub open spec fn typed(c: char) -> spec_fn(Seq<char>) -> Seq<char> {
    |q: Seq<char>| q.push(c)
}

/// The query with its last character erased (an empty query stays empty).
pub open spec fn erased() -> spec_fn(Seq<char>) -> Seq<char> {
    |q: Seq<char>| if q.len() > 0 {
        q.drop_last()
    } else {
        q
    }
}

fn fuzzy_edit(state: &mut AppState, typed_char: Option<char>) -> (e: Vec<Effect>)
    requires
        old(state).graph.wf(),
    ensures
        final(state).graph.wf(),
        fuzzy_edited(
            *old(state),
            *final(state),
            e@,
            match typed_char {
                Some(c) => typed(c),
                None => erased(),
            },
        ),
{
    let m = state.modal.take();
    let edited = match m {
        Some(Modal::FuzzyFind { query, matches, cursor }) => {
            let mut q = query;
            match typed_char {
                Some(c) => push_char(&mut q, c),
                None => {
                    pop_char(&mut q);
                },
            }
            let found = fuzzy_match(q.as_str(), &state.graph);
            Some(Modal::FuzzyFind { query: q, matches: found, cursor: 0 })
        },
        other => other,
    };
    set_modal(state, edited)
}


fn detail_move_up(state: &mut AppState) -> (e: Vec<Effect>)
    requires
        old(state).graph.wf(),
    ensures
        final(state).graph.wf(),
        detail_step(*old(state), *final(state), e@),
        final(state).detail_cursor == step_up(old(state).detail_cursor),
        final(state).detail_mode == old(state).detail_mode,
        final(state).diff_scroll == old(state).diff_scroll,
        final(state).diff_data == old(state).diff_data,
{
    state.detail_cursor = up_in(state.detail_cursor);
    enforce_cursor(state);
    Vec::new()
}

/// The completions offered for `q`: those of the word being typed at its
/// end, matched case-insensitively (none when no word is being typed).
pub open spec fn completions_of(q: Seq<char>, g: GraphData) -> Seq<(Seq<char>, Seq<char>)> {
    if current_word(q).len() == 0 {
        Seq::empty()
    } else {
        completions_spec(lowercase_of(current_word(q)), g)
    }
}

/// Whether `m` is the omnibar showing query `q`, the changes matching it
/// (cursor on the first) and the completions for it (cursor on the first).
pub open spec fn omnibar_shows(m: Option<Modal>, g: GraphData, q: Seq<char>) -> bool {
    &&& m matches Some(Modal::Omnibar { query, matches, cursor, completions, completion_cursor })
    &&& query@ == q
    &&& (if q.len() == 0 {
        matches@ == g.node_index_seq()
    } else {
        is_ranking(g, q, matches@)
    })
    &&& cursor == 0
    &&& items_view(completions@) == completions_of(q, g)
    &&& completion_cursor == 0
}

/// `OmnibarInput` / `OmnibarBackspace`: the omnibar's query is edited and
/// its matches and completions follow it; without an omnibar nothing
/// changes.
pub open spec fn omnibar_edited(
    s: AppState,
    t: AppState,
    e: Seq<Effect>,
    edit: spec_fn(Seq<char>) -> Seq<char>,
) -> bool {
    &&& overlay_step(s, t, e)
    &&& match s.modal {
        Some(Modal::Omnibar { query, .. }) => omnibar_shows(t.modal, s.graph, edit(query@)),
        _ => t.modal == s.modal,
    }
}

/// `OmnibarAcceptCompletion`: the completion under the cursor replaces the
/// word being typed; without one nothing changes.
pub open spec fn completion_accepted(s: AppState, t: AppState, e: Seq<Effect>) -> bool {
    &&& overlay_step(s, t, e)
    &&& match s.modal {
        Some(Modal::Omnibar { query, completions, completion_cursor, .. }) => if completion_cursor
            < completions@.len() {
            omnibar_shows(
                t.modal,
                s.graph,
                accepted_query(query@, completions@[completion_cursor as int].insert_text@),
            )
        } else {
            t.modal == s.modal
        },
        _ => t.modal == s.modal,
    }
}

/// Whether editing the omnibar's query with `edit` leaves a query whose
/// UTF-8 length fits in `usize`.
pub open spec fn omnibar_edit_fits(m: Option<Modal>, edit: spec_fn(Seq<char>) -> Seq<char>) -> bool {
    m matches Some(Modal::Omnibar { query, .. }) ==> byte_len(edit(query@)) <= usize::MAX
}

/// Whether taking the selected completion leaves a query whose UTF-8
/// length fits in `usize`.
pub open spec fn accept_fits(m: Option<Modal>) -> bool {
    m matches Some(Modal::Omnibar { query, completions, completion_cursor, .. }) ==> (
    completion_cursor < completions@.len() ==> byte_len(
        accepted_query(query@, completions@[completion_cursor as int].insert_text@),
    ) <= usize::MAX)
}

/// The overlay closed (then the cursor check ran) and `eff` is asked for.
pub open spec fn closed_with(s: AppState, t: AppState, e: Seq<Effect>, eff: Effect) -> bool {
    &&& ui_step(s, t, Seq::empty())
    &&& t.modal is None
    &&& t.should_quit == s.should_quit
    &&& t.focus == s.focus
    &&& e == seq![eff]
}

/// `OpenDescribe`: with the cursor on a change that has a detail, the
/// description editor opens on that change with its description;
/// otherwise nothing changes.
pub open spec fn describe_opened(s: AppState, t: AppState, e: Seq<Effect>) -> bool {
    &&& overlay_step(s, t, e)
    &&& match s.graph.detail_at_spec(s.cursor as int) {
        Some(d) => t.modal matches Some(Modal::Describe { change_id, text }) && Some(change_id@)
            == selected_id(s) && text@ == d.description@,
        None => t.modal == s.modal,
    }
}

/// `DescribeSave` (or, with `escalate`, `DescribeEscalateEditor`): the
/// description editor closes and asks for its text to be saved as the
/// change's description (or to be opened in the external editor);
/// without the editor nothing changes.
pub open spec fn describe_finished(s: AppState, t: AppState, e: Seq<Effect>, escalate: bool) -> bool {
    match s.modal {
        Some(Modal::Describe { change_id, text }) => closed_with(
            s,
            t,
            e,
            if escalate {
                Effect::SuspendForEditor { change_id, initial_text: text }
            } else {
                Effect::Describe { change_id, text }
            },
        ),
        _ => overlay_step(s, t, e) && t.modal == s.modal,
    }
}

/// `OpenBookmarkSet`: with the cursor on a change, the bookmark input opens
/// for it, empty, offering the graph's bookmark names; otherwise nothing
/// changes.
pub open spec fn bookmark_input_opened(s: AppState, t: AppState, e: Seq<Effect>) -> bool {
    &&& overlay_step(s, t, e)
    &&& match selected_id(s) {
        Some(id) => {
            &&& t.modal matches Some(Modal::BookmarkInput { change_id, input, completions, cursor })
            &&& change_id@ == id
            &&& input@.len() == 0
            &&& strings_view(completions@) == bookmark_names(s.graph)
            &&& cursor == 0
        },
        None => t.modal == s.modal,
    }
}

/// `BookmarkInputChar` / `BookmarkInputBackspace`: the typed name is
/// edited; without the bookmark input nothing changes.
pub open spec fn bookmark_input_edited(
    s: AppState,
    t: AppState,
    e: Seq<Effect>,
    edit: spec_fn(Seq<char>) -> Seq<char>,
) -> bool {
    &&& overlay_step(s, t, e)
    &&& match s.modal {
        Some(Modal::BookmarkInput { change_id, input, completions, cursor }) => {
            &&& t.modal matches Some(
                Modal::BookmarkInput { change_id: c2, input: i2, completions: k2, cursor: u2 },
            )
            &&& c2 == change_id
            &&& i2@ == edit(input@)
            &&& k2 == completions
            &&& u2 == cursor
        },
        _ => t.modal == s.modal,
    }
}

/// `BookmarkInputConfirm`: a non-empty name closes the input and asks for
/// the bookmark to be set on its change; otherwise nothing changes.
pub open spec fn bookmark_input_confirmed(s: AppState, t: AppState, e: Seq<Effect>) -> bool {
    match s.modal {
        Some(Modal::BookmarkInput { change_id, input, .. }) => if input@.len() > 0 {
            closed_with(s, t, e, Effect::BookmarkSet { change_id, name: input })
        } else {
            overlay_step(s, t, e) && t.modal == s.modal
        },
        _ => overlay_step(s, t, e) && t.modal == s.modal,
    }
}

fn omnibar_for(query: String, graph: &GraphData) -> (m: Modal)
    requires
        graph.wf(),
        byte_len(query@) <= usize::MAX,
    ensures
        omnibar_shows(Some(m), *graph, query@),
{
    let matches = fuzzy_match(query.as_str(), graph);
    let completions = compute_completions(query.as_str(), graph);
    proof {
        if current_word(query@).len() == 0 {
            assert(items_view(completions@) =~= Seq::<(Seq<char>, Seq<char>)>::empty());
        }
    }
    Modal::Omnibar { query, matches, cursor: 0, completions, completion_cursor: 0 }
}

fn omnibar_edit(state: &mut AppState, typed_char: Option<char>) -> (e: Vec<Effect>)
    requires
        old(state).graph.wf(),
        omnibar_edit_fits(
            old(state).modal,
            match typed_char {
                Some(c) => typed(c),
                None => erased(),
            },
        ),
    ensures
        final(state).graph.wf(),
        omnibar_edited(
            *old(state),
            *final(state),
            e@,
            match typed_char {
                Some(c) => typed(c),
                None => erased(),
            },
        ),
{
    let m = state.modal.take();
    let edited = match m {
        Some(Modal::Omnibar { query, .. }) => {
            let mut q = query;
            match typed_char {
                Some(c) => push_char(&mut q, c),
                None => {
                    pop_char(&mut q);
                },
            }
            Some(omnibar_for(q, &state.graph))
        },
        other => other,
    };
    set_modal(state, edited)
}

fn omnibar_accept(state: &mut AppState) -> (e: Vec<Effect>)
    requires
        old(state).graph.wf(),
        accept_fits(old(state).modal),
    ensures
        final(state).graph.wf(),
        completion_accepted(*old(state), *final(state), e@),
{
    let m = state.modal.take();
    let next = match m {
        Some(Modal::Omnibar { query, matches, cursor, completions, completion_cursor }) => {
            if completion_cursor < completions.len() {
                let q = accept_completion(
                    query.as_str(),
                    completions[completion_cursor].insert_text.as_str(),
                );
                Some(omnibar_for(q, &state.graph))
            } else {
                Some(Modal::Omnibar { query, matches, cursor, completions, completion_cursor })
            }
        },
        other => other,
    };
    set_modal(state, next)
}

fn close_with(state: &mut AppState, eff: Effect) -> (e: Vec<Effect>)
    requires
        old(state).graph.wf(),
    ensures
        final(state).graph.wf(),
        closed_with(*old(state), *final(state), e@, eff),
{
    let none = set_modal(state, None);
    assert(none@ =~= Seq::<Effect>::empty());
    let e = vec![eff];
    assert(e@ =~= seq![eff]);
    e
}

fn describe_open(state: &mut AppState) -> (e: Vec<Effect>)
    requires
        old(state).graph.wf(),
    ensures
        final(state).graph.wf(),
        describe_opened(*old(state), *final(state), e@),
{
    let opened = match state.selected_detail() {
        Some(d) => {
            let text = String::from_str(d.description.as_str());
            match state.selected_change_id() {
                Some(id) => Some(Modal::Describe { change_id: String::from_str(id), text }),
                None => None,
            }
        },
        None => None,
    };
    match opened {
        Some(m) => set_modal(state, Some(m)),
        None => settle_keep_modal(state),
    }
}

fn settle_keep_modal(state: &mut AppState) -> (e: Vec<Effect>)
    requires
        old(state).graph.wf(),
    ensures
        final(state).graph.wf(),
        overlay_step(*old(state), *final(state), e@),
        final(state).modal == old(state).modal,
{
    let m = state.modal.take();
    set_modal(state, m)
}

fn describe_finish(state: &mut AppState, escalate: bool) -> (e: Vec<Effect>)
    requires
        old(state).graph.wf(),
    ensures
        final(state).graph.wf(),
        describe_finished(*old(state), *final(state), e@, escalate),
{
    let m = state.modal.take();
    match m {
        Some(Modal::Describe { change_id, text }) => {
            let eff = if escalate {
                Effect::SuspendForEditor { change_id, initial_text: text }
            } else {
                Effect::Describe { change_id, text }
            };
            close_with(state, eff)
        },
        other => set_modal(state, other),
    }
}

fn bookmark_input_open(state: &mut AppState) -> (e: Vec<Effect>)
    requires
        old(state).graph.wf(),
    ensures
        final(state).graph.wf(),
        bookmark_input_opened(*old(state), *final(state), e@),
{
    let id = match state.selected_change_id() {
        Some(id) => Some(String::from_str(id)),
        None => None,
    };
    match id {
        Some(change_id) => {
            let pairs = collect_bookmarks(&state.graph);
            let mut names: Vec<String> = Vec::new();
            let mut i: usize = 0;
            while i < pairs.len()
                invariant
                    i <= pairs@.len(),
                    pairs_view(pairs@) == bookmark_list(state.graph, state.graph.node_index_seq()),
                    strings_view(names@) == pairs_view(pairs@).take(i as int).map_values(
                        |p: (Seq<char>, Seq<char>)| p.0,
                    ),
                decreases pairs@.len() - i,
            {
                let ghost before = names@;
                let name = String::from_str(pairs[i].0.as_str());
                names.push(name);
                let ghost pv = pairs_view(pairs@);
                assert(pv[i as int].0 == pairs@[i as int].0@);
                assert(strings_view(names@) =~= strings_view(before).push(name@));
                assert(pv.take(i + 1).map_values(|p: (Seq<char>, Seq<char>)| p.0) =~= pv.take(
                    i as int,
                ).map_values(|p: (Seq<char>, Seq<char>)| p.0).push(pv[i as int].0));
                i += 1;
            }
            assert(pairs_view(pairs@).take(i as int) =~= pairs_view(pairs@));
            let m = Modal::BookmarkInput { change_id, input: String::new(), completions: names, cursor: 0 };
            set_modal(state, Some(m))
        },
        None => settle_keep_modal(state),
    }
}

fn bookmark_input_edit(state: &mut AppState, typed_char: Option<char>) -> (e: Vec<Effect>)
    requires
        old(state).graph.wf(),
    ensures
        final(state).graph.wf(),
        bookmark_input_edited(
            *old(state),
            *final(state),
            e@,
            match typed_char {
                Some(c) => typed(c),
                None => erased(),
            },
        ),
{
    let m = state.modal.take();
    let edited = match m {
        Some(Modal::BookmarkInput { change_id, input, completions, cursor }) => {
            let mut i = input;
            match typed_char {
                Some(c) => push_char(&mut i, c),
                None => {
                    pop_char(&mut i);
                },
            }
            Some(Modal::BookmarkInput { change_id, input: i, completions, cursor })
        },
        other => other,
    };
    set_modal(state, edited)
}

fn bookmark_input_confirm(state: &mut AppState) -> (e: Vec<Effect>)
    requires
        old(state).graph.wf(),
    ensures
        final(state).graph.wf(),
        bookmark_input_confirmed(*old(state), *final(state), e@),
{
    let m = state.modal.take();
    match m {
        Some(Modal::BookmarkInput { change_id, input, completions, cursor }) => {
            if input.as_str().is_empty() {
                set_modal(state, Some(Modal::BookmarkInput { change_id, input, completions, cursor }))
            } else {
                close_with(state, Effect::BookmarkSet { change_id, name: input })
            }
        },
        other => set_modal(state, other),
    }
}

/// Only the overlay changed (then the cursor check ran); no effect.
pub open spec fn overlay_step(s: AppState, t: AppState, e: Seq<Effect>) -> bool {
    &&& ui_step(s, t, e)
    &&& t.should_quit == s.should_quit
    &&& t.focus == s.focus
}

// ---------------------------------------------------------------------------
// Dispatch
// ---------------------------------------------------------------------------

/// What `dispatch` does with action `a` in state `s`: `t` is the state
/// afterwards and `e` the effects it asks for.
pub open spec fn dispatched(s: AppState, a: Action, t: AppState, e: Seq<Effect>) -> bool {
    let ns = s.graph.node_index_seq();
    match a {
        Action::MoveDown => navigated(s, t, e, or_stay(s, first_greater(ns, s.cursor))),
        Action::MoveUp => navigated(s, t, e, or_stay(s, last_smaller(ns, s.cursor))),
        Action::JumpToTop => navigated(s, t, e, if ns.len() > 0 { ns[0] } else { s.cursor }),
        Action::JumpToBottom => navigated(s, t, e, if ns.len() > 0 { ns.last() } else { s.cursor }),
        Action::JumpToWorkingCopy => match s.graph.working_copy_index {
            Some(w) => navigated(s, t, e, w),
            None => only_checked(s, t, e),
        },
        Action::Quit => {
            &&& ui_step(s, t, e)
            &&& t.should_quit
            &&& t.focus == s.focus
            &&& t.modal == s.modal
        },
        Action::Refresh => refreshed(s, t, e),
        Action::GraphLoaded { generation, result } => graph_loaded(s, generation, result, t, e),
        Action::TabFocus | Action::BackTabFocus => {
            &&& ui_step(s, t, e)
            &&& t.focus == other_panel(s.focus)
            &&& t.should_quit == s.should_quit
            &&& t.modal == s.modal
        },
        Action::DetailMoveDown => detail_moved_down(s, t, e),
        Action::DetailMoveUp => {
            &&& detail_step(s, t, e)
            &&& t.detail_cursor == step_up(s.detail_cursor)
            &&& t.detail_mode == s.detail_mode
            &&& t.diff_scroll == s.diff_scroll
            &&& t.diff_data == s.diff_data
        },
        Action::DetailEnter => detail_entered(s, t, e),
        Action::FileDiffLoaded(result) => file_diff_loaded(s, result, t, e),
        Action::DetailBack => detail_went_back(s, t, e),
        Action::DiffScrollDown => scrolled_to(s, t, e, scroll_down_target(s)),
        Action::DiffScrollUp => scrolled_to(s, t, e, step_up(s.diff_scroll) as int),
        Action::DiffNextHunk => scrolled_to(
            s,
            t,
            e,
            jump_target(s, next_header(s.diff_data@, s.diff_scroll as int, 0)),
        ),
        Action::DiffPrevHunk => scrolled_to(
            s,
            t,
            e,
            jump_target(
                s,
                prev_header(s.diff_data@, s.diff_scroll as int, s.diff_data@.len() as int),
            ),
        ),
        Action::ToggleOpLog => op_log_toggled(s, t, e),
        Action::OpLogLoaded(result) => op_log_loaded(s, result, t, e),
        Action::OpenBookmarks => {
            &&& overlay_step(s, t, e)
            &&& t.modal matches Some(Modal::BookmarkPicker { bookmarks, cursor })
            &&& pairs_view(bookmarks@) == bookmark_list(s.graph, ns)
            &&& cursor == 0
        },
        Action::OpenFuzzyFind => overlay_step(s, t, e) && fuzzy_shows(t.modal, s.graph, Seq::empty()),
        Action::OpenHelp => overlay_step(s, t, e) && t.modal == Some(
            Modal::Help { context: help_context(s), scroll: 0 },
        ),
        Action::ModalDismiss => overlay_step(s, t, e) && t.modal is None,
        Action::ModalMoveDown => overlay_step(s, t, e) && t.modal == modal_down(s.modal),
        Action::ModalMoveUp => overlay_step(s, t, e) && t.modal == modal_up(s.modal),
        Action::ModalEnter => modal_entered(s, t, e),
        Action::FuzzyInput(c) => fuzzy_edited(s, t, e, typed(c)),
        Action::FuzzyBackspace => fuzzy_edited(s, t, e, erased()),
        Action::OpenOmnibar => overlay_step(s, t, e) && omnibar_shows(t.modal, s.graph, Seq::empty()),
        Action::OmnibarInput(c) => omnibar_edited(s, t, e, typed(c)),
        Action::OmnibarBackspace => omnibar_edited(s, t, e, erased()),
        Action::OmnibarAcceptCompletion => completion_accepted(s, t, e),
        Action::OpenDescribe => describe_opened(s, t, e),
        Action::DescribeSave => describe_finished(s, t, e, false),
        Action::DescribeEscalateEditor => describe_finished(s, t, e, true),
        Action::OpenBookmarkSet => bookmark_input_opened(s, t, e),
        Action::BookmarkInputChar(c) => bookmark_input_edited(s, t, e, typed(c)),
        Action::BookmarkInputBackspace => bookmark_input_edited(s, t, e, erased()),
        Action::BookmarkInputConfirm => bookmark_input_confirmed(s, t, e),
        _ => only_checked(s, t, e),
    }
}

/// What `dispatch` needs of its input: a consistent graph (and a consistent
/// snapshot, when one arrives), and a diff whose rendered length fits in
/// `usize` when the diff is scrolled.
pub open spec fn dispatch_ready(s: AppState, a: Action) -> bool {
    &&& s.graph.wf()
    &&& (a matches Action::GraphLoaded { result: Ok(g), .. } ==> g.wf())
    &&& ((a is DiffScrollDown || a is DiffNextHunk || a is DiffPrevHunk) ==> diff_total(
        s.diff_data@,
    ) <= usize::MAX)
    &&& (a matches Action::OmnibarInput(c) ==> omnibar_edit_fits(s.modal, typed(c)))
    &&& (a is OmnibarBackspace ==> omnibar_edit_fits(s.modal, erased()))
    &&& (a is OmnibarAcceptCompletion ==> accept_fits(s.modal))
}

/// Applies `action` to `state` and returns the effects the executor should
/// run. After every action but those that return an effect, a cursor left on
/// a connector line is reported and moved to the first node line.
pub fn dispatch(state: &mut AppState, action: Action) -> (effects: Vec<Effect>)
    requires
        dispatch_ready(*old(state), action),
    ensures
        final(state).graph.wf(),
        old(state).wf() ==> final(state).wf(),
        dispatched(*old(state), action, *final(state), effects@),
{
    match action {
        Action::MoveDown => {
            let c = match first_greater_exec(state.graph.node_indices(), state.cursor) {
                Some(n) => n,
                None => state.cursor,
            };
            move_to(state, c)
        },
        Action::MoveUp => {
            let c = match last_smaller_exec(state.graph.node_indices(), state.cursor) {
                Some(n) => n,
                None => state.cursor,
            };
            move_to(state, c)
        },
        Action::JumpToTop => {
            let nodes = state.graph.node_indices();
            let c = if nodes.len() > 0 {
                nodes[0]
            } else {
                state.cursor
            };
            move_to(state, c)
        },
        Action::JumpToBottom => {
            let nodes = state.graph.node_indices();
            let c = if nodes.len() > 0 {
                nodes[nodes.len() - 1]
            } else {
                state.cursor
            };
            move_to(state, c)
        },
        Action::JumpToWorkingCopy => match state.graph.working_copy_index {
            Some(w) => move_to(state, w),
            None => settle(state),
        },
        Action::Quit => quit(state),
        Action::Refresh => refresh(state),
        Action::GraphLoaded { generation, result } => load_graph_result(state, generation, result),
        Action::TabFocus | Action::BackTabFocus => toggle_focus(state),
        Action::DetailMoveDown => detail_move_down(state),
        Action::DetailMoveUp => detail_move_up(state),
        Action::DetailEnter => detail_enter(state),
        Action::FileDiffLoaded(result) => load_file_diff_result(state, result),
        Action::DetailBack => detail_back(state),
        Action::DiffScrollDown => {
            let total = diff_len(&state.diff_data);
            let n = if total > 0 && state.diff_scroll < total - 1 {
                state.diff_scroll + 1
            } else {
                state.diff_scroll
            };
            scroll_to(state, n)
        },
        Action::DiffScrollUp => {
            let n = up_in(state.diff_scroll);
            scroll_to(state, n)
        },
        Action::DiffNextHunk => {
            let n = match next_header_exec(&state.diff_data, state.diff_scroll) {
                Some(o) => o,
                None => state.diff_scroll,
            };
            scroll_to(state, n)
        },
        Action::DiffPrevHunk => {
            let n = match prev_header_exec(&state.diff_data, state.diff_scroll) {
                Some(o) => o,
                None => state.diff_scroll,
            };
            scroll_to(state, n)
        },
        Action::ToggleOpLog => toggle_op_log(state),
        Action::OpLogLoaded(result) => load_op_log_result(state, result),
        Action::OpenBookmarks => {
            let bookmarks = collect_bookmarks(&state.graph);
            set_modal(state, Some(Modal::BookmarkPicker { bookmarks, cursor: 0 }))
        },
        Action::OpenFuzzyFind => {
            let query = String::new();
            let matches = fuzzy_match(query.as_str(), &state.graph);
            set_modal(state, Some(Modal::FuzzyFind { query, matches, cursor: 0 }))
        },
        Action::OpenHelp => {
            let context = match state.focus {
                PanelFocus::Graph => HelpContext::Graph,
                PanelFocus::Detail => match state.detail_mode {
                    DetailMode::DiffView => HelpContext::DetailDiffView,
                    _ => HelpContext::DetailFileList,
                },
            };
            set_modal(state, Some(Modal::Help { context, scroll: 0 }))
        },
        Action::ModalDismiss => set_modal(state, None),
        Action::ModalMoveDown => modal_move(state, true),
        Action::ModalMoveUp => modal_move(state, false),
        Action::ModalEnter => modal_enter(state),
        Action::FuzzyInput(c) => fuzzy_edit(state, Some(c)),
        Action::FuzzyBackspace => fuzzy_edit(state, None),
        Action::OpenOmnibar => {
            let m = omnibar_for(String::new(), &state.graph);
            set_modal(state, Some(m))
        },
        Action::OmnibarInput(c) => omnibar_edit(state, Some(c)),
        Action::OmnibarBackspace => omnibar_edit(state, None),
        Action::OmnibarAcceptCompletion => omnibar_accept(state),
        Action::OpenDescribe => describe_open(state),
        Action::DescribeSave => describe_finish(state, false),
        Action::DescribeEscalateEditor => describe_finish(state, true),
        Action::OpenBookmarkSet => bookmark_input_open(state),
        Action::BookmarkInputChar(c) => bookmark_input_edit(state, Some(c)),
        Action::BookmarkInputBackspace => bookmark_input_edit(state, None),
        Action::BookmarkInputConfirm => bookmark_input_confirm(state),
        _ => settle(state),
    }
}

} // verus!
