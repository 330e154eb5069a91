//! Properties of the state machine that span actions: what every action
//! keeps, and what the navigation actions guarantee.

use vstd::prelude::*;

use crate::action::Action;
use crate::app::AppState;
use crate::dispatch::{
    diff_total, dispatch_ready, dispatched, first_greater, hunk_offset, last_smaller, next_header,
    node_with_id, on_connector, prev_header, selected_id,
};
use crate::effect::Effect;
use crate::modal::{Modal, help_line_count};
use crate::types::{GraphData, is_node, opt_string_view};
use crate::input::{KeyCode, KeyEvent, key_binding, key_is, modal_binding, ctrl};
use crate::action::{DetailMode, PanelFocus};
use crate::omnibar::{
    call_text, completions_spec, function_items, insert_sorted, lex_lt, revset_table, sort_dedup,
};
use crate::action::Arity;
use crate::text::starts_with;
use crate::cli::{
    JjMutation, OpLogFailure, file_line_spec, jj_args_spec, op_fold, op_step, parse_op_log_spec,
    status_for, strip_glyphs,
};
use crate::fuzzy::{fuzzy_key, is_ranking, nucleo_score};
use crate::text::{
    first_index, is_ascii_upper, is_char, is_ws, lemma_first_match, lemma_split_newlines_single,
    lemma_split_on_two, lines_spec, split_newlines, split_on, trim, trim_end, trim_start,
};
use crate::types::{FileStatus, OpLogEntryV, status_code};

verus! {

/// The cursor of graph `g` is not on a connector line, unless `g` has no
/// node line at all.
pub open spec fn cursor_ok(g: GraphData, c: usize) -> bool {
    !on_connector(g, c) || g.node_index_seq().len() == 0
}

/// Whatever the action, the cursor is never left on a connector line (a
/// graph line without a change), unless the graph has no change at all.
pub proof fn law_cursor_never_on_connector(s: AppState, a: Action, t: AppState, e: Seq<Effect>)
    requires
        dispatch_ready(s, a),
        cursor_ok(s.graph, s.cursor),
        dispatched(s, a, t, e),
    ensures
        cursor_ok(t.graph, t.cursor),
{
    if t.graph.node_index_seq().len() > 0 {
        assert(t.graph.lines@[t.graph.node_index_seq()[0] as int].change_id is Some);
    }
}

proof fn lemma_first_greater(ns: Seq<usize>, c: usize)
    requires
        forall|k: int, m: int| 0 <= k < m < ns.len() ==> #[trigger] ns[k] < #[trigger] ns[m],
    ensures
        match first_greater(ns, c) {
            Some(n) => {
                &&& n > c
                &&& ns.contains(n)
                &&& forall|k: int| 0 <= k < ns.len() && ns[k] > c ==> #[trigger] ns[k] >= n
            },
            None => forall|k: int| 0 <= k < ns.len() ==> #[trigger] ns[k] <= c,
        },
    decreases ns.len(),
{
    if ns.len() > 0 {
        let rest = ns.drop_first();
        lemma_first_greater(rest, c);
        if ns[0] > c {
            assert(ns[0] == ns[0]);
            assert(forall|k: int| 0 < k < ns.len() ==> ns[0] < #[trigger] ns[k]);
        } else {
            assert forall|k: int| 0 <= k < ns.len() && ns[k] > c implies #[trigger] ns[k]
                >= first_greater(ns, c)->0 by {
                assert(k > 0);
                assert(ns[k] == rest[k - 1]);
            }
            if first_greater(rest, c) is Some {
                let n = first_greater(rest, c)->0;
                let w = choose|w: int| 0 <= w < rest.len() && rest[w] == n;
                assert(ns[w + 1] == n);
            }
            assert forall|k: int| 0 <= k < ns.len() && first_greater(ns, c) is None implies #[trigger] ns[k] <= c by {
                if k > 0 {
                    assert(ns[k] == rest[k - 1]);
                }
            }
        }
    }
}

proof fn lemma_last_smaller(ns: Seq<usize>, c: usize)
    requires
        forall|k: int, m: int| 0 <= k < m < ns.len() ==> #[trigger] ns[k] < #[trigger] ns[m],
    ensures
        match last_smaller(ns, c) {
            Some(n) => {
                &&& n < c
                &&& ns.contains(n)
                &&& forall|k: int| 0 <= k < ns.len() && ns[k] < c ==> #[trigger] ns[k] <= n
            },
            None => forall|k: int| 0 <= k < ns.len() ==> #[trigger] ns[k] >= c,
        },
    decreases ns.len(),
{
    if ns.len() > 0 {
        let rest = ns.drop_last();
        lemma_last_smaller(rest, c);
        let l = ns.len() - 1;
        if ns[l] < c {
            assert(ns[l] == ns[l]);
            assert(forall|k: int| 0 <= k < l ==> #[trigger] ns[k] < ns[l]);
        } else {
            assert forall|k: int| 0 <= k < ns.len() && ns[k] < c implies #[trigger] ns[k]
                <= last_smaller(ns, c)->0 by {
                assert(k < l);
                assert(ns[k] == rest[k]);
            }
            if last_smaller(rest, c) is Some {
                let n = last_smaller(rest, c)->0;
                let w = choose|w: int| 0 <= w < rest.len() && rest[w] == n;
                assert(ns[w] == n);
            }
            assert forall|k: int| 0 <= k < ns.len() && last_smaller(ns, c) is None implies #[trigger] ns[k] >= c by {
                if k < l {
                    assert(ns[k] == rest[k]);
                }
            }
        }
    }
}

/// `MoveDown` goes to the nearest change line below the cursor, skipping
/// connector lines; with no change below, a cursor on a change stays put.
pub proof fn law_move_down_nearest(s: AppState, t: AppState, e: Seq<Effect>)
    requires
        s.graph.wf(),
        dispatched(s, Action::MoveDown, t, e),
    ensures
        (exists|i: int| s.cursor < i && is_node(s.graph.lines@, i)) ==> {
            &&& s.cursor < t.cursor
            &&& is_node(t.graph.lines@, t.cursor as int)
            &&& forall|i: int| s.cursor < i < t.cursor ==> !is_node(t.graph.lines@, i)
        },
        (forall|i: int| s.cursor < i ==> !is_node(s.graph.lines@, i)) && is_node(
            s.graph.lines@,
            s.cursor as int,
        ) ==> t.cursor == s.cursor,
{
    let g = s.graph;
    let ns = g.node_index_seq();
    lemma_first_greater(ns, s.cursor);
    if exists|i: int| s.cursor < i && is_node(g.lines@, i) {
        let i = choose|i: int| s.cursor < i && is_node(g.lines@, i);
        assert(g.lines@[i].change_id is Some);
        assert(ns.contains(i as usize));
        let w = choose|w: int| 0 <= w < ns.len() && ns[w] == i as usize;
        assert(ns[w] > s.cursor);
        let n = first_greater(ns, s.cursor)->0;
        let v = choose|v: int| 0 <= v < ns.len() && ns[v] == n;
        assert(g.lines@[ns[v] as int].change_id is Some);
        assert forall|j: int| s.cursor < j < t.cursor implies !is_node(t.graph.lines@, j) by {
            if is_node(g.lines@, j) {
                assert(g.lines@[j].change_id is Some);
                assert(ns.contains(j as usize));
                let x = choose|x: int| 0 <= x < ns.len() && ns[x] == j as usize;
                assert(ns[x] > s.cursor);
            }
        }
    }
    if (forall|i: int| s.cursor < i ==> !is_node(g.lines@, i)) && is_node(g.lines@, s.cursor as int) {
        if first_greater(ns, s.cursor) is Some {
            let n = first_greater(ns, s.cursor)->0;
            let v = choose|v: int| 0 <= v < ns.len() && ns[v] == n;
            assert(g.lines@[ns[v] as int].change_id is Some);
            assert(is_node(g.lines@, n as int));
        }
    }
}

/// `MoveUp` goes to the nearest change line above the cursor, skipping
/// connector lines; with no change above, a cursor on a change stays put.
pub proof fn law_move_up_nearest(s: AppState, t: AppState, e: Seq<Effect>)
    requires
        s.graph.wf(),
        dispatched(s, Action::MoveUp, t, e),
    ensures
        (exists|i: int| 0 <= i < s.cursor && is_node(s.graph.lines@, i)) ==> {
            &&& t.cursor < s.cursor
            &&& is_node(t.graph.lines@, t.cursor as int)
            &&& forall|i: int| t.cursor < i < s.cursor ==> !is_node(t.graph.lines@, i)
        },
        (forall|i: int| 0 <= i < s.cursor ==> !is_node(s.graph.lines@, i)) && is_node(
            s.graph.lines@,
            s.cursor as int,
        ) ==> t.cursor == s.cursor,
{
    let g = s.graph;
    let ns = g.node_index_seq();
    lemma_last_smaller(ns, s.cursor);
    if exists|i: int| 0 <= i < s.cursor && is_node(g.lines@, i) {
        let i = choose|i: int| 0 <= i < s.cursor && is_node(g.lines@, i);
        assert(g.lines@[i].change_id is Some);
        assert(ns.contains(i as usize));
        let w = choose|w: int| 0 <= w < ns.len() && ns[w] == i as usize;
        assert(ns[w] < s.cursor);
        let n = last_smaller(ns, s.cursor)->0;
        let v = choose|v: int| 0 <= v < ns.len() && ns[v] == n;
        assert(g.lines@[ns[v] as int].change_id is Some);
        assert forall|j: int| t.cursor < j < s.cursor implies !is_node(t.graph.lines@, j) by {
            if is_node(g.lines@, j) {
                assert(g.lines@[j].change_id is Some);
                assert(ns.contains(j as usize));
                let x = choose|x: int| 0 <= x < ns.len() && ns[x] == j as usize;
                assert(ns[x] < s.cursor);
            }
        }
    }
    if (forall|i: int| 0 <= i < s.cursor ==> !is_node(g.lines@, i)) && is_node(
        g.lines@,
        s.cursor as int,
    ) {
        if last_smaller(ns, s.cursor) is Some {
            let n = last_smaller(ns, s.cursor)->0;
            let v = choose|v: int| 0 <= v < ns.len() && ns[v] == n;
            assert(g.lines@[ns[v] as int].change_id is Some);
            assert(is_node(g.lines@, n as int));
        }
    }
}


/// The graph generation never goes back, and a snapshot older than the
/// current generation never replaces the graph.
pub proof fn law_generation_never_decreases(s: AppState, a: Action, t: AppState, e: Seq<Effect>)
    requires
        dispatched(s, a, t, e),
    ensures
        t.graph_generation >= s.graph_generation,
        a matches Action::GraphLoaded { generation, .. } && generation < s.graph_generation
            ==> t.graph == s.graph,
{
}

proof fn lemma_node_with_id(g: GraphData, ns: Seq<usize>, id: Seq<char>)
    ensures
        node_with_id(g, ns, id) matches Some(i) ==> ns.contains(i) && i < g.lines@.len()
            && opt_string_view(g.lines@[i as int].change_id) == Some(id),
        (exists|k: int|
            0 <= k < ns.len() && ns[k] < g.lines@.len() && opt_string_view(
                g.lines@[ns[k] as int].change_id,
            ) == Some(id)) ==> node_with_id(g, ns, id) is Some,
    decreases ns.len(),
{
    if ns.len() > 0 {
        let rest = ns.drop_first();
        lemma_node_with_id(g, rest, id);
        if node_with_id(g, ns, id) is Some && !(ns[0] < g.lines@.len() && opt_string_view(
            g.lines@[ns[0] as int].change_id,
        ) == Some(id)) {
            let i = node_with_id(g, ns, id)->0;
            let w = choose|w: int| 0 <= w < rest.len() && rest[w] == i;
            assert(ns[w + 1] == i);
        }
        if exists|k: int|
            0 <= k < ns.len() && ns[k] < g.lines@.len() && opt_string_view(
                g.lines@[ns[k] as int].change_id,
            ) == Some(id) {
            let k = choose|k: int|
                0 <= k < ns.len() && ns[k] < g.lines@.len() && opt_string_view(
                    g.lines@[ns[k] as int].change_id,
                ) == Some(id);
            if k > 0 {
                assert(rest[k - 1] == ns[k]);
            }
        }
    }
}

/// A refreshed graph keeps the cursor on the selected change when that
/// change is still in the new graph (unless the state was asked to follow
/// the working copy).
pub proof fn law_reload_keeps_selected_change(
    s: AppState,
    generation: u64,
    g: GraphData,
    id: Seq<char>,
    t: AppState,
    e: Seq<Effect>,
)
    requires
        s.graph.wf(),
        g.wf(),
        !s.cursor_follows_working_copy,
        generation >= s.graph_generation,
        selected_id(s) == Some(id),
        exists|i: int| is_node(g.lines@, i) && g.lines@[i].change_id->0@ == id,
        dispatched(s, Action::GraphLoaded { generation, result: Ok(g) }, t, e),
    ensures
        selected_id(t) == Some(id),
        t.graph == g,
{
    let ns = g.node_index_seq();
    let i = choose|i: int| is_node(g.lines@, i) && g.lines@[i].change_id->0@ == id;
    assert(g.lines@[i].change_id is Some);
    assert(ns.contains(i as usize));
    let k = choose|k: int| 0 <= k < ns.len() && ns[k] == i as usize;
    assert(ns[k] < g.lines@.len() && opt_string_view(g.lines@[ns[k] as int].change_id) == Some(id));
    lemma_node_with_id(g, ns, id);
    let n = node_with_id(g, ns, id)->0;
    let w = choose|w: int| 0 <= w < ns.len() && ns[w] == n;
    assert(g.lines@[ns[w] as int].change_id is Some);
}

/// A state asked to follow the working copy puts the cursor on the working
/// copy of the next snapshot it accepts, and stops following.
pub proof fn law_reload_follows_working_copy(
    s: AppState,
    generation: u64,
    g: GraphData,
    w: usize,
    t: AppState,
    e: Seq<Effect>,
)
    requires
        s.cursor_follows_working_copy,
        generation >= s.graph_generation,
        g.working_copy_index == Some(w),
        is_node(g.lines@, w as int),
        dispatched(s, Action::GraphLoaded { generation, result: Ok(g) }, t, e),
    ensures
        t.cursor == w,
        !t.cursor_follows_working_copy,
{
}

/// Switching the focus twice brings it back to the panel it started on.
pub proof fn law_focus_toggle_twice(
    s: AppState,
    u: AppState,
    t: AppState,
    e1: Seq<Effect>,
    e2: Seq<Effect>,
)
    requires
        dispatched(s, Action::TabFocus, u, e1),
        dispatched(u, Action::TabFocus, t, e2),
    ensures
        t.focus == s.focus,
{
}

proof fn lemma_offset_mono(h: Seq<crate::types::DiffHunk>, a: int, b: int)
    requires
        0 <= a <= b,
    ensures
        hunk_offset(h, a) <= hunk_offset(h, b),
        a < b ==> hunk_offset(h, a) < hunk_offset(h, b),
    decreases b - a,
{
    if a < b {
        lemma_offset_mono(h, a, b - 1);
    }
}

proof fn lemma_next_header(h: Seq<crate::types::DiffHunk>, scroll: int, k: int)
    requires
        0 <= k,
    ensures
        next_header(h, scroll, k) matches Some(o) ==> scroll < o < diff_total(h),
    decreases h.len() - k,
{
    if k < h.len() {
        if hunk_offset(h, k) > scroll {
            lemma_offset_mono(h, k, h.len() as int);
        } else {
            lemma_next_header(h, scroll, k + 1);
        }
    }
}

proof fn lemma_prev_header(h: Seq<crate::types::DiffHunk>, scroll: int, k: int)
    ensures
        prev_header(h, scroll, k) matches Some(o) ==> 0 <= o < scroll,
    decreases k,
{
    if k > 0 {
        lemma_offset_mono(h, 0, k - 1);
        lemma_prev_header(h, scroll, k - 1);
    }
}

/// Scrolling the diff never takes the view past its last line, and the
/// hunk jumps move in the direction asked for.
pub proof fn law_diff_scroll_in_bounds(s: AppState, a: Action, t: AppState, e: Seq<Effect>)
    requires
        a is DiffScrollDown || a is DiffScrollUp || a is DiffNextHunk || a is DiffPrevHunk,
        s.diff_scroll < diff_total(s.diff_data@),
        dispatched(s, a, t, e),
    ensures
        t.diff_data == s.diff_data,
        t.diff_scroll < diff_total(t.diff_data@),
        a is DiffNextHunk ==> t.diff_scroll >= s.diff_scroll,
        a is DiffPrevHunk ==> t.diff_scroll <= s.diff_scroll,
{
    lemma_next_header(s.diff_data@, s.diff_scroll as int, 0);
    lemma_prev_header(s.diff_data@, s.diff_scroll as int, s.diff_data@.len() as int);
}

/// Whether the overlay's cursor (or the help page's scroll position) is on
/// an entry of its list.
pub open spec fn modal_in_range(m: Option<Modal>) -> bool {
    match m {
        Some(Modal::OpLog { entries, cursor, .. }) => cursor < entries@.len(),
        Some(Modal::BookmarkPicker { bookmarks, cursor }) => cursor < bookmarks@.len(),
        Some(Modal::FuzzyFind { matches, cursor, .. }) => cursor < matches@.len(),
        Some(Modal::Help { context, scroll }) => scroll < help_line_count(context),
        Some(Modal::Omnibar { matches, cursor, completions, completion_cursor, .. }) => if completions@.len() > 0 {
            completion_cursor < completions@.len()
        } else {
            cursor < matches@.len()
        },
        Some(Modal::Describe { .. }) | Some(Modal::BookmarkInput { .. }) => true,
        None => true,
    }
}

/// Moving in an overlay never takes its cursor off its list.
pub proof fn law_modal_cursor_in_range(s: AppState, a: Action, t: AppState, e: Seq<Effect>)
    requires
        a is ModalMoveDown || a is ModalMoveUp,
        modal_in_range(s.modal),
        dispatched(s, a, t, e),
    ensures
        modal_in_range(t.modal),
{
}

/// Moving in the file list never takes the file cursor off the files of
/// the selected change.
pub proof fn law_detail_cursor_in_range(s: AppState, a: Action, t: AppState, e: Seq<Effect>)
    requires
        a is DetailMoveDown || a is DetailMoveUp,
        s.graph.detail_at_spec(s.cursor as int) matches Some(d) && s.detail_cursor < d.files@.len(),
        dispatched(s, a, t, e),
    ensures
        t.graph.detail_at_spec(t.cursor as int) matches Some(d) && t.detail_cursor < d.files@.len(),
{
}


/// `?` opens the help wherever the focus is and whatever the detail panel
/// shows (when no overlay is open).
pub proof fn law_help_always_available(e: KeyEvent, focus: PanelFocus, mode: DetailMode)
    requires
        key_is(e, '?'),
    ensures
        key_binding(e, focus, mode) == Some(Action::OpenHelp),
{
}

/// Control-C always works: it cancels the hunk picker, and quits
/// everywhere else.
pub proof fn law_ctrl_c_always_works(e: KeyEvent, focus: PanelFocus, mode: DetailMode)
    requires
        ctrl(e, 'c'),
    ensures
        key_binding(e, focus, mode) == Some(
            if mode == DetailMode::HunkPicker {
                Action::HunkCancel
            } else {
                Action::Quit
            },
        ),
{
}

/// Esc closes any overlay.
pub proof fn law_esc_closes_overlay(e: KeyEvent, m: Modal)
    requires
        e.code == KeyCode::Esc,
    ensures
        modal_binding(e, m) == Some(Action::ModalDismiss),
{
}

/// Typing a character into the fuzzy finder and erasing it gives back the
/// query it started with.
pub proof fn law_fuzzy_type_then_erase(
    s: AppState,
    c: char,
    u: AppState,
    t: AppState,
    e1: Seq<Effect>,
    e2: Seq<Effect>,
)
    requires
        s.modal matches Some(Modal::FuzzyFind { .. }),
        dispatched(s, Action::FuzzyInput(c), u, e1),
        dispatched(u, Action::FuzzyBackspace, t, e2),
    ensures
        t.modal matches Some(Modal::FuzzyFind { query, .. }) && s.modal matches Some(
            Modal::FuzzyFind { query: q0, .. },
        ) && query@ == q0@,
{
    let q0 = s.modal->0->FuzzyFind_query@;
    assert(q0.push(c).drop_last() =~= q0);
}

/// A loaded operation log closes again when the log key is pressed.
pub proof fn law_op_log_toggle_closes(
    s: AppState,
    entries: Vec<crate::types::OpLogEntry>,
    u: AppState,
    t: AppState,
    e1: Seq<Effect>,
    e2: Seq<Effect>,
)
    requires
        dispatched(s, Action::OpLogLoaded(Ok(entries)), u, e1),
        dispatched(u, Action::ToggleOpLog, t, e2),
    ensures
        t.modal is None,
        e2.len() == 0,
{
}

/// The omnibar offers at most twenty completions.
pub proof fn law_completions_capped(wl: Seq<char>, g: GraphData)
    ensures
        completions_spec(wl, g).len() <= 20,
{
}

/// `s` is in strictly increasing order.
pub open spec fn strictly_sorted(s: Seq<Seq<char>>) -> bool {
    forall|i: int, j: int| 0 <= i < j < s.len() ==> lex_lt(#[trigger] s[i], #[trigger] s[j])
}

proof fn lemma_lex_irreflexive(a: Seq<char>)
    ensures
        !lex_lt(a, a),
    decreases a.len(),
{
    if a.len() > 0 {
        lemma_lex_irreflexive(a.drop_first());
    }
}

proof fn lemma_lex_total(a: Seq<char>, b: Seq<char>)
    ensures
        a == b || lex_lt(a, b) || lex_lt(b, a),
    decreases a.len(),
{
    if a.len() > 0 && b.len() > 0 && a[0] == b[0] {
        lemma_lex_total(a.drop_first(), b.drop_first());
        if a.drop_first() == b.drop_first() {
            assert(a =~= seq![a[0]] + a.drop_first());
            assert(b =~= seq![b[0]] + b.drop_first());
        }
    } else if a.len() == 0 && b.len() == 0 {
        assert(a =~= b);
    }
}

proof fn lemma_lex_trans(a: Seq<char>, b: Seq<char>, c: Seq<char>)
    requires
        lex_lt(a, b),
        lex_lt(b, c),
    ensures
        lex_lt(a, c),
    decreases a.len(),
{
    if a.len() > 0 && b.len() > 0 && c.len() > 0 && a[0] == b[0] && b[0] == c[0] {
        lemma_lex_trans(a.drop_first(), b.drop_first(), c.drop_first());
    }
}

proof fn lemma_lex_asym(a: Seq<char>, b: Seq<char>)
    requires
        lex_lt(a, b),
    ensures
        !lex_lt(b, a),
        a != b,
{
    lemma_lex_irreflexive(a);
    if lex_lt(b, a) {
        lemma_lex_trans(a, b, a);
    }
}

proof fn lemma_insert_sorted(s: Seq<Seq<char>>, x: Seq<char>)
    requires
        strictly_sorted(s),
    ensures
        strictly_sorted(insert_sorted(s, x)),
        insert_sorted(s, x).to_set() == s.to_set().insert(x),
    decreases s.len(),
{
    let r = insert_sorted(s, x);
    if s.len() == 0 {
        assert(r.to_set() =~= s.to_set().insert(x)) by {
            assert forall|y| r.to_set().contains(y) <==> s.to_set().insert(x).contains(y) by {
                if y == x {
                    assert(r[0] == x);
                }
            }
        }
    } else if x == s[0] {
        assert(s.to_set().contains(x));
        assert(s.to_set().insert(x) =~= s.to_set());
    } else if lex_lt(x, s[0]) {
        assert forall|i: int, j: int| 0 <= i < j < r.len() implies lex_lt(#[trigger] r[i], #[trigger] r[j]) by {
            if i == 0 {
                if j > 1 {
                    lemma_lex_trans(x, s[0], s[j - 1]);
                }
            } else {
                assert(r[i] == s[i - 1] && r[j] == s[j - 1]);
            }
        }
        assert forall|y| r.to_set().contains(y) <==> s.to_set().insert(x).contains(y) by {
            if r.to_set().contains(y) {
                let k = choose|k: int| 0 <= k < r.len() && r[k] == y;
                if k > 0 {
                    assert(s[k - 1] == y);
                }
            }
            if s.to_set().contains(y) {
                let k = choose|k: int| 0 <= k < s.len() && s[k] == y;
                assert(r[k + 1] == y);
            }
            if y == x {
                assert(r[0] == x);
            }
        }
        assert(r.to_set() =~= s.to_set().insert(x));
    } else {
        lemma_lex_total(x, s[0]);
        let rest = s.drop_first();
        assert forall|i: int, j: int| 0 <= i < j < rest.len() implies lex_lt(#[trigger] rest[i], #[trigger] rest[j]) by {
            assert(rest[i] == s[i + 1] && rest[j] == s[j + 1]);
        }
        lemma_insert_sorted(rest, x);
        let tail = insert_sorted(rest, x);
        assert forall|k: int| 0 <= k < tail.len() implies lex_lt(s[0], #[trigger] tail[k]) by {
            assert(tail.to_set().contains(tail[k]));
            assert(rest.to_set().insert(x).contains(tail[k]));
            if tail[k] != x {
                let m = choose|m: int| 0 <= m < rest.len() && rest[m] == tail[k];
                assert(s[m + 1] == tail[k]);
            }
        }
        assert forall|i: int, j: int| 0 <= i < j < r.len() implies lex_lt(#[trigger] r[i], #[trigger] r[j]) by {
            if i == 0 {
                assert(r[j] == tail[j - 1]);
            } else {
                assert(r[i] == tail[i - 1] && r[j] == tail[j - 1]);
            }
        }
        assert forall|y| r.to_set().contains(y) <==> s.to_set().insert(x).contains(y) by {
            if r.to_set().contains(y) {
                let k = choose|k: int| 0 <= k < r.len() && r[k] == y;
                if k > 0 {
                    assert(tail[k - 1] == y);
                    assert(tail.to_set().contains(y));
                    if y != x {
                        let m = choose|m: int| 0 <= m < rest.len() && rest[m] == y;
                        assert(s[m + 1] == y);
                    }
                }
            }
            if s.to_set().contains(y) {
                let k = choose|k: int| 0 <= k < s.len() && s[k] == y;
                if k > 0 {
                    assert(rest[k - 1] == y);
                    assert(rest.to_set().contains(y));
                    assert(tail.to_set().contains(y));
                    let m = choose|m: int| 0 <= m < tail.len() && tail[m] == y;
                    assert(r[m + 1] == y);
                } else {
                    assert(r[0] == y);
                }
            }
            if y == x {
                assert(tail.to_set().contains(x));
                let m = choose|m: int| 0 <= m < tail.len() && tail[m] == x;
                assert(r[m + 1] == x);
            }
        }
        assert(r.to_set() =~= s.to_set().insert(x));
    }
}

/// The bookmarks the omnibar offers come sorted, each once: the distinct
/// names, in increasing order.
pub proof fn law_sort_dedup(s: Seq<Seq<char>>)
    ensures
        strictly_sorted(sort_dedup(s)),
        sort_dedup(s).to_set() == s.to_set(),
    decreases s.len(),
{
    if s.len() > 0 {
        law_sort_dedup(s.drop_last());
        lemma_insert_sorted(sort_dedup(s.drop_last()), s.last());
        assert(s.to_set() =~= s.drop_last().to_set().insert(s.last())) by {
            assert forall|y| s.to_set().contains(y) <==> s.drop_last().to_set().insert(s.last()).contains(y) by {
                if s.to_set().contains(y) && y != s.last() {
                    let k = choose|k: int| 0 <= k < s.len() && s[k] == y;
                    assert(s.drop_last()[k] == y);
                }
                if s.drop_last().to_set().contains(y) {
                    let k = choose|k: int| 0 <= k < s.drop_last().len() && s.drop_last()[k] == y;
                    assert(s[k] == y);
                }
                if y == s.last() {
                    assert(s[s.len() - 1] == y);
                }
            }
        }
    } else {
        assert(s.to_set() =~= Set::<Seq<char>>::empty());
        assert(sort_dedup(s).to_set() =~= Set::<Seq<char>>::empty());
    }
}

/// Creating a change after revision `r` runs exactly `jj new --insert-after r`:
/// the new change goes into the stack right after `r` and `r`'s children
/// are rebased onto it, instead of forking a sibling branch.
pub proof fn law_new_inserts_after(after: String)
    ensures
        jj_args_spec(JjMutation::New { after }) == seq![
            seq!['n', 'e', 'w'],
            seq!['-', '-', 'i', 'n', 's', 'e', 'r', 't', '-', 'a', 'f', 't', 'e', 'r'],
            after@,
        ],
{
    reveal_strlit("new");
    reveal_strlit("--insert-after");
    assert("new"@ =~= seq!['n', 'e', 'w']);
    assert("--insert-after"@ =~= seq![
        '-', '-', 'i', 'n', 's', 'e', 'r', 't', '-', 'a', 'f', 't', 'e', 'r'
    ]);
}

/// Every mutation runs the `jj` command that performs it on exactly the
/// change, text or bookmark it names: `describe <id> -m <text>`,
/// `edit <id>`, `abandon <id>`, `squash -r <id> -u` (keeping the parent's
/// description, with no editor), `undo`, `redo`,
/// `bookmark set <name> -r <id>`, `bookmark delete <name>`,
/// `git push --bookmark <name>` and `git fetch`.
pub proof fn law_jj_commands(id: String, text: String, name: String)
    ensures
        jj_args_spec(JjMutation::Describe { change_id: id, text: text }) == seq![
            "describe"@,
            id@,
            "-m"@,
            text@,
        ],
        jj_args_spec(JjMutation::Edit { change_id: id }) == seq!["edit"@, id@],
        jj_args_spec(JjMutation::Abandon { change_id: id }) == seq!["abandon"@, id@],
        jj_args_spec(JjMutation::Squash { change_id: id }) == seq!["squash"@, "-r"@, id@, "-u"@],
        jj_args_spec(JjMutation::Undo) == seq!["undo"@],
        jj_args_spec(JjMutation::Redo) == seq!["redo"@],
        jj_args_spec(JjMutation::BookmarkSet { change_id: id, name: name }) == seq![
            "bookmark"@,
            "set"@,
            name@,
            "-r"@,
            id@,
        ],
        jj_args_spec(JjMutation::BookmarkDelete { name: name }) == seq![
            "bookmark"@,
            "delete"@,
            name@,
        ],
        jj_args_spec(JjMutation::GitPush { bookmark: name }) == seq![
            "git"@,
            "push"@,
            "--bookmark"@,
            name@,
        ],
        jj_args_spec(JjMutation::GitFetch) == seq!["git"@, "fetch"@],
{
}

/// A file's status letter is read by one fixed table (`A` added, `M`
/// modified, `D` deleted, `R` renamed, any other letter kept as it is),
/// and the letter shown for a status read from `c` is `c` again.
pub proof fn law_status_letters(c: char)
    ensures
        status_for('A') == FileStatus::Added,
        status_for('M') == FileStatus::Modified,
        status_for('D') == FileStatus::Deleted,
        status_for('R') == FileStatus::Renamed,
        c != 'A' && c != 'M' && c != 'D' && c != 'R' ==> status_for(c) == FileStatus::Unknown(c),
        status_code(status_for(c)) == c,
{
}

/// A file summary line (after the graph glyphs: a capital letter, a space
/// and the path) is read as a file whose status shows the same letter and
/// whose path is the rest of the line, trimmed; a line whose letter is `D`
/// is a deleted file.
pub proof fn law_file_line_status(line: Seq<char>)
    requires
        strip_glyphs(line).len() >= 2,
        is_ascii_upper(strip_glyphs(line)[0]),
        strip_glyphs(line)[1] == ' ',
    ensures
        file_line_spec(line) is Some,
        status_code(file_line_spec(line)->0.status) == strip_glyphs(line)[0],
        strip_glyphs(line)[0] == 'D' ==> file_line_spec(line)->0.status == FileStatus::Deleted,
        file_line_spec(line)->0.path == trim(strip_glyphs(line).skip(2)),
{
    let c = strip_glyphs(line);
    assert(c.skip(1)[0] == ' ');
    assert(c.skip(1).drop_first() =~= c.skip(2));
    assert(trim_start(c.skip(1)) == trim_start(c.skip(2)));
}

proof fn lemma_no_char_in_concat(a: Seq<char>, b: Seq<char>, c: char)
    requires
        !a.contains(c),
        !b.contains(c),
    ensures
        !(a + b).contains(c),
{
    if (a + b).contains(c) {
        let k = choose|k: int| 0 <= k < (a + b).len() && (a + b)[k] == c;
        if k < a.len() {
            assert(a[k] == c);
        } else {
            assert(b[k - a.len()] == c);
        }
    }
}

/// The shape of one well-formed `jj op log` line: a non-blank id without
/// the unit separator, then a description and a non-blank timestamp
/// without the record separator, none of them holding a newline.
pub open spec fn op_line_parts_ok(id: Seq<char>, desc: Seq<char>, ts: Seq<char>) -> bool {
    &&& id.len() > 0
    &&& !is_ws(id[0])
    &&& ts.len() > 0
    &&& !is_ws(ts.last())
    &&& !id.contains('\x1F')
    &&& !desc.contains('\x1E')
    &&& !ts.contains('\x1E')
    &&& !id.contains('\n')
    &&& !desc.contains('\n')
    &&& !ts.contains('\n')
}

/// The op log line made of `id`, `desc` and `ts`.
pub open spec fn op_line(id: Seq<char>, desc: Seq<char>, ts: Seq<char>) -> Seq<char> {
    id + seq!['\x1F'] + desc + seq!['\x1E'] + ts
}

proof fn lemma_op_line(acc: Seq<OpLogEntryV>, id: Seq<char>, desc: Seq<char>, ts: Seq<char>)
    requires
        op_line_parts_ok(id, desc, ts),
    ensures
        op_step(acc, op_line(id, desc, ts)) == Ok::<Seq<OpLogEntryV>, OpLogFailure>(
            acc.push(OpLogEntryV { id: id, description: desc, timestamp: ts }),
        ),
        op_line(id, desc, ts).len() > 0,
        !op_line(id, desc, ts).contains('\n'),
        op_line(id, desc, ts).last() != '\r',
{
    let us = '\x1F';
    let rs = '\x1E';
    let line = op_line(id, desc, ts);
    let p = id.len() as int;
    assert(line[0] == id[0]);
    assert(line.last() == ts.last());
    assert(trim_start(line) == line);
    assert(trim_end(line) == line);
    assert(trim(line) == line);
    assert(line[p] == us);
    assert forall|k: int| 0 <= k < p implies !is_char(us)(#[trigger] line[k]) by {
        assert(line[k] == id[k]);
    }
    lemma_first_match(line, is_char(us), Some(p));
    assert(first_index(line, us) == Some(p));
    assert(line.take(p) =~= id);
    assert(line.skip(p + 1) =~= desc + seq![rs] + ts);
    lemma_split_on_two(desc, ts, rs);
    assert(split_on(line.skip(p + 1), rs) == seq![desc, ts]);
    assert(!line.contains('\n')) by {
        assert(!seq![us].contains('\n')) by {
            if seq![us].contains('\n') {
                let k = choose|k: int| 0 <= k < 1 && seq![us][k] == '\n';
            }
        }
        assert(!seq![rs].contains('\n')) by {
            if seq![rs].contains('\n') {
                let k = choose|k: int| 0 <= k < 1 && seq![rs][k] == '\n';
            }
        }
        lemma_no_char_in_concat(id, seq![us], '\n');
        lemma_no_char_in_concat(id + seq![us], desc, '\n');
        lemma_no_char_in_concat(id + seq![us] + desc, seq![rs], '\n');
        lemma_no_char_in_concat(id + seq![us] + desc + seq![rs], ts, '\n');
    }
}

/// One line `<id>\x1f<description>\x1e<timestamp>` of `jj op log` output is
/// read as the entry with that id, description and timestamp: the
/// timestamp is the text after the record separator, the description the
/// text between the unit separator and it. Output that is that line alone,
/// with or without a final newline, is that single entry.
pub proof fn law_op_log_line(id: Seq<char>, desc: Seq<char>, ts: Seq<char>)
    requires
        op_line_parts_ok(id, desc, ts),
    ensures
        ({
            let line = id + seq!['\x1F'] + desc + seq!['\x1E'] + ts;
            let e = OpLogEntryV { id: id, description: desc, timestamp: ts };
            &&& op_step(Seq::empty(), line) == Ok::<Seq<OpLogEntryV>, OpLogFailure>(seq![e])
            &&& parse_op_log_spec(line) == Ok::<Seq<OpLogEntryV>, OpLogFailure>(seq![e])
            &&& parse_op_log_spec(line.push('\n')) == Ok::<Seq<OpLogEntryV>, OpLogFailure>(
                seq![e],
            )
        }),
{
    let line = op_line(id, desc, ts);
    let e = OpLogEntryV { id: id, description: desc, timestamp: ts };
    lemma_op_line(Seq::empty(), id, desc, ts);
    assert(Seq::<OpLogEntryV>::empty().push(e) =~= seq![e]);
    lemma_split_newlines_single(line);
    assert(lines_spec(line) =~= seq![line]);
    assert(seq![line].drop_last() =~= Seq::<Seq<char>>::empty());
    assert(op_fold(Seq::<Seq<char>>::empty()) == Ok::<Seq<OpLogEntryV>, OpLogFailure>(
        Seq::empty(),
    ));
    assert(seq![line].last() == line);
    assert(op_fold(seq![line]) == Ok::<Seq<OpLogEntryV>, OpLogFailure>(seq![e]));
    let nl = line.push('\n');
    assert(nl.drop_last() =~= line);
    assert(split_newlines(nl) == seq![line, Seq::<char>::empty()]);
    assert(lines_spec(nl) =~= seq![line]);
}

proof fn lemma_split_newlines_is_split_on(s: Seq<char>)
    ensures
        split_newlines(s) == split_on(s, '\n'),
    decreases s.len(),
{
    if s.len() > 0 {
        lemma_split_newlines_is_split_on(s.drop_last());
    }
}

/// Two op log lines give their two entries in the order of the lines: the
/// newest operation, which `jj op log` prints first, stays first.
pub proof fn law_op_log_order(
    id1: Seq<char>,
    desc1: Seq<char>,
    ts1: Seq<char>,
    id2: Seq<char>,
    desc2: Seq<char>,
    ts2: Seq<char>,
)
    requires
        op_line_parts_ok(id1, desc1, ts1),
        op_line_parts_ok(id2, desc2, ts2),
    ensures
        parse_op_log_spec(
            id1 + seq!['\x1F'] + desc1 + seq!['\x1E'] + ts1 + seq!['\n'] + id2 + seq!['\x1F']
                + desc2 + seq!['\x1E'] + ts2,
        ) == Ok::<Seq<OpLogEntryV>, OpLogFailure>(
            seq![
                OpLogEntryV { id: id1, description: desc1, timestamp: ts1 },
                OpLogEntryV { id: id2, description: desc2, timestamp: ts2 },
            ],
        ),
{
    let l1 = op_line(id1, desc1, ts1);
    let l2 = op_line(id2, desc2, ts2);
    let e1 = OpLogEntryV { id: id1, description: desc1, timestamp: ts1 };
    let e2 = OpLogEntryV { id: id2, description: desc2, timestamp: ts2 };
    let out = l1 + seq!['\n'] + l2;
    assert(out =~= id1 + seq!['\x1F'] + desc1 + seq!['\x1E'] + ts1 + seq!['\n'] + id2 + seq![
        '\x1F'
    ] + desc2 + seq!['\x1E'] + ts2);
    lemma_op_line(Seq::empty(), id1, desc1, ts1);
    lemma_op_line(seq![e1], id2, desc2, ts2);
    lemma_split_newlines_is_split_on(out);
    lemma_split_on_two(l1, l2, '\n');
    let ls = seq![l1, l2];
    assert(lines_spec(out) =~= ls);
    assert(ls.drop_last() =~= seq![l1]);
    assert(seq![l1].drop_last() =~= Seq::<Seq<char>>::empty());
    assert(op_fold(Seq::<Seq<char>>::empty()) == Ok::<Seq<OpLogEntryV>, OpLogFailure>(
        Seq::empty(),
    ));
    assert(Seq::<OpLogEntryV>::empty().push(e1) =~= seq![e1]);
    assert(op_fold(seq![l1]) == Ok::<Seq<OpLogEntryV>, OpLogFailure>(seq![e1]));
    assert(seq![e1].push(e2) =~= seq![e1, e2]);
    assert(op_fold(ls) == Ok::<Seq<OpLogEntryV>, OpLogFailure>(seq![e1, e2]));
}

/// A change is searched by the text `<change id> <author> <description>`:
/// the score of its node line is the fuzzy score of exactly that text, so
/// the author's name is searched as well as the id and the description.
pub proof fn law_fuzzy_haystack(g: GraphData, query: Seq<char>, i: int)
    requires
        is_node(g.lines@, i),
        g.detail_spec(g.lines@[i].change_id->0@) is Some,
    ensures
        ({
            let id = g.lines@[i].change_id->0@;
            let d = g.detail_spec(id)->0;
            fuzzy_key(g, query, i) == nucleo_score(
                query,
                id + seq![' '] + d.author@ + seq![' '] + d.description@,
            )
        }),
{
}

/// A fuzzy ranking lists every matching change and nothing else, each
/// once, higher scores first and, among equal scores, in graph order.
pub proof fn law_fuzzy_ranking_order(g: GraphData, query: Seq<char>, r: Seq<usize>)
    requires
        is_ranking(g, query, r),
    ensures
        forall|i: usize|
            i < g.lines@.len() ==> (r.contains(i) <==> (#[trigger] fuzzy_key(g, query, i as int))
                is Some),
        forall|k: int, m: int| 0 <= k < m < r.len() ==> #[trigger] r[k] != #[trigger] r[m],
        forall|k: int, m: int|
            0 <= k < m < r.len() ==> {
                let sk = fuzzy_key(g, query, #[trigger] r[k] as int)->0;
                let sm = fuzzy_key(g, query, #[trigger] r[m] as int)->0;
                sk > sm || (sk == sm && r[k] < r[m])
            },
{
    assert forall|i: usize|
        i < g.lines@.len() && r.contains(i) implies (#[trigger] fuzzy_key(g, query, i as int))
        is Some by {
        let k = choose|k: int| 0 <= k < r.len() && r[k] == i;
        assert(fuzzy_key(g, query, r[k] as int) is Some);
    }
}

/// The revset functions of jj that take an argument, required or optional.
pub open spec fn revset_takes_argument(n: Seq<char>) -> bool {
    ||| n == "ancestors"@
    ||| n == "author"@
    ||| n == "bookmarks"@
    ||| n == "committer"@
    ||| n == "connected"@
    ||| n == "descendants"@
    ||| n == "description"@
    ||| n == "diff_contains"@
    ||| n == "file"@
    ||| n == "fork_point"@
    ||| n == "heads"@
    ||| n == "present"@
    ||| n == "remote_bookmarks"@
    ||| n == "roots"@
    ||| n == "tags"@
}

/// The revset functions of jj that take no argument.
pub open spec fn revset_nullary(n: Seq<char>) -> bool {
    ||| n == "all"@
    ||| n == "conflicts"@
    ||| n == "empty"@
    ||| n == "immutable"@
    ||| n == "mine"@
    ||| n == "none"@
    ||| n == "root"@
    ||| n == "trunk"@
    ||| n == "visible_heads"@
}

/// The functions offered for completion are jj's revset functions with
/// their arities: each one that takes an argument is listed as taking one,
/// each one that takes none as nullary, and every one of them is listed.
pub proof fn law_revset_arities()
    ensures
        forall|k: int|
            0 <= k < revset_table().len() ==> {
                let (n, a) = #[trigger] revset_table()[k];
                ||| revset_takes_argument(n) && a != Arity::Nullary
                ||| revset_nullary(n) && a == Arity::Nullary
            },
        forall|n: Seq<char>|
            #![trigger revset_takes_argument(n)]
            revset_takes_argument(n) ==> exists|k: int|
                0 <= k < revset_table().len() && (#[trigger] revset_table()[k]).0 == n
                    && revset_table()[k].1 != Arity::Nullary,
        forall|n: Seq<char>|
            #![trigger revset_nullary(n)]
            revset_nullary(n) ==> exists|k: int|
                0 <= k < revset_table().len() && (#[trigger] revset_table()[k]).0 == n
                    && revset_table()[k].1 == Arity::Nullary,
{
    let t = revset_table();
    assert forall|n: Seq<char>| revset_takes_argument(n) implies exists|k: int|
        0 <= k < t.len() && (#[trigger] t[k]).0 == n && t[k].1 != Arity::Nullary by {
        if n == "ancestors"@ {
            assert(t[1].0 == n);
        } else if n == "author"@ {
            assert(t[2].0 == n);
        } else if n == "bookmarks"@ {
            assert(t[3].0 == n);
        } else if n == "committer"@ {
            assert(t[4].0 == n);
        } else if n == "connected"@ {
            assert(t[6].0 == n);
        } else if n == "descendants"@ {
            assert(t[7].0 == n);
        } else if n == "description"@ {
            assert(t[8].0 == n);
        } else if n == "diff_contains"@ {
            assert(t[9].0 == n);
        } else if n == "file"@ {
            assert(t[11].0 == n);
        } else if n == "fork_point"@ {
            assert(t[12].0 == n);
        } else if n == "heads"@ {
            assert(t[13].0 == n);
        } else if n == "present"@ {
            assert(t[17].0 == n);
        } else if n == "remote_bookmarks"@ {
            assert(t[18].0 == n);
        } else if n == "roots"@ {
            assert(t[20].0 == n);
        } else {
            assert(t[21].0 == n);
        }
    }
    assert forall|n: Seq<char>| revset_nullary(n) implies exists|k: int|
        0 <= k < t.len() && (#[trigger] t[k]).0 == n && t[k].1 == Arity::Nullary by {
        if n == "all"@ {
            assert(t[0].0 == n);
        } else if n == "conflicts"@ {
            assert(t[5].0 == n);
        } else if n == "empty"@ {
            assert(t[10].0 == n);
        } else if n == "immutable"@ {
            assert(t[14].0 == n);
        } else if n == "mine"@ {
            assert(t[15].0 == n);
        } else if n == "none"@ {
            assert(t[16].0 == n);
        } else if n == "root"@ {
            assert(t[19].0 == n);
        } else if n == "trunk"@ {
            assert(t[22].0 == n);
        } else {
            assert(t[23].0 == n);
        }
    }
}

proof fn lemma_function_items_has(t: Seq<(Seq<char>, Arity)>, wl: Seq<char>, j: int)
    requires
        0 <= j < t.len(),
        starts_with(t[j].0, wl),
    ensures
        function_items(t, wl).contains((call_text(t[j].0, t[j].1), call_text(t[j].0, t[j].1))),
    decreases t.len(),
{
    let c = call_text(t[j].0, t[j].1);
    let pre = function_items(t.drop_last(), wl);
    if j == t.len() - 1 {
        let all = pre + seq![(c, c)];
        assert(function_items(t, wl) == all);
        assert(all[pre.len() as int] == (c, c));
    } else {
        assert(t.drop_last()[j] == t[j]);
        lemma_function_items_has(t.drop_last(), wl, j);
        let w = choose|w: int| 0 <= w < pre.len() && pre[w] == (c, c);
        assert(function_items(t, wl)[w] == (c, c));
    }
}

proof fn lemma_function_items_from(t: Seq<(Seq<char>, Arity)>, wl: Seq<char>, k: int)
    requires
        0 <= k < function_items(t, wl).len(),
    ensures
        exists|j: int|
            0 <= j < t.len() && starts_with((#[trigger] t[j]).0, wl) && function_items(t, wl)[k]
                == (call_text(t[j].0, t[j].1), call_text(t[j].0, t[j].1)),
    decreases t.len(),
{
    let pre = function_items(t.drop_last(), wl);
    if k < pre.len() {
        lemma_function_items_from(t.drop_last(), wl, k);
        let j = choose|j: int|
            0 <= j < t.drop_last().len() && starts_with((#[trigger] t.drop_last()[j]).0, wl)
                && pre[k] == (
                call_text(t.drop_last()[j].0, t.drop_last()[j].1),
                call_text(t.drop_last()[j].0, t.drop_last()[j].1),
            );
        assert(t.drop_last()[j] == t[j]);
    } else {
        assert(t[t.len() - 1] == t.last());
    }
}

/// A revset function completion inserts the call itself: the function's
/// name and `(` when it takes an argument, leaving the cursor inside the
/// call, and the name and `()` when it takes none. Every prefix of a
/// function's name offers that function's call, and nothing else is
/// offered as a function call. The omnibar lists function calls first.
pub proof fn law_revset_call_completion(n: Seq<char>, wl: Seq<char>, g: GraphData)
    ensures
        revset_takes_argument(n) && starts_with(n, wl) ==> function_items(revset_table(), wl).contains(
            (n + "("@, n + "("@),
        ),
        revset_nullary(n) && starts_with(n, wl) ==> function_items(revset_table(), wl).contains(
            (n + "()"@, n + "()"@),
        ),
        forall|k: int|
            0 <= k < function_items(revset_table(), wl).len() ==> {
                let (ins, shown) = #[trigger] function_items(revset_table(), wl)[k];
                &&& ins == shown
                &&& exists|m: Seq<char>|
                    starts_with(m, wl) && {
                        ||| revset_takes_argument(m) && ins == m + "("@
                        ||| revset_nullary(m) && ins == m + "()"@
                    }
            },
        forall|k: int|
            0 <= k < function_items(revset_table(), wl).len() && k < 20 ==> #[trigger] completions_spec(
                wl,
                g,
            )[k] == function_items(revset_table(), wl)[k],
{
    let t = revset_table();
    law_revset_arities();
    if revset_takes_argument(n) && starts_with(n, wl) {
        let j = choose|j: int| 0 <= j < t.len() && (#[trigger] t[j]).0 == n && t[j].1 != Arity::Nullary;
        lemma_function_items_has(t, wl, j);
    }
    if revset_nullary(n) && starts_with(n, wl) {
        let j = choose|j: int| 0 <= j < t.len() && (#[trigger] t[j]).0 == n && t[j].1 == Arity::Nullary;
        lemma_function_items_has(t, wl, j);
    }
    let fi = function_items(t, wl);
    assert forall|k: int| 0 <= k < fi.len() implies {
        let (ins, shown) = #[trigger] fi[k];
        &&& ins == shown
        &&& exists|m: Seq<char>|
            starts_with(m, wl) && {
                ||| revset_takes_argument(m) && ins == m + "("@
                ||| revset_nullary(m) && ins == m + "()"@
            }
    } by {
        lemma_function_items_from(t, wl, k);
        let j = choose|j: int|
            0 <= j < t.len() && starts_with((#[trigger] t[j]).0, wl) && fi[k] == (
                call_text(t[j].0, t[j].1),
                call_text(t[j].0, t[j].1),
            );
        let m = t[j].0;
        assert(starts_with(m, wl));
    }
}

} // verus!
