//! The change graph panel: which lines are visible, which are highlighted,
//! and how each line is coloured.

use vstd::prelude::*;

use crate::app::TargetPick;
use crate::dispatch::{first_greater, first_greater_exec};
use crate::forge::{PrInfo, PrState, ReviewStatus};
use crate::text::{append_joined, append_str, chars_of, decimal, join, push_decimal, string_from, strings_of};
use crate::types::{ChangeDetail, GraphData};
use crate::widgets::style::{
    Color, Row, Span, Style, fg, fg_style, plain, plain_style, push_span, push_text, reversed,
    reversed_style, spans_view,
};

verus! {

pub struct GraphWidget<'a> {
    pub graph: &'a GraphData,
    pub cursor: usize,
    /// Lines kept visible around the selected block when scrolling.
    pub scrolloff: usize,
    pub target_pick: Option<&'a TargetPick>,
    /// PR status keyed by bookmark name.
    pub pr_status: &'a Vec<(String, PrInfo)>,
}

impl<'a> GraphWidget<'a> {
    pub fn new(graph: &'a GraphData, cursor: usize, pr_status: &'a Vec<(String, PrInfo)>) -> (w:
        Self)
        ensures
            w.graph == graph,
            w.cursor == cursor,
            w.scrolloff == 3,
            w.target_pick is None,
            w.pr_status == pr_status,
    {
        GraphWidget { graph, cursor, scrolloff: 3, target_pick: None, pr_status }
    }

    /// The same widget, showing the rebase target pick `target_pick`.
    pub fn with_target_pick(self, target_pick: Option<&'a TargetPick>) -> (w: Self)
        ensures
            w.graph == self.graph,
            w.cursor == self.cursor,
            w.scrolloff == self.scrolloff,
            w.target_pick == target_pick,
            w.pr_status == self.pr_status,
    {
        GraphWidget { target_pick, ..self }
    }
}

/// The last line of the block that starts at line `c`: the line before the
/// next node line, or the last line of the graph.
pub open spec fn block_end_spec(g: GraphData, c: usize) -> int {
    match first_greater(g.node_index_seq(), c) {
        Some(n) => n - 1,
        None => g.lines@.len() - 1,
    }
}

/// The first line shown in a panel `height` rows high: the selected block
/// with `scrolloff` lines of context when they fit, else from the block's
/// start; never past the point where the last line reaches the bottom.
pub open spec fn scroll_offset_spec(w: GraphWidget, height: usize) -> int {
    let total = w.graph.lines@.len() as int;
    if total == 0 || height == 0 {
        0
    } else {
        let top = if w.cursor >= w.scrolloff {
            w.cursor - w.scrolloff
        } else {
            0
        };
        let bottom = if block_end_spec(*w.graph, w.cursor) + w.scrolloff + 1 < total {
            block_end_spec(*w.graph, w.cursor) + w.scrolloff + 1
        } else {
            total
        };
        let last_top = if total >= height {
            total - height
        } else {
            0
        };
        let want = if bottom - top <= height {
            top
        } else {
            w.cursor as int
        };
        if want < last_top {
            want
        } else {
            last_top
        }
    }
}

/// What the graph panel needs: a consistent graph, the cursor on one of its
/// lines (when it has any), and room to count the context lines.
pub open spec fn graph_ready(w: GraphWidget) -> bool {
    &&& w.graph.wf()
    &&& (w.graph.lines@.len() > 0 ==> w.cursor < w.graph.lines@.len())
    &&& w.graph.lines@.len() + w.scrolloff + 1 <= usize::MAX
}

proof fn lemma_first_greater_bounds(ns: Seq<usize>, c: usize, len: int)
    requires
        forall|k: int| 0 <= k < ns.len() ==> #[trigger] ns[k] < len,
    ensures
        first_greater(ns, c) matches Some(n) ==> c < n < len,
    decreases ns.len(),
{
    if ns.len() > 0 && ns[0] <= c {
        assert forall|k: int| 0 <= k < ns.drop_first().len() implies #[trigger] ns.drop_first()[k]
            < len by {
            assert(ns.drop_first()[k] == ns[k + 1]);
        }
        lemma_first_greater_bounds(ns.drop_first(), c, len);
    }
}

impl<'a> GraphWidget<'a> {
    /// The last line of the block selected by the cursor.
    pub fn block_end(&self) -> (r: usize)
        requires
            self.graph.wf(),
            self.cursor < self.graph.lines@.len(),
        ensures
            r == block_end_spec(*self.graph, self.cursor),
            self.cursor <= r < self.graph.lines@.len(),
    {
        proof {
            lemma_first_greater_bounds(
                self.graph.node_index_seq(),
                self.cursor,
                self.graph.lines@.len() as int,
            );
        }
        match first_greater_exec(self.graph.node_indices(), self.cursor) {
            Some(n) => n - 1,
            None => self.graph.lines.len() - 1,
        }
    }

    /// The index of the first line shown in a panel `height` rows high.
    pub fn scroll_offset(&self, height: usize) -> (r: usize)
        requires
            graph_ready(*self),
        ensures
            r == scroll_offset_spec(*self, height),
    {
        let total = self.graph.lines.len();
        if total == 0 || height == 0 {
            return 0;
        }
        let block_start = self.cursor;
        let block_end = self.block_end();
        let desired_top = if block_start >= self.scrolloff {
            block_start - self.scrolloff
        } else {
            0
        };
        let desired_bottom = if block_end + self.scrolloff + 1 < total {
            block_end + self.scrolloff + 1
        } else {
            total
        };
        let last_top = if total >= height {
            total - height
        } else {
            0
        };
        let want = if desired_bottom - desired_top <= height {
            desired_top
        } else {
            block_start
        };
        if want < last_top {
            want
        } else {
            last_top
        }
    }
}


/// The PR recorded for bookmark `name`, if any (the first entry with that
/// name).
pub open spec fn lookup_pr(prs: Seq<(String, PrInfo)>, name: Seq<char>) -> Option<PrInfo>
    decreases prs.len(),
{
    if prs.len() == 0 {
        None
    } else if prs[0].0@ == name {
        Some(prs[0].1)
    } else {
        lookup_pr(prs.drop_first(), name)
    }
}

/// The mark shown after a bookmark with a PR: merged ✓ and closed ✗ in
/// grey; an open PR ✓ green when approved, ✗ red when changes are
/// requested, ● yellow otherwise.
pub open spec fn pr_mark(pr: PrInfo) -> (char, Color) {
    match pr.state {
        PrState::Merged => ('✓', Color::DarkGray),
        PrState::Closed => ('✗', Color::DarkGray),
        PrState::Open => match pr.review {
            ReviewStatus::Approved => ('✓', Color::Green),
            ReviewStatus::ChangesRequested => ('✗', Color::Red),
            _ => ('●', Color::Yellow),
        },
    }
}

/// The PR indicators of bookmarks `bms`, in order.
pub open spec fn pr_spans(prs: Seq<(String, PrInfo)>, bms: Seq<String>) -> Seq<(Seq<char>, Style)>
    decreases bms.len(),
{
    if bms.len() == 0 {
        Seq::empty()
    } else {
        pr_spans(prs, bms.drop_last()) + match lookup_pr(prs, bms.last()@) {
            Some(pr) => seq![
                (" #"@ + decimal(pr.number as nat) + seq![' ', pr_mark(pr).0], fg_style(pr_mark(pr).1)),
            ],
            None => Seq::empty(),
        }
    }
}

/// `s` in style `st` when `cond` holds, else nothing.
pub open spec fn when(cond: bool, s: Seq<char>, st: Style) -> Seq<(Seq<char>, Style)> {
    if cond {
        seq![(s, st)]
    } else {
        Seq::empty()
    }
}

/// What follows the change ID of a node line with detail `d`: author
/// (blue), timestamp (cyan), bookmarks (magenta), PR marks, and the
/// conflict count (yellow).
pub open spec fn detail_spans(prs: Seq<(String, PrInfo)>, d: ChangeDetail) -> Seq<(Seq<char>, Style)> {
    seq![(" "@, plain_style())]
        + when(d.author@.len() > 0, d.author@, fg_style(Color::Blue))
        + when(d.author@.len() > 0, " "@, plain_style())
        + when(d.timestamp@.len() > 0, d.timestamp@, fg_style(Color::Cyan))
        + when(d.bookmarks@.len() > 0, " "@, plain_style())
        + when(
            d.bookmarks@.len() > 0,
            "["@ + join(strings_of(d.bookmarks@), ", "@) + "]"@,
            fg_style(Color::Magenta),
        )
        + pr_spans(prs, d.bookmarks@)
        + when(d.conflict_count > 0, " "@, plain_style())
        + when(
            d.conflict_count > 0,
            seq!['⚠'] + decimal(d.conflict_count as nat),
            fg_style(Color::Yellow),
        )
}

/// The style of the graph glyphs before a change ID: bold green on the
/// working copy, grey elsewhere.
pub open spec fn glyph_style(wc: bool) -> Style {
    if wc {
        Style { fg: Some(Color::Green), bg: None, bold: true, italic: false, reversed: false }
    } else {
        fg_style(Color::DarkGray)
    }
}

/// The spans of line `i`: a connector line as it is; a node line greyed
/// out when `dim`, else glyphs, change ID (yellow) and what the detail of
/// the change says (or the rest of the raw line when there is no detail).
pub open spec fn line_spans(w: GraphWidget, i: int, dim: bool) -> Seq<(Seq<char>, Style)> {
    let line = w.graph.lines@[i];
    match line.change_id {
        None => seq![(line.raw@, plain_style())],
        Some(cid) => if dim {
            seq![(line.raw@, fg_style(Color::DarkGray))]
        } else {
            when(
                line.glyph_prefix@.len() > 0,
                line.glyph_prefix@,
                glyph_style(w.graph.working_copy_index == Some(i as usize)),
            ) + seq![(cid@, fg_style(Color::Yellow))] + match w.graph.detail_spec(cid@) {
                Some(d) => detail_spans(w.pr_status@, d),
                None => seq![(line.raw@.skip(line.glyph_prefix@.len() as int), plain_style())],
            }
        },
    }
}

/// Line `i` has its glyph prefix at its start (needed only for a node line
/// without detail, whose tail is shown raw).
pub open spec fn tail_ok(g: GraphData, i: int) -> bool {
    let line = g.lines@[i];
    line.change_id matches Some(cid) && g.detail_spec(cid@) is None ==> line.raw@.len()
        >= line.glyph_prefix@.len() && line.raw@.take(line.glyph_prefix@.len() as int)
        == line.glyph_prefix@
}

fn find_pr<'b>(prs: &'b Vec<(String, PrInfo)>, name: &String) -> (r: Option<&'b PrInfo>)
    ensures
        match r {
            Some(pr) => lookup_pr(prs@, name@) == Some(*pr),
            None => lookup_pr(prs@, name@) is None,
        },
{
    let mut i: usize = 0;
    assert(prs@.skip(0) =~= prs@);
    while i < prs.len()
        invariant
            i <= prs@.len(),
            lookup_pr(prs@, name@) == lookup_pr(prs@.skip(i as int), name@),
        decreases prs@.len() - i,
    {
        assert(prs@.skip(i as int).drop_first() =~= prs@.skip(i + 1));
        if prs[i].0 == *name {
            return Some(&prs[i].1);
        }
        i += 1;
    }
    None
}

fn append_pr_marks(v: &mut Vec<Span>, prs: &Vec<(String, PrInfo)>, bms: &Vec<String>)
    ensures
        spans_view(final(v)@) == spans_view(old(v)@) + pr_spans(prs@, bms@),
{
    let ghost start = spans_view(v@);
    let mut i: usize = 0;
    while i < bms.len()
        invariant
            i <= bms@.len(),
            spans_view(v@) == start + pr_spans(prs@, bms@.take(i as int)),
        decreases bms@.len() - i,
    {
        assert(bms@.take(i + 1).drop_last() =~= bms@.take(i as int));
        match find_pr(prs, &bms[i]) {
            Some(pr) => {
                let (mark, color) = match pr.state {
                    PrState::Merged => ('✓', Color::DarkGray),
                    PrState::Closed => ('✗', Color::DarkGray),
                    PrState::Open => match pr.review {
                        ReviewStatus::Approved => ('✓', Color::Green),
                        ReviewStatus::ChangesRequested => ('✗', Color::Red),
                        _ => ('●', Color::Yellow),
                    },
                };
                let mut s = String::new();
                append_str(&mut s, " #");
                push_decimal(&mut s, pr.number as usize);
                crate::text::push_char(&mut s, ' ');
                crate::text::push_char(&mut s, mark);
                assert(s@ =~= " #"@ + decimal(pr.number as nat) + seq![' ', mark]);
                push_span(v, s, fg(color));
            },
            None => {},
        }
        assert(spans_view(v@) =~= start + pr_spans(prs@, bms@.take(i + 1)));
        i += 1;
    }
    assert(bms@.take(bms@.len() as int) =~= bms@);
}

fn append_detail(v: &mut Vec<Span>, prs: &Vec<(String, PrInfo)>, d: &ChangeDetail)
    ensures
        spans_view(final(v)@) == spans_view(old(v)@) + detail_spans(prs@, *d),
{
    let ghost start = spans_view(v@);
    push_text(v, " ", plain());
    if !d.author.as_str().is_empty() {
        push_span(v, d.author.clone(), fg(Color::Blue));
        push_text(v, " ", plain());
    }
    if !d.timestamp.as_str().is_empty() {
        push_span(v, d.timestamp.clone(), fg(Color::Cyan));
    }
    if d.bookmarks.len() > 0 {
        push_text(v, " ", plain());
        let mut s = String::new();
        append_str(&mut s, "[");
        append_joined(&mut s, &d.bookmarks, ", ");
        append_str(&mut s, "]");
        push_span(v, s, fg(Color::Magenta));
    }
    let ghost mid = spans_view(v@);
    append_pr_marks(v, prs, &d.bookmarks);
    if d.conflict_count > 0 {
        push_text(v, " ", plain());
        let mut s = String::new();
        crate::text::push_char(&mut s, '⚠');
        push_decimal(&mut s, d.conflict_count);
        assert(s@ =~= seq!['⚠'] + decimal(d.conflict_count as nat));
        push_span(v, s, fg(Color::Yellow));
    }
    assert(spans_view(v@) =~= start + detail_spans(prs@, *d));
}

impl<'a> GraphWidget<'a> {
    /// The spans of line `line_idx`, greyed out when `dim`.
    pub fn colored_node_line(&self, line_idx: usize, dim: bool) -> (v: Vec<Span>)
        requires
            line_idx < self.graph.lines@.len(),
            tail_ok(*self.graph, line_idx as int),
        ensures
            spans_view(v@) == line_spans(*self, line_idx as int, dim),
    {
        let line = &self.graph.lines[line_idx];
        let mut v: Vec<Span> = Vec::new();
        match &line.change_id {
            None => {
                push_span(&mut v, line.raw.clone(), plain());
            },
            Some(cid) => {
                if dim {
                    push_span(&mut v, line.raw.clone(), fg(Color::DarkGray));
                } else {
                    let wc = match self.graph.working_copy_index {
                        Some(w) => w == line_idx,
                        None => false,
                    };
                    if !line.glyph_prefix.as_str().is_empty() {
                        let st = if wc {
                            Style { fg: Some(Color::Green), bg: None, bold: true, italic: false, reversed: false }
                        } else {
                            fg(Color::DarkGray)
                        };
                        push_span(&mut v, line.glyph_prefix.clone(), st);
                    }
                    push_span(&mut v, cid.clone(), fg(Color::Yellow));
                    let ghost head = spans_view(v@);
                    match self.graph.detail(cid.as_str()) {
                        Some(d) => append_detail(&mut v, self.pr_status, d),
                        None => {
                            let raw = chars_of(line.raw.as_str());
                            let glen = chars_of(line.glyph_prefix.as_str()).len();
                            let tail = string_from(&raw, glen, raw.len());
                            assert(tail@ =~= line.raw@.skip(glen as int));
                            push_span(&mut v, tail, plain());
                        },
                    }
                    proof {
                        let ghost_glyph = when(
                            line.glyph_prefix@.len() > 0,
                            line.glyph_prefix@,
                            glyph_style(self.graph.working_copy_index == Some(line_idx)),
                        );
                        assert(head =~= ghost_glyph + seq![(cid@, fg_style(Color::Yellow))]);
                    }
                }
            },
        }
        proof {
            if line.change_id is None {
                assert(spans_view(v@) =~= line_spans(*self, line_idx as int, dim));
            } else if dim {
                assert(spans_view(v@) =~= line_spans(*self, line_idx as int, dim));
            }
        }
        v
    }
}


/// Line `i` is greyed out: a target is being picked and the change on line
/// `i` cannot be a destination.
pub open spec fn dim_line(w: GraphWidget, i: int) -> bool {
    &&& w.target_pick is Some
    &&& w.graph.lines@[i].change_id is Some
    &&& strings_of(w.target_pick->0.excluded@).contains(w.graph.lines@[i].change_id->0@)
}

/// How many rows a panel `height` rows high shows.
pub open spec fn row_count(w: GraphWidget, height: usize) -> int {
    let rest = w.graph.lines@.len() - scroll_offset_spec(w, height);
    if height < rest {
        height as int
    } else {
        rest
    }
}

/// Row `k` of a panel `height` rows high shows line `offset + k`, coloured
/// by `line_spans`, and is drawn reversed when that line is in the selected
/// block (and not greyed out).
pub open spec fn row_ok(w: GraphWidget, height: usize, k: int, row: Row) -> bool {
    let i = scroll_offset_spec(w, height) + k;
    let dim = dim_line(w, i);
    &&& spans_view(row.spans@) == line_spans(w, i, dim)
    &&& row.patch == if !dim && w.cursor <= i && i <= block_end_spec(*w.graph, w.cursor) {
        Some(reversed_style())
    } else {
        None
    }
}

fn is_excluded(p: &TargetPick, id: &String) -> (b: bool)
    ensures
        b == strings_of(p.excluded@).contains(id@),
{
    let mut i: usize = 0;
    while i < p.excluded.len()
        invariant
            i <= p.excluded@.len(),
            forall|j: int| 0 <= j < i ==> strings_of(p.excluded@)[j] != id@,
        decreases p.excluded@.len() - i,
    {
        if p.excluded[i] == *id {
            assert(strings_of(p.excluded@)[i as int] == id@);
            return true;
        }
        i += 1;
    }
    false
}

impl<'a> GraphWidget<'a> {
    /// The rows a panel `height` rows high shows, top to bottom.
    pub fn rows(&self, height: usize) -> (v: Vec<Row>)
        requires
            graph_ready(*self),
            forall|i: int| 0 <= i < self.graph.lines@.len() ==> tail_ok(*self.graph, i),
        ensures
            v@.len() == row_count(*self, height),
            forall|k: int| 0 <= k < v@.len() ==> row_ok(*self, height, k, #[trigger] v@[k]),
    {
        let total = self.graph.lines.len();
        let offset = self.scroll_offset(height);
        let mut v: Vec<Row> = Vec::new();
        if total == 0 {
            return v;
        }
        let block_end = self.block_end();
        let mut k: usize = 0;
        while k < height && k < total - offset
            invariant
                total == self.graph.lines@.len(),
                total > 0,
                offset == scroll_offset_spec(*self, height),
                offset <= total,
                block_end == block_end_spec(*self.graph, self.cursor),
                k <= height,
                k <= total - offset,
                v@.len() == k,
                graph_ready(*self),
                forall|i: int| 0 <= i < self.graph.lines@.len() ==> tail_ok(*self.graph, i),
                forall|j: int| 0 <= j < v@.len() ==> row_ok(*self, height, j, #[trigger] v@[j]),
            decreases height - k,
        {
            let i = offset + k;
            let dim = match self.target_pick {
                Some(p) => match &self.graph.lines[i].change_id {
                    Some(cid) => is_excluded(p, cid),
                    None => false,
                },
                None => false,
            };
            let spans = self.colored_node_line(i, dim);
            let patch = if !dim && self.cursor <= i && i <= block_end {
                Some(reversed())
            } else {
                None
            };
            let row = Row { spans, patch };
            let ghost before = v@;
            v.push(row);
            assert forall|j: int| 0 <= j < v@.len() implies row_ok(*self, height, j, #[trigger] v@[j]) by {
                if j < before.len() {
                    assert(v@[j] == before[j]);
                }
            }
            k += 1;
        }
        v
    }
}

} // verus!
