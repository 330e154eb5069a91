//! The fuzzy finder overlay: the query and the matching changes.

use vstd::prelude::*;

use crate::types::GraphData;
use crate::widgets::style::{
    Color, Row, Span, Style, fg, fg_style, plain, plain_style, push_span, push_text, reversed,
    reversed_style, row_shows, single_row, spans_view,
};

verus! {

pub struct FuzzyFindWidget<'a> {
    pub query: &'a str,
    /// graph line indices
    pub matches: &'a [usize],
    pub graph: &'a GraphData,
    pub cursor: usize,
}

/// The query line: a `/` prompt, the query and a cursor mark.
pub open spec fn query_spans(q: Seq<char>) -> Seq<(Seq<char>, Style)> {
    seq![("/ "@, fg_style(Color::Blue)), (q, plain_style()), ("|"@, fg_style(Color::DarkGray))]
}

/// The change ID shown for line `i` ("???" for a connector line).
pub open spec fn shown_id(g: GraphData, i: int) -> Seq<char> {
    match g.lines@[i].change_id {
        Some(id) => id@,
        None => "???"@,
    }
}

/// The spans of a matching line: change ID (yellow), author (blue) and
/// description.
pub open spec fn match_spans(g: GraphData, i: int) -> Seq<(Seq<char>, Style)> {
    let id = shown_id(g, i);
    let (author, desc) = match g.detail_spec(id) {
        Some(d) => (d.author@, d.description@),
        None => (Seq::empty(), Seq::empty()),
    };
    seq![
        (id, fg_style(Color::Yellow)),
        ("  "@, plain_style()),
        (author, fg_style(Color::Blue)),
        ("  "@, plain_style()),
        (desc, plain_style()),
    ]
}

/// The note shown when nothing matches.
pub open spec fn no_match_text(q: Seq<char>) -> Seq<char> {
    if q.len() == 0 {
        "(no changes)"@
    } else {
        "(no matches)"@
    }
}

/// Every match is a line of the graph.
pub open spec fn matches_ok(g: GraphData, m: Seq<usize>) -> bool {
    forall|k: int| 0 <= k < m.len() ==> #[trigger] m[k] < g.lines@.len()
}

/// The spans of matching line `i`.
pub(crate) fn match_row(g: &GraphData, i: usize, highlighted: bool) -> (r: Row)
    requires
        i < g.lines@.len(),
    ensures
        row_shows(
            r,
            match_spans(*g, i as int),
            if highlighted {
                Some(reversed_style())
            } else {
                None
            },
        ),
{
    let id: &str = match &g.lines[i].change_id {
        Some(id) => id.as_str(),
        None => "???",
    };
    let mut spans: Vec<Span> = Vec::new();
    push_text(&mut spans, id, fg(Color::Yellow));
    push_text(&mut spans, "  ", plain());
    match g.detail(id) {
        Some(d) => {
            push_span(&mut spans, d.author.clone(), fg(Color::Blue));
            push_text(&mut spans, "  ", plain());
            push_span(&mut spans, d.description.clone(), plain());
        },
        None => {
            push_span(&mut spans, String::new(), fg(Color::Blue));
            push_text(&mut spans, "  ", plain());
            push_span(&mut spans, String::new(), plain());
        },
    }
    assert(spans_view(spans@) =~= match_spans(*g, i as int));
    let patch = if highlighted {
        Some(reversed())
    } else {
        None
    };
    Row { spans, patch }
}

/// The query row.
pub(crate) fn query_row(q: &str) -> (r: Row)
    ensures
        row_shows(r, query_spans(q@), None),
{
    let mut spans: Vec<Span> = Vec::new();
    push_text(&mut spans, "/ ", fg(Color::Blue));
    push_text(&mut spans, q, plain());
    push_text(&mut spans, "|", fg(Color::DarkGray));
    assert(spans_view(spans@) =~= query_spans(q@));
    Row { spans, patch: None }
}

impl<'a> FuzzyFindWidget<'a> {
    pub fn new(query: &'a str, matches: &'a [usize], graph: &'a GraphData, cursor: usize) -> (w:
        Self)
        ensures
            w.query == query,
            w.matches == matches,
            w.graph == graph,
            w.cursor == cursor,
    {
        FuzzyFindWidget { query, matches, graph, cursor }
    }

    /// The rows an overlay `height` rows high shows: the query, then the
    /// first matches (the one under the cursor reversed), or a note when
    /// nothing matches.
    pub fn rows(&self, height: usize) -> (v: Vec<Row>)
        requires
            matches_ok(*self.graph, self.matches@),
        ensures
            height == 0 ==> v@.len() == 0,
            height > 0 ==> {
                &&& row_shows(v@[0], query_spans(self.query@), None)
                &&& self.matches@.len() == 0 ==> v@.len() == (if height > 1 {
                    2int
                } else {
                    1int
                }) && (height > 1 ==> row_shows(
                    v@[1],
                    seq![(no_match_text(self.query@), fg_style(Color::DarkGray))],
                    None,
                ))
                &&& self.matches@.len() > 0 ==> {
                    &&& v@.len() == 1 + if self.matches@.len() < height - 1 {
                        self.matches@.len() as int
                    } else {
                        height - 1
                    }
                    &&& forall|k: int|
                        1 <= k < v@.len() ==> row_shows(
                            #[trigger] v@[k],
                            match_spans(*self.graph, self.matches@[k - 1] as int),
                            if k - 1 == self.cursor {
                                Some(reversed_style())
                            } else {
                                None
                            },
                        )
                }
            },
    {
        let mut v: Vec<Row> = Vec::new();
        if height == 0 {
            return v;
        }
        v.push(query_row(self.query));
        let rh = height - 1;
        if self.matches.len() == 0 {
            if rh > 0 {
                let msg = if self.query.is_empty() {
                    "(no changes)"
                } else {
                    "(no matches)"
                };
                v.push(single_row(String::from_str(msg), fg(Color::DarkGray), None));
            }
            return v;
        }
        let mut k: usize = 0;
        while k < rh && k < self.matches.len()
            invariant
                rh == height - 1,
                k <= rh,
                k <= self.matches@.len(),
                matches_ok(*self.graph, self.matches@),
                v@.len() == k + 1,
                row_shows(v@[0], query_spans(self.query@), None),
                forall|j: int|
                    1 <= j < v@.len() ==> row_shows(
                        #[trigger] v@[j],
                        match_spans(*self.graph, self.matches@[j - 1] as int),
                        if j - 1 == self.cursor {
                            Some(reversed_style())
                        } else {
                            None
                        },
                    ),
            decreases rh - k,
        {
            let r = match_row(self.graph, self.matches[k], k == self.cursor);
            let ghost old_v = v@;
            v.push(r);
            assert forall|j: int| 1 <= j < v@.len() implies row_shows(
                #[trigger] v@[j],
                match_spans(*self.graph, self.matches@[j - 1] as int),
                if j - 1 == self.cursor {
                    Some(reversed_style())
                } else {
                    None
                },
            ) by {
                if j < old_v.len() {
                    assert(v@[j] == old_v[j]);
                }
            }
            assert(v@[0] == old_v[0]);
            k += 1;
        }
        v
    }
}

} // verus!
