//! The omnibar overlay: a query that is a search or a revset, with either
//! completions or matching changes under it.

use vstd::prelude::*;

use crate::action::CompletionItem;
use crate::types::GraphData;
use crate::widgets::bookmark_picker::follow_scroll;
use crate::widgets::fuzzy_find::{match_row, match_spans, matches_ok, no_match_text, query_row, query_spans};
use crate::widgets::style::{
    Color, Row, Style, fg, fg_style, plain, plain_style, reversed, reversed_style, row_shows,
    single_row, window,
};

verus! {

pub struct OmnibarWidget<'a> {
    pub query: &'a str,
    /// graph line indices
    pub matches: &'a [usize],
    pub graph: &'a GraphData,
    pub cursor: usize,
    pub has_active_revset: bool,
    pub completions: &'a [CompletionItem],
    pub completion_cursor: usize,
}

/// The overlay's title: completing, empty, filtering by a revset, or
/// searching.
pub open spec fn omnibar_title(w: OmnibarWidget) -> Seq<char> {
    if w.completions@.len() > 0 {
        " / Completing... "@
    } else if w.query@.len() == 0 && !w.has_active_revset {
        " / Search or Revset "@
    } else if w.has_active_revset {
        " / Revset (active) "@
    } else {
        " / Search (Enter to filter as revset) "@
    }
}

/// A completion is shown in cyan when it opens a function call.
pub open spec fn completion_style(c: CompletionItem) -> Style {
    if c.insert_text@.len() > 0 && c.insert_text@.last() == '(' {
        fg_style(Color::Cyan)
    } else {
        plain_style()
    }
}

/// The patch of result row `idx` when the cursor is at `cursor`.
pub open spec fn cursor_patch(idx: int, cursor: usize) -> Option<Style> {
    if idx == cursor {
        Some(reversed_style())
    } else {
        None
    }
}

impl<'a> OmnibarWidget<'a> {
    pub fn new(
        query: &'a str,
        matches: &'a [usize],
        graph: &'a GraphData,
        cursor: usize,
        has_active_revset: bool,
        completions: &'a [CompletionItem],
        completion_cursor: usize,
    ) -> (w: Self)
        ensures
            w.query == query,
            w.matches == matches,
            w.graph == graph,
            w.cursor == cursor,
            w.has_active_revset == has_active_revset,
            w.completions == completions,
            w.completion_cursor == completion_cursor,
    {
        OmnibarWidget {
            query,
            matches,
            graph,
            cursor,
            has_active_revset,
            completions,
            completion_cursor,
        }
    }

    /// The overlay's title.
    pub fn title(&self) -> (t: &'static str)
        ensures
            t@ == omnibar_title(*self),
    {
        if self.completions.len() > 0 {
            " / Completing... "
        } else if self.query.is_empty() && !self.has_active_revset {
            " / Search or Revset "
        } else if self.has_active_revset {
            " / Revset (active) "
        } else {
            " / Search (Enter to filter as revset) "
        }
    }

    /// The rows an overlay `height` rows high shows: the query, then the
    /// completions when there are any, else the matching changes (each list
    /// scrolled to keep its cursor visible, the entry under it reversed), or
    /// a note when nothing matches.
    pub fn rows(&self, height: usize) -> (v: Vec<Row>)
        requires
            matches_ok(*self.graph, self.matches@),
        ensures
            height == 0 ==> v@.len() == 0,
            height > 0 ==> row_shows(v@[0], query_spans(self.query@), None),
            height > 0 && self.completions@.len() > 0 ==> {
                let rh = (height - 1) as usize;
                let scroll = follow_scroll(self.completion_cursor, rh);
                &&& v@.len() == 1 + window(self.completions@.len() as int, scroll, rh as int)
                &&& forall|k: int|
                    1 <= k < v@.len() ==> row_shows(
                        #[trigger] v@[k],
                        seq![
                            (self.completions@[scroll + k - 1].display_text@,
                            completion_style(self.completions@[scroll + k - 1])),
                        ],
                        cursor_patch(scroll + k - 1, self.completion_cursor),
                    )
            },
            height > 0 && self.completions@.len() == 0 && self.matches@.len() == 0 ==> v@.len() == (
            if height > 1 {
                2int
            } else {
                1int
            }) && (height > 1 ==> row_shows(
                v@[1],
                seq![(no_match_text(self.query@), fg_style(Color::DarkGray))],
                None,
            )),
            height > 0 && self.completions@.len() == 0 && self.matches@.len() > 0 ==> {
                let rh = (height - 1) as usize;
                let scroll = follow_scroll(self.cursor, rh);
                &&& v@.len() == 1 + window(self.matches@.len() as int, scroll, rh as int)
                &&& forall|k: int|
                    1 <= k < v@.len() ==> row_shows(
                        #[trigger] v@[k],
                        match_spans(*self.graph, self.matches@[scroll + k - 1] as int),
                        cursor_patch(scroll + k - 1, self.cursor),
                    )
            },
    {
        let mut v: Vec<Row> = Vec::new();
        if height == 0 {
            return v;
        }
        v.push(query_row(self.query));
        let rh = height - 1;
        if self.completions.len() > 0 {
            let scroll = if rh == 0 || self.completion_cursor < rh {
                0
            } else {
                self.completion_cursor - rh + 1
            };
            let n = self.completions.len();
            let mut k: usize = 0;
            while k < rh && scroll < n && k < n - scroll
                invariant
                    n == self.completions@.len(),
                    rh == height - 1,
                    scroll == follow_scroll(self.completion_cursor, rh),
                    k <= rh,
                    scroll < n ==> k <= n - scroll,
                    scroll >= n ==> k == 0,
                    v@.len() == k + 1,
                    row_shows(v@[0], query_spans(self.query@), None),
                    forall|j: int|
                        1 <= j < v@.len() ==> row_shows(
                            #[trigger] v@[j],
                            seq![
                                (self.completions@[scroll + j - 1].display_text@,
                                completion_style(self.completions@[scroll + j - 1])),
                            ],
                            cursor_patch(scroll + j - 1, self.completion_cursor),
                        ),
                decreases rh - k,
            {
                let idx = scroll + k;
                let item = &self.completions[idx];
                let ins = crate::text::chars_of(item.insert_text.as_str());
                let style = if ins.len() > 0 && ins[ins.len() - 1] == '(' {
                    fg(Color::Cyan)
                } else {
                    plain()
                };
                let patch = if idx == self.completion_cursor {
                    Some(reversed())
                } else {
                    None
                };
                let r = single_row(item.display_text.clone(), style, patch);
                let ghost old_v = v@;
                v.push(r);
                assert forall|j: int| 1 <= j < v@.len() implies row_shows(
                    #[trigger] v@[j],
                    seq![
                        (self.completions@[scroll + j - 1].display_text@,
                        completion_style(self.completions@[scroll + j - 1])),
                    ],
                    cursor_patch(scroll + j - 1, self.completion_cursor),
                ) by {
                    if j < old_v.len() {
                        assert(v@[j] == old_v[j]);
                    }
                }
                assert(v@[0] == old_v[0]);
                k += 1;
            }
            return v;
        }
        if self.matches.len() == 0 {
            if rh > 0 {
                let msg = if self.query.is_empty() {
                    "(no changes)"
                } else {
                    "(no matches)"
                };
                v.push(single_row(String::from_str(msg), fg(Color::DarkGray), None));
            }
            return v;
        }
        let scroll = if rh == 0 || self.cursor < rh {
            0
        } else {
            self.cursor - rh + 1
        };
        let n = self.matches.len();
        let mut k: usize = 0;
        while k < rh && scroll < n && k < n - scroll
            invariant
                n == self.matches@.len(),
                rh == height - 1,
                scroll == follow_scroll(self.cursor, rh),
                matches_ok(*self.graph, self.matches@),
                k <= rh,
                scroll < n ==> k <= n - scroll,
                scroll >= n ==> k == 0,
                v@.len() == k + 1,
                row_shows(v@[0], query_spans(self.query@), None),
                forall|j: int|
                    1 <= j < v@.len() ==> row_shows(
                        #[trigger] v@[j],
                        match_spans(*self.graph, self.matches@[scroll + j - 1] as int),
                        cursor_patch(scroll + j - 1, self.cursor),
                    ),
            decreases rh - k,
        {
            let idx = scroll + k;
            let r = match_row(self.graph, self.matches[idx], idx == self.cursor);
            let ghost old_v = v@;
            v.push(r);
            assert forall|j: int| 1 <= j < v@.len() implies row_shows(
                #[trigger] v@[j],
                match_spans(*self.graph, self.matches@[scroll + j - 1] as int),
                cursor_patch(scroll + j - 1, self.cursor),
            ) by {
                if j < old_v.len() {
                    assert(v@[j] == old_v[j]);
                }
            }
            assert(v@[0] == old_v[0]);
            k += 1;
        }
        v
    }
}

} // verus!
