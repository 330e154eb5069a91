//! The operation log overlay.

use vstd::prelude::*;

use crate::types::OpLogEntry;
use crate::widgets::style::{
    Color, Row, Span, fg, fg_style, plain, plain_style, push_span, push_text, reversed,
    reversed_style, row_shows, single_row, spans_view, window,
};

verus! {

pub struct OpLogWidget<'a> {
    pub entries: &'a [OpLogEntry],
    pub cursor: usize,
    pub scroll: usize,
}

/// The spans of an operation: ID (yellow), time (cyan), description.
pub open spec fn op_spans(e: OpLogEntry) -> Seq<(Seq<char>, crate::widgets::style::Style)> {
    seq![
        (e.id@, fg_style(Color::Yellow)),
        ("  "@, plain_style()),
        (e.timestamp@, fg_style(Color::Cyan)),
        ("  "@, plain_style()),
        (e.description@, plain_style()),
    ]
}

impl<'a> OpLogWidget<'a> {
    pub fn new(entries: &'a [OpLogEntry], cursor: usize, scroll: usize) -> (w: Self)
        ensures
            w.entries == entries,
            w.cursor == cursor,
            w.scroll == scroll,
    {
        OpLogWidget { entries, cursor, scroll }
    }

    /// The rows an overlay `height` rows high shows, from the scroll
    /// position on, the operation under the cursor reversed; a note when
    /// the log is empty.
    pub fn rows(&self, height: usize) -> (v: Vec<Row>)
        ensures
            self.entries@.len() == 0 ==> v@.len() == 1 && row_shows(
                v@[0],
                seq![("(no operations)"@, fg_style(Color::DarkGray))],
                None,
            ),
            self.entries@.len() > 0 ==> {
                &&& v@.len() == window(self.entries@.len() as int, self.scroll as int, height as int)
                &&& forall|k: int|
                    0 <= k < v@.len() ==> row_shows(
                        #[trigger] v@[k],
                        op_spans(self.entries@[self.scroll + k]),
                        if self.scroll + k == self.cursor {
                            Some(reversed_style())
                        } else {
                            None
                        },
                    )
            },
    {
        let mut v: Vec<Row> = Vec::new();
        if self.entries.len() == 0 {
            v.push(single_row(String::from_str("(no operations)"), fg(Color::DarkGray), None));
            return v;
        }
        let mut k: usize = 0;
        while k < height && self.scroll < self.entries.len() && k < self.entries.len() - self.scroll
            invariant
                k <= height,
                self.scroll < self.entries@.len() ==> k <= self.entries@.len() - self.scroll,
                self.scroll >= self.entries@.len() ==> k == 0,
                v@.len() == k,
                forall|j: int|
                    0 <= j < v@.len() ==> row_shows(
                        #[trigger] v@[j],
                        op_spans(self.entries@[self.scroll + j]),
                        if self.scroll + j == self.cursor {
                            Some(reversed_style())
                        } else {
                            None
                        },
                    ),
            decreases height - k,
        {
            let idx = self.scroll + k;
            let e = &self.entries[idx];
            let mut spans: Vec<Span> = Vec::new();
            push_span(&mut spans, e.id.clone(), fg(Color::Yellow));
            push_text(&mut spans, "  ", plain());
            push_span(&mut spans, e.timestamp.clone(), fg(Color::Cyan));
            push_text(&mut spans, "  ", plain());
            push_span(&mut spans, e.description.clone(), plain());
            assert(spans_view(spans@) =~= op_spans(*e));
            let patch = if idx == self.cursor {
                Some(reversed())
            } else {
                None
            };
            let ghost old_v = v@;
            v.push(Row { spans, patch });
            assert forall|j: int| 0 <= j < v@.len() implies row_shows(
                #[trigger] v@[j],
                op_spans(self.entries@[self.scroll + j]),
                if self.scroll + j == self.cursor {
                    Some(reversed_style())
                } else {
                    None
                },
            ) by {
                if j < old_v.len() {
                    assert(v@[j] == old_v[j]);
                }
            }
            k += 1;
        }
        v
    }
}

} // verus!
