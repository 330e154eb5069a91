//! The bookmark picker overlay.

use vstd::prelude::*;

use crate::types::{ChangeDetail, lookup_detail};
use crate::widgets::style::{
    Color, Row, Span, Style, fg, fg_style, plain, plain_style, push_span, push_text, reversed,
    reversed_style, row_shows, single_row, spans_view, window,
};

verus! {

pub struct BookmarkPickerWidget<'a> {
    /// (name, change_id)
    pub bookmarks: &'a [(String, String)],
    pub descriptions: &'a Vec<(String, ChangeDetail)>,
    pub cursor: usize,
}

/// The first row shown in an overlay `height` rows high: just enough to
/// keep the cursor on the last row.
pub open spec fn follow_scroll(cursor: usize, height: usize) -> int {
    if height == 0 {
        0
    } else if cursor >= height {
        cursor - height + 1
    } else {
        0
    }
}

/// The spans of bookmark `b`: its name (magenta) and the description of
/// its change (grey; empty when the change is unknown).
pub open spec fn bookmark_spans(ds: Seq<(String, ChangeDetail)>, b: (String, String)) -> Seq<(Seq<char>, Style)> {
    let desc = match lookup_detail(ds, b.1@) {
        Some(d) => d.description@,
        None => Seq::empty(),
    };
    seq![(b.0@, fg_style(Color::Magenta)), ("  "@, plain_style()), (desc, fg_style(Color::DarkGray))]
}

impl<'a> BookmarkPickerWidget<'a> {
    pub fn new(
        bookmarks: &'a [(String, String)],
        descriptions: &'a Vec<(String, ChangeDetail)>,
        cursor: usize,
    ) -> (w: Self)
        ensures
            w.bookmarks == bookmarks,
            w.descriptions == descriptions,
            w.cursor == cursor,
    {
        BookmarkPickerWidget { bookmarks, descriptions, cursor }
    }

    /// The rows an overlay `height` rows high shows, scrolled so that the
    /// cursor is visible, the bookmark under the cursor reversed; a note
    /// when there are no bookmarks.
    pub fn rows(&self, height: usize) -> (v: Vec<Row>)
        ensures
            self.bookmarks@.len() == 0 ==> v@.len() == 1 && row_shows(
                v@[0],
                seq![("(no bookmarks)"@, fg_style(Color::DarkGray))],
                None,
            ),
            self.bookmarks@.len() > 0 ==> {
                let scroll = follow_scroll(self.cursor, height);
                &&& v@.len() == window(self.bookmarks@.len() as int, scroll, height as int)
                &&& forall|k: int|
                    0 <= k < v@.len() ==> row_shows(
                        #[trigger] v@[k],
                        bookmark_spans(self.descriptions@, self.bookmarks@[scroll + k]),
                        if scroll + k == self.cursor {
                            Some(reversed_style())
                        } else {
                            None
                        },
                    )
            },
    {
        let mut v: Vec<Row> = Vec::new();
        if self.bookmarks.len() == 0 {
            v.push(single_row(String::from_str("(no bookmarks)"), fg(Color::DarkGray), None));
            return v;
        }
        let scroll = if height == 0 {
            0
        } else if self.cursor >= height {
            self.cursor - height + 1
        } else {
            0
        };
        let n = self.bookmarks.len();
        let mut k: usize = 0;
        while k < height && scroll < n && k < n - scroll
            invariant
                n == self.bookmarks@.len(),
                scroll == follow_scroll(self.cursor, height),
                k <= height,
                scroll < n ==> k <= n - scroll,
                scroll >= n ==> k == 0,
                v@.len() == k,
                forall|j: int|
                    0 <= j < v@.len() ==> row_shows(
                        #[trigger] v@[j],
                        bookmark_spans(self.descriptions@, self.bookmarks@[scroll + j]),
                        if scroll + j == self.cursor {
                            Some(reversed_style())
                        } else {
                            None
                        },
                    ),
            decreases height - k,
        {
            let idx = scroll + k;
            let (name, cid) = &self.bookmarks[idx];
            let mut spans: Vec<Span> = Vec::new();
            push_span(&mut spans, name.clone(), fg(Color::Magenta));
            push_text(&mut spans, "  ", plain());
            let desc = match crate::types::find_detail(self.descriptions, cid.as_str()) {
                Some(d) => d.description.clone(),
                None => String::new(),
            };
            push_span(&mut spans, desc, fg(Color::DarkGray));
            assert(spans_view(spans@) =~= bookmark_spans(self.descriptions@, self.bookmarks@[idx as int]));
            let patch = if idx == self.cursor {
                Some(reversed())
            } else {
                None
            };
            let ghost old_v = v@;
            v.push(Row { spans, patch });
            assert forall|j: int| 0 <= j < v@.len() implies row_shows(
                #[trigger] v@[j],
                bookmark_spans(self.descriptions@, self.bookmarks@[scroll + j]),
                if scroll + j == self.cursor {
                    Some(reversed_style())
                } else {
                    None
                },
            ) by {
                if j < old_v.len() {
                    assert(v@[j] == old_v[j]);
                }
            }
            k += 1;
        }
        v
    }
}

} // verus!
