//! The diff of one file: hunk headers and their lines.

use vstd::prelude::*;

use crate::text::append_str;
use crate::types::{DiffHunk, DiffLineKind};
use crate::widgets::hunk_picker::line_sign;
use crate::widgets::style::{Color, Row, Style, fg_style, row_shows, single_row, window};

verus! {

pub struct DiffViewWidget<'a> {
    pub hunks: &'a [DiffHunk],
    pub scroll: usize,
}

/// The lines of the diff of `hunks`: each hunk's header, then its lines.
pub open spec fn flat_diff(hunks: Seq<DiffHunk>) -> Seq<(DiffLineKind, Seq<char>)>
    decreases hunks.len(),
{
    if hunks.len() == 0 {
        Seq::empty()
    } else {
        let h = hunks.last();
        flat_diff(hunks.drop_last()) + seq![(DiffLineKind::Header, h.header@)] + Seq::new(
            h.lines@.len(),
            |i: int| (h.lines@[i].kind, h.lines@[i].content@),
        )
    }
}

/// The style of a diff line of kind `k`.
pub open spec fn diff_line_style(k: DiffLineKind) -> Style {
    match k {
        DiffLineKind::Added => fg_style(Color::Green),
        DiffLineKind::Removed => fg_style(Color::Red),
        DiffLineKind::Context => Style { fg: None, bg: None, bold: false, italic: false, reversed: false },
        DiffLineKind::Header => Style {
            fg: Some(Color::DarkGray),
            bg: None,
            bold: true,
            italic: false,
            reversed: false,
        },
    }
}

impl<'a> DiffViewWidget<'a> {
    pub fn new(hunks: &'a [DiffHunk], scroll: usize) -> (w: Self)
        ensures
            w.hunks == hunks,
            w.scroll == scroll,
    {
        DiffViewWidget { hunks, scroll }
    }

    /// The lines of the diff, in order: each hunk's header, then its lines.
    pub fn flat_lines(&self) -> (v: Vec<(DiffLineKind, &'a str)>)
        ensures
            v@.map_values(|p: (DiffLineKind, &str)| (p.0, p.1@)) == flat_diff(self.hunks@),
    {
        let mut v: Vec<(DiffLineKind, &'a str)> = Vec::new();
        let mut i: usize = 0;
        while i < self.hunks.len()
            invariant
                i <= self.hunks@.len(),
                v@.map_values(|p: (DiffLineKind, &str)| (p.0, p.1@)) == flat_diff(
                    self.hunks@.take(i as int),
                ),
            decreases self.hunks@.len() - i,
        {
            let hunk = &self.hunks[i];
            assert(self.hunks@.take(i + 1).drop_last() =~= self.hunks@.take(i as int));
            let ghost before = v@.map_values(|p: (DiffLineKind, &str)| (p.0, p.1@));
            v.push((DiffLineKind::Header, hunk.header.as_str()));
            let mut k: usize = 0;
            while k < hunk.lines.len()
                invariant
                    k <= hunk.lines@.len(),
                    v@.map_values(|p: (DiffLineKind, &str)| (p.0, p.1@)) == before + seq![
                        (DiffLineKind::Header, hunk.header@),
                    ] + Seq::new(k as nat, |j: int| (hunk.lines@[j].kind, hunk.lines@[j].content@)),
                decreases hunk.lines@.len() - k,
            {
                let ghost prev = v@;
                let item = (hunk.lines[k].kind, hunk.lines[k].content.as_str());
                v.push(item);
                assert(v@ == prev.push(item));
                assert(v@.map_values(|p: (DiffLineKind, &str)| (p.0, p.1@)) =~= prev.map_values(
                    |p: (DiffLineKind, &str)| (p.0, p.1@),
                ).push((hunk.lines@[k as int].kind, hunk.lines@[k as int].content@)));
                assert(v@.map_values(|p: (DiffLineKind, &str)| (p.0, p.1@)) =~= before + seq![
                    (DiffLineKind::Header, hunk.header@),
                ] + Seq::new((k + 1) as nat, |j: int| (hunk.lines@[j].kind, hunk.lines@[j].content@)));
                k += 1;
            }
            assert(v@.map_values(|p: (DiffLineKind, &str)| (p.0, p.1@)) =~= flat_diff(
                self.hunks@.take(i + 1),
            ));
            i += 1;
        }
        assert(self.hunks@.take(self.hunks@.len() as int) =~= self.hunks@);
        v
    }

    /// The rows a panel `height` rows high shows: the diff from the scroll
    /// position on, each line with its sign and in its kind's colour; a
    /// note when the diff is empty.
    pub fn rows(&self, height: usize) -> (v: Vec<Row>)
        ensures
            self.hunks@.len() == 0 ==> v@.len() == 1 && row_shows(
                v@[0],
                seq![("(empty diff)"@, fg_style(Color::DarkGray))],
                None,
            ),
            self.hunks@.len() > 0 ==> {
                let flat = flat_diff(self.hunks@);
                &&& v@.len() == window(flat.len() as int, self.scroll as int, height as int)
                &&& forall|k: int|
                    0 <= k < v@.len() ==> row_shows(
                        #[trigger] v@[k],
                        seq![
                            (line_sign(flat[self.scroll + k].0) + flat[self.scroll + k].1,
                            diff_line_style(flat[self.scroll + k].0)),
                        ],
                        None,
                    )
            },
    {
        let mut v: Vec<Row> = Vec::new();
        if self.hunks.len() == 0 {
            v.push(
                single_row(
                    String::from_str("(empty diff)"),
                    crate::widgets::style::fg(Color::DarkGray),
                    None,
                ),
            );
            return v;
        }
        let flat = self.flat_lines();
        let ghost fl = flat_diff(self.hunks@);
        let mut k: usize = 0;
        while k < height && self.scroll < flat.len() && k < flat.len() - self.scroll
            invariant
                flat@.map_values(|p: (DiffLineKind, &str)| (p.0, p.1@)) == fl,
                fl == flat_diff(self.hunks@),
                k <= height,
                self.scroll < flat@.len() ==> k <= flat@.len() - self.scroll,
                self.scroll >= flat@.len() ==> k == 0,
                v@.len() == k,
                forall|j: int|
                    0 <= j < v@.len() ==> row_shows(
                        #[trigger] v@[j],
                        seq![
                            (line_sign(fl[self.scroll + j].0) + fl[self.scroll + j].1,
                            diff_line_style(fl[self.scroll + j].0)),
                        ],
                        None,
                    ),
            decreases height - k,
        {
            let (kind, content) = flat[self.scroll + k];
            assert(fl[self.scroll + k] == (kind, content@));
            let mut text = String::new();
            let (sign, style) = match kind {
                DiffLineKind::Added => ("+", crate::widgets::style::fg(Color::Green)),
                DiffLineKind::Removed => ("-", crate::widgets::style::fg(Color::Red)),
                DiffLineKind::Context => (" ", crate::widgets::style::plain()),
                DiffLineKind::Header => (
                    "",
                    Style { fg: Some(Color::DarkGray), bg: None, bold: true, italic: false, reversed: false },
                ),
            };
            append_str(&mut text, sign);
            append_str(&mut text, content);
            let ghost old_v = v@;
            v.push(single_row(text, style, None));
            assert forall|j: int| 0 <= j < v@.len() implies row_shows(
                #[trigger] v@[j],
                seq![
                    (line_sign(fl[self.scroll + j].0) + fl[self.scroll + j].1,
                    diff_line_style(fl[self.scroll + j].0)),
                ],
                None,
            ) by {
                if j < old_v.len() {
                    assert(v@[j] == old_v[j]);
                } else {
                    assert(Seq::<char>::empty() + content@ =~= content@);
                }
            }
            k += 1;
        }
        v
    }
}

} // verus!
