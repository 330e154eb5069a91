//! The conflict view: each conflict hunk as its base, left and right
//! sides, with how it is resolved; resolved text collapsed to a line count.

use vstd::prelude::*;

use crate::app::{ConflictView, HunkResolution, conflict_region_count};
use crate::text::{append_str, chars_of, decimal, lines_of, lines_spec, push_decimal, seqs_view, string_of};
use crate::types::ConflictRegion;
use crate::widgets::style::{Color, Row, Style, fg, fg_style, plain, plain_style, row_shows, single_row, window};

verus! {

/// A line of the conflict view, before it is drawn.
#[derive(Debug)]
pub enum RenderLine {
    /// Collapsed resolved region: "... N lines ..."
    ResolvedCollapsed { line_count: usize },
    /// Separator line for a conflict block section.
    Separator { text: String, style: Style },
    /// A content line within a conflict block section.
    Content { text: String, style: Style },
    /// Resolution status line at the bottom of a conflict block.
    ResolutionStatus { resolution: HunkResolution, hunk_idx: usize },
}

/// A line of the conflict view, as the spec sees it.
pub enum LineV {
    Collapsed(nat),
    Separator(Seq<char>, Style),
    Content(Seq<char>, Style),
    Status(HunkResolution, nat),
}

/// A render line as the spec sees it.
pub open spec fn line_view(l: RenderLine) -> LineV {
    match l {
        RenderLine::ResolvedCollapsed { line_count } => LineV::Collapsed(line_count as nat),
        RenderLine::Separator { text, style } => LineV::Separator(text@, style),
        RenderLine::Content { text, style } => LineV::Content(text@, style),
        RenderLine::ResolutionStatus { resolution, hunk_idx } => LineV::Status(
            resolution,
            hunk_idx as nat,
        ),
    }
}

/// A list of render lines as the spec sees it.
pub open spec fn lines_view(v: Seq<RenderLine>) -> Seq<LineV> {
    v.map_values(|l: RenderLine| line_view(l))
}

pub struct ConflictViewWidget<'a> {
    pub view: &'a ConflictView,
}

/// The box-drawing rule around labels.
pub open spec fn rule() -> Seq<char> {
    seq!['\u{2500}', '\u{2500}', '\u{2500}']
}

/// A separator like `─── label ───` or `─── label ─── tag ───`.
pub open spec fn separator_text(label: Seq<char>, tag: Seq<char>) -> Seq<char> {
    if tag.len() == 0 {
        rule() + " "@ + label + " "@ + rule()
    } else {
        rule() + " "@ + label + " "@ + rule() + " "@ + tag + " "@ + rule()
    }
}

/// The style of a separator: its colour, bold on the current hunk.
pub open spec fn separator_style(c: Color, current: bool) -> Style {
    Style { fg: Some(c), bg: None, bold: current, italic: false, reversed: false }
}

/// The style of a side's content: grey when the side is dimmed.
pub open spec fn content_style(dimmed: bool) -> Style {
    if dimmed {
        fg_style(Color::DarkGray)
    } else {
        plain_style()
    }
}

/// One side of a conflict hunk: a separator, then the side's lines (or a
/// note when the side deleted the file).
pub open spec fn side_lines(
    label: Seq<char>,
    tag: Seq<char>,
    content: Seq<char>,
    current: bool,
    dimmed: bool,
    c: Color,
) -> Seq<LineV> {
    seq![LineV::Separator(separator_text(label, tag), separator_style(c, current))] + if content.len()
        == 0 {
        seq![
            LineV::Content(
                "  (file deleted)"@,
                Style { italic: true, ..content_style(dimmed) },
            ),
        ]
    } else {
        Seq::new(
            lines_spec(content).len(),
            |i: int| LineV::Content(lines_spec(content)[i], content_style(dimmed)),
        )
    }
}

/// How conflict hunk `idx` is resolved (unresolved when unrecorded).
pub open spec fn resolution_at(v: ConflictView, idx: nat) -> HunkResolution {
    if idx < v.resolutions@.len() {
        v.resolutions@[idx as int]
    } else {
        HunkResolution::Unresolved
    }
}

/// The lines of conflict hunk `idx`: base (always grey), left (grey when
/// the right side was taken, else blue), right (grey when the left side
/// was taken, else green), then its resolution.
pub open spec fn hunk_lines(
    v: ConflictView,
    idx: nat,
    base: Seq<char>,
    left: Seq<char>,
    right: Seq<char>,
) -> Seq<LineV> {
    let r = resolution_at(v, idx);
    let cur = idx == v.cursor;
    let left_dim = r == HunkResolution::AcceptRight;
    let right_dim = r == HunkResolution::AcceptLeft;
    side_lines("base"@, ""@, base, cur, true, Color::DarkGray) + side_lines(
        "left (ours)"@,
        "[1]"@,
        left,
        cur,
        left_dim,
        if left_dim {
            Color::DarkGray
        } else {
            Color::Blue
        },
    ) + side_lines(
        "right (theirs)"@,
        "[2]"@,
        right,
        cur,
        right_dim,
        if right_dim {
            Color::DarkGray
        } else {
            Color::Green
        },
    ) + seq![LineV::Status(r, idx)]
}

/// The lines of region `r`, the `idx`th conflict hunk when it is one.
pub open spec fn region_lines(v: ConflictView, r: ConflictRegion, idx: nat) -> Seq<LineV> {
    match r {
        ConflictRegion::Resolved(text) => seq![
            LineV::Collapsed(
                if lines_spec(text@).len() > 1 {
                    lines_spec(text@).len()
                } else {
                    1
                },
            ),
        ],
        ConflictRegion::Conflict { base, left, right } => hunk_lines(v, idx, base@, left@, right@),
    }
}

/// The lines of the regions `rs` of view `v`, in order.
pub open spec fn view_lines(v: ConflictView, rs: Seq<ConflictRegion>) -> Seq<LineV>
    decreases rs.len(),
{
    if rs.len() == 0 {
        Seq::empty()
    } else {
        view_lines(v, rs.drop_last()) + region_lines(v, rs.last(), conflict_region_count(rs.drop_last()))
    }
}

/// The label of a resolution.
pub open spec fn resolution_label(r: HunkResolution) -> Seq<char> {
    match r {
        HunkResolution::Unresolved => "resolved: none"@,
        HunkResolution::AcceptLeft => "resolved: left (ours)"@,
        HunkResolution::AcceptRight => "resolved: right (theirs)"@,
    }
}

/// How a line is drawn: its text, its style and the style laid over its
/// row.
pub open spec fn line_row(v: ConflictView, l: LineV) -> (Seq<char>, Style, Option<Style>) {
    match l {
        LineV::Collapsed(n) => (
            seq!['\u{00b7}', '\u{00b7}', '\u{00b7}'] + " "@ + decimal(n) + " lines "@ + seq![
                '\u{00b7}',
                '\u{00b7}',
                '\u{00b7}',
            ],
            fg_style(Color::DarkGray),
            None,
        ),
        LineV::Separator(text, st) => (text, st, Some(st)),
        LineV::Content(text, st) => (" "@ + text, st, None),
        LineV::Status(r, idx) => {
            let st = separator_style(Color::Yellow, idx == v.cursor);
            (rule() + " "@ + resolution_label(r) + " "@ + rule(), st, Some(st))
        },
    }
}

fn separator(label: &str, tag: &str, is_current: bool, c: Color) -> (r: (String, Style))
    ensures
        r.0@ == separator_text(label@, tag@),
        r.1 == separator_style(c, is_current),
{
    let mut text = String::new();
    append_str(&mut text, "\u{2500}\u{2500}\u{2500} ");
    append_str(&mut text, label);
    append_str(&mut text, " \u{2500}\u{2500}\u{2500}");
    if !tag.is_empty() {
        append_str(&mut text, " ");
        append_str(&mut text, tag);
        append_str(&mut text, " \u{2500}\u{2500}\u{2500}");
    }
    proof {
        reveal_strlit("\u{2500}\u{2500}\u{2500} ");
        reveal_strlit(" \u{2500}\u{2500}\u{2500}");
        reveal_strlit(" ");
        assert(text@ =~= separator_text(label@, tag@));
    }
    (text, Style { fg: Some(c), bg: None, bold: is_current, italic: false, reversed: false })
}

impl<'a> ConflictViewWidget<'a> {
    pub fn new(view: &'a ConflictView) -> (w: Self)
        ensures
            w.view == view,
    {
        ConflictViewWidget { view }
    }

    /// The label of resolution `resolution`.
    pub fn resolution_text(resolution: HunkResolution) -> (t: &'static str)
        ensures
            t@ == resolution_label(resolution),
    {
        match resolution {
            HunkResolution::Unresolved => "resolved: none",
            HunkResolution::AcceptLeft => "resolved: left (ours)",
            HunkResolution::AcceptRight => "resolved: right (theirs)",
        }
    }

    /// Appends one side of a conflict hunk, always grey.
    pub fn push_side(
        lines: &mut Vec<RenderLine>,
        label: &str,
        tag: &str,
        content: &str,
        is_current: bool,
        _dimmed: bool,
    )
        ensures
            lines_view(final(lines)@) == lines_view(old(lines)@) + side_lines(
                label@,
                tag@,
                content@,
                is_current,
                true,
                Color::DarkGray,
            ),
    {
        Self::push_side_colored(lines, label, tag, content, is_current, true, Color::DarkGray);
    }

    /// Appends one side of a conflict hunk: a separator in colour `c`, then
    /// the side's lines.
    pub fn push_side_colored(
        lines: &mut Vec<RenderLine>,
        label: &str,
        tag: &str,
        content: &str,
        is_current: bool,
        dimmed: bool,
        c: Color,
    )
        ensures
            lines_view(final(lines)@) == lines_view(old(lines)@) + side_lines(
                label@,
                tag@,
                content@,
                is_current,
                dimmed,
                c,
            ),
    {
        let ghost start = lines_view(lines@);
        let (text, style) = separator(label, tag, is_current, c);
        lines.push(RenderLine::Separator { text, style });
        let cs = if dimmed {
            fg(Color::DarkGray)
        } else {
            plain()
        };
        let ghost head = start + seq![LineV::Separator(separator_text(label@, tag@), separator_style(c, is_current))];
        assert(lines_view(lines@) =~= head);
        if content.is_empty() {
            lines.push(
                RenderLine::Content {
                    text: String::from_str("  (file deleted)"),
                    style: Style { italic: true, ..cs },
                },
            );
            assert(lines_view(lines@) =~= head + seq![
                LineV::Content("  (file deleted)"@, Style { italic: true, ..content_style(dimmed) }),
            ]);
        } else {
            let ls = lines_of(&chars_of(content));
            let ghost want = lines_spec(content@);
            let mut i: usize = 0;
            while i < ls.len()
                invariant
                    seqs_view(ls@) == want,
                    want == lines_spec(content@),
                    i <= ls@.len(),
                    cs == content_style(dimmed),
                    lines_view(lines@) == head + Seq::new(
                        i as nat,
                        |k: int| LineV::Content(want[k], content_style(dimmed)),
                    ),
                decreases ls@.len() - i,
            {
                let text = string_of(&ls[i]);
                assert(text@ == want[i as int]);
                let ghost prev = lines@;
                let item = RenderLine::Content { text, style: cs };
                lines.push(item);
                assert(lines@ == prev.push(item));
                assert(line_view(item) == LineV::Content(want[i as int], content_style(dimmed)));
                assert(lines_view(lines@) =~= lines_view(prev).push(line_view(item)));
                assert(lines_view(lines@) =~= head + Seq::new(
                    (i + 1) as nat,
                    |k: int| LineV::Content(want[k], content_style(dimmed)),
                ));
                i += 1;
            }
            assert(content@.len() > 0);
        }
    }

    /// The conflict view's lines, top to bottom.
    pub fn render_lines(&self) -> (v: Vec<RenderLine>)
        ensures
            lines_view(v@) == view_lines(*self.view, self.view.data.regions@),
    {
        let regions = &self.view.data.regions;
        let mut lines: Vec<RenderLine> = Vec::new();
        let mut hunk_idx: usize = 0;
        let mut i: usize = 0;
        while i < regions.len()
            invariant
                regions == &self.view.data.regions,
                i <= regions@.len(),
                hunk_idx == conflict_region_count(regions@.take(i as int)),
                hunk_idx <= i,
                lines_view(lines@) == view_lines(*self.view, regions@.take(i as int)),
            decreases regions@.len() - i,
        {
            assert(regions@.take(i + 1).drop_last() =~= regions@.take(i as int));
            assert(regions@.take(i + 1).last() == regions@[i as int]);
            let ghost before = lines_view(lines@);
            match &regions[i] {
                ConflictRegion::Resolved(text) => {
                    let n = lines_of(&chars_of(text.as_str())).len();
                    let count = if n > 1 {
                        n
                    } else {
                        1
                    };
                    let ghost prev = lines@;
                    let item = RenderLine::ResolvedCollapsed { line_count: count };
                    lines.push(item);
                    assert(lines@ == prev.push(item));
                    assert(lines_view(lines@) =~= before + region_lines(
                        *self.view,
                        regions@[i as int],
                        hunk_idx as nat,
                    ));
                },
                ConflictRegion::Conflict { base, left, right } => {
                    let resolution = if hunk_idx < self.view.resolutions.len() {
                        self.view.resolutions[hunk_idx]
                    } else {
                        HunkResolution::Unresolved
                    };
                    let is_current = hunk_idx == self.view.cursor;
                    Self::push_side(&mut lines, "base", "", base.as_str(), is_current, false);
                    let left_dimmed = match resolution {
                        HunkResolution::AcceptRight => true,
                        _ => false,
                    };
                    let left_fg = if left_dimmed {
                        Color::DarkGray
                    } else {
                        Color::Blue
                    };
                    Self::push_side_colored(
                        &mut lines,
                        "left (ours)",
                        "[1]",
                        left.as_str(),
                        is_current,
                        left_dimmed,
                        left_fg,
                    );
                    let right_dimmed = match resolution {
                        HunkResolution::AcceptLeft => true,
                        _ => false,
                    };
                    let right_fg = if right_dimmed {
                        Color::DarkGray
                    } else {
                        Color::Green
                    };
                    Self::push_side_colored(
                        &mut lines,
                        "right (theirs)",
                        "[2]",
                        right.as_str(),
                        is_current,
                        right_dimmed,
                        right_fg,
                    );
                    let ghost prev = lines@;
                    assert(resolution == resolution_at(*self.view, hunk_idx as nat));
                    let ghost r = resolution_at(*self.view, hunk_idx as nat);
                    let ghost cur = hunk_idx == self.view.cursor;
                    assert(lines_view(prev) =~= before + side_lines(
                        "base"@,
                        ""@,
                        base@,
                        cur,
                        true,
                        Color::DarkGray,
                    ) + side_lines(
                        "left (ours)"@,
                        "[1]"@,
                        left@,
                        cur,
                        r == HunkResolution::AcceptRight,
                        left_fg,
                    ) + side_lines(
                        "right (theirs)"@,
                        "[2]"@,
                        right@,
                        cur,
                        r == HunkResolution::AcceptLeft,
                        right_fg,
                    ));
                    let item = RenderLine::ResolutionStatus { resolution, hunk_idx };
                    lines.push(item);
                    assert(lines@ == prev.push(item));
                    assert(lines_view(lines@) =~= lines_view(prev).push(
                        LineV::Status(resolution, hunk_idx as nat),
                    ));
                    assert(lines_view(lines@) =~= before + region_lines(
                        *self.view,
                        regions@[i as int],
                        hunk_idx as nat,
                    ));
                    hunk_idx += 1;
                },
            }
            i += 1;
        }
        assert(regions@.take(regions@.len() as int) =~= regions@);
        lines
    }
}


/// Row `r` draws line `l`.
pub open spec fn draws_line(v: ConflictView, l: LineV, r: Row) -> bool {
    let (text, st, patch) = line_row(v, l);
    row_shows(r, seq![(text, st)], patch)
}

fn row_for(v: &ConflictView, l: &RenderLine) -> (r: Row)
    ensures
        draws_line(*v, line_view(*l), r),
{
    match l {
        RenderLine::ResolvedCollapsed { line_count } => {
            let mut text = String::new();
            append_str(&mut text, "\u{00b7}\u{00b7}\u{00b7} ");
            push_decimal(&mut text, *line_count);
            append_str(&mut text, " lines \u{00b7}\u{00b7}\u{00b7}");
            proof {
                reveal_strlit("\u{00b7}\u{00b7}\u{00b7} ");
                reveal_strlit(" lines \u{00b7}\u{00b7}\u{00b7}");
                reveal_strlit(" lines ");
                reveal_strlit(" ");
                assert(text@ =~= line_row(*v, line_view(*l)).0);
            }
            single_row(text, fg(Color::DarkGray), None)
        },
        RenderLine::Separator { text, style } => single_row(text.clone(), *style, Some(*style)),
        RenderLine::Content { text, style } => {
            let mut t = String::new();
            append_str(&mut t, " ");
            append_str(&mut t, text.as_str());
            single_row(t, *style, None)
        },
        RenderLine::ResolutionStatus { resolution, hunk_idx } => {
            let mut t = String::new();
            append_str(&mut t, "\u{2500}\u{2500}\u{2500} ");
            append_str(&mut t, ConflictViewWidget::resolution_text(*resolution));
            append_str(&mut t, " \u{2500}\u{2500}\u{2500}");
            proof {
                reveal_strlit("\u{2500}\u{2500}\u{2500} ");
                reveal_strlit(" \u{2500}\u{2500}\u{2500}");
                reveal_strlit(" ");
                assert(t@ =~= line_row(*v, line_view(*l)).0);
            }
            let st = Style {
                fg: Some(Color::Yellow),
                bg: None,
                bold: *hunk_idx == v.cursor,
                italic: false,
                reversed: false,
            };
            single_row(t, st, Some(st))
        },
    }
}

impl<'a> ConflictViewWidget<'a> {
    /// The rows of a panel `width` columns wide and `height` rows high:
    /// the view's lines from its scroll position on, or a note when the
    /// file has no regions.
    pub fn rows(&self, width: u16, height: usize) -> (v: Vec<Row>)
        ensures
            width == 0 || height == 0 ==> v@.len() == 0,
            width > 0 && height > 0 && self.view.data.regions@.len() == 0 ==> v@.len() == 1
                && row_shows(v@[0], seq![("(no conflict regions)"@, fg_style(Color::DarkGray))], None),
            width > 0 && height > 0 && self.view.data.regions@.len() > 0 ==> {
                let ls = view_lines(*self.view, self.view.data.regions@);
                &&& v@.len() == window(ls.len() as int, self.view.scroll as int, height as int)
                &&& forall|k: int|
                    0 <= k < v@.len() ==> draws_line(*self.view, ls[self.view.scroll + k], #[trigger] v@[k])
            },
    {
        let mut v: Vec<Row> = Vec::new();
        if width == 0 || height == 0 {
            return v;
        }
        if self.view.data.regions.len() == 0 {
            v.push(single_row(String::from_str("(no conflict regions)"), fg(Color::DarkGray), None));
            return v;
        }
        let lines = self.render_lines();
        let ghost ls = view_lines(*self.view, self.view.data.regions@);
        let scroll = self.view.scroll;
        let n = lines.len();
        let mut k: usize = 0;
        while k < height && scroll < n && k < n - scroll
            invariant
                n == lines@.len(),
                lines_view(lines@) == ls,
                scroll == self.view.scroll,
                k <= height,
                scroll < n ==> k <= n - scroll,
                scroll >= n ==> k == 0,
                v@.len() == k,
                forall|j: int| 0 <= j < v@.len() ==> draws_line(*self.view, ls[scroll + j], #[trigger] v@[j]),
            decreases height - k,
        {
            let r = row_for(self.view, &lines[scroll + k]);
            assert(ls[scroll + k] == line_view(lines@[scroll + k]));
            let ghost old_v = v@;
            v.push(r);
            assert forall|j: int| 0 <= j < v@.len() implies draws_line(
                *self.view,
                ls[scroll + j],
                #[trigger] v@[j],
            ) by {
                if j < old_v.len() {
                    assert(v@[j] == old_v[j]);
                }
            }
            k += 1;
        }
        v
    }
}

} // verus!
