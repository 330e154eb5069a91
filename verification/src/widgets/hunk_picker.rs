//! The hunk picker: files, their hunks with check boxes, and the hunks'
//! lines, in one scrolling list.

use vstd::prelude::*;

use crate::app::{HunkPicker, PickerFile, PickerHunk};
use crate::text::{append_str, decimal, push_decimal};
use crate::types::DiffLineKind;
use crate::widgets::status_bar::{hunk_count, selected_in};
use crate::widgets::style::{Color, Row, Span, Style, fg_style, spans_view};

verus! {

/// An entry of the picker's list, by position: a file header (file `f`), a
/// hunk (hunk `h` of file `f`, the `n`th hunk overall), or line `l` of such
/// a hunk (with whether the hunk is selected).
pub enum FlatItem {
    FileHeader(nat),
    Hunk(nat, nat, nat),
    Line(nat, nat, nat, nat, bool),
}

/// An entry of the picker's list, pointing into the picker.
#[derive(Debug)]
pub enum PickerItem<'a> {
    FileHeader { file: &'a PickerFile },
    Hunk {
        hunk: &'a PickerHunk,
        /// Global flat-list index (used for cursor comparison)
        flat_idx: usize,
    },
    DiffLine {
        kind: DiffLineKind,
        content: &'a str,
        /// Global flat-list index of the *hunk* that owns this line (for bg tinting)
        hunk_flat_idx: usize,
        hunk_selected: bool,
    },
}

/// The entries of hunk `h` of file `f`, the `n`th hunk overall: the hunk,
/// then its lines.
pub open spec fn hunk_items(f: nat, h: nat, hunk: PickerHunk, n: nat) -> Seq<FlatItem> {
    seq![FlatItem::Hunk(f, h, n)] + Seq::new(
        hunk.lines@.len(),
        |l: int| FlatItem::Line(f, h, l as nat, n, hunk.selected),
    )
}

/// The entries of the hunks `hunks` of file `f`, whose first hunk is the
/// `n`th overall.
pub open spec fn file_hunk_items(f: nat, hunks: Seq<PickerHunk>, n: nat) -> Seq<FlatItem>
    decreases hunks.len(),
{
    if hunks.len() == 0 {
        Seq::empty()
    } else {
        file_hunk_items(f, hunks.drop_last(), n) + hunk_items(
            f,
            (hunks.len() - 1) as nat,
            hunks.last(),
            (n + hunks.len() - 1) as nat,
        )
    }
}

/// The whole list: each file's header followed by its hunks' entries.
pub open spec fn all_items(files: Seq<PickerFile>) -> Seq<FlatItem>
    decreases files.len(),
{
    if files.len() == 0 {
        Seq::empty()
    } else {
        let f = (files.len() - 1) as nat;
        all_items(files.drop_last()) + seq![FlatItem::FileHeader(f)] + file_hunk_items(
            f,
            files.last().hunks@,
            hunk_count(files.drop_last()),
        )
    }
}

/// `it` is the entry `fv` of the list of `files`.
pub open spec fn item_is(files: Seq<PickerFile>, it: PickerItem, fv: FlatItem) -> bool {
    match fv {
        FlatItem::FileHeader(f) => it matches PickerItem::FileHeader { file } && f < files.len()
            && *file == files[f as int],
        FlatItem::Hunk(f, h, n) => it matches PickerItem::Hunk { hunk, flat_idx } && f
            < files.len() && h < files[f as int].hunks@.len() && *hunk == files[f as int].hunks@[h as int]
            && flat_idx == n,
        FlatItem::Line(f, h, l, n, sel) => it matches PickerItem::DiffLine {
            kind,
            content,
            hunk_flat_idx,
            hunk_selected,
        } && f < files.len() && h < files[f as int].hunks@.len() && l < files[f as int].hunks@[h as int].lines@.len()
            && kind == files[f as int].hunks@[h as int].lines@[l as int].kind && content@
            == files[f as int].hunks@[h as int].lines@[l as int].content@ && hunk_flat_idx == n
            && hunk_selected == sel,
    }
}

pub struct HunkPickerWidget<'a> {
    pub picker: &'a HunkPicker,
}

impl<'a> HunkPickerWidget<'a> {
    pub fn new(picker: &'a HunkPicker) -> (w: Self)
        ensures
            w.picker == picker,
    {
        HunkPickerWidget { picker }
    }
}

proof fn lemma_hunk_count_take(files: Seq<PickerFile>, i: int)
    requires
        0 <= i < files.len(),
    ensures
        hunk_count(files.take(i + 1)) == hunk_count(files.take(i)) + files[i].hunks@.len(),
{
    assert(files.take(i + 1).drop_last() =~= files.take(i));
}

proof fn lemma_hunk_count_mono(files: Seq<PickerFile>, i: int)
    requires
        0 <= i <= files.len(),
    ensures
        hunk_count(files.take(i)) <= hunk_count(files),
    decreases files.len() - i,
{
    if i < files.len() {
        lemma_hunk_count_take(files, i);
        lemma_hunk_count_mono(files, i + 1);
    } else {
        assert(files.take(i) =~= files);
    }
}

impl<'a> HunkPickerWidget<'a> {
    /// The picker's list, top to bottom.
    pub fn flat_items(&self) -> (v: Vec<PickerItem<'a>>)
        requires
            hunk_count(self.picker.files@) <= usize::MAX,
        ensures
            v@.len() == all_items(self.picker.files@).len(),
            forall|k: int|
                0 <= k < v@.len() ==> item_is(
                    self.picker.files@,
                    #[trigger] v@[k],
                    all_items(self.picker.files@)[k],
                ),
    {
        let files = &self.picker.files;
        let mut items: Vec<PickerItem<'a>> = Vec::new();
        let mut flat_idx: usize = 0;
        let mut i: usize = 0;
        while i < files.len()
            invariant
                i <= files@.len(),
                files == &self.picker.files,
                hunk_count(files@) <= usize::MAX,
                flat_idx == hunk_count(files@.take(i as int)),
                items@.len() == all_items(files@.take(i as int)).len(),
                forall|k: int|
                    0 <= k < items@.len() ==> item_is(
                        files@,
                        #[trigger] items@[k],
                        all_items(files@.take(i as int))[k],
                    ),
            decreases files@.len() - i,
        {
            let file = &files[i];
            proof {
                lemma_hunk_count_take(files@, i as int);
                lemma_hunk_count_mono(files@, i + 1);
                assert(files@.take(i + 1).drop_last() =~= files@.take(i as int));
                assert(files@.take(i + 1).last() == files@[i as int]);
            }
            let ghost pre = all_items(files@.take(i as int)) + seq![FlatItem::FileHeader(i as nat)];
            let ghost base = flat_idx as nat;
            items.push(PickerItem::FileHeader { file });
            let mut h: usize = 0;
            while h < file.hunks.len()
                invariant
                    i < files@.len(),
                    file == &files[i as int],
                    h <= file.hunks@.len(),
                    base == hunk_count(files@.take(i as int)),
                    base + file.hunks@.len() <= usize::MAX,
                    flat_idx == base + h,
                    items@.len() == pre.len() + file_hunk_items(i as nat, file.hunks@.take(h as int), base).len(),
                    forall|k: int|
                        0 <= k < items@.len() ==> item_is(
                            files@,
                            #[trigger] items@[k],
                            (pre + file_hunk_items(i as nat, file.hunks@.take(h as int), base))[k],
                        ),
                decreases file.hunks@.len() - h,
            {
                let hunk = &file.hunks[h];
                let hunk_flat_idx = flat_idx;
                let ghost before = pre + file_hunk_items(i as nat, file.hunks@.take(h as int), base);
                assert(file.hunks@.take(h + 1).drop_last() =~= file.hunks@.take(h as int));
                assert(file.hunks@.take(h + 1).last() == file.hunks@[h as int]);
                let ghost target = before + hunk_items(i as nat, h as nat, *hunk, (base + h) as nat);
                assert(pre + file_hunk_items(i as nat, file.hunks@.take(h + 1), base) =~= target);
                items.push(PickerItem::Hunk { hunk, flat_idx: hunk_flat_idx });
                flat_idx = flat_idx + 1;
                let mut l: usize = 0;
                while l < hunk.lines.len()
                    invariant
                        i < files@.len(),
                        file == &files[i as int],
                        h < file.hunks@.len(),
                        hunk == &file.hunks[h as int],
                        hunk_flat_idx == base + h,
                        l <= hunk.lines@.len(),
                        items@.len() == before.len() + 1 + l,
                        target == before + hunk_items(i as nat, h as nat, *hunk, (base + h) as nat),
                        forall|k: int|
                            0 <= k < items@.len() ==> item_is(files@, #[trigger] items@[k], target[k]),
                    decreases hunk.lines@.len() - l,
                {
                    let dl = &hunk.lines[l];
                    let ghost old_items = items@;
                    items.push(
                        PickerItem::DiffLine {
                            kind: dl.kind,
                            content: dl.content.as_str(),
                            hunk_flat_idx,
                            hunk_selected: hunk.selected,
                        },
                    );
                    assert forall|k: int| 0 <= k < items@.len() implies item_is(
                        files@,
                        #[trigger] items@[k],
                        target[k],
                    ) by {
                        if k < old_items.len() {
                            assert(items@[k] == old_items[k]);
                        }
                    }
                    l += 1;
                }
                h += 1;
            }
            assert(file.hunks@.take(file.hunks@.len() as int) =~= file.hunks@);
            assert(all_items(files@.take(i + 1)) =~= pre + file_hunk_items(i as nat, file.hunks@, base));
            i += 1;
        }
        assert(files@.take(files@.len() as int) =~= files@);
        items
    }
}


/// The tint behind a selected hunk and its lines.
pub open spec fn selected_bg(sel: bool) -> Color {
    if sel {
        Color::Rgb(0, 40, 40)
    } else {
        Color::Reset
    }
}

/// The sign shown before a diff line of kind `k`.
pub open spec fn line_sign(k: DiffLineKind) -> Seq<char> {
    match k {
        DiffLineKind::Added => "+"@,
        DiffLineKind::Removed => "-"@,
        DiffLineKind::Context => " "@,
        DiffLineKind::Header => ""@,
    }
}

/// The colour of a diff line of kind `k`.
pub open spec fn line_color(k: DiffLineKind) -> Color {
    match k {
        DiffLineKind::Added => Color::Green,
        DiffLineKind::Removed => Color::Red,
        DiffLineKind::Context => Color::Reset,
        DiffLineKind::Header => Color::DarkGray,
    }
}

/// How entry `fv` of `hp`'s list is drawn: its text in one style, and the
/// style laid over its row. A file header shows its path and how many of
/// its hunks are selected; a hunk its check box and header; a line its
/// sign and content, tinted when its hunk is selected. The hunk under the
/// cursor, with its lines, is reversed.
pub open spec fn item_row(hp: HunkPicker, fv: FlatItem) -> (Seq<char>, Style, Option<Style>) {
    match fv {
        FlatItem::FileHeader(f) => {
            let file = hp.files@[f as int];
            (
                "▸ "@ + file.path@ + "  ["@ + decimal(selected_in(file.hunks@)) + "/"@ + decimal(
                    file.hunks@.len(),
                ) + "]"@,
                Style { fg: Some(Color::Cyan), bg: None, bold: true, italic: false, reversed: false },
                None,
            )
        },
        FlatItem::Hunk(f, h, n) => {
            let hunk = hp.files@[f as int].hunks@[h as int];
            let st = Style {
                fg: None,
                bg: Some(selected_bg(hunk.selected)),
                bold: false,
                italic: false,
                reversed: n == hp.cursor,
            };
            (
                "  "@ + (if hunk.selected {
                    "[✓]"@
                } else {
                    "[ ]"@
                }) + " "@ + hunk.header@,
                st,
                Some(st),
            )
        },
        FlatItem::Line(f, h, l, n, sel) => {
            let line = hp.files@[f as int].hunks@[h as int].lines@[l as int];
            let st = Style {
                fg: Some(line_color(line.kind)),
                bg: Some(selected_bg(sel)),
                bold: false,
                italic: false,
                reversed: n == hp.cursor,
            };
            ("    "@ + line_sign(line.kind) + line.content@, st, Some(st))
        },
    }
}

/// Row `r` draws `item_row(hp, fv)`.
pub open spec fn row_draws(hp: HunkPicker, fv: FlatItem, r: Row) -> bool {
    let (text, st, patch) = item_row(hp, fv);
    &&& spans_view(r.spans@) == seq![(text, st)]
    &&& r.patch == patch
}

/// How many rows a panel `height` rows high shows: the list from the
/// scroll position on, at most `height` entries.
pub open spec fn picker_row_count(hp: HunkPicker, height: usize) -> int {
    let n = all_items(hp.files@).len() as int;
    if hp.scroll >= n {
        0
    } else if n - hp.scroll < height {
        n - hp.scroll
    } else {
        height as int
    }
}

fn row_of(hp: &HunkPicker, it: &PickerItem, Ghost(fv): Ghost<FlatItem>) -> (r: Row)
    requires
        item_is(hp.files@, *it, fv),
        hunk_count(hp.files@) <= usize::MAX,
    ensures
        row_draws(*hp, fv, r),
{
    let mut text = String::new();
    let (st, patch) = match it {
        PickerItem::FileHeader { file } => {
            let mut sel: usize = 0;
            let mut k: usize = 0;
            while k < file.hunks.len()
                invariant
                    k <= file.hunks@.len(),
                    sel == selected_in(file.hunks@.take(k as int)),
                    sel <= k,
                decreases file.hunks@.len() - k,
            {
                assert(file.hunks@.take(k + 1).drop_last() =~= file.hunks@.take(k as int));
                if file.hunks[k].selected {
                    sel = sel + 1;
                }
                k += 1;
            }
            assert(file.hunks@.take(file.hunks@.len() as int) =~= file.hunks@);
            append_str(&mut text, "▸ ");
            append_str(&mut text, file.path.as_str());
            append_str(&mut text, "  [");
            push_decimal(&mut text, sel);
            append_str(&mut text, "/");
            push_decimal(&mut text, file.hunks.len());
            append_str(&mut text, "]");
            (Style { fg: Some(Color::Cyan), bg: None, bold: true, italic: false, reversed: false }, None)
        },
        PickerItem::Hunk { hunk, flat_idx } => {
            append_str(&mut text, "  ");
            if hunk.selected {
                append_str(&mut text, "[✓]");
            } else {
                append_str(&mut text, "[ ]");
            }
            append_str(&mut text, " ");
            append_str(&mut text, hunk.header.as_str());
            let bg = if hunk.selected {
                Color::Rgb(0, 40, 40)
            } else {
                Color::Reset
            };
            let st = Style { fg: None, bg: Some(bg), bold: false, italic: false, reversed: *flat_idx == hp.cursor };
            (st, Some(st))
        },
        PickerItem::DiffLine { kind, content, hunk_flat_idx, hunk_selected } => {
            append_str(&mut text, "    ");
            let (sign, color) = match kind {
                DiffLineKind::Added => ("+", Color::Green),
                DiffLineKind::Removed => ("-", Color::Red),
                DiffLineKind::Context => (" ", Color::Reset),
                DiffLineKind::Header => ("", Color::DarkGray),
            };
            append_str(&mut text, sign);
            append_str(&mut text, content);
            let bg = if *hunk_selected {
                Color::Rgb(0, 40, 40)
            } else {
                Color::Reset
            };
            let st = Style {
                fg: Some(color),
                bg: Some(bg),
                bold: false,
                italic: false,
                reversed: *hunk_flat_idx == hp.cursor,
            };
            (st, Some(st))
        },
    };
    let ghost tv = text@;
    let spans = vec![Span { text, style: st }];
    assert(spans_view(spans@) =~= seq![(tv, st)]);
    Row { spans, patch }
}

impl<'a> HunkPickerWidget<'a> {
    /// The rows a panel `height` rows high shows, top to bottom: the list
    /// from the picker's scroll position, or a note when there is nothing
    /// to pick.
    pub fn rows(&self, height: usize) -> (v: Vec<Row>)
        requires
            hunk_count(self.picker.files@) <= usize::MAX,
        ensures
            self.picker.files@.len() == 0 ==> v@.len() == 1 && spans_view(v@[0].spans@) == seq![
                ("(no hunks to pick)"@, fg_style(Color::DarkGray)),
            ] && v@[0].patch is None,
            self.picker.files@.len() > 0 ==> {
                &&& v@.len() == picker_row_count(*self.picker, height)
                &&& forall|k: int|
                    0 <= k < v@.len() ==> row_draws(
                        *self.picker,
                        all_items(self.picker.files@)[self.picker.scroll + k],
                        #[trigger] v@[k],
                    )
            },
    {
        let mut v: Vec<Row> = Vec::new();
        if self.picker.files.len() == 0 {
            let spans = vec![
                Span { text: String::from_str("(no hunks to pick)"), style: crate::widgets::style::fg(Color::DarkGray) },
            ];
            assert(spans_view(spans@) =~= seq![("(no hunks to pick)"@, fg_style(Color::DarkGray))]);
            v.push(Row { spans, patch: None });
            return v;
        }
        let items = self.flat_items();
        let scroll = self.picker.scroll;
        let mut k: usize = 0;
        while k < height && scroll < items.len() && k < items.len() - scroll
            invariant
                items@.len() == all_items(self.picker.files@).len(),
                forall|j: int|
                    0 <= j < items@.len() ==> item_is(
                        self.picker.files@,
                        #[trigger] items@[j],
                        all_items(self.picker.files@)[j],
                    ),
                hunk_count(self.picker.files@) <= usize::MAX,
                scroll == self.picker.scroll,
                k <= height,
                scroll < items@.len() ==> k <= items@.len() - scroll,
                scroll >= items@.len() ==> k == 0,
                v@.len() == k,
                forall|j: int|
                    0 <= j < v@.len() ==> row_draws(
                        *self.picker,
                        all_items(self.picker.files@)[scroll + j],
                        #[trigger] v@[j],
                    ),
            decreases height - k,
        {
            let ghost fv = all_items(self.picker.files@)[scroll + k];
            let r = row_of(self.picker, &items[scroll + k], Ghost(fv));
            let ghost old_v = v@;
            v.push(r);
            assert forall|j: int| 0 <= j < v@.len() implies row_draws(
                *self.picker,
                all_items(self.picker.files@)[scroll + j],
                #[trigger] v@[j],
            ) by {
                if j < old_v.len() {
                    assert(v@[j] == old_v[j]);
                }
            }
            k += 1;
        }
        v
    }
}

} // verus!
