//! The status bar: picker progress, errors, messages and the selected
//! change, most urgent first.

use vstd::prelude::*;

use crate::action::{BackgroundKind, HunkPickerOp, RebaseMode};
use crate::app::{ConflictView, HunkPicker, HunkResolution, PickerFile, PickerHunk, PickingMode, TargetPick};
use crate::text::{append_joined, append_str, decimal, join, push_decimal, strings_of};
use crate::types::ChangeDetail;
use crate::widgets::style::{Color, Span, Style, fg, fg_style, plain, plain_style, spans_view};

verus! {

pub struct StatusBarWidget<'a> {
    pub change_id: Option<&'a str>,
    pub detail: Option<&'a ChangeDetail>,
    pub error: Option<&'a str>,
    pub status_message: Option<&'a str>,
    pub active_revset: Option<&'a str>,
    pub pending_background: &'a Vec<BackgroundKind>,
    pub target_pick: Option<&'a TargetPick>,
    pub hunk_picker: Option<&'a HunkPicker>,
    pub conflict_view: Option<&'a ConflictView>,
}

impl<'a> StatusBarWidget<'a> {
    pub fn new(
        change_id: Option<&'a str>,
        detail: Option<&'a ChangeDetail>,
        error: Option<&'a str>,
        status_message: Option<&'a str>,
        active_revset: Option<&'a str>,
        pending_background: &'a Vec<BackgroundKind>,
        target_pick: Option<&'a TargetPick>,
        hunk_picker: Option<&'a HunkPicker>,
        conflict_view: Option<&'a ConflictView>,
    ) -> (w: Self)
        ensures
            w.change_id == change_id,
            w.detail == detail,
            w.error == error,
            w.status_message == status_message,
            w.active_revset == active_revset,
            w.pending_background == pending_background,
            w.target_pick == target_pick,
            w.hunk_picker == hunk_picker,
            w.conflict_view == conflict_view,
    {
        StatusBarWidget {
            change_id,
            detail,
            error,
            status_message,
            active_revset,
            pending_background,
            target_pick,
            hunk_picker,
            conflict_view,
        }
    }
}

/// The number of hunks of `files`.
pub open spec fn hunk_count(files: Seq<PickerFile>) -> nat
    decreases files.len(),
{
    if files.len() == 0 {
        0
    } else {
        hunk_count(files.drop_last()) + files.last().hunks@.len()
    }
}

/// The number of selected hunks among `hunks`.
pub open spec fn selected_in(hunks: Seq<PickerHunk>) -> nat
    decreases hunks.len(),
{
    if hunks.len() == 0 {
        0
    } else {
        selected_in(hunks.drop_last()) + if hunks.last().selected {
            1nat
        } else {
            0nat
        }
    }
}

/// The number of selected hunks of `files`.
pub open spec fn selected_count(files: Seq<PickerFile>) -> nat
    decreases files.len(),
{
    if files.len() == 0 {
        0
    } else {
        selected_count(files.drop_last()) + selected_in(files.last().hunks@)
    }
}

proof fn lemma_selected_in(hunks: Seq<PickerHunk>)
    ensures
        selected_in(hunks) <= hunks.len(),
    decreases hunks.len(),
{
    if hunks.len() > 0 {
        lemma_selected_in(hunks.drop_last());
    }
}

proof fn lemma_selected_count(files: Seq<PickerFile>)
    ensures
        selected_count(files) <= hunk_count(files),
    decreases files.len(),
{
    if files.len() > 0 {
        lemma_selected_count(files.drop_last());
        lemma_selected_in(files.last().hunks@);
    }
}

/// The help text the pickers end their status with.
pub open spec fn picker_keys() -> Seq<char> {
    "  (Space toggle, a/A all/none, Enter confirm, Esc cancel)"@
}

/// The status of the hunk picker: how many hunks are selected, and where
/// they go.
pub open spec fn hunk_picker_text(hp: HunkPicker) -> Seq<char> {
    let sel = decimal(selected_count(hp.files@));
    let total = decimal(hunk_count(hp.files@));
    match hp.operation {
        HunkPickerOp::Split { source } => "Split: "@ + sel + "/"@ + total
            + " hunks selected → new change after "@ + source@ + picker_keys(),
        HunkPickerOp::Squash { source, destination } => "Squash: "@ + sel + "/"@ + total
            + " hunks from "@ + source@ + " → into "@ + destination@ + picker_keys(),
    }
}

/// What a rebase target pick moves: the source, and how many descendants
/// come along.
pub open spec fn pick_mode_text(p: TargetPick) -> Seq<char> {
    match p.mode {
        RebaseMode::Single => "Rebase "@ + p.source@ + " onto →"@,
        RebaseMode::WithDescendants => "Rebase "@ + p.source@ + " + "@ + decimal(
            p.descendant_count as nat,
        ) + " descendant"@ + (if p.descendant_count == 1 {
            ""@
        } else {
            "s"@
        }) + " onto →"@,
    }
}

/// The status of a rebase target pick.
pub open spec fn pick_text(p: TargetPick) -> Seq<char> {
    match p.picking {
        PickingMode::Browsing => pick_mode_text(p) + "  (j/k navigate, Enter confirm, Esc cancel)"@,
        PickingMode::Filtering { query } => pick_mode_text(p) + "  filter: "@ + query@
            + "  (Enter confirm, Esc cancel)"@,
    }
}

/// How the conflict hunk under the cursor is resolved, in words.
pub open spec fn resolution_word(r: Option<HunkResolution>) -> Seq<char> {
    match r {
        Some(HunkResolution::AcceptLeft) => "left (ours)"@,
        Some(HunkResolution::AcceptRight) => "right (theirs)"@,
        _ => "unresolved"@,
    }
}

/// The status of the conflict view: which hunk, and how it is resolved.
pub open spec fn conflict_text(cv: ConflictView) -> Seq<char> {
    let r = if cv.cursor < cv.resolutions@.len() {
        Some(cv.resolutions@[cv.cursor as int])
    } else {
        None
    };
    "Hunk "@ + decimal((cv.cursor + 1) as nat) + "/"@ + decimal(cv.resolutions@.len())
        + ": "@ + resolution_word(r) + " | 1: left | 2: right | n: next | m: merge tool"@
}

/// The background operations in flight, in words ("" when none).
pub open spec fn pending_text(p: Seq<BackgroundKind>) -> Seq<char> {
    let push = p.contains(BackgroundKind::Push);
    let fetch = p.contains(BackgroundKind::Fetch);
    if push && fetch {
        "Pushing...  Fetching..."@
    } else if push {
        "Pushing..."@
    } else if fetch {
        "Fetching..."@
    } else {
        Seq::empty()
    }
}

/// The first line about the selected change: IDs and author.
pub open spec fn change_line(id: Option<&str>, d: ChangeDetail) -> Seq<char> {
    let id = match id {
        Some(i) => i@,
        None => "???"@,
    };
    id + " "@ + d.commit_id@ + "  "@ + d.author@ + " <"@ + d.email@ + ">"@
}

/// The second line about the selected change: description and bookmarks.
pub open spec fn description_line(d: ChangeDetail) -> Seq<char> {
    let desc = if d.description@.len() == 0 {
        "(no description)"@
    } else {
        d.description@
    };
    let marks = if d.bookmarks@.len() == 0 {
        Seq::empty()
    } else {
        "  ["@ + join(strings_of(d.bookmarks@), ", "@) + "]"@
    };
    desc + marks
}

/// The line under the cursor in its style.
pub open spec fn styled(text: Seq<char>, s: Style) -> Seq<(Seq<char>, Style)> {
    seq![(text, s)]
}

/// The lines of a status bar `height` rows high, one span each. The first
/// of these that applies is shown: the hunk picker, a target pick, the
/// error, the status message, the conflict view, the revset filter; then
/// background operations (with the change line under them when there is
/// room), or the selected change on up to two lines.
pub open spec fn status_lines_spec(w: StatusBarWidget, height: u16) -> Seq<(Seq<char>, Style)> {
    if height == 0 {
        Seq::empty()
    } else if w.hunk_picker is Some {
        styled(hunk_picker_text(*w.hunk_picker->0), fg_style(Color::Magenta))
    } else if w.target_pick is Some {
        styled(pick_text(*w.target_pick->0), fg_style(Color::Yellow))
    } else if w.error is Some {
        styled(w.error->0@, fg_style(Color::Red))
    } else if w.status_message is Some {
        styled(w.status_message->0@, fg_style(Color::Green))
    } else if w.conflict_view is Some {
        styled(conflict_text(*w.conflict_view->0), fg_style(Color::Yellow))
    } else if w.active_revset is Some {
        styled("revset: "@ + w.active_revset->0@, fg_style(Color::Cyan))
    } else if pending_text(w.pending_background@).len() > 0 {
        styled(pending_text(w.pending_background@), fg_style(Color::Cyan)) + if height > 1
            && w.detail is Some {
            styled(change_line(w.change_id, *w.detail->0), plain_style())
        } else {
            Seq::empty()
        }
    } else if w.detail is Some {
        styled(change_line(w.change_id, *w.detail->0), plain_style()) + if height > 1 {
            styled(description_line(*w.detail->0), plain_style())
        } else {
            Seq::empty()
        }
    } else {
        Seq::empty()
    }
}

/// What the status bar needs of its input: the counts it prints fit in
/// `usize`.
pub open spec fn status_ready(w: StatusBarWidget) -> bool {
    &&& (w.hunk_picker matches Some(hp) ==> hunk_count(hp.files@) <= usize::MAX)
    &&& (w.conflict_view matches Some(cv) ==> cv.cursor < usize::MAX)
}

fn count_hunks(files: &Vec<PickerFile>) -> (r: (usize, usize))
    requires
        hunk_count(files@) <= usize::MAX,
    ensures
        r.0 == selected_count(files@),
        r.1 == hunk_count(files@),
{
    let mut total: usize = 0;
    let mut selected: usize = 0;
    let mut i: usize = 0;
    while i < files.len()
        invariant
            i <= files@.len(),
            hunk_count(files@) <= usize::MAX,
            total == hunk_count(files@.take(i as int)),
            selected == selected_count(files@.take(i as int)),
        decreases files@.len() - i,
    {
        assert(files@.take(i + 1).drop_last() =~= files@.take(i as int));
        proof {
            lemma_hunk_count_prefix(files@, i + 1);
            lemma_selected_count(files@.take(i + 1));
        }
        let hunks = &files[i].hunks;
        let mut k: usize = 0;
        let mut sel: usize = 0;
        while k < hunks.len()
            invariant
                k <= hunks@.len(),
                sel == selected_in(hunks@.take(k as int)),
                sel <= k,
            decreases hunks@.len() - k,
        {
            assert(hunks@.take(k + 1).drop_last() =~= hunks@.take(k as int));
            if hunks[k].selected {
                sel = sel + 1;
            }
            k += 1;
        }
        assert(hunks@.take(hunks@.len() as int) =~= hunks@);
        total = total + hunks.len();
        selected = selected + sel;
        i += 1;
    }
    assert(files@.take(files@.len() as int) =~= files@);
    (selected, total)
}

proof fn lemma_hunk_count_prefix(files: Seq<PickerFile>, i: int)
    requires
        0 <= i <= files.len(),
    ensures
        hunk_count(files.take(i)) <= hunk_count(files),
    decreases files.len(),
{
    if i < files.len() {
        assert(files.drop_last().take(i) =~= files.take(i));
        lemma_hunk_count_prefix(files.drop_last(), i);
    } else {
        assert(files.take(i) =~= files);
    }
}

fn hunk_picker_line(hp: &HunkPicker) -> (s: String)
    requires
        hunk_count(hp.files@) <= usize::MAX,
    ensures
        s@ == hunk_picker_text(*hp),
{
    let (selected, total) = count_hunks(&hp.files);
    let mut s = String::new();
    match &hp.operation {
        HunkPickerOp::Split { source } => {
            append_str(&mut s, "Split: ");
            push_decimal(&mut s, selected);
            append_str(&mut s, "/");
            push_decimal(&mut s, total);
            append_str(&mut s, " hunks selected → new change after ");
            append_str(&mut s, source.as_str());
        },
        HunkPickerOp::Squash { source, destination } => {
            append_str(&mut s, "Squash: ");
            push_decimal(&mut s, selected);
            append_str(&mut s, "/");
            push_decimal(&mut s, total);
            append_str(&mut s, " hunks from ");
            append_str(&mut s, source.as_str());
            append_str(&mut s, " → into ");
            append_str(&mut s, destination.as_str());
        },
    }
    append_str(&mut s, "  (Space toggle, a/A all/none, Enter confirm, Esc cancel)");
    s
}

fn pick_line(p: &TargetPick) -> (s: String)
    ensures
        s@ == pick_text(*p),
{
    let mut s = String::new();
    append_str(&mut s, "Rebase ");
    append_str(&mut s, p.source.as_str());
    match p.mode {
        RebaseMode::Single => {
            append_str(&mut s, " onto →");
        },
        RebaseMode::WithDescendants => {
            append_str(&mut s, " + ");
            push_decimal(&mut s, p.descendant_count);
            append_str(&mut s, " descendant");
            if p.descendant_count == 1 {
                append_str(&mut s, "");
            } else {
                append_str(&mut s, "s");
            }
            append_str(&mut s, " onto →");
        },
    }
    match &p.picking {
        PickingMode::Browsing => {
            append_str(&mut s, "  (j/k navigate, Enter confirm, Esc cancel)");
        },
        PickingMode::Filtering { query } => {
            append_str(&mut s, "  filter: ");
            append_str(&mut s, query.as_str());
            append_str(&mut s, "  (Enter confirm, Esc cancel)");
        },
    }
    s
}

fn conflict_line(cv: &ConflictView) -> (s: String)
    requires
        cv.cursor < usize::MAX,
    ensures
        s@ == conflict_text(*cv),
{
    let word = if cv.cursor < cv.resolutions.len() {
        match cv.resolutions[cv.cursor] {
            HunkResolution::AcceptLeft => "left (ours)",
            HunkResolution::AcceptRight => "right (theirs)",
            HunkResolution::Unresolved => "unresolved",
        }
    } else {
        "unresolved"
    };
    let mut s = String::new();
    append_str(&mut s, "Hunk ");
    push_decimal(&mut s, cv.cursor + 1);
    append_str(&mut s, "/");
    push_decimal(&mut s, cv.resolutions.len());
    append_str(&mut s, ": ");
    append_str(&mut s, word);
    append_str(&mut s, " | 1: left | 2: right | n: next | m: merge tool");
    s
}

fn has_kind(p: &Vec<BackgroundKind>, k: BackgroundKind) -> (b: bool)
    ensures
        b == p@.contains(k),
{
    let mut i: usize = 0;
    while i < p.len()
        invariant
            i <= p@.len(),
            forall|j: int| 0 <= j < i ==> p@[j] != k,
        decreases p@.len() - i,
    {
        let same = match (p[i], k) {
            (BackgroundKind::Push, BackgroundKind::Push) => true,
            (BackgroundKind::Fetch, BackgroundKind::Fetch) => true,
            _ => false,
        };
        if same {
            return true;
        }
        i += 1;
    }
    false
}

fn pending_line(p: &Vec<BackgroundKind>) -> (s: String)
    ensures
        s@ == pending_text(p@),
{
    let push = has_kind(p, BackgroundKind::Push);
    let fetch = has_kind(p, BackgroundKind::Fetch);
    let mut s = String::new();
    if push && fetch {
        append_str(&mut s, "Pushing...  Fetching...");
    } else if push {
        append_str(&mut s, "Pushing...");
    } else if fetch {
        append_str(&mut s, "Fetching...");
    }
    proof {
        if !push && !fetch {
            assert(s@ =~= Seq::<char>::empty());
        }
    }
    s
}

fn change_text(id: Option<&str>, d: &ChangeDetail) -> (s: String)
    ensures
        s@ == change_line(id, *d),
{
    let mut s = String::new();
    match id {
        Some(i) => append_str(&mut s, i),
        None => append_str(&mut s, "???"),
    }
    append_str(&mut s, " ");
    append_str(&mut s, d.commit_id.as_str());
    append_str(&mut s, "  ");
    append_str(&mut s, d.author.as_str());
    append_str(&mut s, " <");
    append_str(&mut s, d.email.as_str());
    append_str(&mut s, ">");
    s
}

fn description_text(d: &ChangeDetail) -> (s: String)
    ensures
        s@ == description_line(*d),
{
    let mut s = String::new();
    if d.description.as_str().is_empty() {
        append_str(&mut s, "(no description)");
    } else {
        append_str(&mut s, d.description.as_str());
    }
    if d.bookmarks.len() > 0 {
        append_str(&mut s, "  [");
        append_joined(&mut s, &d.bookmarks, ", ");
        append_str(&mut s, "]");
    }
    s
}

fn one_line(text: String, style: Style) -> (v: Vec<Span>)
    ensures
        spans_view(v@) == styled(text@, style),
{
    let v = vec![Span { text, style }];
    assert(spans_view(v@) =~= styled(text@, style));
    v
}

impl<'a> StatusBarWidget<'a> {
    /// The lines the status bar shows in a bar `height` rows high.
    pub fn status_lines(&self, height: u16) -> (v: Vec<Span>)
        requires
            status_ready(*self),
        ensures
            spans_view(v@) == status_lines_spec(*self, height),
    {
        if height == 0 {
            return Vec::new();
        }
        if let Some(hp) = self.hunk_picker {
            return one_line(hunk_picker_line(hp), fg(Color::Magenta));
        }
        if let Some(p) = self.target_pick {
            return one_line(pick_line(p), fg(Color::Yellow));
        }
        if let Some(err) = self.error {
            return one_line(String::from_str(err), fg(Color::Red));
        }
        if let Some(msg) = self.status_message {
            return one_line(String::from_str(msg), fg(Color::Green));
        }
        if let Some(cv) = self.conflict_view {
            return one_line(conflict_line(cv), fg(Color::Yellow));
        }
        if let Some(revset) = self.active_revset {
            let mut s = String::new();
            append_str(&mut s, "revset: ");
            append_str(&mut s, revset);
            return one_line(s, fg(Color::Cyan));
        }
        let pending = pending_line(self.pending_background);
        if !pending.as_str().is_empty() {
            let mut v = one_line(pending, fg(Color::Cyan));
            if height > 1 {
                if let Some(d) = self.detail {
                    let mut second = one_line(change_text(self.change_id, d), plain());
                    v.append(&mut second);
                }
            }
            return v;
        }
        if let Some(d) = self.detail {
            let mut v = one_line(change_text(self.change_id, d), plain());
            if height > 1 {
                let mut second = one_line(description_text(d), plain());
                v.append(&mut second);
            }
            return v;
        }
        Vec::new()
    }
}

} // verus!
