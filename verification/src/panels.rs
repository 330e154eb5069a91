//! The frames around the two panels: their titles, border colours and
//! inner areas.

use vstd::prelude::*;

use crate::action::{DetailMode, HunkPickerOp, PanelFocus};
use crate::app::{AppState, Rect};
use crate::modal::Modal;
use crate::text::{append_str, decimal, push_decimal};
use crate::widgets::style::Color;

verus! {

/// The area inside a one-cell border around `r`.
pub open spec fn inner_spec(r: Rect) -> Rect {
    Rect {
        x: (r.x + 1) as u16,
        y: (r.y + 1) as u16,
        width: if r.width >= 2 {
            (r.width - 2) as u16
        } else {
            0
        },
        height: if r.height >= 2 {
            (r.height - 2) as u16
        } else {
            0
        },
    }
}

/// The area inside a one-cell border around `r`.
pub fn inner_rect(r: Rect) -> (i: Rect)
    requires
        r.wf(),
        r.x < u16::MAX,
        r.y < u16::MAX,
    ensures
        i == inner_spec(r),
        i.wf(),
{
    Rect {
        x: r.x + 1,
        y: r.y + 1,
        width: if r.width >= 2 {
            r.width - 2
        } else {
            0
        },
        height: if r.height >= 2 {
            r.height - 2
        } else {
            0
        },
    }
}

/// The border colour of a panel: blue when it has the focus.
pub open spec fn border_color_spec(focused: bool) -> Color {
    if focused {
        Color::Blue
    } else {
        Color::DarkGray
    }
}

/// The border colour of a panel.
pub fn border_color(focused: bool) -> (c: Color)
    ensures
        c == border_color_spec(focused),
{
    if focused {
        Color::Blue
    } else {
        Color::DarkGray
    }
}

/// The title of the detail panel: the selected change's description over
/// its files, the file over its diff, what the hunk picker does, or the
/// conflicted file with the hunk under the cursor.
pub open spec fn detail_title_spec(s: AppState) -> Seq<char> {
    let sel = s.graph.detail_at_spec(s.cursor as int);
    match s.detail_mode {
        DetailMode::FileList => match sel {
            Some(d) => "Files \u{2014} "@ + if d.description@.len() == 0 {
                "(no description)"@
            } else {
                d.description@
            },
            None => "Files"@,
        },
        DetailMode::DiffView => {
            let path = match sel {
                Some(d) => if s.detail_cursor < d.files@.len() {
                    d.files@[s.detail_cursor as int].path@
                } else {
                    Seq::empty()
                },
                None => Seq::empty(),
            };
            if path.len() == 0 {
                "Diff"@
            } else {
                "Diff \u{2014} "@ + path
            }
        },
        DetailMode::HunkPicker => match s.hunk_picker {
            Some(hp) => match hp.operation {
                HunkPickerOp::Split { source } => "Split \u{2014} "@ + source@,
                HunkPickerOp::Squash { source, destination } => "Squash \u{2014} "@ + source@ + " → "@
                    + destination@,
            },
            None => "Hunk Picker"@,
        },
        DetailMode::ConflictView => match s.conflict_view {
            Some(cv) => "Conflict \u{2014} "@ + cv.path@ + " (hunk "@ + decimal((cv.cursor + 1) as nat)
                + "/"@ + decimal(cv.resolutions@.len()) + ")"@,
            None => "Conflict"@,
        },
    }
}

/// The title of the detail panel.
pub fn detail_title(state: &AppState) -> (t: String)
    requires
        state.detail_mode == DetailMode::ConflictView ==> (state.conflict_view matches Some(cv)
            ==> cv.cursor < usize::MAX),
    ensures
        t@ == detail_title_spec(*state),
{
    let mut t = String::new();
    match state.detail_mode {
        DetailMode::FileList => match state.selected_detail() {
            Some(d) => {
                append_str(&mut t, "Files \u{2014} ");
                if d.description.as_str().is_empty() {
                    append_str(&mut t, "(no description)");
                } else {
                    append_str(&mut t, d.description.as_str());
                }
            },
            None => append_str(&mut t, "Files"),
        },
        DetailMode::DiffView => {
            let path: &str = match state.selected_detail() {
                Some(d) => if state.detail_cursor < d.files.len() {
                    d.files[state.detail_cursor].path.as_str()
                } else {
                    ""
                },
                None => "",
            };
            if path.is_empty() {
                append_str(&mut t, "Diff");
            } else {
                append_str(&mut t, "Diff \u{2014} ");
                append_str(&mut t, path);
            }
        },
        DetailMode::HunkPicker => match &state.hunk_picker {
            Some(hp) => match &hp.operation {
                HunkPickerOp::Split { source } => {
                    append_str(&mut t, "Split \u{2014} ");
                    append_str(&mut t, source.as_str());
                },
                HunkPickerOp::Squash { source, destination } => {
                    append_str(&mut t, "Squash \u{2014} ");
                    append_str(&mut t, source.as_str());
                    append_str(&mut t, " → ");
                    append_str(&mut t, destination.as_str());
                },
            },
            None => append_str(&mut t, "Hunk Picker"),
        },
        DetailMode::ConflictView => match &state.conflict_view {
            Some(cv) => {
                append_str(&mut t, "Conflict \u{2014} ");
                append_str(&mut t, cv.path.as_str());
                append_str(&mut t, " (hunk ");
                push_decimal(&mut t, cv.cursor + 1);
                append_str(&mut t, "/");
                push_decimal(&mut t, cv.resolutions.len());
                append_str(&mut t, ")");
            },
            None => append_str(&mut t, "Conflict"),
        },
    }
    proof {
        reveal_strlit("");
    }
    t
}

/// Whether the panel `p` has the focus.
pub fn is_focused(state: &AppState, p: PanelFocus) -> (b: bool)
    ensures
        b == (state.focus == p),
{
    match (state.focus, p) {
        (PanelFocus::Graph, PanelFocus::Graph) => true,
        (PanelFocus::Detail, PanelFocus::Detail) => true,
        _ => false,
    }
}


/// Where an overlay is drawn over the panels.
#[derive(Debug, Clone, Copy, PartialEq, Eq, Structural)]
pub enum Placement {
    /// Over the whole panel area.
    Full,
    /// Centred, taking these percentages of the width and the height.
    Centered { percent_x: u16, percent_y: u16 },
    /// Over the detail panel.
    DetailPanel,
    /// A bar this many rows high along the bottom of the panel area.
    BottomBar { rows: u16 },
}

/// Where overlay `m` is drawn: the operation log over the whole panel
/// area, the help in a centred box of half the width and three fifths of
/// the height, the description editor over the detail panel, the bookmark
/// input in a bar four rows high at the bottom, the other overlays in a
/// box of three fifths by four fifths.
pub open spec fn placement_spec(m: Modal) -> Placement {
    match m {
        Modal::OpLog { .. } => Placement::Full,
        Modal::Help { .. } => Placement::Centered { percent_x: 50, percent_y: 60 },
        Modal::Describe { .. } => Placement::DetailPanel,
        Modal::BookmarkInput { .. } => Placement::BottomBar { rows: 4 },
        _ => Placement::Centered { percent_x: 60, percent_y: 80 },
    }
}

/// Where overlay `m` is drawn.
pub fn modal_placement(m: &Modal) -> (p: Placement)
    ensures
        p == placement_spec(*m),
{
    match m {
        Modal::OpLog { .. } => Placement::Full,
        Modal::Help { .. } => Placement::Centered { percent_x: 50, percent_y: 60 },
        Modal::Describe { .. } => Placement::DetailPanel,
        Modal::BookmarkInput { .. } => Placement::BottomBar { rows: 4 },
        _ => Placement::Centered { percent_x: 60, percent_y: 80 },
    }
}

} // verus!
