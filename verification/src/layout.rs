//! Where the panels, the status bar and an open overlay go on the screen.
//! The splitting itself is ratatui's constraint solver.

use ratatui::layout::{Constraint as Split, Layout, Rect as Area};
use vstd::prelude::*;

use crate::app::{LayoutRects, Rect};
use crate::modal::Modal;
use crate::panels::{Placement, inner_rect, inner_spec, modal_placement, placement_spec};

verus! {

/// How much of an area one part of a split asks for.
#[derive(Debug, Clone, Copy, PartialEq, Eq)]
pub enum Constraint {
    /// At least this many cells.
    Min(u16),
    /// Exactly this many cells.
    Length(u16),
    /// This percentage of the area.
    Percentage(u16),
    /// This fraction of the area.
    Ratio(u32, u32),
}

/// Whether `r` lies within `area` along the split's axis and fills it
/// across: a vertical split stacks full-width parts, a horizontal split
/// puts full-height parts side by side.
pub open spec fn part_of(r: Rect, area: Rect, vertical: bool) -> bool {
    &&& r.wf()
    &&& if vertical {
        &&& r.x == area.x
        &&& r.width == area.width
        &&& area.y <= r.y
        &&& r.y + r.height <= area.y + area.height
    } else {
        &&& r.y == area.y
        &&& r.height == area.height
        &&& area.x <= r.x
        &&& r.x + r.width <= area.x + area.width
    }
}

/// `ratatui::layout::Layout::vertical` or `horizontal` with these
/// constraints (no margin, no spacing, the default flex), then `split` of
/// `area`. The source shows one part per constraint, each holding the
/// area's extent across the split and a start and end that the solver
/// keeps (as required constraints) within the area along it. Where the
/// parts fall inside the area is the solver's answer, which this contract
/// leaves unsaid and gives no name: the kasuari solver picks its pivots by
/// walking hash maps seeded per process (foldhash's `RandomState`) and
/// keyed by variable ids from a global counter, so where the constraints
/// leave a choice the answer can differ from one run to the next (ratatui
/// documents such results as indeterminate).
#[verifier::external_body]
fn split_area(vertical: bool, constraints: &Vec<Constraint>, area: Rect) -> (parts: Vec<Rect>)
    requires
        area.wf(),
    ensures
        parts@.len() == constraints@.len(),
        forall|i: int| 0 <= i < parts@.len() ==> part_of(#[trigger] parts@[i], area, vertical),
{
    let cs = constraints.iter().map(|c| match *c {
        Constraint::Min(n) => Split::Min(n),
        Constraint::Length(n) => Split::Length(n),
        Constraint::Percentage(p) => Split::Percentage(p),
        Constraint::Ratio(a, b) => Split::Ratio(a, b),
    });
    let layout = if vertical { Layout::vertical(cs) } else { Layout::horizontal(cs) };
    let parts = layout.split(Area::new(area.x, area.y, area.width, area.height));
    parts.iter().map(|r| Rect { x: r.x, y: r.y, width: r.width, height: r.height }).collect()
}

/// Rows of the status bar.
pub const STATUS_BAR_HEIGHT: u16 = 2;

/// The areas of a frame.
#[derive(Debug, Clone, Copy, PartialEq, Eq)]
pub struct FrameLayout {
    /// Above the status bar: the two panels, and any overlay over them.
    pub main: Rect,
    pub status: Rect,
    /// The graph panel's frame and the area inside its border.
    pub graph_outer: Rect,
    pub graph_inner: Rect,
    /// The detail panel's frame and the area inside its border.
    pub detail_outer: Rect,
    pub detail_inner: Rect,
}

/// What the frame's layout promises: the panel area stacked over the
/// status bar; the graph panel and then the detail panel side by side in
/// it; each panel's inner area inside its one-cell border.
pub open spec fn frame_layout_spec(f: FrameLayout, area: Rect) -> bool {
    &&& part_of(f.main, area, true)
    &&& part_of(f.status, area, true)
    &&& part_of(f.graph_outer, f.main, false)
    &&& part_of(f.detail_outer, f.main, false)
    &&& f.graph_inner == inner_spec(f.graph_outer)
    &&& f.detail_inner == inner_spec(f.detail_outer)
}

/// Splits a frame `area` into the panel area over a status bar two rows
/// high (the panel area takes at least one row), then the panel area into
/// the graph panel (a third of the width) and the detail panel (two
/// thirds).
pub fn frame_layout(area: Rect) -> (f: FrameLayout)
    requires
        area.x + area.width < u16::MAX,
        area.y + area.height < u16::MAX,
    ensures
        frame_layout_spec(f, area),
        f.graph_inner.wf(),
        f.detail_inner.wf(),
{
    let rows = split_area(
        true,
        &vec![Constraint::Min(1), Constraint::Length(STATUS_BAR_HEIGHT)],
        area,
    );
    let main = rows[0];
    let status = rows[1];
    let cols = split_area(false, &vec![Constraint::Ratio(1, 3), Constraint::Ratio(2, 3)], main);
    let graph_outer = cols[0];
    let detail_outer = cols[1];
    FrameLayout {
        main,
        status,
        graph_outer,
        graph_inner: inner_rect(graph_outer),
        detail_outer,
        detail_inner: inner_rect(detail_outer),
    }
}

/// The box taking `percent_x` of the width and `percent_y` of the height
/// in the middle of `area`: the middle of three rows (the outer two taking
/// half of the rest each), then the middle of three columns in it.
pub fn centered_rect(percent_x: u16, percent_y: u16, area: Rect) -> (r: Rect)
    requires
        area.wf(),
        percent_x <= 100,
        percent_y <= 100,
    ensures
        r.wf(),
        area.x <= r.x,
        r.x + r.width <= area.x + area.width,
        area.y <= r.y,
        r.y + r.height <= area.y + area.height,
{
    let rest_y = (100 - percent_y) / 2;
    let rows = split_area(
        true,
        &vec![
            Constraint::Percentage(rest_y),
            Constraint::Percentage(percent_y),
            Constraint::Percentage(rest_y),
        ],
        area,
    );
    let rest_x = (100 - percent_x) / 2;
    let cols = split_area(
        false,
        &vec![
            Constraint::Percentage(rest_x),
            Constraint::Percentage(percent_x),
            Constraint::Percentage(rest_x),
        ],
        rows[1],
    );
    cols[1]
}

/// A bar `rows` high (at most the area's height) along the bottom of
/// `main`, as wide as it.
pub open spec fn bottom_bar(main: Rect, rows: u16) -> Rect {
    let h = if main.height < rows {
        main.height
    } else {
        rows
    };
    Rect { x: main.x, y: (main.y + (main.height - h)) as u16, width: main.width, height: h }
}

/// Where overlay `m` is drawn over the panel area `main`, whose detail
/// panel is `detail`: the whole of it, a centred box, the detail panel, or
/// a bar along its bottom.
pub fn modal_area(m: &Modal, main: Rect, detail: Rect) -> (r: Rect)
    requires
        main.wf(),
        detail.wf(),
    ensures
        r.wf(),
        placement_spec(*m) is Full ==> r == main,
        placement_spec(*m) is Centered ==> main.x <= r.x && r.x + r.width <= main.x + main.width
            && main.y <= r.y && r.y + r.height <= main.y + main.height,
        placement_spec(*m) is DetailPanel ==> r == detail,
        placement_spec(*m) matches Placement::BottomBar { rows } ==> r == bottom_bar(main, rows),
{
    match modal_placement(m) {
        Placement::Full => main,
        Placement::Centered { percent_x, percent_y } => centered_rect(percent_x, percent_y, main),
        Placement::DetailPanel => detail,
        Placement::BottomBar { rows } => {
            let h = if main.height < rows {
                main.height
            } else {
                rows
            };
            Rect { x: main.x, y: main.y + (main.height - h), width: main.width, height: h }
        },
    }
}

/// The areas that mouse events are hit-tested against after a frame:
/// the panels' frames and inner areas, the overlay's box if one is open,
/// and the graph's scroll offset.
pub fn hit_areas(f: &FrameLayout, modal: &Option<Modal>, graph_scroll_offset: usize) -> (l: LayoutRects)
    requires
        f.main.wf(),
        f.graph_outer.wf(),
        f.graph_inner.wf(),
        f.detail_outer.wf(),
        f.detail_inner.wf(),
    ensures
        l.wf(),
        l.graph_outer == f.graph_outer,
        l.graph_inner == f.graph_inner,
        l.detail_outer == f.detail_outer,
        l.detail_inner == f.detail_inner,
        l.graph_scroll_offset == graph_scroll_offset,
        modal.is_none() <==> l.modal_area.is_none(),
        modal matches Some(m) && placement_spec(*m) is Full ==> l.modal_area == Some(f.main),
        modal matches Some(m) && placement_spec(*m) is DetailPanel ==> l.modal_area == Some(
            f.detail_outer,
        ),
        modal matches Some(m) ==> (placement_spec(*m) matches Placement::BottomBar { rows }
            ==> l.modal_area == Some(bottom_bar(f.main, rows))),
{
    LayoutRects {
        graph_outer: f.graph_outer,
        graph_inner: f.graph_inner,
        detail_outer: f.detail_outer,
        detail_inner: f.detail_inner,
        modal_area: match modal {
            Some(m) => Some(modal_area(m, f.main, f.detail_outer)),
            None => None,
        },
        graph_scroll_offset,
    }
}

} // verus!
