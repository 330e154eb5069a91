//! Mouse input: which action a click or a wheel turn asks for, given the
//! screen areas of the last render.

use vstd::prelude::*;

use crate::action::{Action, DetailMode, PanelFocus};
use crate::app::{AppState, LayoutRects, Rect};
use crate::input::KeyModifiers;
use crate::modal::Modal;

verus! {

/// A mouse button.
#[derive(Debug, Clone, Copy, PartialEq, Eq, Structural)]
pub enum MouseButton {
    Left,
    Right,
    Middle,
}

/// What happened with the mouse.
#[derive(Debug, Clone, Copy, PartialEq, Eq, Structural)]
pub enum MouseEventKind {
    Down(MouseButton),
    Up(MouseButton),
    Drag(MouseButton),
    Moved,
    ScrollDown,
    ScrollUp,
    ScrollLeft,
    ScrollRight,
}

/// A mouse event at a terminal cell.
#[derive(Debug, Clone, Copy, PartialEq, Eq, Structural)]
pub struct MouseEvent {
    pub kind: MouseEventKind,
    pub column: u16,
    pub row: u16,
    pub modifiers: KeyModifiers,
}

/// Lines moved per wheel step.
pub const SCROLL_LINES: usize = 3;

/// Whether the cell at (`col`, `row`) lies inside `r`.
pub open spec fn hits(r: Rect, col: u16, row: u16) -> bool {
    col >= r.x && col < r.x + r.width && row >= r.y && row < r.y + r.height
}

/// Whether the cell at (`col`, `row`) lies inside `rect`.
pub fn hit_test(rect: Rect, col: u16, row: u16) -> (b: bool)
    requires
        rect.wf(),
    ensures
        b == hits(rect, col, row),
{
    col >= rect.x && col < rect.x + rect.width && row >= rect.y && row < rect.y + rect.height
}

/// The action a left click at (`col`, `row`) asks for. The description
/// editor and the bookmark input ignore clicks; with another overlay
/// open, a click outside it dismisses it; while a target is picked, or the
/// detail panel shows a diff, the hunk picker or a conflict, clicks do
/// nothing; otherwise a click inside a panel selects the line under it
/// (graph lines counted from the scroll offset), and one on a panel's
/// border focuses that panel.
pub open spec fn click_action(col: u16, row: u16, l: LayoutRects, s: AppState) -> Option<Action> {
    if s.modal matches Some(m) && (m is Describe || m is BookmarkInput) {
        None
    } else if s.modal is Some {
        match l.modal_area {
            Some(m) => if !hits(m, col, row) {
                Some(Action::ModalDismiss)
            } else {
                None
            },
            None => None,
        }
    } else if s.target_pick is Some {
        None
    } else if s.detail_mode != DetailMode::FileList {
        None
    } else if hits(l.graph_inner, col, row) {
        Some(
            Action::ClickGraphNode {
                line_index: (l.graph_scroll_offset + (row - l.graph_inner.y)) as usize,
            },
        )
    } else if hits(l.detail_inner, col, row) {
        Some(Action::ClickDetailItem { index: (row - l.detail_inner.y) as usize })
    } else if hits(l.graph_outer, col, row) {
        Some(Action::ClickFocusGraph)
    } else if hits(l.detail_outer, col, row) {
        Some(Action::ClickFocusDetail)
    } else {
        None
    }
}

/// The action a wheel step at (`col`, `row`) asks for: with an overlay
/// open, a step over it moves its cursor; otherwise a step over a panel
/// scrolls that panel (whichever has the focus).
pub open spec fn scroll_action(col: u16, row: u16, l: LayoutRects, s: AppState, up: bool) -> Option<
    Action,
> {
    if s.modal is Some {
        match l.modal_area {
            Some(m) => if hits(m, col, row) {
                Some(
                    if up {
                        Action::ModalMoveUp
                    } else {
                        Action::ModalMoveDown
                    },
                )
            } else {
                None
            },
            None => None,
        }
    } else {
        let panel = if hits(l.graph_outer, col, row) {
            Some(PanelFocus::Graph)
        } else if hits(l.detail_outer, col, row) {
            Some(PanelFocus::Detail)
        } else {
            None
        };
        match panel {
            Some(p) => Some(
                if up {
                    Action::ScrollUp { count: SCROLL_LINES, panel: p }
                } else {
                    Action::ScrollDown { count: SCROLL_LINES, panel: p }
                },
            ),
            None => None,
        }
    }
}

/// The action a left click at (`col`, `row`) asks for.
pub fn handle_click(col: u16, row: u16, layout: &LayoutRects, state: &AppState) -> (r: Option<
    Action,
>)
    requires
        layout.wf(),
        hits(layout.graph_inner, col, row) ==> layout.graph_scroll_offset + (row
            - layout.graph_inner.y) <= usize::MAX,
    ensures
        r == click_action(col, row, *layout, *state),
{
    match &state.modal {
        Some(Modal::Describe { .. }) | Some(Modal::BookmarkInput { .. }) => {
            return None;
        },
        _ => {},
    }
    if state.modal.is_some() {
        return match layout.modal_area {
            Some(m) => if !hit_test(m, col, row) {
                Some(Action::ModalDismiss)
            } else {
                None
            },
            None => None,
        };
    }
    if state.target_pick.is_some() {
        return None;
    }
    match state.detail_mode {
        DetailMode::FileList => {},
        _ => {
            return None;
        },
    }
    if hit_test(layout.graph_inner, col, row) {
        let viewport_row = (row - layout.graph_inner.y) as usize;
        return Some(Action::ClickGraphNode { line_index: layout.graph_scroll_offset + viewport_row });
    }
    if hit_test(layout.detail_inner, col, row) {
        let row_offset = (row - layout.detail_inner.y) as usize;
        return Some(Action::ClickDetailItem { index: row_offset });
    }
    if hit_test(layout.graph_outer, col, row) {
        return Some(Action::ClickFocusGraph);
    }
    if hit_test(layout.detail_outer, col, row) {
        return Some(Action::ClickFocusDetail);
    }
    None
}

/// The action a wheel step at (`col`, `row`) asks for (`up` for a step
/// up).
pub fn handle_scroll(col: u16, row: u16, layout: &LayoutRects, state: &AppState, up: bool) -> (r:
    Option<Action>)
    requires
        layout.wf(),
    ensures
        r == scroll_action(col, row, *layout, *state, up),
{
    if state.modal.is_some() {
        return match layout.modal_area {
            Some(m) => if hit_test(m, col, row) {
                Some(
                    if up {
                        Action::ModalMoveUp
                    } else {
                        Action::ModalMoveDown
                    },
                )
            } else {
                None
            },
            None => None,
        };
    }
    let panel = if hit_test(layout.graph_outer, col, row) {
        Some(PanelFocus::Graph)
    } else if hit_test(layout.detail_outer, col, row) {
        Some(PanelFocus::Detail)
    } else {
        None
    };
    match panel {
        Some(p) => Some(
            if up {
                Action::ScrollUp { count: SCROLL_LINES, panel: p }
            } else {
                Action::ScrollDown { count: SCROLL_LINES, panel: p }
            },
        ),
        None => None,
    }
}

/// The action a mouse event asks for: a left press is a click, a wheel
/// step up or down a scroll; every other event (other buttons, releases,
/// drags, moves, sideways wheel steps) asks for nothing.
pub open spec fn mouse_action(e: MouseEvent, s: AppState) -> Option<Action> {
    match e.kind {
        MouseEventKind::Down(MouseButton::Left) => click_action(e.column, e.row, s.layout, s),
        MouseEventKind::ScrollUp => scroll_action(e.column, e.row, s.layout, s, true),
        MouseEventKind::ScrollDown => scroll_action(e.column, e.row, s.layout, s, false),
        _ => None,
    }
}

/// The action a mouse event asks for, given the areas of the last render.
pub fn map_mouse_event(event: MouseEvent, state: &AppState) -> (r: Option<Action>)
    requires
        state.layout.wf(),
        event.kind == MouseEventKind::Down(MouseButton::Left) && hits(
            state.layout.graph_inner,
            event.column,
            event.row,
        ) ==> state.layout.graph_scroll_offset + (event.row - state.layout.graph_inner.y)
            <= usize::MAX,
    ensures
        r == mouse_action(event, *state),
{
    let col = event.column;
    let row = event.row;
    let layout = &state.layout;
    match event.kind {
        MouseEventKind::Down(MouseButton::Left) => handle_click(col, row, layout, state),
        MouseEventKind::ScrollUp => handle_scroll(col, row, layout, state, true),
        MouseEventKind::ScrollDown => handle_scroll(col, row, layout, state, false),
        _ => None,
    }
}

} // verus!
