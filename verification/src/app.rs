//! The application state that dispatch updates and the panels render.

use vstd::prelude::*;

use crate::forge::{ForgeKind, PrInfo};
use crate::types::{
    ChangeDetail, ConflictData, ConflictRegion, DiffHunk, DiffLine, GraphData, is_node, keys_distinct,
};

pub use crate::action::{Action, BackgroundKind, DetailMode, MutationKind, PanelFocus};
pub use crate::modal::{HelpContext, Modal};

use crate::action::{HunkPickerOp, RebaseMode};

verus! {

/// Per-hunk resolution state for the conflict view.
#[derive(Debug, Clone, Copy, PartialEq, Eq)]
pub enum HunkResolution {
    Unresolved,
    AcceptLeft,
    AcceptRight,
}

#[derive(Debug, Clone, PartialEq, Eq)]
pub enum PickingMode {
    Browsing,
    Filtering { query: String },
}

#[derive(Debug, Clone, PartialEq)]
pub struct TargetPick {
    pub source: String,
    pub mode: RebaseMode,
    /// Change IDs that cannot be a destination (shown dimmed).
    pub excluded: Vec<String>,
    pub picking: PickingMode,
    /// Change ID at cursor when picking started — restored by identity on cancel.
    pub original_change_id: String,
    pub descendant_count: usize,
}

#[derive(Debug, Clone, PartialEq)]
pub struct HunkPicker {
    pub operation: HunkPickerOp,
    pub files: Vec<PickerFile>,
    pub cursor: usize,
    pub scroll: usize,
    /// Viewport height for scroll computation. Set by the event loop
    /// before dispatching, so dispatch can adjust scroll after cursor movement.
    pub viewport_height: usize,
}

#[derive(Debug, Clone, PartialEq)]
pub struct PickerFile {
    pub path: String,
    pub hunks: Vec<PickerHunk>,
}

#[derive(Debug, Clone, PartialEq)]
pub struct PickerHunk {
    pub header: String,
    pub lines: Vec<DiffLine>,
    pub selected: bool,
}

#[derive(Debug, Clone, PartialEq)]
pub struct ConflictView {
    pub change_id: String,
    pub path: String,
    pub data: ConflictData,
    /// Per conflict hunk resolution state. Parallel to Conflict variants only.
    pub resolutions: Vec<HunkResolution>,
    /// Cursor indexes into conflict hunks only (0..N).
    pub cursor: usize,
    pub scroll: usize,
    pub viewport_height: usize,
}

/// Number of `Conflict` regions in `regions`.
pub open spec fn conflict_region_count(regions: Seq<ConflictRegion>) -> nat
    decreases regions.len(),
{
    if regions.len() == 0 {
        0
    } else {
        conflict_region_count(regions.drop_last()) + if regions.last() is Conflict {
            1nat
        } else {
            0nat
        }
    }
}

impl ConflictView {
    /// Construct a `ConflictView` with the `resolutions` array guaranteed to match
    /// the number of `Conflict` regions in `data`: one `Unresolved` entry per
    /// conflict hunk.
    pub fn new(change_id: String, path: String, data: ConflictData) -> (v: Self)
        ensures
            v.change_id == change_id,
            v.path == path,
            v.data == data,
            v.resolutions@.len() == conflict_region_count(data.regions@),
            forall|i: int|
                0 <= i < v.resolutions@.len() ==> v.resolutions@[i] == HunkResolution::Unresolved,
            v.cursor == 0,
            v.scroll == 0,
            v.viewport_height == 0,
    {
        let mut resolutions: Vec<HunkResolution> = Vec::new();
        let mut i: usize = 0;
        while i < data.regions.len()
            invariant
                i <= data.regions@.len(),
                resolutions@.len() == conflict_region_count(data.regions@.take(i as int)),
                forall|k: int|
                    0 <= k < resolutions@.len() ==> resolutions@[k] == HunkResolution::Unresolved,
            decreases data.regions@.len() - i,
        {
            assert(data.regions@.take(i + 1).drop_last() =~= data.regions@.take(i as int));
            match &data.regions[i] {
                ConflictRegion::Conflict { .. } => {
                    resolutions.push(HunkResolution::Unresolved);
                },
                ConflictRegion::Resolved(_) => {},
            }
            i += 1;
        }
        assert(data.regions@.take(data.regions@.len() as int) =~= data.regions@);
        ConflictView { change_id, path, data, resolutions, cursor: 0, scroll: 0, viewport_height: 0 }
    }
}

/// A screen rectangle, as the terminal library lays them out: the right
/// and bottom edges stay within `u16`.
#[derive(Debug, Clone, Copy, PartialEq, Eq)]
pub struct Rect {
    pub x: u16,
    pub y: u16,
    pub width: u16,
    pub height: u16,
}

impl Rect {
    pub open spec fn wf(self) -> bool {
        self.x + self.width <= u16::MAX && self.y + self.height <= u16::MAX
    }

    /// A rectangle at `(x, y)`; width and height are clamped so that the
    /// right and bottom edges stay within `u16`.
    pub fn new(x: u16, y: u16, width: u16, height: u16) -> (r: Rect)
        ensures
            r.wf(),
            r.x == x,
            r.y == y,
            r.width == if x + width <= u16::MAX {
                width
            } else {
                (u16::MAX - x) as u16
            },
            r.height == if y + height <= u16::MAX {
                height
            } else {
                (u16::MAX - y) as u16
            },
    {
        let width = if width <= u16::MAX - x {
            width
        } else {
            u16::MAX - x
        };
        let height = if height <= u16::MAX - y {
            height
        } else {
            u16::MAX - y
        };
        Rect { x, y, width, height }
    }
}

/// Screen areas of the last render, cached for mouse hit-testing.
#[derive(Debug, Clone, Copy, PartialEq, Eq)]
pub struct LayoutRects {
    pub graph_outer: Rect,
    pub graph_inner: Rect,
    pub detail_outer: Rect,
    pub detail_inner: Rect,
    pub modal_area: Option<Rect>,
    pub graph_scroll_offset: usize,
}

impl LayoutRects {
    /// Every cached rectangle keeps its edges within `u16`.
    pub open spec fn wf(self) -> bool {
        &&& self.graph_outer.wf()
        &&& self.graph_inner.wf()
        &&& self.detail_outer.wf()
        &&& self.detail_inner.wf()
        &&& self.modal_area matches Some(m) ==> m.wf()
    }

    /// All areas empty, at the origin.
    pub fn empty() -> (l: LayoutRects)
        ensures
            l.wf(),
            l.graph_outer == (Rect { x: 0, y: 0, width: 0, height: 0 }),
            l.graph_inner == (Rect { x: 0, y: 0, width: 0, height: 0 }),
            l.detail_outer == (Rect { x: 0, y: 0, width: 0, height: 0 }),
            l.detail_inner == (Rect { x: 0, y: 0, width: 0, height: 0 }),
            l.modal_area is None,
            l.graph_scroll_offset == 0,
    {
        let z = Rect { x: 0, y: 0, width: 0, height: 0 };
        LayoutRects {
            graph_outer: z,
            graph_inner: z,
            detail_outer: z,
            detail_inner: z,
            modal_area: None,
            graph_scroll_offset: 0,
        }
    }
}

pub struct AppState {
    pub graph: GraphData,
    pub cursor: usize,
    pub should_quit: bool,
    pub error: Option<String>,
    pub focus: PanelFocus,
    pub detail_cursor: usize,
    pub detail_mode: DetailMode,
    pub diff_scroll: usize,
    pub diff_data: Vec<DiffHunk>,
    pub modal: Option<Modal>,
    pub pending_mutation: Option<MutationKind>,
    pub pending_background: Vec<BackgroundKind>,
    pub status_message: Option<String>,
    /// When set, the next accepted graph snapshot moves the cursor to the
    /// working copy (and clears this flag).
    pub cursor_follows_working_copy: bool,
    /// Monotonic counter for graph snapshot versioning.
    /// Dispatch rejects `GraphLoaded` with generation < this value.
    pub graph_generation: u64,
    /// The currently active revset filter, or `None` for the default revset.
    pub active_revset: Option<String>,
    /// Saved cursor position for restoring focus when exiting a revset filter.
    pub omnibar_fallback_idx: Option<usize>,
    pub target_pick: Option<TargetPick>,
    pub hunk_picker: Option<HunkPicker>,
    pub conflict_view: Option<ConflictView>,
    pub forge: Option<ForgeKind>,
    /// PR status keyed by bookmark name.
    pub pr_status: Vec<(String, PrInfo)>,
    pub pending_forge_fetch: bool,
    pub layout: LayoutRects,
}

/// The cursor a fresh state starts on: the working copy, else the first
/// node line, else line 0.
pub open spec fn initial_cursor(graph: GraphData) -> usize {
    match graph.working_copy_index {
        Some(w) => w,
        None => if graph.node_index_seq().len() > 0 {
            graph.node_index_seq()[0]
        } else {
            0
        },
    }
}

impl AppState {
    /// The state's invariant: a well-formed graph, and the lists that
    /// stand for a map or a set holding each key once (pull requests by
    /// bookmark name, background operations by kind).
    pub open spec fn wf(&self) -> bool {
        &&& self.graph.wf()
        &&& keys_distinct(self.pr_status@)
        &&& self.pending_background@.no_duplicates()
    }

    pub fn new(graph: GraphData, forge: Option<ForgeKind>) -> (s: Self)
        ensures
            graph.wf() ==> s.wf(),
            s.graph == graph,
            s.cursor == initial_cursor(graph),
            !s.should_quit,
            s.error is None,
            s.focus == PanelFocus::Graph,
            s.detail_cursor == 0,
            s.detail_mode == DetailMode::FileList,
            s.diff_scroll == 0,
            s.diff_data@.len() == 0,
            s.modal is None,
            s.pending_mutation is None,
            s.pending_background@.len() == 0,
            s.status_message is None,
            !s.cursor_follows_working_copy,
            s.graph_generation == 0,
            s.active_revset is None,
            s.omnibar_fallback_idx is None,
            s.target_pick is None,
            s.hunk_picker is None,
            s.conflict_view is None,
            s.forge == forge,
            s.pr_status@.len() == 0,
            !s.pending_forge_fetch,
            s.layout.wf(),
    {
        let cursor = match graph.working_copy_index {
            Some(w) => w,
            None => {
                let nodes = graph.node_indices();
                if nodes.len() > 0 {
                    nodes[0]
                } else {
                    0
                }
            },
        };
        AppState {
            graph,
            cursor,
            should_quit: false,
            error: None,
            focus: PanelFocus::Graph,
            detail_cursor: 0,
            detail_mode: DetailMode::FileList,
            diff_scroll: 0,
            diff_data: Vec::new(),
            modal: None,
            pending_mutation: None,
            pending_background: Vec::new(),
            status_message: None,
            cursor_follows_working_copy: false,
            graph_generation: 0,
            active_revset: None,
            omnibar_fallback_idx: None,
            target_pick: None,
            hunk_picker: None,
            conflict_view: None,
            forge,
            pr_status: Vec::new(),
            pending_forge_fetch: false,
            layout: LayoutRects::empty(),
        }
    }

    pub fn cursor(&self) -> (c: usize)
        ensures
            c == self.cursor,
    {
        self.cursor
    }

    pub fn detail_cursor(&self) -> (c: usize)
        ensures
            c == self.detail_cursor,
    {
        self.detail_cursor
    }

    /// The change ID of the line under the cursor, if it is a node line.
    pub fn selected_change_id(&self) -> (r: Option<&str>)
        ensures
            match r {
                Some(id) => is_node(self.graph.lines@, self.cursor as int) && id@
                    == self.graph.lines@[self.cursor as int].change_id->0@,
                None => !is_node(self.graph.lines@, self.cursor as int),
            },
    {
        if self.cursor < self.graph.lines.len() {
            match &self.graph.lines[self.cursor].change_id {
                Some(id) => Some(id.as_str()),
                None => None,
            }
        } else {
            None
        }
    }

    /// The detail of the change under the cursor, if any.
    pub fn selected_detail(&self) -> (r: Option<&ChangeDetail>)
        ensures
            match r {
                Some(d) => self.graph.detail_at_spec(self.cursor as int) == Some(*d),
                None => self.graph.detail_at_spec(self.cursor as int) is None,
            },
    {
        self.graph.detail_at(self.cursor)
    }

    /// Back to the file list of the selected change: detail cursor, diff
    /// scroll and diff data cleared.
    pub fn reset_detail(&mut self)
        ensures
            final(self).detail_cursor == 0,
            final(self).detail_mode == DetailMode::FileList,
            final(self).diff_scroll == 0,
            final(self).diff_data@.len() == 0,
            reset_keeps(*old(self), *final(self)),
    {
        self.detail_cursor = 0;
        self.detail_mode = DetailMode::FileList;
        self.diff_scroll = 0;
        self.diff_data = Vec::new();
    }

    /// Puts the graph cursor on line `index`, nothing else changed.
    pub fn set_cursor_for_test(&mut self, index: usize)
        ensures
            *final(self) == (AppState { cursor: index, ..*old(self) }),
    {
        self.cursor = index;
    }

    /// Puts the detail cursor on entry `index`, nothing else changed.
    pub fn set_detail_cursor_for_test(&mut self, index: usize)
        ensures
            *final(self) == (AppState { detail_cursor: index, ..*old(self) }),
    {
        self.detail_cursor = index;
    }
}

/// Everything but the detail fields is the same in `a` and `b`.
pub open spec fn reset_keeps(a: AppState, b: AppState) -> bool {
    &&& b.graph == a.graph
    &&& b.cursor == a.cursor
    &&& b.should_quit == a.should_quit
    &&& b.error == a.error
    &&& b.focus == a.focus
    &&& b.modal == a.modal
    &&& b.pending_mutation == a.pending_mutation
    &&& b.pending_background == a.pending_background
    &&& b.status_message == a.status_message
    &&& b.cursor_follows_working_copy == a.cursor_follows_working_copy
    &&& b.graph_generation == a.graph_generation
    &&& b.active_revset == a.active_revset
    &&& b.omnibar_fallback_idx == a.omnibar_fallback_idx
    &&& b.target_pick == a.target_pick
    &&& b.hunk_picker == a.hunk_picker
    &&& b.conflict_view == a.conflict_view
    &&& b.forge == a.forge
    &&& b.pr_status == a.pr_status
    &&& b.pending_forge_fetch == a.pending_forge_fetch
    &&& b.layout == a.layout
}

} // verus!
