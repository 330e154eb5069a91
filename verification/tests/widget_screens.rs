//! The widgets drawn on a screen of a given size: each test lays the rows a
//! widget produces into cells the way the terminal front end does (one
//! character per cell, cut at the right edge; overlays inside a one-cell
//! border with their title on the top edge) and reads the cells back.

use lajjzy::action::{BackgroundKind, CompletionItem, HunkPickerOp, RebaseMode};
use lajjzy::app::{
    ConflictView, HunkPicker, HunkResolution, PickerFile, PickerHunk, PickingMode, TargetPick,
};
use lajjzy::forge::{PrInfo, PrState, ReviewStatus};
use lajjzy::modal::HelpContext;
use lajjzy::types::{
    ChangeDetail, ConflictData, ConflictRegion, DiffHunk, DiffLine, DiffLineKind, FileChange,
    FileStatus, GraphData, GraphLine, OpLogEntry,
};
use lajjzy::widgets::bookmark_input::BookmarkInputWidget;
use lajjzy::widgets::bookmark_picker::BookmarkPickerWidget;
use lajjzy::widgets::conflict_view::ConflictViewWidget;
use lajjzy::widgets::diff_view::DiffViewWidget;
use lajjzy::widgets::file_list::FileListWidget;
use lajjzy::widgets::fuzzy_find::FuzzyFindWidget;
use lajjzy::widgets::graph::GraphWidget;
use lajjzy::widgets::help::HelpWidget;
use lajjzy::widgets::hunk_picker::HunkPickerWidget;
use lajjzy::widgets::omnibar::OmnibarWidget;
use lajjzy::widgets::op_log::OpLogWidget;
use lajjzy::widgets::status_bar::StatusBarWidget;
use lajjzy::widgets::style::{Color, Row, Span, Style};

// ── a small screen ───────────────────────────────────────────────────────

struct Screen {
    lines: Vec<String>,
    styles: Vec<Vec<Style>>,
}

fn blank_style() -> Style {
    Style {
        fg: None,
        bg: None,
        bold: false,
        italic: false,
        reversed: false,
    }
}

fn patched(base: Style, patch: Option<Style>) -> Style {
    match patch {
        None => base,
        Some(p) => Style {
            fg: p.fg.or(base.fg),
            bg: p.bg.or(base.bg),
            bold: base.bold || p.bold,
            italic: base.italic || p.italic,
            reversed: base.reversed || p.reversed,
        },
    }
}

impl Screen {
    fn new(width: usize, height: usize) -> Screen {
        Screen {
            lines: vec![" ".repeat(width); height],
            styles: vec![vec![blank_style(); width]; height],
        }
    }

    fn width(&self) -> usize {
        self.styles.first().map_or(0, |r| r.len())
    }

    /// Draws `text` from column `x` of line `y`, cut at the right edge.
    fn put(&mut self, x: usize, y: usize, text: &str, style: Style) -> usize {
        let width = self.width();
        if y >= self.lines.len() {
            return x;
        }
        let mut chars: Vec<char> = self.lines[y].chars().collect();
        let mut col = x;
        for c in text.chars() {
            if col >= width {
                break;
            }
            chars[col] = c;
            self.styles[y][col] = style;
            col += 1;
        }
        self.lines[y] = chars.into_iter().collect();
        col
    }

    /// Draws `rows` top to bottom in the area at (`x`, `y`), `width` wide.
    fn draw_rows(&mut self, x: usize, y: usize, width: usize, height: usize, rows: &[Row]) {
        for (i, row) in rows.iter().enumerate().take(height) {
            let mut col = x;
            for span in &row.spans {
                let end = (x + width).min(self.width());
                if col >= end {
                    break;
                }
                let text: String = span.text.chars().take(end - col).collect();
                col = self.put(col, y + i, &text, span.style);
            }
            if row.patch.is_some() {
                for c in x..(x + width).min(self.width()) {
                    self.styles[y + i][c] = patched(self.styles[y + i][c], row.patch);
                }
            }
        }
    }

    fn line(&self, y: usize) -> &str {
        &self.lines[y]
    }

    fn style(&self, x: usize, y: usize) -> Style {
        self.styles[y][x]
    }

    fn any_line(&self, needle: &str) -> bool {
        self.lines.iter().any(|l| l.contains(needle))
    }
}

/// Rows drawn over a whole `width` by `height` area.
fn plain_screen(rows: &[Row], width: usize, height: usize) -> Screen {
    let mut s = Screen::new(width, height);
    s.draw_rows(0, 0, width, height, rows);
    s
}

/// An overlay: a border with `title` on its top edge, the rows inside.
fn framed_screen(title: &str, width: usize, height: usize, rows: &[Row]) -> Screen {
    let mut s = Screen::new(width, height);
    if width >= 2 && height >= 2 {
        let plain = blank_style();
        s.put(0, 0, &format!("┌{}┐", "─".repeat(width - 2)), plain);
        for y in 1..height - 1 {
            s.put(0, y, "│", plain);
            s.put(width - 1, y, "│", plain);
        }
        s.put(0, height - 1, &format!("└{}┘", "─".repeat(width - 2)), plain);
        let t: String = title.chars().take(width - 2).collect();
        s.put(1, 0, &t, plain);
        s.draw_rows(1, 1, width - 2, height - 2, rows);
    }
    s
}

fn span_rows(lines: Vec<Vec<Span>>) -> Vec<Row> {
    lines.into_iter().map(|spans| Row { spans, patch: None }).collect()
}

fn line_rows(lines: Vec<Span>) -> Vec<Row> {
    lines.into_iter().map(|s| Row { spans: vec![s], patch: None }).collect()
}

fn detail(commit: &str, author: &str, description: &str, bookmarks: &[&str], conflicts: usize) -> ChangeDetail {
    ChangeDetail {
        commit_id: commit.into(),
        author: author.into(),
        email: format!("{author}@ex.com"),
        timestamp: "1m ago".into(),
        description: description.into(),
        bookmarks: bookmarks.iter().map(|b| b.to_string()).collect(),
        is_empty: false,
        conflict_count: conflicts,
        files: vec![],
        parents: vec![],
    }
}

// ── status bar ───────────────────────────────────────────────────────────

fn status_screen(w: &StatusBarWidget, width: usize, height: usize) -> Screen {
    plain_screen(&line_rows(w.status_lines(height as u16)), width, height)
}

fn sample_status_detail() -> ChangeDetail {
    ChangeDetail {
        commit_id: "aaa11".into(),
        author: "alice".into(),
        email: "alice@example.com".into(),
        timestamp: "2m ago".into(),
        description: "fix: parser bug".into(),
        bookmarks: vec!["main".into()],
        is_empty: false,
        conflict_count: 0,
        files: vec![],
        parents: vec![],
    }
}

#[test]
fn renders_change_detail() {
    let detail = sample_status_detail();
    let bg = vec![];
    let widget = StatusBarWidget::new(Some("abc12"), Some(&detail), None, None, None, &bg, None, None, None);
    let s = status_screen(&widget, 60, 2);
    assert!(s.line(0).contains("abc12"));
    assert!(s.line(0).contains("alice"));
    assert!(s.line(1).contains("fix: parser bug"));
    assert!(s.line(1).contains("[main]"));
}

#[test]
fn renders_error_in_red() {
    let bg = vec![];
    let widget =
        StatusBarWidget::new(None, None, Some("Refresh failed: timeout"), None, None, &bg, None, None, None);
    let s = status_screen(&widget, 40, 2);
    assert!(s.line(0).contains("Refresh failed"));
    assert_eq!(s.style(0, 0).fg, Some(Color::Red));
}

#[test]
fn renders_nothing_when_no_detail_and_no_error() {
    let bg = vec![];
    let widget = StatusBarWidget::new(None, None, None, None, None, &bg, None, None, None);
    let s = status_screen(&widget, 40, 2);
    assert_eq!(s.line(0).trim(), "");
}

#[test]
fn renders_status_message_in_green() {
    let bg = vec![];
    let widget = StatusBarWidget::new(None, None, None, Some("Pushed ok"), None, &bg, None, None, None);
    let s = status_screen(&widget, 40, 1);
    assert!(s.line(0).contains("Pushed ok"));
    assert_eq!(s.style(0, 0).fg, Some(Color::Green));
}

#[test]
fn error_takes_priority_over_status_message() {
    let bg = vec![];
    let widget =
        StatusBarWidget::new(None, None, Some("fatal error"), Some("all good"), None, &bg, None, None, None);
    let s = status_screen(&widget, 40, 1);
    assert!(s.line(0).contains("fatal error"));
    assert!(!s.line(0).contains("all good"));
    assert_eq!(s.style(0, 0).fg, Some(Color::Red));
}

#[test]
fn renders_pushing_indicator_in_cyan() {
    let bg = vec![BackgroundKind::Push];
    let widget = StatusBarWidget::new(None, None, None, None, None, &bg, None, None, None);
    let s = status_screen(&widget, 40, 1);
    assert!(s.line(0).contains("Pushing..."));
    assert_eq!(s.style(0, 0).fg, Some(Color::Cyan));
}

#[test]
fn renders_fetching_indicator_in_cyan() {
    let bg = vec![BackgroundKind::Fetch];
    let widget = StatusBarWidget::new(None, None, None, None, None, &bg, None, None, None);
    let s = status_screen(&widget, 40, 1);
    assert!(s.line(0).contains("Fetching..."));
    assert_eq!(s.style(0, 0).fg, Some(Color::Cyan));
}

#[test]
fn renders_both_push_and_fetch_indicators() {
    let bg = vec![BackgroundKind::Push, BackgroundKind::Fetch];
    let widget = StatusBarWidget::new(None, None, None, None, None, &bg, None, None, None);
    let s = status_screen(&widget, 80, 1);
    assert!(s.line(0).contains("Pushing...") || s.line(0).contains("Fetching..."));
}

#[test]
fn status_message_takes_priority_over_pending_indicator() {
    let bg = vec![BackgroundKind::Push];
    let widget = StatusBarWidget::new(None, None, None, Some("Pushed ok"), None, &bg, None, None, None);
    let s = status_screen(&widget, 40, 1);
    assert!(s.line(0).contains("Pushed ok"));
    assert!(!s.line(0).contains("Pushing..."));
}

#[test]
fn status_bar_shows_active_revset() {
    let bg = vec![];
    let widget =
        StatusBarWidget::new(None, None, None, None, Some("mine() & ~empty()"), &bg, None, None, None);
    let s = status_screen(&widget, 60, 1);
    assert!(
        s.line(0).contains("revset: mine() & ~empty()"),
        "expected revset breadcrumb, got: {:?}",
        s.line(0)
    );
    assert_eq!(s.style(0, 0).fg, Some(Color::Cyan));
}

#[test]
fn active_revset_takes_priority_over_pending_indicator() {
    let bg = vec![BackgroundKind::Push];
    let widget = StatusBarWidget::new(None, None, None, None, Some("mine()"), &bg, None, None, None);
    let s = status_screen(&widget, 40, 1);
    assert!(s.line(0).contains("revset: mine()"));
    assert!(!s.line(0).contains("Pushing..."));
}

fn sample_pick_single() -> TargetPick {
    TargetPick {
        source: "abc".into(),
        mode: RebaseMode::Single,
        excluded: vec!["abc".into()],
        picking: PickingMode::Browsing,
        original_change_id: "abc".into(),
        descendant_count: 0,
    }
}

fn sample_pick_with_descendants() -> TargetPick {
    TargetPick {
        source: "def".into(),
        mode: RebaseMode::WithDescendants,
        excluded: vec!["def".into(), "abc".into()],
        picking: PickingMode::Browsing,
        original_change_id: "def".into(),
        descendant_count: 1,
    }
}

#[test]
fn status_bar_shows_picking_mode_text() {
    let bg = vec![];
    let pick = sample_pick_single();
    let widget = StatusBarWidget::new(None, None, None, None, None, &bg, Some(&pick), None, None);
    let s = status_screen(&widget, 80, 1);
    assert!(s.line(0).contains("Rebase abc onto →"), "expected picking text, got: {:?}", s.line(0));
    assert_eq!(s.style(0, 0).fg, Some(Color::Yellow), "picking mode text should be yellow");
}

#[test]
fn status_bar_shows_blast_radius() {
    let bg = vec![];
    let pick = sample_pick_with_descendants();
    let widget = StatusBarWidget::new(None, None, None, None, None, &bg, Some(&pick), None, None);
    let s = status_screen(&widget, 80, 1);
    assert!(
        s.line(0).contains("Rebase def + 1 descendant onto →"),
        "expected blast radius text, got: {:?}",
        s.line(0)
    );
    assert_eq!(s.style(0, 0).fg, Some(Color::Yellow));
}

#[test]
fn status_bar_shows_filter_query_in_picking_mode() {
    let bg = vec![];
    let mut pick = sample_pick_single();
    pick.picking = PickingMode::Filtering { query: "main".into() };
    let widget = StatusBarWidget::new(None, None, None, None, None, &bg, Some(&pick), None, None);
    let s = status_screen(&widget, 80, 1);
    assert!(s.line(0).contains("filter: main"), "expected filter query in text, got: {:?}", s.line(0));
}

#[test]
fn picking_mode_takes_priority_over_error() {
    let bg = vec![];
    let pick = sample_pick_single();
    let widget =
        StatusBarWidget::new(None, None, Some("some error"), None, None, &bg, Some(&pick), None, None);
    let s = status_screen(&widget, 80, 1);
    assert!(s.line(0).contains("Rebase abc onto →"), "picking mode must beat error, got: {:?}", s.line(0));
    assert!(!s.line(0).contains("some error"));
}

fn added(content: &str) -> DiffLine {
    DiffLine {
        kind: DiffLineKind::Added,
        content: content.into(),
    }
}

fn sample_hunk_picker_split() -> HunkPicker {
    HunkPicker {
        operation: HunkPickerOp::Split { source: "abc12".into() },
        files: vec![PickerFile {
            path: "src/lib.rs".into(),
            hunks: vec![
                PickerHunk {
                    header: "@@ -1,1 +1,2 @@".into(),
                    lines: vec![added("new line")],
                    selected: true,
                },
                PickerHunk {
                    header: "@@ -5,1 +6,2 @@".into(),
                    lines: vec![added("another")],
                    selected: false,
                },
            ],
        }],
        cursor: 0,
        scroll: 0,
        viewport_height: 20,
    }
}

fn sample_hunk_picker_squash() -> HunkPicker {
    HunkPicker {
        operation: HunkPickerOp::Squash {
            source: "abc12".into(),
            destination: "def34".into(),
        },
        files: vec![PickerFile {
            path: "src/lib.rs".into(),
            hunks: vec![PickerHunk {
                header: "@@ -1,1 +1,2 @@".into(),
                lines: vec![added("new line")],
                selected: true,
            }],
        }],
        cursor: 0,
        scroll: 0,
        viewport_height: 20,
    }
}

#[test]
fn status_bar_shows_hunk_picker_split() {
    let bg = vec![];
    let hp = sample_hunk_picker_split();
    let widget = StatusBarWidget::new(None, None, None, None, None, &bg, None, Some(&hp), None);
    let s = status_screen(&widget, 100, 1);
    assert!(s.line(0).contains("Split:"), "expected Split prefix, got: {:?}", s.line(0));
    assert!(s.line(0).contains("1/2"), "expected 1/2 selected count, got: {:?}", s.line(0));
    assert!(s.line(0).contains("abc12"), "expected source id, got: {:?}", s.line(0));
    assert_eq!(s.style(0, 0).fg, Some(Color::Magenta));
}

#[test]
fn status_bar_shows_hunk_picker_squash() {
    let bg = vec![];
    let hp = sample_hunk_picker_squash();
    let widget = StatusBarWidget::new(None, None, None, None, None, &bg, None, Some(&hp), None);
    let s = status_screen(&widget, 100, 1);
    assert!(s.line(0).contains("Squash:"), "expected Squash prefix, got: {:?}", s.line(0));
    assert!(s.line(0).contains("abc12"), "expected source, got: {:?}", s.line(0));
    assert!(s.line(0).contains("def34"), "expected destination, got: {:?}", s.line(0));
    assert_eq!(s.style(0, 0).fg, Some(Color::Magenta));
}

#[test]
fn hunk_picker_takes_priority_over_error() {
    let bg = vec![];
    let hp = sample_hunk_picker_split();
    let widget =
        StatusBarWidget::new(None, None, Some("some error"), None, None, &bg, None, Some(&hp), None);
    let s = status_screen(&widget, 100, 1);
    assert!(s.line(0).contains("Split:"), "hunk picker must beat error, got: {:?}", s.line(0));
    assert!(!s.line(0).contains("some error"));
}

// ── graph ────────────────────────────────────────────────────────────────

fn simple_graph() -> GraphData {
    GraphData::new(
        vec![
            GraphLine {
                raw: "◉  abc first".into(),
                change_id: Some("abc".into()),
                glyph_prefix: "◉  ".into(),
            },
            GraphLine {
                raw: "│  description one".into(),
                change_id: None,
                glyph_prefix: "│  description one".into(),
            },
            GraphLine {
                raw: "◉  def second".into(),
                change_id: Some("def".into()),
                glyph_prefix: "◉  ".into(),
            },
            GraphLine {
                raw: "│  description two".into(),
                change_id: None,
                glyph_prefix: "│  description two".into(),
            },
        ],
        vec![
            ("abc".into(), detail("aaa", "alice", "first", &[], 0)),
            ("def".into(), detail("ddd", "bob", "second", &["main"], 0)),
        ],
        Some(0),
        String::new(),
    )
}

fn graph_screen(w: &GraphWidget, width: usize, height: usize) -> Screen {
    plain_screen(&w.rows(height), width, height)
}

#[test]
fn renders_lines_in_buffer() {
    let graph = simple_graph();
    let pr_status = vec![];
    let widget = GraphWidget::new(&graph, 0, &pr_status);
    let s = graph_screen(&widget, 60, 4);
    assert!(s.line(0).contains("abc"), "Expected 'abc' in: {:?}", s.line(0));
    assert!(s.line(2).contains("def"), "Expected 'def' in: {:?}", s.line(2));
    assert!(s.line(2).contains("main"), "Expected 'main' in: {:?}", s.line(2));
}

#[test]
fn highlighted_lines_have_reversed_style() {
    let graph = simple_graph();
    let pr_status = vec![];
    let widget = GraphWidget::new(&graph, 0, &pr_status);
    let s = graph_screen(&widget, 30, 4);
    assert!(s.style(0, 0).reversed);
    assert!(s.style(0, 1).reversed);
    assert!(!s.style(0, 2).reversed);
}

#[test]
fn working_copy_glyph_is_green_bold() {
    let graph = simple_graph();
    let pr_status = vec![];
    let widget = GraphWidget::new(&graph, 0, &pr_status);
    let s = graph_screen(&widget, 60, 4);
    assert!(s.style(0, 0).reversed);
}

#[test]
fn connector_line_renders_raw_text() {
    let graph = simple_graph();
    let pr_status = vec![];
    let widget = GraphWidget::new(&graph, 0, &pr_status);
    let s = graph_screen(&widget, 40, 4);
    assert!(s.line(1).contains("description one"), "Expected connector text in: {:?}", s.line(1));
}

#[test]
fn graph_dims_excluded_changes_in_picking_mode() {
    let graph = simple_graph();
    let pick = TargetPick {
        source: "abc".into(),
        mode: RebaseMode::Single,
        excluded: vec!["abc".into()],
        picking: PickingMode::Browsing,
        original_change_id: "abc".into(),
        descendant_count: 0,
    };
    let pr_status = vec![];
    let widget = GraphWidget::new(&graph, 2, &pr_status).with_target_pick(Some(&pick));
    let s = graph_screen(&widget, 60, 4);
    assert_eq!(
        s.style(0, 0).fg,
        Some(Color::DarkGray),
        "excluded change 'abc' should be rendered in DarkGray"
    );
    assert!(
        s.style(0, 2).reversed,
        "non-excluded change 'def' at cursor should be REVERSED (highlighted)"
    );
}

#[test]
fn graph_renders_conflict_indicator() {
    let graph = GraphData::new(
        vec![GraphLine {
            raw: "◉  abc conflicted change".into(),
            change_id: Some("abc".into()),
            glyph_prefix: "◉  ".into(),
        }],
        vec![("abc".into(), detail("aaa", "alice", "conflicted change", &[], 3))],
        Some(0),
        String::new(),
    );
    let pr_status = vec![];
    let widget = GraphWidget::new(&graph, 0, &pr_status);
    let s = graph_screen(&widget, 80, 2);
    assert!(s.line(0).contains('⚠'), "Expected '⚠' conflict indicator in: {:?}", s.line(0));
    assert!(s.line(0).contains('3'), "Expected conflict count '3' in: {:?}", s.line(0));
}

#[test]
fn graph_no_dimming_outside_picking_mode() {
    let graph = simple_graph();
    let pr_status = vec![];
    let widget = GraphWidget::new(&graph, 2, &pr_status);
    let s = graph_screen(&widget, 60, 4);
    assert!(
        s.line(0).contains("abc"),
        "Without picking mode, 'abc' should still render: {:?}",
        s.line(0)
    );
}

#[test]
fn graph_renders_pr_indicator() {
    let graph = simple_graph();
    let pr_status = vec![(
        "main".to_string(),
        PrInfo {
            number: 42,
            title: "Fix bug".into(),
            state: PrState::Open,
            review: ReviewStatus::Approved,
            head_ref: "main".into(),
            url: "https://github.com/org/repo/pull/42".into(),
        },
    )];
    let widget = GraphWidget::new(&graph, 2, &pr_status);
    let s = graph_screen(&widget, 80, 4);
    assert!(s.line(2).contains("#42"), "Expected PR number '#42' in: {:?}", s.line(2));
}

// ── overlays ─────────────────────────────────────────────────────────────

fn bookmark_input_screen(w: &BookmarkInputWidget, width: usize, height: usize) -> Screen {
    let lines = w.lines((height - 2) as u16, (width - 2) as u16);
    framed_screen(" Set bookmark (Enter confirm | Esc cancel) ", width, height, &span_rows(lines))
}

#[test]
fn renders_input_and_cursor() {
    let completions: Vec<String> = vec!["main".into(), "feature".into()];
    let widget = BookmarkInputWidget::new("mai", &completions);
    let s = bookmark_input_screen(&widget, 60, 4);
    assert!(s.line(1).contains("mai"), "should show current input");
    assert!(s.line(1).contains('|'), "should show cursor indicator");
}

#[test]
fn renders_completions_on_second_line() {
    let completions: Vec<String> = vec!["main".into(), "feature".into()];
    let widget = BookmarkInputWidget::new("ma", &completions);
    let s = bookmark_input_screen(&widget, 60, 5);
    assert!(s.line(2).contains("main"), "should show matching completion");
}

#[test]
fn empty_input_renders_without_panic() {
    let completions: Vec<String> = vec![];
    let widget = BookmarkInputWidget::new("", &completions);
    let _ = bookmark_input_screen(&widget, 40, 3);
}

#[test]
fn renders_bookmarks() {
    let bookmarks = vec![
        ("main".to_string(), "abc".to_string()),
        ("feature".to_string(), "def".to_string()),
    ];
    let details = vec![
        ("abc".to_string(), detail("a1", "a", "first change", &["main"], 0)),
        ("def".to_string(), detail("d1", "b", "second change", &["feature"], 0)),
    ];
    let widget = BookmarkPickerWidget::new(&bookmarks, &details, 0);
    let s = framed_screen("Bookmarks", 60, 6, &widget.rows(4));
    assert!(s.line(1).contains("main"));
    assert!(s.line(1).contains("first change"));
}

#[test]
fn renders_empty_bookmarks() {
    let details = vec![];
    let widget = BookmarkPickerWidget::new(&[], &details, 0);
    let s = framed_screen("Bookmarks", 40, 4, &widget.rows(2));
    assert!(s.line(1).contains("no bookmarks"));
}

fn find_graph() -> GraphData {
    GraphData::new(
        vec![
            GraphLine {
                raw: "@ abc".into(),
                glyph_prefix: "@ ".into(),
                change_id: Some("abc".into()),
            },
            GraphLine {
                raw: "o def".into(),
                glyph_prefix: "o ".into(),
                change_id: Some("def".into()),
            },
        ],
        vec![
            ("abc".into(), detail("a1", "alice", "first", &[], 0)),
            ("def".into(), detail("d1", "bob", "second", &[], 0)),
        ],
        Some(0),
        String::new(),
    )
}

#[test]
fn fuzzy_find_renders_query_and_results() {
    let graph = find_graph();
    let matches = vec![0, 1];
    let widget = FuzzyFindWidget::new("ali", &matches, &graph, 0);
    let s = framed_screen("Find Change", 60, 8, &widget.rows(6));
    assert!(s.line(1).contains("ali"));
}

#[test]
fn fuzzy_find_renders_no_matches() {
    let graph = find_graph();
    let widget = FuzzyFindWidget::new("zzz", &[], &graph, 0);
    let s = framed_screen("Find Change", 40, 6, &widget.rows(4));
    assert!(s.line(2).contains("no matches"));
}

fn omnibar_screen(w: &OmnibarWidget, width: usize, height: usize) -> Screen {
    framed_screen(w.title(), width, height, &w.rows(height - 2))
}

#[test]
fn omnibar_renders_query_and_results() {
    let graph = find_graph();
    let matches = vec![0, 1];
    let widget = OmnibarWidget::new("ali", &matches, &graph, 0, false, &[], 0);
    let s = omnibar_screen(&widget, 60, 8);
    assert!(s.line(1).contains("ali"));
}

#[test]
fn omnibar_renders_no_matches() {
    let graph = find_graph();
    let widget = OmnibarWidget::new("zzz", &[], &graph, 0, false, &[], 0);
    let s = omnibar_screen(&widget, 40, 6);
    assert!(s.line(2).contains("no matches"));
}

#[test]
fn omnibar_title_shows_search_hint() {
    let graph = find_graph();
    let widget = OmnibarWidget::new("", &[], &graph, 0, false, &[], 0);
    let s = omnibar_screen(&widget, 60, 6);
    assert!(
        s.line(0).contains("Search or Revset"),
        "expected 'Search or Revset' in title row, got: {:?}",
        s.line(0)
    );
}

#[test]
fn omnibar_title_shows_active_hint() {
    let graph = find_graph();
    let widget = OmnibarWidget::new("mine()", &[], &graph, 0, true, &[], 0);
    let s = omnibar_screen(&widget, 60, 6);
    assert!(
        s.line(0).contains("Revset (active)"),
        "expected 'Revset (active)' in title row, got: {:?}",
        s.line(0)
    );
}

#[test]
fn omnibar_title_shows_enter_hint_when_typing() {
    let graph = find_graph();
    let widget = OmnibarWidget::new("foo", &[], &graph, 0, false, &[], 0);
    let s = omnibar_screen(&widget, 80, 6);
    assert!(
        s.line(0).contains("Enter to filter as revset"),
        "expected 'Enter to filter as revset' in title row, got: {:?}",
        s.line(0)
    );
}

fn make_completion(insert_text: &str, display_text: &str) -> CompletionItem {
    CompletionItem {
        insert_text: insert_text.to_string(),
        display_text: display_text.to_string(),
    }
}

#[test]
fn omnibar_renders_completions_when_present() {
    let graph = find_graph();
    let completions = vec![
        make_completion("ancestors(", "ancestors( — revset function"),
        make_completion("main", "main — bookmark"),
    ];
    let widget = OmnibarWidget::new("an", &[], &graph, 0, false, &completions, 0);
    let s = omnibar_screen(&widget, 60, 8);
    assert!(
        s.line(2).contains("ancestors"),
        "expected 'ancestors' in first completion row, got: {:?}",
        s.line(2)
    );
    assert!(s.line(3).contains("main"), "expected 'main' in second completion row, got: {:?}", s.line(3));
}

#[test]
fn omnibar_title_shows_completing() {
    let graph = find_graph();
    let completions = vec![make_completion("mine()", "mine() — working copy owner")];
    let widget = OmnibarWidget::new("mi", &[], &graph, 0, false, &completions, 0);
    let s = omnibar_screen(&widget, 60, 6);
    assert!(
        s.line(0).contains("Completing"),
        "expected 'Completing' in title row when completions present, got: {:?}",
        s.line(0)
    );
}

#[test]
fn omnibar_renders_fuzzy_when_no_completions() {
    let graph = find_graph();
    let matches = vec![0, 1];
    let widget = OmnibarWidget::new("ali", &matches, &graph, 0, false, &[], 0);
    let s = omnibar_screen(&widget, 60, 8);
    assert!(
        !s.line(0).contains("Completing"),
        "title must not say 'Completing' when no completions, got: {:?}",
        s.line(0)
    );
    assert!(s.line(2).contains("abc"), "expected fuzzy match 'abc' in results row, got: {:?}", s.line(2));
}

fn sample_entries() -> Vec<OpLogEntry> {
    vec![
        OpLogEntry {
            id: "abc123".into(),
            description: "create bookmark".into(),
            timestamp: "2h ago".into(),
        },
        OpLogEntry {
            id: "def456".into(),
            description: "snapshot".into(),
            timestamp: "3h ago".into(),
        },
    ]
}

#[test]
fn renders_entries() {
    let entries = sample_entries();
    let widget = OpLogWidget::new(&entries, 0, 0);
    let s = framed_screen("Operation Log", 60, 6, &widget.rows(4));
    assert!(s.line(1).contains("abc123"));
    assert!(s.line(1).contains("create bookmark"));
}

#[test]
fn renders_empty() {
    let widget = OpLogWidget::new(&[], 0, 0);
    let s = framed_screen("Operation Log", 40, 4, &widget.rows(2));
    assert!(s.line(1).contains("no operations"));
}

fn help_screen(w: &HelpWidget, width: usize, height: usize) -> Screen {
    framed_screen(w.title(), width, height, &w.rows(height - 2))
}

#[test]
fn graph_help_contains_quit() {
    let widget = HelpWidget::new(HelpContext::Graph, 0);
    let s = help_screen(&widget, 40, 14);
    assert!(s.any_line("Quit"), "Help should contain 'Quit'");
}

#[test]
fn diff_help_contains_hunk_nav() {
    let widget = HelpWidget::new(HelpContext::DetailDiffView, 0);
    let s = help_screen(&widget, 40, 8);
    assert!(s.any_line("hunk"), "Diff help should mention hunks");
}

// ── detail panel contents ────────────────────────────────────────────────

#[test]
fn renders_diff_lines() {
    let hunks = vec![DiffHunk {
        header: "@@ -1,1 +1,1 @@".into(),
        lines: vec![
            DiffLine {
                kind: DiffLineKind::Removed,
                content: "hello".into(),
            },
            added("world"),
        ],
    }];
    let widget = DiffViewWidget::new(&hunks, 0);
    let s = plain_screen(&widget.rows(5), 40, 5);
    assert!(s.line(0).contains("@@"));
}

#[test]
fn renders_empty_diff() {
    let widget = DiffViewWidget::new(&[], 0);
    let s = plain_screen(&widget.rows(2), 40, 2);
    assert!(s.line(0).contains("empty diff"));
}

#[test]
fn renders_file_entries() {
    let files = vec![
        FileChange {
            path: "bar.txt".into(),
            status: FileStatus::Added,
        },
        FileChange {
            path: "foo.txt".into(),
            status: FileStatus::Modified,
        },
    ];
    let widget = FileListWidget::new(&files, 0, true);
    let s = plain_screen(&widget.rows(4), 40, 4);
    assert!(s.line(0).contains("A"));
    assert!(s.line(0).contains("bar.txt"));
}

#[test]
fn renders_empty_files() {
    let widget = FileListWidget::new(&[], 0, false);
    let s = plain_screen(&widget.rows(2), 40, 2);
    assert!(s.line(0).contains("no files"));
}

fn picker_hunk(header: &str, selected: bool) -> PickerHunk {
    PickerHunk {
        header: header.into(),
        lines: vec![added("new line")],
        selected,
    }
}

fn make_picker(files: Vec<PickerFile>) -> HunkPicker {
    HunkPicker {
        operation: HunkPickerOp::Split { source: "abc".into() },
        files,
        cursor: 0,
        scroll: 0,
        viewport_height: 20,
    }
}

fn picker_screen(p: &HunkPicker, width: usize, height: usize) -> Screen {
    plain_screen(&HunkPickerWidget::new(p).rows(height), width, height)
}

#[test]
fn hunk_picker_renders_file_header() {
    let picker = make_picker(vec![PickerFile {
        path: "src/lib.rs".into(),
        hunks: vec![picker_hunk("@@ -1,1 +1,2 @@", true)],
    }]);
    let s = picker_screen(&picker, 60, 5);
    assert!(s.line(0).contains("src/lib.rs"), "file path missing: {:?}", s.line(0));
    assert!(s.line(0).contains('▸'), "triangle prefix missing: {:?}", s.line(0));
    assert!(s.line(0).contains("[1/1]"), "count missing: {:?}", s.line(0));
}

#[test]
fn hunk_picker_renders_selected_and_unselected() {
    let picker = make_picker(vec![PickerFile {
        path: "src/main.rs".into(),
        hunks: vec![picker_hunk("@@ -10,3 +10,5 @@", true), picker_hunk("@@ -25,2 +27,4 @@", false)],
    }]);
    let s = picker_screen(&picker, 60, 10);
    assert!(s.line(1).contains('✓'), "selected marker missing: {:?}", s.line(1));
    assert!(s.line(3).contains('['), "unselected open bracket missing: {:?}", s.line(3));
    assert!(s.line(3).contains(']'), "unselected close bracket missing: {:?}", s.line(3));
    assert!(!s.line(3).contains('✓'), "unselected hunk should not have ✓: {:?}", s.line(3));
}

#[test]
fn hunk_picker_file_header_shows_count() {
    let picker = make_picker(vec![PickerFile {
        path: "src/config.rs".into(),
        hunks: vec![
            picker_hunk("@@ -1,1 +1,2 @@", true),
            picker_hunk("@@ -5,1 +6,2 @@", true),
            picker_hunk("@@ -10,1 +12,2 @@", false),
        ],
    }]);
    let s = picker_screen(&picker, 60, 2);
    assert!(s.line(0).contains("[2/3]"), "expected [2/3] count, got: {:?}", s.line(0));
}

#[test]
fn hunk_picker_renders_empty() {
    let picker = make_picker(vec![]);
    let s = picker_screen(&picker, 40, 2);
    assert!(s.line(0).contains("no hunks"), "expected empty message: {:?}", s.line(0));
}

#[test]
fn hunk_picker_cursor_on_second_hunk() {
    let mut picker = make_picker(vec![PickerFile {
        path: "src/lib.rs".into(),
        hunks: vec![picker_hunk("@@ -1,1 +1,2 @@", false), picker_hunk("@@ -5,1 +6,2 @@", false)],
    }]);
    picker.cursor = 1;
    let s = picker_screen(&picker, 60, 10);
    assert!(s.style(2, 3).reversed, "cursor hunk should have REVERSED modifier");
}

// ── conflict view ────────────────────────────────────────────────────────

fn make_view(regions: Vec<ConflictRegion>, resolutions: Vec<HunkResolution>) -> ConflictView {
    ConflictView {
        change_id: "abc".into(),
        path: "src/lib.rs".into(),
        data: ConflictData { regions },
        resolutions,
        cursor: 0,
        scroll: 0,
        viewport_height: 20,
    }
}

fn conflict(base: &str, left: &str, right: &str) -> ConflictRegion {
    ConflictRegion::Conflict {
        base: base.into(),
        left: left.into(),
        right: right.into(),
    }
}

fn conflict_screen(v: &ConflictView, width: usize, height: usize) -> Screen {
    plain_screen(&ConflictViewWidget::new(v).rows(width as u16, height), width, height)
}

#[test]
fn renders_base_left_right_separators() {
    let view = make_view(vec![conflict("base line", "left line", "right line")], vec![HunkResolution::Unresolved]);
    let s = conflict_screen(&view, 60, 20);
    assert!(s.any_line("base"), "base separator missing");
    assert!(s.any_line("left (ours)"), "left separator missing");
    assert!(s.any_line("right (theirs)"), "right separator missing");
}

#[test]
fn renders_resolved_region_as_collapsed_line() {
    let view = make_view(
        vec![ConflictRegion::Resolved("line1\nline2\nline3".into()), conflict("b", "l", "r")],
        vec![HunkResolution::Unresolved],
    );
    let s = conflict_screen(&view, 60, 20);
    assert!(s.line(0).contains("3 lines"), "expected collapsed resolved line, got: {:?}", s.line(0));
}

#[test]
fn does_not_panic_on_empty_area() {
    let view = make_view(vec![conflict("b", "l", "r")], vec![HunkResolution::Unresolved]);
    let _ = conflict_screen(&view, 0, 0);
}

#[test]
fn does_not_panic_on_empty_data() {
    let view = make_view(vec![], vec![]);
    let s = conflict_screen(&view, 40, 5);
    assert!(s.line(0).contains("no conflict regions"), "expected empty message: {:?}", s.line(0));
}

fn separator_style(s: &Screen, label: &str) -> Option<Style> {
    (0..s.lines.len()).find(|&y| s.line(y).contains(label)).map(|y| s.style(4, y))
}

#[test]
fn selected_left_dims_right_side() {
    let view = make_view(vec![conflict("base", "left", "right")], vec![HunkResolution::AcceptLeft]);
    let s = conflict_screen(&view, 60, 20);
    let style = separator_style(&s, "right (theirs)").expect("right separator not found");
    assert_eq!(
        style.fg,
        Some(Color::DarkGray),
        "right separator should be dimmed when left is selected"
    );
}

#[test]
fn selected_right_dims_left_side() {
    let view = make_view(vec![conflict("base", "left", "right")], vec![HunkResolution::AcceptRight]);
    let s = conflict_screen(&view, 60, 20);
    let style = separator_style(&s, "left (ours)").expect("left separator not found");
    assert_eq!(
        style.fg,
        Some(Color::DarkGray),
        "left separator should be dimmed when right is selected"
    );
}

#[test]
fn resolution_status_shows_resolved_left() {
    let view = make_view(vec![conflict("b", "l", "r")], vec![HunkResolution::AcceptLeft]);
    let s = conflict_screen(&view, 60, 20);
    assert!(s.any_line("resolved: left (ours)"), "expected resolution status line for AcceptLeft");
}

#[test]
fn current_hunk_separator_is_bold() {
    let view = make_view(vec![conflict("b", "l", "r")], vec![HunkResolution::Unresolved]);
    let s = conflict_screen(&view, 60, 20);
    assert!(s.style(0, 0).bold, "current hunk separator should be BOLD");
}

#[test]
fn empty_side_renders_file_deleted() {
    let view = make_view(vec![conflict("", "left content", "")], vec![HunkResolution::Unresolved]);
    let s = conflict_screen(&view, 60, 20);
    let deleted_count = s.lines.iter().filter(|l| l.contains("(file deleted)")).count();
    assert_eq!(deleted_count, 2, "expected 2 '(file deleted)' lines for empty base and right");
}
