use lajjzy::action::{BackgroundKind, HunkPickerOp, RebaseMode};
use lajjzy::app::{ConflictView, HunkPicker, HunkResolution, PickerFile, PickerHunk, PickingMode, TargetPick};
use lajjzy::forge::{PrInfo, PrState, ReviewStatus};
use lajjzy::modal::HelpContext;
use lajjzy::types::{
    ChangeDetail, ConflictData, ConflictRegion, DiffHunk, DiffLine, DiffLineKind, FileChange,
    FileStatus, GraphData, GraphLine, OpLogEntry,
};
use lajjzy::widgets::bookmark_input::BookmarkInputWidget;
use lajjzy::widgets::bookmark_picker::BookmarkPickerWidget;
use lajjzy::widgets::conflict_view::ConflictViewWidget;
use lajjzy::widgets::diff_view::DiffViewWidget;
use lajjzy::widgets::file_list::FileListWidget;
use lajjzy::widgets::fuzzy_find::FuzzyFindWidget;
use lajjzy::widgets::graph::GraphWidget;
use lajjzy::widgets::help::HelpWidget;
use lajjzy::widgets::hunk_picker::{HunkPickerWidget, PickerItem};
use lajjzy::widgets::omnibar::OmnibarWidget;
use lajjzy::widgets::op_log::OpLogWidget;
use lajjzy::widgets::status_bar::StatusBarWidget;
use lajjzy::widgets::style::{Color, Row, Span};

fn detail(author: &str, description: &str, bookmarks: &[&str]) -> ChangeDetail {
    ChangeDetail {
        commit_id: "c0ffee".into(),
        author: author.into(),
        email: "a@b.c".into(),
        timestamp: "2m ago".into(),
        description: description.into(),
        bookmarks: bookmarks.iter().map(|b| b.to_string()).collect(),
        is_empty: false,
        conflict_count: 0,
        files: vec![],
        parents: vec![],
    }
}

fn node(id: &str, glyph: &str) -> GraphLine {
    GraphLine {
        raw: format!("{glyph}{id} raw"),
        change_id: Some(id.into()),
        glyph_prefix: glyph.into(),
    }
}

fn connector(raw: &str) -> GraphLine {
    GraphLine {
        raw: raw.into(),
        change_id: None,
        glyph_prefix: raw.into(),
    }
}

fn texts(spans: &[Span]) -> Vec<&str> {
    spans.iter().map(|s| s.text.as_str()).collect()
}

fn row_text(r: &Row) -> String {
    r.spans.iter().map(|s| s.text.as_str()).collect()
}

fn tall_graph(n: usize) -> GraphData {
    let mut lines = vec![];
    let mut details = vec![];
    for i in 0..n {
        let id = format!("c{i}");
        lines.push(node(&id, "◉  "));
        lines.push(connector("│"));
        details.push((id, detail("a", "d", &[])));
    }
    GraphData::new(lines, details, Some(0), String::new())
}

#[test]
fn graph_scroll_offset_keeps_block_in_view() {
    let g = tall_graph(20); // 40 lines, nodes at even indices
    let prs = vec![];
    let w = GraphWidget::new(&g, 0, &prs);
    assert_eq!(w.scroll_offset(10), 0);
    assert_eq!(w.block_end(), 1);
    let w = GraphWidget::new(&g, 20, &prs);
    // Block 20..=21 with three lines of context: 17..25 fits in 10 rows.
    assert_eq!(w.scroll_offset(10), 17);
    let w = GraphWidget::new(&g, 38, &prs);
    // Never past the point where the last line reaches the bottom.
    assert_eq!(w.scroll_offset(10), 30);
    assert_eq!(w.scroll_offset(0), 0);
}

#[test]
fn graph_rows_highlight_selected_block() {
    let g = tall_graph(3);
    let prs = vec![];
    let w = GraphWidget::new(&g, 2, &prs);
    let rows = w.rows(10);
    assert_eq!(rows.len(), 6);
    let highlighted: Vec<bool> = rows.iter().map(|r| r.patch.is_some()).collect();
    assert_eq!(highlighted, vec![false, false, true, true, false, false]);
    assert!(rows[2].patch.unwrap().reversed);
    assert_eq!(row_text(&rows[1]), "│");
}

#[test]
fn graph_node_line_colours() {
    let mut d = detail("alice", "fix", &["main", "dev"]);
    d.conflict_count = 2;
    let g = GraphData::new(vec![node("abc", "◉  ")], vec![("abc".into(), d)], Some(0), String::new());
    let prs = vec![(
        "main".to_string(),
        PrInfo {
            number: 42,
            title: "t".into(),
            state: PrState::Open,
            review: ReviewStatus::Approved,
            head_ref: "main".into(),
            url: String::new(),
        },
    )];
    let w = GraphWidget::new(&g, 0, &prs);
    let spans = w.colored_node_line(0, false);
    assert_eq!(
        texts(&spans),
        vec!["◉  ", "abc", " ", "alice", " ", "2m ago", " ", "[main, dev]", " #42 ✓", " ", "⚠2"]
    );
    // The working copy's glyphs are bold green; the change ID is yellow.
    assert_eq!(spans[0].style.fg, Some(Color::Green));
    assert!(spans[0].style.bold);
    assert_eq!(spans[1].style.fg, Some(Color::Yellow));
    assert_eq!(spans[8].style.fg, Some(Color::Green));
    // Dimmed lines are drawn grey, as they are.
    let dim = w.colored_node_line(0, true);
    assert_eq!(texts(&dim), vec!["◉  abc raw"]);
    assert_eq!(dim[0].style.fg, Some(Color::DarkGray));
}

#[test]
fn graph_node_without_detail_shows_raw_tail() {
    let g = GraphData::new(vec![node("abc", "◉  ")], vec![], None, String::new());
    let prs = vec![];
    let w = GraphWidget::new(&g, 0, &prs);
    assert_eq!(texts(&w.colored_node_line(0, false)), vec!["◉  ", "abc", "abc raw"]);
}

#[test]
fn graph_target_pick_dims_excluded() {
    let g = tall_graph(2);
    let prs = vec![];
    let pick = TargetPick {
        source: "c0".into(),
        mode: RebaseMode::Single,
        excluded: vec!["c0".into()],
        picking: PickingMode::Browsing,
        original_change_id: "c0".into(),
        descendant_count: 0,
    };
    let w = GraphWidget::new(&g, 0, &prs).with_target_pick(Some(&pick));
    let rows = w.rows(4);
    assert_eq!(rows[0].spans[0].style.fg, Some(Color::DarkGray));
    assert!(rows[0].patch.is_none()); // dimmed lines are not highlighted
    assert_eq!(rows[2].spans[1].text, "c1");
}

fn status_bar<'a>(
    pending: &'a Vec<BackgroundKind>,
    detail: Option<&'a ChangeDetail>,
    error: Option<&'a str>,
) -> StatusBarWidget<'a> {
    StatusBarWidget::new(Some("abc"), detail, error, None, None, pending, None, None, None)
}

#[test]
fn status_bar_shows_change_info() {
    let pending = vec![];
    let d = detail("alice", "", &["main", "dev"]);
    let w = status_bar(&pending, Some(&d), None);
    let lines = w.status_lines(2);
    assert_eq!(texts(&lines), vec!["abc c0ffee  alice <a@b.c>", "(no description)  [main, dev]"]);
    assert_eq!(texts(&w.status_lines(1)), vec!["abc c0ffee  alice <a@b.c>"]);
    assert!(w.status_lines(0).is_empty());
}

#[test]
fn status_bar_error_takes_priority() {
    let pending = vec![BackgroundKind::Push];
    let d = detail("alice", "x", &[]);
    let w = status_bar(&pending, Some(&d), Some("boom"));
    let lines = w.status_lines(2);
    assert_eq!(texts(&lines), vec!["boom"]);
    assert_eq!(lines[0].style.fg, Some(Color::Red));
}

#[test]
fn status_bar_pending_operations() {
    let pending = vec![BackgroundKind::Fetch, BackgroundKind::Push];
    let d = detail("alice", "x", &[]);
    let w = status_bar(&pending, Some(&d), None);
    assert_eq!(
        texts(&w.status_lines(2)),
        vec!["Pushing...  Fetching...", "abc c0ffee  alice <a@b.c>"]
    );
}

#[test]
fn status_bar_hunk_picker_counts() {
    let pending = vec![];
    let hunk = |sel| PickerHunk {
        header: "@@".into(),
        lines: vec![],
        selected: sel,
    };
    let hp = HunkPicker {
        operation: HunkPickerOp::Squash {
            source: "abc".into(),
            destination: "def".into(),
        },
        files: vec![
            PickerFile { path: "a".into(), hunks: vec![hunk(true), hunk(false)] },
            PickerFile { path: "b".into(), hunks: vec![hunk(true)] },
        ],
        cursor: 0,
        scroll: 0,
        viewport_height: 0,
    };
    let w = StatusBarWidget::new(None, None, Some("err"), None, None, &pending, None, Some(&hp), None);
    let lines = w.status_lines(1);
    assert_eq!(
        lines[0].text,
        "Squash: 2/3 hunks from abc → into def  (Space toggle, a/A all/none, Enter confirm, Esc cancel)"
    );
    assert_eq!(lines[0].style.fg, Some(Color::Magenta));
}

#[test]
fn status_bar_target_pick_and_conflict() {
    let pending = vec![];
    let pick = TargetPick {
        source: "abc".into(),
        mode: RebaseMode::WithDescendants,
        excluded: vec![],
        picking: PickingMode::Filtering { query: "de".into() },
        original_change_id: "abc".into(),
        descendant_count: 1,
    };
    let w = StatusBarWidget::new(None, None, None, None, None, &pending, Some(&pick), None, None);
    assert_eq!(
        w.status_lines(1)[0].text,
        "Rebase abc + 1 descendant onto →  filter: de  (Enter confirm, Esc cancel)"
    );
    let mut cv = ConflictView::new("abc".into(), "f.txt".into(), ConflictData {
        regions: vec![ConflictRegion::Conflict { base: "b".into(), left: "l".into(), right: "r".into() }],
    });
    cv.resolutions[0] = HunkResolution::AcceptLeft;
    let w = StatusBarWidget::new(None, None, None, None, Some("mine()"), &pending, None, None, Some(&cv));
    assert_eq!(
        w.status_lines(1)[0].text,
        "Hunk 1/1: left (ours) | 1: left | 2: right | n: next | m: merge tool"
    );
    let w = StatusBarWidget::new(None, None, None, None, Some("mine()"), &pending, None, None, None);
    assert_eq!(w.status_lines(1)[0].text, "revset: mine()");
}

#[test]
fn help_lines_and_rows() {
    assert_eq!(HelpWidget::help_lines(HelpContext::Graph).len(), 20);
    assert_eq!(HelpWidget::help_lines(HelpContext::DetailDiffView)[1], ("n/N", "Next/previous hunk"));
    let w = HelpWidget::new(HelpContext::DetailFileList, 1);
    assert_eq!(w.title(), "Help — File List");
    let rows = w.rows(2);
    assert_eq!(rows.len(), 2);
    assert_eq!(texts(&rows[0].spans), vec!["     Enter", "  ", "Open diff view"]);
    assert_eq!(rows[0].spans[0].text.chars().count(), 10);
}

fn sample_hunks() -> Vec<DiffHunk> {
    vec![
        DiffHunk {
            header: "@@ -1 +1 @@".into(),
            lines: vec![
                DiffLine { kind: DiffLineKind::Removed, content: "old".into() },
                DiffLine { kind: DiffLineKind::Added, content: "new".into() },
            ],
        },
        DiffHunk {
            header: "@@ -9 +9 @@".into(),
            lines: vec![DiffLine { kind: DiffLineKind::Context, content: "ctx".into() }],
        },
    ]
}

#[test]
fn diff_view_lines() {
    let hunks = sample_hunks();
    let w = DiffViewWidget::new(&hunks, 0);
    let flat = w.flat_lines();
    assert_eq!(flat.len(), 5);
    assert_eq!(flat[3], (DiffLineKind::Header, "@@ -9 +9 @@"));
    let rows = w.rows(3);
    let t: Vec<String> = rows.iter().map(row_text).collect();
    assert_eq!(t, vec!["@@ -1 +1 @@", "-old", "+new"]);
    assert!(rows[0].spans[0].style.bold);
    let w = DiffViewWidget::new(&hunks, 4);
    assert_eq!(w.rows(3).iter().map(row_text).collect::<Vec<_>>(), vec![" ctx"]);
    let empty: Vec<DiffHunk> = vec![];
    assert_eq!(row_text(&DiffViewWidget::new(&empty, 0).rows(3)[0]), "(empty diff)");
}

#[test]
fn file_list_rows() {
    let files = vec![
        FileChange { path: "src/a.rs".into(), status: FileStatus::Added },
        FileChange { path: "src/b.rs".into(), status: FileStatus::Deleted },
    ];
    let w = FileListWidget::new(&files, 1, true);
    let rows = w.rows(5);
    assert_eq!(row_text(&rows[0]), "  A src/a.rs");
    assert_eq!(rows[0].spans[0].style.fg, Some(Color::Green));
    assert!(rows[1].spans[0].style.reversed);
    assert_eq!(rows[1].spans[0].style.fg, Some(Color::Red));
    let unfocused = FileListWidget::new(&files, 1, false).rows(5);
    assert!(unfocused[1].spans[0].style.bold);
    assert_eq!(FileListWidget::new(&files, 0, true).rows(1).len(), 1);
    assert_eq!(FileListWidget::status_color(FileStatus::Renamed), Color::Cyan);
}

#[test]
fn op_log_rows() {
    let entries = vec![
        OpLogEntry { id: "op1".into(), description: "first".into(), timestamp: "now".into() },
        OpLogEntry { id: "op2".into(), description: "second".into(), timestamp: "then".into() },
    ];
    let w = OpLogWidget::new(&entries, 1, 0);
    let rows = w.rows(5);
    assert_eq!(texts(&rows[1].spans), vec!["op2", "  ", "then", "  ", "second"]);
    assert!(rows[0].patch.is_none());
    assert!(rows[1].patch.unwrap().reversed);
    let none: Vec<OpLogEntry> = vec![];
    assert_eq!(row_text(&OpLogWidget::new(&none, 0, 0).rows(5)[0]), "(no operations)");
}

fn picker() -> HunkPicker {
    HunkPicker {
        operation: HunkPickerOp::Split { source: "abc".into() },
        files: vec![PickerFile {
            path: "a.rs".into(),
            hunks: vec![
                PickerHunk {
                    header: "@@ h1".into(),
                    lines: vec![DiffLine { kind: DiffLineKind::Added, content: "x".into() }],
                    selected: true,
                },
                PickerHunk { header: "@@ h2".into(), lines: vec![], selected: false },
            ],
        }],
        cursor: 1,
        scroll: 0,
        viewport_height: 10,
    }
}

#[test]
fn hunk_picker_items_and_rows() {
    let hp = picker();
    let w = HunkPickerWidget::new(&hp);
    let items = w.flat_items();
    assert_eq!(items.len(), 4);
    assert!(matches!(items[0], PickerItem::FileHeader { .. }));
    assert!(matches!(items[1], PickerItem::Hunk { flat_idx: 0, .. }));
    assert!(matches!(items[2], PickerItem::DiffLine { hunk_flat_idx: 0, hunk_selected: true, .. }));
    assert!(matches!(items[3], PickerItem::Hunk { flat_idx: 1, .. }));
    let rows = w.rows(10);
    let t: Vec<String> = rows.iter().map(row_text).collect();
    assert_eq!(t, vec!["▸ a.rs  [1/2]", "  [✓] @@ h1", "    +x", "  [ ] @@ h2"]);
    assert_eq!(rows[1].spans[0].style.bg, Some(Color::Rgb(0, 40, 40)));
    assert!(rows[3].spans[0].style.reversed); // the cursor's hunk
    assert!(!rows[1].spans[0].style.reversed);
    let empty = HunkPicker { files: vec![], ..picker() };
    assert_eq!(row_text(&HunkPickerWidget::new(&empty).rows(3)[0]), "(no hunks to pick)");
}

#[test]
fn conflict_view_lines() {
    let mut cv = ConflictView::new("abc".into(), "f.txt".into(), ConflictData {
        regions: vec![
            ConflictRegion::Resolved("one\ntwo\n".into()),
            ConflictRegion::Conflict { base: "b".into(), left: "l1\nl2".into(), right: String::new() },
        ],
    });
    cv.resolutions[0] = HunkResolution::AcceptLeft;
    let w = ConflictViewWidget::new(&cv);
    assert_eq!(ConflictViewWidget::resolution_text(HunkResolution::AcceptRight), "resolved: right (theirs)");
    let rows = w.rows(80, 20);
    let t: Vec<String> = rows.iter().map(row_text).collect();
    assert_eq!(
        t,
        vec![
            "··· 2 lines ···",
            "─── base ───",
            " b",
            "─── left (ours) ─── [1] ───",
            " l1",
            " l2",
            "─── right (theirs) ─── [2] ───",
            "   (file deleted)",
            "─── resolved: left (ours) ───",
        ]
    );
    // The right side is dimmed once the left side is taken.
    assert_eq!(rows[6].spans[0].style.fg, Some(Color::DarkGray));
    assert!(rows[7].spans[0].style.italic);
    assert!(rows[8].spans[0].style.bold); // the current hunk
    assert!(w.rows(0, 20).is_empty());
}

#[test]
fn bookmark_picker_rows_follow_cursor() {
    let bookmarks: Vec<(String, String)> = (0..5).map(|i| (format!("b{i}"), "abc".to_string())).collect();
    let descriptions = vec![("abc".to_string(), detail("a", "the change", &[]))];
    let w = BookmarkPickerWidget::new(&bookmarks, &descriptions, 4);
    let rows = w.rows(2);
    assert_eq!(rows.len(), 2);
    assert_eq!(texts(&rows[0].spans), vec!["b3", "  ", "the change"]);
    assert!(rows[1].patch.is_some());
    let none: Vec<(String, String)> = vec![];
    assert_eq!(row_text(&BookmarkPickerWidget::new(&none, &descriptions, 0).rows(2)[0]), "(no bookmarks)");
}

#[test]
fn bookmark_input_matches_case_insensitively() {
    let names = vec!["Main".to_string(), "feature".to_string(), "maint".to_string()];
    let w = BookmarkInputWidget::new("MA", &names);
    let lines = w.lines(2, 40);
    assert_eq!(texts(&lines[0]), vec!["Bookmark: ", "MA", "|"]);
    assert_eq!(texts(&lines[1]), vec!["Main", "  ", "maint"]);
    // Width 5 allows one name.
    assert_eq!(texts(&w.lines(2, 5)[1]), vec!["Main"]);
    assert_eq!(w.lines(1, 40).len(), 1);
    assert!(w.lines(0, 40).is_empty());
}

fn find_graph() -> GraphData {
    GraphData::new(
        vec![node("abc", ""), connector("│"), node("def", "")],
        vec![("abc".into(), detail("alice", "first", &[])), ("def".into(), detail("bob", "second", &[]))],
        Some(0),
        String::new(),
    )
}

#[test]
fn fuzzy_find_rows() {
    let g = find_graph();
    let matches = vec![2, 0];
    let w = FuzzyFindWidget::new("x", &matches, &g, 1);
    let rows = w.rows(5);
    assert_eq!(rows.len(), 3);
    assert_eq!(texts(&rows[0].spans), vec!["/ ", "x", "|"]);
    assert_eq!(texts(&rows[1].spans), vec!["def", "  ", "bob", "  ", "second"]);
    assert!(rows[2].patch.is_some());
    let none: Vec<usize> = vec![];
    assert_eq!(row_text(&FuzzyFindWidget::new("x", &none, &g, 0).rows(5)[1]), "(no matches)");
    assert_eq!(row_text(&FuzzyFindWidget::new("", &none, &g, 0).rows(5)[1]), "(no changes)");
}

#[test]
fn omnibar_titles_and_rows() {
    let g = find_graph();
    let matches = vec![0, 2];
    let completions = vec![
        lajjzy::action::CompletionItem { insert_text: "mine()".into(), display_text: "mine()".into() },
        lajjzy::action::CompletionItem { insert_text: "ancestors(".into(), display_text: "ancestors(".into() },
    ];
    let none: Vec<lajjzy::action::CompletionItem> = vec![];
    assert_eq!(OmnibarWidget::new("", &matches, &g, 0, false, &none, 0).title(), " / Search or Revset ");
    assert_eq!(OmnibarWidget::new("a", &matches, &g, 0, true, &none, 0).title(), " / Revset (active) ");
    assert_eq!(
        OmnibarWidget::new("a", &matches, &g, 0, false, &none, 0).title(),
        " / Search (Enter to filter as revset) "
    );
    let w = OmnibarWidget::new("m", &matches, &g, 0, false, &completions, 1);
    assert_eq!(w.title(), " / Completing... ");
    let rows = w.rows(5);
    assert_eq!(rows.len(), 3);
    assert_eq!(rows[1].spans[0].style.fg, None);
    assert_eq!(rows[2].spans[0].style.fg, Some(Color::Cyan));
    assert!(rows[2].patch.is_some());
    let w = OmnibarWidget::new("", &matches, &g, 1, false, &none, 0);
    let rows = w.rows(2);
    // One result row: the list scrolls so the cursor stays visible.
    assert_eq!(rows.len(), 2);
    assert_eq!(rows[1].spans[0].text, "def");
}
