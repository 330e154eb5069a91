use lajjzy::action::{Action, DetailMode, PanelFocus};
use lajjzy::app::AppState;
use lajjzy::dispatch::dispatch;
use lajjzy::effect::Effect;
use lajjzy::modal::{HelpContext, Modal};
use lajjzy::types::{
    ChangeDetail, DiffHunk, DiffLine, DiffLineKind, FileChange, FileStatus, GraphData, GraphLine,
    OpLogEntry,
};

fn line(raw: &str, change_id: Option<&str>) -> GraphLine {
    GraphLine {
        raw: raw.into(),
        change_id: change_id.map(String::from),
        glyph_prefix: String::new(),
    }
}

fn detail(commit_id: &str, author: &str, email: &str, timestamp: &str, description: &str) -> ChangeDetail {
    ChangeDetail {
        commit_id: commit_id.into(),
        author: author.into(),
        email: email.into(),
        timestamp: timestamp.into(),
        description: description.into(),
        bookmarks: vec![],
        is_empty: false,
        conflict_count: 0,
        files: vec![],
        parents: vec![],
    }
}

fn sample_graph() -> GraphData {
    GraphData::new(
        vec![
            line("◉  abc", Some("abc")),
            line("│  desc1", None),
            line("◉  def", Some("def")),
            line("│  desc2", None),
            line("◉  ghi", Some("ghi")),
        ],
        vec![
            ("abc".into(), detail("a1", "a", "a@b", "1m", "desc1")),
            ("def".into(), detail("d1", "b", "b@c", "2m", "desc2")),
            ("ghi".into(), detail("g1", "c", "c@d", "3m", "desc3")),
        ],
        Some(0),
        String::new(),
    )
}

fn sample_graph_with_files() -> GraphData {
    let mut abc = detail("a1", "a", "a@b", "1m", "desc1");
    abc.files = vec![
        FileChange {
            path: "src/main.rs".into(),
            status: FileStatus::Modified,
        },
        FileChange {
            path: "src/lib.rs".into(),
            status: FileStatus::Added,
        },
    ];
    GraphData::new(
        vec![line("◉  abc", Some("abc")), line("◉  def", Some("def"))],
        vec![
            ("abc".into(), abc),
            ("def".into(), detail("d1", "b", "b@c", "2m", "desc2")),
        ],
        Some(0),
        String::new(),
    )
}

fn sample_graph_with_bookmarks() -> GraphData {
    let mut abc = detail("a1", "a", "a@b", "1m", "desc1");
    abc.bookmarks = vec!["main".into()];
    let mut def = detail("d1", "b", "b@c", "2m", "desc2");
    def.bookmarks = vec!["feature".into()];
    GraphData::new(
        vec![
            line("◉  abc", Some("abc")),
            line("│  desc1", None),
            line("◉  def", Some("def")),
        ],
        vec![("abc".into(), abc), ("def".into(), def)],
        Some(0),
        String::new(),
    )
}

fn test_graph_with_changes(change_ids: &[&str]) -> GraphData {
    let lines: Vec<GraphLine> = change_ids
        .iter()
        .map(|id| GraphLine {
            raw: format!("◉  {id}"),
            change_id: Some((*id).to_string()),
            glyph_prefix: String::new(),
        })
        .collect();
    let details: Vec<(String, ChangeDetail)> = change_ids
        .iter()
        .map(|id| {
            (
                (*id).to_string(),
                ChangeDetail {
                    commit_id: format!("{id}_commit"),
                    author: "test".into(),
                    email: "test@test".into(),
                    timestamp: "0m".into(),
                    description: format!("desc for {id}"),
                    bookmarks: vec![],
                    is_empty: false,
                    conflict_count: 0,
                    files: vec![],
                    parents: vec![],
                },
            )
        })
        .collect();
    GraphData::new(lines, details, Some(0), String::new())
}

fn loaded(result: Result<GraphData, String>) -> Action {
    Action::GraphLoaded {
        generation: 0,
        result,
    }
}

// --- Navigation tests ---

#[test]
fn initial_cursor_on_working_copy() {
    let state = AppState::new(sample_graph(), None);
    assert_eq!(state.cursor(), 0);
    assert_eq!(state.selected_change_id(), Some("abc"));
}

#[test]
fn move_down_skips_connector_lines() {
    let mut state = AppState::new(sample_graph(), None);
    let effects = dispatch(&mut state, Action::MoveDown);
    assert!(effects.is_empty());
    assert_eq!(state.cursor(), 2);
    assert_eq!(state.selected_change_id(), Some("def"));
}

#[test]
fn move_up_skips_connector_lines() {
    let mut state = AppState::new(sample_graph(), None);
    state.set_cursor_for_test(2);
    let effects = dispatch(&mut state, Action::MoveUp);
    assert!(effects.is_empty());
    assert_eq!(state.cursor(), 0);
}

#[test]
fn move_down_at_bottom_stays() {
    let mut state = AppState::new(sample_graph(), None);
    state.set_cursor_for_test(4);
    let effects = dispatch(&mut state, Action::MoveDown);
    assert!(effects.is_empty());
    assert_eq!(state.cursor(), 4);
}

#[test]
fn move_up_at_top_stays() {
    let mut state = AppState::new(sample_graph(), None);
    let effects = dispatch(&mut state, Action::MoveUp);
    assert!(effects.is_empty());
    assert_eq!(state.cursor(), 0);
}

#[test]
fn jump_to_top() {
    let mut state = AppState::new(sample_graph(), None);
    state.set_cursor_for_test(4);
    let effects = dispatch(&mut state, Action::JumpToTop);
    assert!(effects.is_empty());
    assert_eq!(state.cursor(), 0);
}

#[test]
fn jump_to_bottom() {
    let mut state = AppState::new(sample_graph(), None);
    let effects = dispatch(&mut state, Action::JumpToBottom);
    assert!(effects.is_empty());
    assert_eq!(state.cursor(), 4);
}

#[test]
fn quit_sets_flag() {
    let mut state = AppState::new(sample_graph(), None);
    let effects = dispatch(&mut state, Action::Quit);
    assert!(effects.is_empty());
    assert!(state.should_quit);
}

// --- Refresh / GraphLoaded tests ---

#[test]
fn refresh_emits_load_graph() {
    let mut state = AppState::new(sample_graph(), None);
    state.error = Some("old error".into());
    let effects = dispatch(&mut state, Action::Refresh);
    assert_eq!(effects, vec![Effect::LoadGraph { revset: None }]);
    assert!(state.error.is_none()); // error cleared
}

#[test]
fn graph_loaded_success_updates_graph() {
    let mut state = AppState::new(sample_graph(), None);
    let new_graph = test_graph_with_changes(&["xxx", "yyy"]);
    let effects = dispatch(&mut state, loaded(Ok(new_graph)));
    assert!(effects.is_empty());
    assert_eq!(state.graph.lines.len(), 2);
    assert_eq!(state.selected_change_id(), Some("xxx"));
}

#[test]
fn graph_loaded_error_sets_error() {
    let mut state = AppState::new(sample_graph(), None);
    let effects = dispatch(&mut state, loaded(Err("boom".into())));
    assert!(effects.is_empty());
    assert!(state.error.as_deref().unwrap().contains("boom"));
    // Graph unchanged
    assert_eq!(state.graph.lines.len(), 5);
}

#[test]
fn graph_loaded_preserves_selected_change() {
    let mut state = AppState::new(sample_graph(), None);
    state.set_cursor_for_test(2); // at "def"
    let new_graph = sample_graph();
    let effects = dispatch(&mut state, loaded(Ok(new_graph)));
    assert!(effects.is_empty());
    assert_eq!(state.cursor(), 2);
    assert_eq!(state.selected_change_id(), Some("def"));
}

#[test]
fn graph_loaded_falls_back_when_change_disappears() {
    let mut state = AppState::new(sample_graph(), None);
    state.set_cursor_for_test(2); // at "def"

    // Build a new graph without the "def" change
    let sg = sample_graph();
    let mut lines: Vec<GraphLine> = sg.lines.into_iter().collect();
    lines.remove(3);
    lines.remove(2);
    let mut details = sg.details;
    details.retain(|(id, _)| id != "def");
    let new_graph = GraphData::new(lines, details, sg.working_copy_index, String::new());

    let effects = dispatch(&mut state, loaded(Ok(new_graph)));
    assert!(effects.is_empty());
    assert_eq!(state.cursor(), 0);
    assert_eq!(state.selected_change_id(), Some("abc"));
}

#[test]
fn graph_loaded_follows_working_copy() {
    let mut state = AppState::new(sample_graph(), None);
    state.cursor_follows_working_copy = true;
    // New graph has working copy at index 0 (first node)
    let new_graph = test_graph_with_changes(&["zzz", "yyy"]);
    let effects = dispatch(&mut state, loaded(Ok(new_graph)));
    assert!(effects.is_empty());
    assert!(!state.cursor_follows_working_copy); // flag cleared
    assert_eq!(state.cursor(), 0);
    assert_eq!(state.selected_change_id(), Some("zzz"));
}

#[test]
fn graph_loaded_resets_detail_state() {
    let mut state = AppState::new(sample_graph(), None);
    state.detail_mode = DetailMode::DiffView;
    state.diff_scroll = 5;
    let new_graph = sample_graph();
    let effects = dispatch(&mut state, loaded(Ok(new_graph)));
    assert!(effects.is_empty());
    assert_eq!(state.detail_mode, DetailMode::FileList);
    assert_eq!(state.diff_scroll, 0);
    assert_eq!(state.detail_cursor(), 0);
}

#[test]
fn initial_cursor_fallback_without_working_copy() {
    let mut graph = sample_graph();
    graph.working_copy_index = None;
    let state = AppState::new(graph, None);
    assert_eq!(state.cursor(), 0);
}

#[test]
fn navigation_preserves_error() {
    let mut state = AppState::new(sample_graph(), None);
    state.error = Some("old error".into());
    let effects = dispatch(&mut state, Action::MoveDown);
    assert!(effects.is_empty());
    assert!(state.error.as_ref().unwrap().contains("old error"));
}

// --- Detail / FileDiff tests ---

#[test]
fn new_state_initializes_detail_fields() {
    let state = AppState::new(sample_graph(), None);
    assert_eq!(state.focus, PanelFocus::Graph);
    assert_eq!(state.detail_cursor(), 0);
    assert_eq!(state.detail_mode, DetailMode::FileList);
    assert_eq!(state.diff_scroll, 0);
    assert!(state.diff_data.is_empty());
}

#[test]
fn tab_focus_toggles() {
    let mut state = AppState::new(sample_graph(), None);
    assert_eq!(state.focus, PanelFocus::Graph);
    dispatch(&mut state, Action::TabFocus);
    assert_eq!(state.focus, PanelFocus::Detail);
    dispatch(&mut state, Action::TabFocus);
    assert_eq!(state.focus, PanelFocus::Graph);
    dispatch(&mut state, Action::BackTabFocus);
    assert_eq!(state.focus, PanelFocus::Detail);
}

#[test]
fn graph_cursor_move_resets_detail() {
    let mut state = AppState::new(sample_graph_with_files(), None);
    state.set_detail_cursor_for_test(1);
    state.detail_mode = DetailMode::DiffView;
    state.diff_scroll = 5;
    dispatch(&mut state, Action::MoveDown);
    assert_eq!(state.detail_cursor(), 0);
    assert_eq!(state.detail_mode, DetailMode::FileList);
    assert_eq!(state.diff_scroll, 0);
    assert!(state.diff_data.is_empty());
}

#[test]
fn jump_to_working_copy() {
    let mut state = AppState::new(sample_graph(), None);
    state.set_cursor_for_test(4);
    dispatch(&mut state, Action::JumpToWorkingCopy);
    assert_eq!(state.cursor(), 0);
    assert_eq!(state.selected_change_id(), Some("abc"));
}

#[test]
fn jump_to_working_copy_noop_when_none() {
    let mut graph = sample_graph();
    graph.working_copy_index = None;
    let mut state = AppState::new(graph, None);
    state.set_cursor_for_test(4);
    dispatch(&mut state, Action::JumpToWorkingCopy);
    assert_eq!(state.cursor(), 4);
}

#[test]
fn detail_back_from_diff_returns_to_file_list() {
    let mut state = AppState::new(sample_graph(), None);
    state.focus = PanelFocus::Detail;
    state.detail_mode = DetailMode::DiffView;
    dispatch(&mut state, Action::DetailBack);
    assert_eq!(state.detail_mode, DetailMode::FileList);
    assert_eq!(state.focus, PanelFocus::Detail);
}

#[test]
fn detail_back_from_file_list_returns_focus_to_graph() {
    let mut state = AppState::new(sample_graph(), None);
    state.focus = PanelFocus::Detail;
    state.detail_mode = DetailMode::FileList;
    dispatch(&mut state, Action::DetailBack);
    assert_eq!(state.focus, PanelFocus::Graph);
}

#[test]
fn detail_enter_with_no_files_is_noop() {
    let mut state = AppState::new(sample_graph(), None);
    state.focus = PanelFocus::Detail;
    let effects = dispatch(&mut state, Action::DetailEnter);
    assert!(effects.is_empty());
    assert_eq!(state.detail_mode, DetailMode::FileList);
    assert!(state.diff_data.is_empty());
}

#[test]
fn detail_enter_emits_load_file_diff() {
    let mut state = AppState::new(sample_graph_with_files(), None);
    state.focus = PanelFocus::Detail;
    let effects = dispatch(&mut state, Action::DetailEnter);
    assert_eq!(
        effects,
        vec![Effect::LoadFileDiff {
            change_id: "abc".into(),
            path: "src/main.rs".into(),
        }]
    );
}

#[test]
fn file_diff_loaded_success_updates_state() {
    let mut state = AppState::new(sample_graph(), None);
    let hunks = vec![DiffHunk {
        header: "@@ -1,1 +1,1 @@".into(),
        lines: vec![
            DiffLine {
                kind: DiffLineKind::Removed,
                content: "old".into(),
            },
            DiffLine {
                kind: DiffLineKind::Added,
                content: "new".into(),
            },
        ],
    }];
    let effects = dispatch(&mut state, Action::FileDiffLoaded(Ok(hunks.clone())));
    assert!(effects.is_empty());
    assert_eq!(state.detail_mode, DetailMode::DiffView);
    assert_eq!(state.diff_data, hunks);
    assert_eq!(state.diff_scroll, 0);
}

#[test]
fn file_diff_loaded_error_sets_error() {
    let mut state = AppState::new(sample_graph(), None);
    let effects = dispatch(&mut state, Action::FileDiffLoaded(Err("disk error".into())));
    assert!(effects.is_empty());
    assert!(state.error.as_deref().unwrap().contains("disk error"));
    assert!(state.diff_data.is_empty());
}

#[test]
fn detail_move_down_with_files() {
    let mut state = AppState::new(sample_graph_with_files(), None);
    assert_eq!(state.detail_cursor(), 0);
    dispatch(&mut state, Action::DetailMoveDown);
    assert_eq!(state.detail_cursor(), 1);
}

#[test]
fn detail_move_down_at_boundary_stays() {
    let mut state = AppState::new(sample_graph_with_files(), None);
    let file_count = state.selected_detail().unwrap().files.len();
    for _ in 0..file_count {
        dispatch(&mut state, Action::DetailMoveDown);
    }
    let cursor_before = state.detail_cursor();
    dispatch(&mut state, Action::DetailMoveDown);
    assert_eq!(state.detail_cursor(), cursor_before);
}

#[test]
fn detail_move_up_at_zero_stays() {
    let mut state = AppState::new(sample_graph_with_files(), None);
    dispatch(&mut state, Action::DetailMoveUp);
    assert_eq!(state.detail_cursor(), 0);
}

// --- ToggleOpLog / OpLogLoaded tests ---

#[test]
fn toggle_op_log_emits_load_op_log() {
    let mut state = AppState::new(sample_graph(), None);
    assert!(state.modal.is_none());
    let effects = dispatch(&mut state, Action::ToggleOpLog);
    assert_eq!(effects, vec![Effect::LoadOpLog]);
}

#[test]
fn toggle_op_log_closes_when_open() {
    let mut state = AppState::new(sample_graph(), None);
    state.modal = Some(Modal::OpLog {
        entries: vec![],
        cursor: 0,
        scroll: 0,
    });
    let effects = dispatch(&mut state, Action::ToggleOpLog);
    assert!(effects.is_empty());
    assert!(state.modal.is_none());
}

#[test]
fn op_log_loaded_success_opens_modal() {
    let mut state = AppState::new(sample_graph(), None);
    let entries = vec![OpLogEntry {
        id: "op1".into(),
        description: "test op".into(),
        timestamp: "now".into(),
    }];
    let effects = dispatch(&mut state, Action::OpLogLoaded(Ok(entries.clone())));
    assert!(effects.is_empty());
    match &state.modal {
        Some(Modal::OpLog {
            entries: e,
            cursor,
            scroll,
        }) => {
            assert_eq!(e.len(), 1);
            assert_eq!(*cursor, 0);
            assert_eq!(*scroll, 0);
        }
        _ => panic!("Expected OpLog modal"),
    }
}

#[test]
fn op_log_loaded_error_sets_error() {
    let mut state = AppState::new(sample_graph(), None);
    let effects = dispatch(&mut state, Action::OpLogLoaded(Err("op fail".into())));
    assert!(effects.is_empty());
    assert!(state.error.as_deref().unwrap().contains("op fail"));
    assert!(state.modal.is_none());
}

// --- Modal system tests ---

#[test]
fn modal_dismiss_clears_modal() {
    let mut state = AppState::new(sample_graph(), None);
    state.modal = Some(Modal::OpLog {
        entries: vec![],
        cursor: 0,
        scroll: 0,
    });
    dispatch(&mut state, Action::ModalDismiss);
    assert!(state.modal.is_none());
    assert!(!state.should_quit);
}

#[test]
fn open_help_captures_context() {
    let mut state = AppState::new(sample_graph(), None);
    state.focus = PanelFocus::Detail;
    state.detail_mode = DetailMode::DiffView;
    dispatch(&mut state, Action::OpenHelp);
    match &state.modal {
        Some(Modal::Help { context, .. }) => assert_eq!(*context, HelpContext::DetailDiffView),
        _ => panic!("Expected Help modal"),
    }
}

#[test]
fn open_bookmarks_collects_from_graph() {
    let mut state = AppState::new(sample_graph(), None);
    dispatch(&mut state, Action::OpenBookmarks);
    match &state.modal {
        Some(Modal::BookmarkPicker { bookmarks, .. }) => {
            assert!(bookmarks.is_empty());
        }
        _ => panic!("Expected BookmarkPicker modal"),
    }
}

#[test]
fn fuzzy_find_opens_with_all_matches() {
    let mut state = AppState::new(sample_graph(), None);
    dispatch(&mut state, Action::OpenFuzzyFind);
    match &state.modal {
        Some(Modal::FuzzyFind { matches, query, .. }) => {
            assert!(query.is_empty());
            assert_eq!(matches.len(), state.graph.node_indices().len());
        }
        _ => panic!("Expected FuzzyFind modal"),
    }
}

#[test]
fn modal_move_down_and_up() {
    let mut state = AppState::new(sample_graph(), None);
    dispatch(&mut state, Action::OpenFuzzyFind);
    dispatch(&mut state, Action::ModalMoveDown);
    match &state.modal {
        Some(Modal::FuzzyFind { cursor, .. }) => assert_eq!(*cursor, 1),
        _ => panic!("Expected FuzzyFind modal"),
    }
    dispatch(&mut state, Action::ModalMoveUp);
    match &state.modal {
        Some(Modal::FuzzyFind { cursor, .. }) => assert_eq!(*cursor, 0),
        _ => panic!("Expected FuzzyFind modal"),
    }
}

#[test]
fn fuzzy_input_and_backspace() {
    let mut state = AppState::new(sample_graph(), None);
    dispatch(&mut state, Action::OpenFuzzyFind);
    dispatch(&mut state, Action::FuzzyInput('a'));
    dispatch(&mut state, Action::FuzzyInput('b'));
    match &state.modal {
        Some(Modal::FuzzyFind { query, .. }) => assert_eq!(query, "ab"),
        _ => panic!("Expected FuzzyFind modal"),
    }
    dispatch(&mut state, Action::FuzzyBackspace);
    match &state.modal {
        Some(Modal::FuzzyFind { query, .. }) => assert_eq!(query, "a"),
        _ => panic!("Expected FuzzyFind modal"),
    }
}

#[test]
fn modal_enter_on_fuzzy_find_jumps_cursor() {
    let mut state = AppState::new(sample_graph(), None);
    dispatch(&mut state, Action::OpenFuzzyFind);
    dispatch(&mut state, Action::ModalMoveDown);
    dispatch(&mut state, Action::ModalEnter);
    assert!(state.modal.is_none());
    assert_eq!(state.cursor(), 2);
}

#[test]
fn bookmark_enter_jumps_cursor() {
    let mut state = AppState::new(sample_graph_with_bookmarks(), None);
    dispatch(&mut state, Action::OpenBookmarks);
    assert!(matches!(state.modal, Some(Modal::BookmarkPicker { .. })));

    if let Some(Modal::BookmarkPicker { ref bookmarks, .. }) = state.modal {
        assert!(!bookmarks.is_empty());
    }

    dispatch(&mut state, Action::ModalMoveDown);
    dispatch(&mut state, Action::ModalEnter);
    assert!(state.modal.is_none());
    assert_eq!(state.cursor(), 2);
    assert_eq!(state.selected_change_id(), Some("def"));
}

#[test]
fn fuzzy_input_narrows_matches() {
    let mut state = AppState::new(sample_graph(), None);
    dispatch(&mut state, Action::OpenFuzzyFind);

    let initial_count = match &state.modal {
        Some(Modal::FuzzyFind { matches, .. }) => matches.len(),
        _ => panic!("Expected FuzzyFind"),
    };

    dispatch(&mut state, Action::FuzzyInput('d'));
    dispatch(&mut state, Action::FuzzyInput('e'));
    dispatch(&mut state, Action::FuzzyInput('s'));
    dispatch(&mut state, Action::FuzzyInput('c'));

    match &state.modal {
        Some(Modal::FuzzyFind { matches, .. }) => {
            assert!(matches.len() <= initial_count);
        }
        _ => panic!("Expected FuzzyFind"),
    }
}

#[test]
fn help_scroll_clamped_to_content() {
    let mut state = AppState::new(sample_graph(), None);
    state.focus = PanelFocus::Detail;
    state.detail_mode = DetailMode::DiffView;
    dispatch(&mut state, Action::OpenHelp);

    for _ in 0..20 {
        dispatch(&mut state, Action::ModalMoveDown);
    }
    match &state.modal {
        Some(Modal::Help { scroll, context }) => {
            assert!(
                *scroll < context.line_count(),
                "scroll {} should be < {}",
                scroll,
                context.line_count()
            );
        }
        _ => panic!("Expected Help modal"),
    }
}

#[test]
fn modal_enter_on_help_keeps_modal() {
    let mut state = AppState::new(sample_graph(), None);
    dispatch(&mut state, Action::OpenHelp);
    dispatch(&mut state, Action::ModalEnter);
    assert!(matches!(state.modal, Some(Modal::Help { .. })));
}
