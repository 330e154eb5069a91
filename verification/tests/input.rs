use lajjzy::action::{Action, CompletionItem, DetailMode, PanelFocus};
use lajjzy::app::{AppState, PickingMode};
use lajjzy::input::{
    KeyCode, KeyEvent, KeyModifiers, map_event, map_modal_event, map_picking_event, route_key,
};
use lajjzy::modal::{HelpContext, Modal};
use lajjzy::types::GraphData;

fn key(code: KeyCode) -> KeyEvent {
    KeyEvent::new(code, KeyModifiers::none())
}

fn key_mod(code: KeyCode, modifiers: KeyModifiers) -> KeyEvent {
    KeyEvent::new(code, modifiers)
}

fn ctrl_shift() -> KeyModifiers {
    KeyModifiers {
        shift: true,
        control: true,
        alt: false,
        super_key: false,
        hyper: false,
        meta: false,
    }
}

fn map_graph(event: KeyEvent) -> Option<Action> {
    map_event(event, PanelFocus::Graph, DetailMode::FileList)
}

fn map_file_list(event: KeyEvent) -> Option<Action> {
    map_event(event, PanelFocus::Detail, DetailMode::FileList)
}

fn map_diff_view(event: KeyEvent) -> Option<Action> {
    map_event(event, PanelFocus::Detail, DetailMode::DiffView)
}

fn map_hunk_picker(event: KeyEvent) -> Option<Action> {
    map_event(event, PanelFocus::Detail, DetailMode::HunkPicker)
}

fn help_modal() -> Modal {
    Modal::Help {
        context: HelpContext::Graph,
        scroll: 0,
    }
}

#[test]
fn global_quit_keys_work_in_any_focus() {
    let q = key(KeyCode::Char('q'));
    let ctrl_c = key_mod(KeyCode::Char('c'), KeyModifiers::control());
    for event in [q, ctrl_c] {
        assert_eq!(map_graph(event), Some(Action::Quit));
        assert_eq!(map_file_list(event), Some(Action::Quit));
        assert_eq!(map_diff_view(event), Some(Action::Quit));
    }
}

#[test]
fn tab_cycles_focus() {
    assert_eq!(map_graph(key(KeyCode::Tab)), Some(Action::TabFocus));
    assert_eq!(map_file_list(key(KeyCode::Tab)), Some(Action::TabFocus));
    assert_eq!(map_diff_view(key(KeyCode::Tab)), Some(Action::TabFocus));
    assert_eq!(map_graph(key(KeyCode::BackTab)), Some(Action::BackTabFocus));
}

#[test]
fn refresh_and_at_are_global() {
    let r = key(KeyCode::Char('R'));
    let at = key(KeyCode::Char('@'));
    assert_eq!(map_graph(r), Some(Action::Refresh));
    assert_eq!(map_file_list(r), Some(Action::Refresh));
    assert_eq!(map_diff_view(r), Some(Action::Refresh));
    assert_eq!(map_graph(at), Some(Action::JumpToWorkingCopy));
    assert_eq!(map_file_list(at), Some(Action::JumpToWorkingCopy));
    assert_eq!(map_diff_view(at), Some(Action::JumpToWorkingCopy));
}

#[test]
fn graph_navigation() {
    assert_eq!(map_graph(key(KeyCode::Char('j'))), Some(Action::MoveDown));
    assert_eq!(map_graph(key(KeyCode::Down)), Some(Action::MoveDown));
    assert_eq!(map_graph(key(KeyCode::Char('k'))), Some(Action::MoveUp));
    assert_eq!(map_graph(key(KeyCode::Up)), Some(Action::MoveUp));
    assert_eq!(map_graph(key(KeyCode::Char('g'))), Some(Action::JumpToTop));
    assert_eq!(map_graph(key(KeyCode::Char('G'))), Some(Action::JumpToBottom));
}

#[test]
fn detail_file_list_navigation() {
    assert_eq!(map_file_list(key(KeyCode::Char('j'))), Some(Action::DetailMoveDown));
    assert_eq!(map_file_list(key(KeyCode::Down)), Some(Action::DetailMoveDown));
    assert_eq!(map_file_list(key(KeyCode::Char('k'))), Some(Action::DetailMoveUp));
    assert_eq!(map_file_list(key(KeyCode::Up)), Some(Action::DetailMoveUp));
    assert_eq!(map_file_list(key(KeyCode::Enter)), Some(Action::DetailEnter));
    assert_eq!(map_file_list(key(KeyCode::Esc)), Some(Action::DetailBack));
}

#[test]
fn detail_diff_view_navigation() {
    assert_eq!(map_diff_view(key(KeyCode::Char('j'))), Some(Action::DiffScrollDown));
    assert_eq!(map_diff_view(key(KeyCode::Down)), Some(Action::DiffScrollDown));
    assert_eq!(map_diff_view(key(KeyCode::Char('k'))), Some(Action::DiffScrollUp));
    assert_eq!(map_diff_view(key(KeyCode::Up)), Some(Action::DiffScrollUp));
    assert_eq!(map_diff_view(key(KeyCode::Char('n'))), Some(Action::DiffNextHunk));
    assert_eq!(map_diff_view(key(KeyCode::Char('N'))), Some(Action::DiffPrevHunk));
    assert_eq!(map_diff_view(key(KeyCode::Esc)), Some(Action::DetailBack));
}

#[test]
fn same_key_different_action_by_context() {
    let j = key(KeyCode::Char('j'));
    assert_eq!(map_graph(j), Some(Action::MoveDown));
    assert_eq!(map_file_list(j), Some(Action::DetailMoveDown));
    assert_eq!(map_diff_view(j), Some(Action::DiffScrollDown));
}

#[test]
fn unmapped_key_returns_none() {
    assert_eq!(map_graph(key(KeyCode::Char('x'))), None);
    assert_eq!(map_file_list(key(KeyCode::Char('x'))), None);
    assert_eq!(map_diff_view(key(KeyCode::Char('x'))), None);
}

#[test]
fn modal_trigger_keys() {
    assert_eq!(map_graph(key(KeyCode::Char('O'))), Some(Action::ToggleOpLog));
    assert_eq!(map_graph(key(KeyCode::Char('b'))), Some(Action::OpenBookmarks));
    assert_eq!(map_graph(key(KeyCode::Char('/'))), Some(Action::OpenOmnibar));
    assert_eq!(map_graph(key(KeyCode::Char('?'))), Some(Action::OpenHelp));
}

#[test]
fn modal_esc_dismisses() {
    assert_eq!(map_modal_event(key(KeyCode::Esc), &help_modal()), Some(Action::ModalDismiss));
}

#[test]
fn modal_q_dismisses_non_omnibar() {
    assert_eq!(map_modal_event(key(KeyCode::Char('q')), &help_modal()), Some(Action::ModalDismiss));
}

#[test]
fn modal_jk_navigation_non_fuzzy() {
    let modal = Modal::OpLog {
        entries: vec![],
        cursor: 0,
        scroll: 0,
    };
    assert_eq!(map_modal_event(key(KeyCode::Char('j')), &modal), Some(Action::ModalMoveDown));
    assert_eq!(map_modal_event(key(KeyCode::Char('k')), &modal), Some(Action::ModalMoveUp));
}

#[test]
fn oplog_toggle_key_dismisses() {
    let modal = Modal::OpLog {
        entries: vec![],
        cursor: 0,
        scroll: 0,
    };
    assert_eq!(map_modal_event(key(KeyCode::Char('O')), &modal), Some(Action::ModalDismiss));
}

#[test]
fn help_question_mark_dismisses() {
    assert_eq!(map_modal_event(key(KeyCode::Char('?')), &help_modal()), Some(Action::ModalDismiss));
}

#[test]
fn bookmark_picker_d_deletes() {
    let modal = Modal::BookmarkPicker {
        bookmarks: vec![("main".into(), "abc".into())],
        cursor: 0,
    };
    assert_eq!(map_modal_event(key(KeyCode::Char('d')), &modal), Some(Action::BookmarkDelete));
}

#[test]
fn graph_mutation_keys() {
    assert_eq!(map_graph(key(KeyCode::Char('d'))), Some(Action::Abandon));
    assert_eq!(map_graph(key(KeyCode::Char('n'))), Some(Action::NewChange));
    assert_eq!(map_graph(key(KeyCode::Char('e'))), Some(Action::OpenDescribe));
    assert_eq!(
        map_graph(key_mod(KeyCode::Char('e'), KeyModifiers::control())),
        Some(Action::EditChange)
    );
    assert_eq!(map_graph(key(KeyCode::Char('s'))), Some(Action::Split));
    assert_eq!(
        map_graph(key_mod(KeyCode::Char('S'), KeyModifiers::shift())),
        Some(Action::SquashPartial)
    );
    assert_eq!(map_graph(key(KeyCode::Char('u'))), Some(Action::Undo));
    assert_eq!(
        map_graph(key_mod(KeyCode::Char('r'), KeyModifiers::control())),
        Some(Action::RebaseWithDescendants)
    );
    assert_eq!(
        map_graph(key_mod(KeyCode::Char('B'), KeyModifiers::shift())),
        Some(Action::OpenBookmarkSet)
    );
    assert_eq!(
        map_graph(key_mod(KeyCode::Char('P'), KeyModifiers::shift())),
        Some(Action::GitPush)
    );
    assert_eq!(map_graph(key(KeyCode::Char('f'))), Some(Action::GitFetch));
}

#[test]
fn mutation_keys_not_active_in_detail_context() {
    assert_eq!(map_file_list(key(KeyCode::Char('d'))), None);
    assert_eq!(map_diff_view(key(KeyCode::Char('n'))), Some(Action::DiffNextHunk));
    assert_eq!(map_file_list(key(KeyCode::Char('f'))), None);
}

#[test]
fn ctrl_e_edit_before_plain_e_describe() {
    assert_eq!(
        map_graph(key_mod(KeyCode::Char('e'), KeyModifiers::control())),
        Some(Action::EditChange)
    );
    assert_ne!(
        map_graph(key_mod(KeyCode::Char('e'), KeyModifiers::control())),
        Some(Action::OpenDescribe)
    );
}

#[test]
fn rebase_keys_in_graph_context() {
    assert_eq!(map_graph(key(KeyCode::Char('r'))), Some(Action::RebaseSingle));
    assert_eq!(
        map_graph(key_mod(KeyCode::Char('r'), KeyModifiers::control())),
        Some(Action::RebaseWithDescendants)
    );
}

#[test]
fn redo_moved_to_ctrl_shift_r() {
    let redo_key = key_mod(KeyCode::Char('r'), ctrl_shift());
    assert_eq!(map_graph(redo_key), Some(Action::Redo));
    assert_ne!(
        map_graph(key_mod(KeyCode::Char('r'), KeyModifiers::control())),
        Some(Action::Redo)
    );
    // Some terminals report Ctrl-Shift-R as Control with an uppercase R.
    assert_eq!(
        map_graph(key_mod(KeyCode::Char('R'), KeyModifiers::control())),
        Some(Action::Redo)
    );
}

#[test]
fn picking_mode_browsing_key_routing() {
    let browsing = PickingMode::Browsing;
    assert_eq!(map_picking_event(key(KeyCode::Char('j')), &browsing), Some(Action::MoveDown));
    assert_eq!(map_picking_event(key(KeyCode::Char('k')), &browsing), Some(Action::MoveUp));
    assert_eq!(map_picking_event(key(KeyCode::Enter), &browsing), Some(Action::PickConfirm));
    assert_eq!(map_picking_event(key(KeyCode::Esc), &browsing), Some(Action::PickCancel));
    assert_eq!(
        map_picking_event(key(KeyCode::Char('a')), &browsing),
        Some(Action::PickFilterChar('a'))
    );
}

#[test]
fn picking_mode_filtering_key_routing() {
    let filtering = PickingMode::Filtering {
        query: "abc".into(),
    };
    assert_eq!(
        map_picking_event(key_mod(KeyCode::Char('j'), KeyModifiers::control()), &filtering),
        Some(Action::MoveDown)
    );
    assert_eq!(map_picking_event(key(KeyCode::Down), &filtering), Some(Action::MoveDown));
    assert_eq!(
        map_picking_event(key(KeyCode::Backspace), &filtering),
        Some(Action::PickFilterBackspace)
    );
    assert_eq!(
        map_picking_event(key(KeyCode::Char('x')), &filtering),
        Some(Action::PickFilterChar('x'))
    );
    // In the filter, a plain `j` is text.
    assert_eq!(
        map_picking_event(key(KeyCode::Char('j')), &filtering),
        Some(Action::PickFilterChar('j'))
    );
}

#[test]
fn picking_mode_blocks_global_keys() {
    let browsing = PickingMode::Browsing;
    assert_eq!(
        map_picking_event(key(KeyCode::Char('/')), &browsing),
        Some(Action::PickFilterChar('/'))
    );
    assert_eq!(
        map_picking_event(key(KeyCode::Char('?')), &browsing),
        Some(Action::PickFilterChar('?'))
    );
}

#[test]
fn hunk_picker_key_routing() {
    assert_eq!(map_hunk_picker(key(KeyCode::Char('j'))), Some(Action::DetailMoveDown));
    assert_eq!(map_hunk_picker(key(KeyCode::Down)), Some(Action::DetailMoveDown));
    assert_eq!(map_hunk_picker(key(KeyCode::Char('k'))), Some(Action::DetailMoveUp));
    assert_eq!(map_hunk_picker(key(KeyCode::Up)), Some(Action::DetailMoveUp));
    assert_eq!(
        map_hunk_picker(key_mod(KeyCode::Char('J'), KeyModifiers::shift())),
        Some(Action::HunkNextFile)
    );
    assert_eq!(
        map_hunk_picker(key_mod(KeyCode::Char('K'), KeyModifiers::shift())),
        Some(Action::HunkPrevFile)
    );
    assert_eq!(map_hunk_picker(key(KeyCode::Char(' '))), Some(Action::HunkToggle));
    assert_eq!(map_hunk_picker(key(KeyCode::Char('a'))), Some(Action::HunkSelectAll));
    assert_eq!(
        map_hunk_picker(key_mod(KeyCode::Char('A'), KeyModifiers::shift())),
        Some(Action::HunkDeselectAll)
    );
    assert_eq!(map_hunk_picker(key(KeyCode::Enter)), Some(Action::HunkConfirm));
    assert_eq!(map_hunk_picker(key(KeyCode::Esc)), Some(Action::HunkCancel));
}

#[test]
fn tab_suppressed_during_hunk_picker() {
    assert_eq!(map_hunk_picker(key(KeyCode::Tab)), None);
    assert_eq!(map_hunk_picker(key(KeyCode::BackTab)), None);
    assert_eq!(map_file_list(key(KeyCode::Tab)), Some(Action::TabFocus));
    assert_eq!(map_file_list(key(KeyCode::BackTab)), Some(Action::BackTabFocus));
}

#[test]
fn quit_suppressed_during_hunk_picker() {
    assert_eq!(map_hunk_picker(key(KeyCode::Char('q'))), None);
    assert_eq!(
        map_hunk_picker(key_mod(KeyCode::Char('c'), KeyModifiers::control())),
        Some(Action::HunkCancel)
    );
    assert_eq!(map_file_list(key(KeyCode::Char('q'))), Some(Action::Quit));
}

#[test]
fn s_and_s_keys_map_correctly() {
    assert_eq!(map_graph(key(KeyCode::Char('s'))), Some(Action::Split));
    assert_eq!(
        map_graph(key_mod(KeyCode::Char('S'), KeyModifiers::shift())),
        Some(Action::SquashPartial)
    );
    assert_eq!(map_file_list(key(KeyCode::Char('s'))), None);
    assert_eq!(map_file_list(key_mod(KeyCode::Char('S'), KeyModifiers::shift())), None);
}

#[test]
fn help_key_works_in_every_mode() {
    for mode in [DetailMode::FileList, DetailMode::DiffView, DetailMode::HunkPicker, DetailMode::ConflictView] {
        for focus in [PanelFocus::Graph, PanelFocus::Detail] {
            assert_eq!(map_event(key(KeyCode::Char('?')), focus, mode), Some(Action::OpenHelp));
        }
    }
}

#[test]
fn esc_dismisses_every_overlay() {
    let overlays = vec![
        help_modal(),
        Modal::OpLog { entries: vec![], cursor: 0, scroll: 0 },
        Modal::BookmarkPicker { bookmarks: vec![], cursor: 0 },
        Modal::FuzzyFind { query: String::new(), matches: vec![], cursor: 0 },
    ];
    for m in &overlays {
        assert_eq!(map_modal_event(key(KeyCode::Esc), m), Some(Action::ModalDismiss));
    }
}

#[test]
fn route_key_prefers_picking_then_overlay() {
    let graph = GraphData::new(vec![], vec![], None, String::new());
    let mut state = AppState::new(graph, None);
    assert_eq!(route_key(&state, key(KeyCode::Char('q'))), Some(Action::Quit));
    state.modal = Some(help_modal());
    assert_eq!(route_key(&state, key(KeyCode::Char('j'))), Some(Action::ModalMoveDown));
    state.target_pick = Some(lajjzy::app::TargetPick {
        source: "abc".into(),
        mode: lajjzy::action::RebaseMode::Single,
        excluded: vec![],
        picking: PickingMode::Browsing,
        original_change_id: "abc".into(),
        descendant_count: 0,
    });
    assert_eq!(route_key(&state, key(KeyCode::Char('q'))), Some(Action::PickFilterChar('q')));
}

fn empty_omnibar() -> Modal {
    Modal::Omnibar {
        query: String::new(),
        matches: vec![],
        cursor: 0,
        completions: vec![],
        completion_cursor: 0,
    }
}

#[test]
fn omnibar_q_is_text_input() {
    let modal = empty_omnibar();
    assert_eq!(map_modal_event(key(KeyCode::Char('q')), &modal), Some(Action::OmnibarInput('q')));
}

#[test]
fn omnibar_ctrl_n_p_navigation() {
    let modal = empty_omnibar();
    assert_eq!(
        map_modal_event(key_mod(KeyCode::Char('n'), KeyModifiers::control()), &modal),
        Some(Action::ModalMoveDown)
    );
    assert_eq!(
        map_modal_event(key_mod(KeyCode::Char('p'), KeyModifiers::control()), &modal),
        Some(Action::ModalMoveUp)
    );
}

#[test]
fn omnibar_backspace() {
    let modal = empty_omnibar();
    assert_eq!(map_modal_event(key(KeyCode::Backspace), &modal), Some(Action::OmnibarBackspace));
}

#[test]
fn bookmark_input_key_routing() {
    let modal = Modal::BookmarkInput {
        change_id: "abc".into(),
        input: "foo".into(),
        completions: vec![],
        cursor: 0,
    };
    assert_eq!(map_modal_event(key(KeyCode::Enter), &modal), Some(Action::BookmarkInputConfirm));
    assert_eq!(map_modal_event(key(KeyCode::Esc), &modal), Some(Action::ModalDismiss));
    assert_eq!(map_modal_event(key(KeyCode::Backspace), &modal), Some(Action::BookmarkInputBackspace));
    assert_eq!(map_modal_event(key(KeyCode::Char('x')), &modal), Some(Action::BookmarkInputChar('x')));
    assert_eq!(
        map_modal_event(key_mod(KeyCode::Char('X'), KeyModifiers::shift()), &modal),
        Some(Action::BookmarkInputChar('X'))
    );
    assert_eq!(map_modal_event(key_mod(KeyCode::Char('c'), KeyModifiers::control()), &modal), None);
}

#[test]
fn tab_accepts_completion_when_visible() {
    let modal = Modal::Omnibar {
        query: "min".into(),
        matches: vec![],
        cursor: 0,
        completions: vec![CompletionItem {
            insert_text: "mine()".into(),
            display_text: "mine()".into(),
        }],
        completion_cursor: 0,
    };
    assert_eq!(map_modal_event(key(KeyCode::Tab), &modal), Some(Action::OmnibarAcceptCompletion));
}

#[test]
fn tab_noop_when_no_completions() {
    let modal = Modal::Omnibar {
        query: "xyz".into(),
        matches: vec![],
        cursor: 0,
        completions: vec![],
        completion_cursor: 0,
    };
    assert_eq!(map_modal_event(key(KeyCode::Tab), &modal), None);
}

#[test]
fn describe_editor_keys() {
    let modal = Modal::Describe {
        change_id: "abc".into(),
        text: "msg".into(),
    };
    assert_eq!(
        map_modal_event(key_mod(KeyCode::Char('s'), KeyModifiers::control()), &modal),
        Some(Action::DescribeSave)
    );
    assert_eq!(
        map_modal_event(key_mod(KeyCode::Enter, KeyModifiers::control()), &modal),
        Some(Action::DescribeSave)
    );
    assert_eq!(map_modal_event(key(KeyCode::Esc), &modal), Some(Action::ModalDismiss));
    assert_eq!(
        map_modal_event(key_mod(KeyCode::Char('E'), KeyModifiers::shift()), &modal),
        Some(Action::DescribeEscalateEditor)
    );
    assert_eq!(map_modal_event(key(KeyCode::Char('q')), &modal), None);
    assert_eq!(map_modal_event(key(KeyCode::Enter), &modal), None);
}

#[test]
fn omnibar_common_keys_still_work() {
    let modal = empty_omnibar();
    assert_eq!(map_modal_event(key(KeyCode::Esc), &modal), Some(Action::ModalDismiss));
    assert_eq!(map_modal_event(key(KeyCode::Enter), &modal), Some(Action::ModalEnter));
    assert_eq!(map_modal_event(key(KeyCode::Down), &modal), Some(Action::ModalMoveDown));
}
