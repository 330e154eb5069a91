use lajjzy::action::{Action, CompletionItem};
use lajjzy::app::AppState;
use lajjzy::dispatch::dispatch;
use lajjzy::effect::Effect;
use lajjzy::modal::Modal;
use lajjzy::types::{ChangeDetail, GraphData, GraphLine};

fn detail(description: &str, bookmarks: &[&str]) -> ChangeDetail {
    ChangeDetail {
        commit_id: "c".into(),
        author: "alice".into(),
        email: "a@b".into(),
        timestamp: "1m".into(),
        description: description.into(),
        bookmarks: bookmarks.iter().map(|b| b.to_string()).collect(),
        is_empty: false,
        conflict_count: 0,
        files: vec![],
        parents: vec![],
    }
}

fn graph() -> GraphData {
    GraphData::new(
        vec![
            GraphLine {
                raw: "◉  abc".into(),
                change_id: Some("abc".into()),
                glyph_prefix: "◉  ".into(),
            },
            GraphLine {
                raw: "◉  def".into(),
                change_id: Some("def".into()),
                glyph_prefix: "◉  ".into(),
            },
        ],
        vec![
            ("abc".into(), detail("first", &["main"])),
            ("def".into(), detail("second", &["feature"])),
        ],
        Some(0),
        String::new(),
    )
}

fn state() -> AppState {
    AppState::new(graph(), None)
}

#[test]
fn omnibar_opens_with_every_change() {
    let mut s = state();
    let e = dispatch(&mut s, Action::OpenOmnibar);
    assert!(e.is_empty());
    match &s.modal {
        Some(Modal::Omnibar { query, matches, cursor, completions, completion_cursor }) => {
            assert_eq!(query, "");
            assert_eq!(matches, &vec![0, 1]);
            assert_eq!(*cursor, 0);
            assert!(completions.is_empty());
            assert_eq!(*completion_cursor, 0);
        }
        other => panic!("expected the omnibar, got {other:?}"),
    }
}

#[test]
fn omnibar_typing_updates_query_and_completions() {
    let mut s = state();
    dispatch(&mut s, Action::OpenOmnibar);
    dispatch(&mut s, Action::OmnibarInput('m'));
    dispatch(&mut s, Action::OmnibarInput('a'));
    match &s.modal {
        Some(Modal::Omnibar { query, completions, .. }) => {
            assert_eq!(query, "ma");
            assert!(completions.iter().any(|c| c.insert_text == "main"));
        }
        other => panic!("expected the omnibar, got {other:?}"),
    }
    dispatch(&mut s, Action::OmnibarBackspace);
    match &s.modal {
        Some(Modal::Omnibar { query, .. }) => assert_eq!(query, "m"),
        other => panic!("expected the omnibar, got {other:?}"),
    }
}

#[test]
fn omnibar_accepts_completion_in_place_of_current_word() {
    let mut s = state();
    s.modal = Some(Modal::Omnibar {
        query: "foo & min".into(),
        matches: vec![],
        cursor: 0,
        completions: vec![CompletionItem {
            insert_text: "mine()".into(),
            display_text: "mine()".into(),
        }],
        completion_cursor: 0,
    });
    dispatch(&mut s, Action::OmnibarAcceptCompletion);
    match &s.modal {
        Some(Modal::Omnibar { query, completion_cursor, .. }) => {
            assert_eq!(query, "foo & mine()");
            assert_eq!(*completion_cursor, 0);
        }
        other => panic!("expected the omnibar, got {other:?}"),
    }
}

#[test]
fn omnibar_moves_through_completions_first() {
    let mut s = state();
    s.modal = Some(Modal::Omnibar {
        query: "a".into(),
        matches: vec![0, 1],
        cursor: 0,
        completions: vec![
            CompletionItem { insert_text: "all()".into(), display_text: "all()".into() },
            CompletionItem { insert_text: "ancestors(".into(), display_text: "ancestors(".into() },
        ],
        completion_cursor: 0,
    });
    dispatch(&mut s, Action::ModalMoveDown);
    dispatch(&mut s, Action::ModalMoveDown);
    match &s.modal {
        Some(Modal::Omnibar { cursor, completion_cursor, .. }) => {
            assert_eq!(*completion_cursor, 1);
            assert_eq!(*cursor, 0);
        }
        other => panic!("expected the omnibar, got {other:?}"),
    }
}

#[test]
fn describe_opens_on_selected_change_and_saves() {
    let mut s = state();
    dispatch(&mut s, Action::OpenDescribe);
    assert!(matches!(&s.modal, Some(Modal::Describe { change_id, text }) if change_id == "abc" && text == "first"));
    if let Some(Modal::Describe { text, .. }) = &mut s.modal {
        *text = "rewritten".into();
    }
    let e = dispatch(&mut s, Action::DescribeSave);
    assert!(s.modal.is_none());
    assert_eq!(
        e,
        vec![Effect::Describe {
            change_id: "abc".into(),
            text: "rewritten".into(),
        }]
    );
}

#[test]
fn describe_escalates_to_external_editor() {
    let mut s = state();
    dispatch(&mut s, Action::OpenDescribe);
    let e = dispatch(&mut s, Action::DescribeEscalateEditor);
    assert!(s.modal.is_none());
    assert_eq!(
        e,
        vec![Effect::SuspendForEditor {
            change_id: "abc".into(),
            initial_text: "first".into(),
        }]
    );
}

#[test]
fn bookmark_input_types_and_sets() {
    let mut s = state();
    dispatch(&mut s, Action::OpenBookmarkSet);
    match &s.modal {
        Some(Modal::BookmarkInput { change_id, input, completions, cursor }) => {
            assert_eq!(change_id, "abc");
            assert_eq!(input, "");
            assert_eq!(completions, &vec!["main".to_string(), "feature".to_string()]);
            assert_eq!(*cursor, 0);
        }
        other => panic!("expected the bookmark input, got {other:?}"),
    }
    assert!(dispatch(&mut s, Action::BookmarkInputConfirm).is_empty());
    assert!(s.modal.is_some());
    dispatch(&mut s, Action::BookmarkInputChar('w'));
    dispatch(&mut s, Action::BookmarkInputChar('i'));
    dispatch(&mut s, Action::BookmarkInputChar('p'));
    dispatch(&mut s, Action::BookmarkInputBackspace);
    let e = dispatch(&mut s, Action::BookmarkInputConfirm);
    assert!(s.modal.is_none());
    assert_eq!(
        e,
        vec![Effect::BookmarkSet {
            change_id: "abc".into(),
            name: "wi".into(),
        }]
    );
}

#[test]
fn editor_actions_without_their_overlay_change_nothing() {
    let mut s = state();
    assert!(dispatch(&mut s, Action::DescribeSave).is_empty());
    assert!(dispatch(&mut s, Action::BookmarkInputChar('x')).is_empty());
    assert!(dispatch(&mut s, Action::OmnibarInput('x')).is_empty());
    assert!(s.modal.is_none());
}
