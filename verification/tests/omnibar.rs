use lajjzy::action::CompletionItem;
use lajjzy::omnibar::{compute_completions, completions_for, extract_current_word, is_revset_boundary, revset_functions};
use lajjzy::types::{ChangeDetail, GraphData, GraphLine};

fn detail(description: &str, bookmarks: &[&str]) -> ChangeDetail {
    ChangeDetail {
        commit_id: "c".into(),
        author: "a".into(),
        email: "a@b".into(),
        timestamp: "1m".into(),
        description: description.into(),
        bookmarks: bookmarks.iter().map(|b| b.to_string()).collect(),
        is_empty: false,
        conflict_count: 0,
        files: vec![],
        parents: vec![],
    }
}

fn graph(entries: &[(&str, &str, &[&str])]) -> GraphData {
    GraphData::new(
        entries
            .iter()
            .map(|(id, _, _)| GraphLine {
                raw: format!("◉  {id}"),
                change_id: Some(id.to_string()),
                glyph_prefix: String::new(),
            })
            .collect(),
        entries.iter().map(|(id, d, b)| (id.to_string(), detail(d, b))).collect(),
        Some(0),
        String::new(),
    )
}

fn inserts(items: &[CompletionItem]) -> Vec<&str> {
    items.iter().map(|c| c.insert_text.as_str()).collect()
}

#[test]
fn revset_boundaries() {
    for c in ['&', '|', '~', '(', ')', ':', '.', ',', '+', '-', ' ', '\t', '\n'] {
        assert!(is_revset_boundary(c), "{c:?}");
    }
    for c in ['a', '_', '@', 'Z', '9'] {
        assert!(!is_revset_boundary(c), "{c:?}");
    }
}

#[test]
fn current_word_after_last_boundary() {
    assert_eq!(extract_current_word("author(al"), (7, "al".to_string()));
    assert_eq!(extract_current_word("foo"), (0, "foo".to_string()));
    assert_eq!(extract_current_word("a & b"), (4, "b".to_string()));
    assert_eq!(extract_current_word("mine()"), (6, String::new()));
    // The offset counts bytes: 'é' takes two.
    assert_eq!(extract_current_word("é-ab"), (3, "ab".to_string()));
}

#[test]
fn revset_function_table_is_complete() {
    let table = revset_functions();
    assert_eq!(table.len(), 24);
    assert_eq!(table[0].0, "all");
    assert_eq!(table[23].0, "visible_heads");
}

#[test]
fn completes_functions_with_arity() {
    let g = graph(&[("abc123", "first", &[])]);
    let items = compute_completions("an", &g);
    assert_eq!(inserts(&items), vec!["ancestors("]);
    let items = compute_completions("mi", &g);
    assert_eq!(inserts(&items), vec!["mine()"]);
    assert_eq!(items[0].display_text, "mine()");
}

#[test]
fn completion_matches_case_insensitively() {
    let g = graph(&[("abc123", "first", &["Main"])]);
    // "AN" only matches "ancestors" once it is lowercased.
    let items = compute_completions("AN", &g);
    assert_eq!(inserts(&items), vec!["ancestors("]);
    // The bookmark "Main" matches "ma" through its lowercase form.
    let items = compute_completions("ma", &g);
    assert_eq!(inserts(&items), vec!["Main"]);
}

#[test]
fn empty_word_has_no_completions() {
    let g = graph(&[("abc123", "first", &["main"])]);
    assert!(compute_completions("", &g).is_empty());
    assert!(compute_completions("author(", &g).is_empty());
}

#[test]
fn bookmarks_sorted_and_deduplicated() {
    let g = graph(&[
        ("abc123", "first", &["mz", "ma"]),
        ("def456", "second", &["ma", "mb"]),
    ]);
    let items = compute_completions("m", &g);
    assert_eq!(inserts(&items), vec!["mine()", "ma", "mb", "mz"]);
}

#[test]
fn change_ids_need_two_characters() {
    let g = graph(&[("abc123", "first change", &[]), ("abd999", "", &[])]);
    let items = compute_completions("ab", &g);
    assert_eq!(inserts(&items), vec!["abc123", "abd999"]);
    assert_eq!(items[0].display_text, "abc123 \u{2014} first change");
    assert_eq!(items[1].display_text, "abd999 \u{2014} (no description)");
    // One character is not enough for change IDs ("all()", "ancestors(", "author(" only).
    let items = compute_completions("a", &g);
    assert_eq!(inserts(&items), vec!["all()", "ancestors(", "author("]);
}

#[test]
fn completions_capped_at_twenty() {
    let names: Vec<String> = (0..30).map(|i| format!("b{i:02}")).collect();
    let refs: Vec<&str> = names.iter().map(String::as_str).collect();
    let g = graph(&[("zzz", "d", &refs)]);
    let items = compute_completions("b", &g);
    assert_eq!(items.len(), 20);
    assert_eq!(items[0].insert_text, "bookmarks(");
    assert_eq!(items[1].insert_text, "b00");
    assert_eq!(items[19].insert_text, "b18");
}

#[test]
fn completions_for_lowercase_word() {
    let g = graph(&[("abc123", "first", &["main"])]);
    let items = completions_for("main", &g);
    assert_eq!(inserts(&items), vec!["main"]);
}
