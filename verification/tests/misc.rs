use lajjzy::widgets::help::HelpWidget;
use lajjzy::dispatch::diff_total_fits;
use lajjzy::types::{DiffHunk, DiffLine, DiffLineKind};
use lajjzy::action::{Action, MutationKind};
use lajjzy::cli::{
    JjCliBackend, JjMutation, diff_args, first_line_preview, jj_outcome, log_args, op_id_args,
    op_log_args, parse_file_line, strip_graph_glyphs,
};
use lajjzy::editor::{choose_editor, editor_command};
use lajjzy::effect::{Effect, next_graph_generation, run_mutation};
use lajjzy::forge::{ForgeKind, GhCliForge, PrState, ReviewStatus, pr_info_from_fields, pr_list_args};
use lajjzy::fuzzy::fuzzy_match;
use lajjzy::panels::{Placement, border_color, detail_title, inner_rect, modal_placement};
use lajjzy::app::{AppState, ConflictView, Rect};
use lajjzy::modal::{HelpContext, Modal};
use lajjzy::types::{ChangeDetail, ConflictData, ConflictRegion, FileStatus, GraphData, GraphLine};
use lajjzy::widgets::style::Color;

fn detail(author: &str, description: &str) -> ChangeDetail {
    ChangeDetail {
        commit_id: "c".into(),
        author: author.into(),
        email: "a@b".into(),
        timestamp: "1m".into(),
        description: description.into(),
        bookmarks: vec![],
        is_empty: false,
        conflict_count: 0,
        files: vec![],
        parents: vec![],
    }
}

fn node(id: &str) -> GraphLine {
    GraphLine {
        raw: format!("◉  {id}"),
        change_id: Some(id.into()),
        glyph_prefix: "◉  ".into(),
    }
}

#[test]
fn generation_advances_only_for_graph_loads() {
    assert_eq!(next_graph_generation(0, &Effect::LoadGraph { revset: None }), (1, 1));
    assert_eq!(next_graph_generation(7, &Effect::Undo), (8, 8));
    assert_eq!(next_graph_generation(5, &Effect::Absorb { change_id: "a".into() }), (5, 0));
    assert_eq!(next_graph_generation(5, &Effect::Revert { change_id: "a".into() }), (5, 0));
    assert_eq!(next_graph_generation(7, &Effect::LoadOpLog), (7, 0));
    assert_eq!(next_graph_generation(u64::MAX, &Effect::GitFetch), (0, 0));
}

#[test]
fn run_mutation_reports_success_with_graph() {
    let g = GraphData::new(vec![], vec![], None, String::new());
    let action = run_mutation(MutationKind::Undo, 3, || Ok("done".to_string()), || Ok(g.clone()));
    assert_eq!(
        action,
        Action::RepoOpSuccess {
            op: MutationKind::Undo,
            message: "done".into(),
            graph: Some((3, Ok(g))),
        }
    );
    let failed = run_mutation(
        MutationKind::GitPush,
        4,
        || Err("rejected".to_string()),
        || -> Result<GraphData, String> { panic!("graph must not load after a failure") },
    );
    assert_eq!(
        failed,
        Action::RepoOpFailed {
            op: MutationKind::GitPush,
            error: "rejected".into(),
        }
    );
}

#[test]
fn editor_choice_and_command() {
    assert_eq!(choose_editor(Some("nvim".into()), Some("code".into())), "nvim");
    assert_eq!(choose_editor(None, Some("code".into())), "code");
    assert_eq!(choose_editor(None, None), "vi");
    let (program, args) = editor_command("  code --wait\t-n ").unwrap();
    assert_eq!(program, "code");
    assert_eq!(args, vec!["--wait", "-n"]);
    assert_eq!(editor_command("   ").unwrap_err(), "$EDITOR is empty");
}

#[test]
fn jj_command_arguments() {
    assert_eq!(log_args(None)[..4], ["log", "--summary", "--color=never", "-T"]);
    let with_rev = log_args(Some("mine()"));
    assert_eq!(with_rev[5..], ["-r", "mine()"]);
    assert!(with_rev[4].contains("current_working_copy"));
    assert_eq!(op_id_args(), vec!["op", "log", "--limit=1", "--no-graph", "-T", "self.id().short(16)"]);
    assert_eq!(op_log_args()[..5], ["op", "log", "--no-graph", "--color=never", "-T"]);
    assert_eq!(diff_args("abc", "a.rs"), vec!["diff", "-r", "abc", "--git", "--color=never", "a.rs"]);
    let m = JjMutation::BookmarkSet { change_id: "abc".into(), name: "main".into() };
    assert_eq!(m.args(), vec!["bookmark", "set", "main", "-r", "abc"]);
    assert_eq!(m.success_message(), "Set bookmark \"main\" on abc");
    let d = JjMutation::Describe { change_id: "abc".into(), text: "first line\nsecond".into() };
    assert_eq!(d.success_message(), "Described abc: \"first line\"");
    assert_eq!(JjCliBackend::with_root("/repo".into()).workspace_root(), "/repo");
}

#[test]
fn jj_outcome_prefers_stderr() {
    assert_eq!(jj_outcome(true, "out", "err"), Ok("err".to_string()));
    assert_eq!(jj_outcome(true, "out", "  "), Ok("out".to_string()));
    assert_eq!(jj_outcome(false, "out", ""), Err("out".to_string()));
}

#[test]
fn preview_truncates_long_first_line() {
    let long = "x".repeat(60);
    let p = first_line_preview(&long);
    assert_eq!(p, format!("{}...", "x".repeat(47)));
    assert_eq!(first_line_preview("short\nmore"), "short");
    assert_eq!(first_line_preview(""), "");
}

#[test]
fn file_lines_and_glyphs() {
    assert_eq!(strip_graph_glyphs("│ ○  A foo"), "A foo");
    let f = parse_file_line("│  M src/lib.rs").unwrap();
    assert_eq!(f.path, "src/lib.rs");
    assert_eq!(f.status, FileStatus::Modified);
    assert_eq!(parse_file_line("│  X weird").unwrap().status, FileStatus::Unknown('X'));
    assert!(parse_file_line("│  fix bug").is_none());
}

#[test]
fn graph_parse_reads_glyph_prefix_up_to_first_alphanumeric() {
    let out = "◉  abc x\x1Fabc\x1E1\x1Ea\x1Ee\x1Et\x1Ed\x1E\x1Efalse\x1Etrue\x1E";
    let g = lajjzy::cli::parse_graph_output(out, "op".into()).unwrap();
    assert_eq!(g.lines[0].glyph_prefix, "◉  ");
    assert_eq!(g.detail("abc").unwrap().conflict_count, 1);
    assert_eq!(g.op_id, "op");
    assert_eq!(g.working_copy_index, None);
}

#[test]
fn graph_parse_error_messages() {
    let dup = "◉ a\x1Fa\x1E1\x1E\x1E\x1E\x1E\x1E\x1E\x1E\x1E\n◉ a\x1Fa\x1E1\x1E\x1E\x1E\x1E\x1E\x1E\x1E\x1E";
    let err = lajjzy::cli::parse_graph_output(dup, String::new()).unwrap_err();
    assert!(err.message().contains("Duplicate short change ID 'a'"));
    let err = lajjzy::cli::parse_graph_output("◉ x\x1Fa\x1Eb", String::new()).unwrap_err();
    assert_eq!(err.message(), "Expected 10 metadata fields, got 2: [\"a\", \"b\"]");
    let err = lajjzy::cli::parse_graph_output("just text\n", String::new()).unwrap_err();
    assert!(err.message().contains("found zero change nodes"));
}

#[test]
fn forge_records_and_kind() {
    let pr = pr_info_from_fields(7, "t".into(), "MERGED", "b".into(), "CHANGES_REQUESTED", "u".into());
    assert_eq!(pr.state, PrState::Merged);
    assert_eq!(pr.review, ReviewStatus::ChangesRequested);
    let pr = pr_info_from_fields(8, "t".into(), "OPEN", "b".into(), "", "u".into());
    assert_eq!(pr.state, PrState::Open);
    assert_eq!(pr.review, ReviewStatus::Unknown);
    assert_eq!(GhCliForge::with_availability("/r".into(), true).forge_kind(), Some(ForgeKind::GitHub));
    assert_eq!(GhCliForge::with_availability("/r".into(), false).forge_kind(), None);
    assert_eq!(pr_list_args()[7], "number,title,state,headRefName,reviewDecision,url");
}

#[test]
fn fuzzy_match_ranks_by_score() {
    let g = GraphData::new(
        vec![node("abc"), node("def"), node("ghi")],
        vec![
            ("abc".into(), detail("alice", "parser fix")),
            ("def".into(), detail("bob", "retry logic")),
            ("ghi".into(), detail("carol", "parse parse")),
        ],
        Some(0),
        String::new(),
    );
    assert_eq!(fuzzy_match("", &g), vec![0, 1, 2]);
    assert_eq!(fuzzy_match("retry", &g), vec![1]);
    let m = fuzzy_match("parse", &g);
    assert_eq!(m.len(), 2);
    assert!(m.contains(&0) && m.contains(&2));
    assert!(fuzzy_match("zzzz", &g).is_empty());
}

#[test]
fn panel_frames() {
    let r = inner_rect(Rect::new(0, 0, 40, 20));
    assert_eq!(r, Rect::new(1, 1, 38, 18));
    assert_eq!(inner_rect(Rect::new(5, 5, 1, 1)), Rect::new(6, 6, 0, 0));
    assert_eq!(border_color(true), Color::Blue);
    assert_eq!(border_color(false), Color::DarkGray);
    let help = Modal::Help { context: HelpContext::Graph, scroll: 0 };
    assert_eq!(modal_placement(&help), Placement::Centered { percent_x: 50, percent_y: 60 });
    let log = Modal::OpLog { entries: vec![], cursor: 0, scroll: 0 };
    assert_eq!(modal_placement(&log), Placement::Full);
}

#[test]
fn detail_panel_titles() {
    let g = GraphData::new(vec![node("abc")], vec![("abc".into(), detail("a", ""))], Some(0), String::new());
    let mut state = AppState::new(g, None);
    assert_eq!(detail_title(&state), "Files \u{2014} (no description)");
    state.detail_mode = lajjzy::action::DetailMode::DiffView;
    assert_eq!(detail_title(&state), "Diff");
    state.detail_mode = lajjzy::action::DetailMode::ConflictView;
    assert_eq!(detail_title(&state), "Conflict");
    state.conflict_view = Some(ConflictView::new(
        "abc".into(),
        "f.txt".into(),
        ConflictData {
            regions: vec![
                ConflictRegion::Conflict { base: String::new(), left: String::new(), right: String::new() },
                ConflictRegion::Resolved("x".into()),
                ConflictRegion::Conflict { base: String::new(), left: String::new(), right: String::new() },
            ],
        },
    ));
    assert_eq!(detail_title(&state), "Conflict \u{2014} f.txt (hunk 1/2)");
}

#[test]
fn help_line_counts_match_help_pages() {
    for c in [HelpContext::Graph, HelpContext::DetailFileList, HelpContext::DetailDiffView] {
        assert_eq!(c.line_count(), HelpWidget::help_lines(c).len());
    }
    assert_eq!(HelpContext::Graph.line_count(), 20);
}

#[test]
fn diff_total_fits_for_ordinary_diffs() {
    let hunks = vec![DiffHunk {
        header: "@@".into(),
        lines: vec![DiffLine { kind: DiffLineKind::Added, content: "x".into() }],
    }];
    assert!(diff_total_fits(&hunks));
    assert!(diff_total_fits(&vec![]));
}
