use lajjzy::app::Rect;
use lajjzy::layout::{centered_rect, frame_layout, hit_areas, modal_area};
use lajjzy::modal::{HelpContext, Modal};

#[test]
fn frame_splits_panels_over_status_bar() {
    let f = frame_layout(Rect::new(0, 0, 90, 30));
    assert_eq!(f.main, Rect::new(0, 0, 90, 28));
    assert_eq!(f.status, Rect::new(0, 28, 90, 2));
    assert_eq!(f.graph_outer, Rect::new(0, 0, 30, 28));
    assert_eq!(f.detail_outer, Rect::new(30, 0, 60, 28));
    assert_eq!(f.graph_inner, Rect::new(1, 1, 28, 26));
    assert_eq!(f.detail_inner, Rect::new(31, 1, 58, 26));
}

#[test]
fn tiny_frame_keeps_a_panel_row() {
    let f = frame_layout(Rect::new(0, 0, 9, 3));
    assert_eq!(f.main, Rect::new(0, 0, 9, 1));
    assert_eq!(f.status, Rect::new(0, 1, 9, 2));
    assert_eq!(f.graph_inner.height, 0);
}

#[test]
fn centered_box_takes_its_share() {
    let r = centered_rect(60, 80, Rect::new(0, 0, 100, 50));
    assert_eq!(r, Rect::new(20, 5, 60, 40));
    let h = centered_rect(50, 60, Rect::new(0, 0, 100, 50));
    assert_eq!(h, Rect::new(25, 10, 50, 30));
}

#[test]
fn overlays_are_placed_by_kind() {
    let main = Rect::new(0, 0, 100, 50);
    let detail = Rect::new(33, 0, 67, 50);
    let op_log = Modal::OpLog {
        entries: vec![],
        cursor: 0,
        scroll: 0,
    };
    assert_eq!(modal_area(&op_log, main, detail), main);
    let help = Modal::Help {
        context: HelpContext::Graph,
        scroll: 0,
    };
    assert_eq!(modal_area(&help, main, detail), Rect::new(25, 10, 50, 30));
    let picker = Modal::BookmarkPicker {
        bookmarks: vec![],
        cursor: 0,
    };
    assert_eq!(modal_area(&picker, main, detail), Rect::new(20, 5, 60, 40));
}

#[test]
fn hit_areas_follow_the_frame() {
    let f = frame_layout(Rect::new(0, 0, 90, 30));
    let none = hit_areas(&f, &None, 7);
    assert_eq!(none.graph_outer, f.graph_outer);
    assert_eq!(none.detail_inner, f.detail_inner);
    assert_eq!(none.graph_scroll_offset, 7);
    assert_eq!(none.modal_area, None);
    let op_log = Some(Modal::OpLog {
        entries: vec![],
        cursor: 0,
        scroll: 0,
    });
    assert_eq!(hit_areas(&f, &op_log, 0).modal_area, Some(f.main));
}

#[test]
fn editors_sit_over_the_detail_panel_and_the_bottom() {
    let main = Rect::new(0, 0, 100, 50);
    let detail = Rect::new(33, 0, 67, 50);
    let describe = Modal::Describe {
        change_id: "abc".into(),
        text: String::new(),
    };
    assert_eq!(modal_area(&describe, main, detail), detail);
    let input = Modal::BookmarkInput {
        change_id: "abc".into(),
        input: String::new(),
        completions: vec![],
        cursor: 0,
    };
    assert_eq!(modal_area(&input, main, detail), Rect::new(0, 46, 100, 4));
    assert_eq!(modal_area(&input, Rect::new(0, 0, 100, 3), detail), Rect::new(0, 0, 100, 3));
}
