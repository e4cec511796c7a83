//! Tests for the layout split and the render planner.

use list_browser::layout::{split_regions, Rect};
use list_browser::model::ViewModel;
use list_browser::render::build_frame;

#[test]
fn split_of_a_22_line_terminal() {
    let r = split_regions(Rect { x: 0, y: 0, width: 80, height: 22 });
    // usable height 20: title 4, list 12, help 4
    assert_eq!(r.title, Rect { x: 1, y: 1, width: 78, height: 4 });
    assert_eq!(r.list, Rect { x: 1, y: 5, width: 78, height: 12 });
    assert_eq!(r.help, Rect { x: 1, y: 17, width: 78, height: 4 });
}

#[test]
fn split_reconciles_rounding() {
    // usable height 11: 20 % rounds to 2, 60 % to 7; the help region
    // absorbs the remainder so the heights still sum to 11.
    let r = split_regions(Rect { x: 0, y: 0, width: 10, height: 13 });
    assert_eq!(r.title.height, 2);
    assert_eq!(r.list.height, 7);
    assert_eq!(r.help.height, 2);
    assert_eq!(r.title.height + r.list.height + r.help.height, 11);
    assert_eq!(r.title.y, 1);
    assert_eq!(r.list.y, 3);
    assert_eq!(r.help.y, 10);
}

#[test]
fn split_heights_always_tile_the_usable_area() {
    for h in 0..200u16 {
        let r = split_regions(Rect { x: 3, y: 7, width: 40, height: h });
        let usable = if h >= 2 { h - 2 } else { 0 };
        assert_eq!(r.title.height + r.list.height + r.help.height, usable);
        assert_eq!(r.list.y, r.title.y + r.title.height);
        assert_eq!(r.help.y, r.list.y + r.list.height);
    }
}

#[test]
fn split_of_a_degenerate_viewport() {
    let r = split_regions(Rect { x: 0, y: 0, width: 1, height: 1 });
    assert_eq!(r.title.height, 0);
    assert_eq!(r.list.height, 0);
    assert_eq!(r.help.height, 0);
    assert_eq!(r.title.width, 0);
}

#[test]
fn frame_marks_exactly_the_selected_line() {
    let mut m = ViewModel::initial();
    list_browser::input::dispatch(&mut m, list_browser::input::Key::Down);
    let p = build_frame(Rect { x: 0, y: 0, width: 40, height: 12 }, &m);
    assert_eq!(p.title, "Ratatui Example");
    assert_eq!(p.help, "Up/Down: Navigate | Enter: Add Item | q: Quit");
    assert_eq!(p.lines.len(), 3);
    assert!(!p.lines[0].highlighted);
    assert!(p.lines[1].highlighted);
    assert!(!p.lines[2].highlighted);
    assert_eq!(p.lines[0].text, "Item 1");
    assert_eq!(p.lines[1].text, ">> Item 2");
    assert_eq!(p.lines[2].text, "Item 3");
}

#[test]
fn frame_regions_match_the_split() {
    let area = Rect { x: 0, y: 0, width: 60, height: 30 };
    let m = ViewModel::initial();
    let p = build_frame(area, &m);
    let r = split_regions(area);
    assert_eq!(p.regions.title, r.title);
    assert_eq!(p.regions.list, r.list);
    assert_eq!(p.regions.help, r.help);
}

#[test]
fn frame_of_an_empty_list_has_no_lines() {
    let m = ViewModel::from_items(Vec::new());
    let p = build_frame(Rect { x: 0, y: 0, width: 20, height: 10 }, &m);
    assert_eq!(p.lines.len(), 0);
}
