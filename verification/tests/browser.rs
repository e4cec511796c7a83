//! Scenario tests for the list browser: seed state, navigation
//! saturation, insertion, quit handling and the end-to-end walk.

use list_browser::input::{dispatch, Key, Signal};
use list_browser::model::{new_item_label, ViewModel};
use list_browser::session::Browser;

#[test]
fn seed_state() {
    let m = ViewModel::initial();
    assert_eq!(m.len(), 3);
    assert_eq!(m.selected_index(), 0);
    assert_eq!(m.item(0), "Item 1");
    assert_eq!(m.item(1), "Item 2");
    assert_eq!(m.item(2), "Item 3");
}

#[test]
fn down_saturates_at_last_index() {
    let mut m = ViewModel::initial();
    for _ in 0..10 {
        let s = dispatch(&mut m, Key::Down);
        assert_eq!(s, Signal::Continue);
        assert!(m.selected_index() < m.len());
    }
    assert_eq!(m.selected_index(), 2);
}

#[test]
fn up_saturates_at_zero() {
    let mut m = ViewModel::initial();
    for _ in 0..5 {
        let s = dispatch(&mut m, Key::Up);
        assert_eq!(s, Signal::Continue);
    }
    assert_eq!(m.selected_index(), 0);
    dispatch(&mut m, Key::Down);
    dispatch(&mut m, Key::Up);
    dispatch(&mut m, Key::Up);
    assert_eq!(m.selected_index(), 0);
}

#[test]
fn enter_appends_and_keeps_selection() {
    let mut m = ViewModel::initial();
    dispatch(&mut m, Key::Down);
    let before = m.selected_index();
    for n in 0..4 {
        dispatch(&mut m, Key::Enter);
        assert_eq!(m.len(), 4 + n);
        assert_eq!(m.selected_index(), before);
    }
    assert_eq!(m.item(3), "New Item 4");
    assert_eq!(m.item(4), "New Item 5");
    assert_eq!(m.item(5), "New Item 6");
    assert_eq!(m.item(6), "New Item 7");
}

#[test]
fn other_keys_are_noops() {
    let mut m = ViewModel::initial();
    assert_eq!(dispatch(&mut m, Key::Char('x')), Signal::Continue);
    assert_eq!(dispatch(&mut m, Key::Other), Signal::Continue);
    assert_eq!(m.len(), 3);
    assert_eq!(m.selected_index(), 0);
}

#[test]
fn empty_list_navigation_is_safe() {
    let mut m = ViewModel::from_items(Vec::new());
    assert_eq!(m.len(), 0);
    for _ in 0..100 {
        dispatch(&mut m, Key::Up);
        dispatch(&mut m, Key::Down);
        assert_eq!(m.len(), 0);
        assert_eq!(m.selected_index(), 0);
    }
}

#[test]
fn end_to_end_scenario() {
    let mut m = ViewModel::initial();
    dispatch(&mut m, Key::Down);
    dispatch(&mut m, Key::Down);
    dispatch(&mut m, Key::Enter);
    dispatch(&mut m, Key::Up);
    assert_eq!(m.len(), 4);
    assert_eq!(m.item(0), "Item 1");
    assert_eq!(m.item(1), "Item 2");
    assert_eq!(m.item(2), "Item 3");
    assert_eq!(m.item(3), "New Item 4");
    assert_eq!(m.selected_index(), 1);
}

#[test]
fn quit_signal_leaves_model_alone() {
    let mut m = ViewModel::initial();
    let s = dispatch(&mut m, Key::Char('q'));
    assert_eq!(s, Signal::Terminate);
    assert_eq!(m.len(), 3);
    assert_eq!(m.selected_index(), 0);
}

#[test]
fn quit_tears_down_exactly_once() {
    let m = ViewModel::initial();
    let mut b = Browser::new(m);
    let mut teardowns = 0;
    let queue = [
        Key::Down,
        Key::Char('q'),
        Key::Char('q'),
        Key::Enter,
        Key::Down,
        Key::Char('q'),
    ];
    for k in queue {
        if b.on_event(k) {
            teardowns += 1;
        }
    }
    assert_eq!(teardowns, 1);
    assert!(b.is_done());
    assert_eq!(b.model().len(), 3);
    assert_eq!(b.model().selected_index(), 1);
}

#[test]
fn events_before_quit_still_apply() {
    let m = ViewModel::initial();
    let mut b = Browser::new(m);
    assert!(!b.on_event(Key::Enter));
    assert!(!b.on_event(Key::Down));
    assert!(b.on_event(Key::Char('q')));
    assert_eq!(b.model().len(), 4);
    assert_eq!(b.model().item(3), "New Item 4");
    assert_eq!(b.model().selected_index(), 1);
}

#[test]
fn synthesized_labels() {
    assert_eq!(new_item_label(0), "New Item 0");
    assert_eq!(new_item_label(1), "New Item 1");
    assert_eq!(new_item_label(9), "New Item 9");
    assert_eq!(new_item_label(10), "New Item 10");
    assert_eq!(new_item_label(305), "New Item 305");
    assert_eq!(new_item_label(18446744073709551615), "New Item 18446744073709551615");
}

#[test]
fn add_works() {
    assert_eq!(list_browser::add(2, 3), 5);
    assert_eq!(list_browser::add(-7, 7), 0);
}
