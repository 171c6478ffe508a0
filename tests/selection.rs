use brag_view::autocomplete::{contains_chars, matches_query, AutocompleteTextFieldState};
use brag_view::key::{KeyCode, KeyEvent};
use brag_view::loop_list::LoopListState;

fn names(list: &[&str]) -> Vec<String> {
    list.iter().map(|s| s.to_string()).collect()
}

#[test]
fn select_next_wraps_after_the_last() {
    let mut l = LoopListState::new(3);
    let mut seen = Vec::new();
    for _ in 0..4 {
        l.select_next();
        seen.push(l.selected());
    }
    assert_eq!(seen, vec![Some(0), Some(1), Some(2), Some(0)]);
}

#[test]
fn select_previous_from_nothing_selects_the_last() {
    let mut l = LoopListState::new(3);
    l.select_previous();
    assert_eq!(l.selected(), Some(2));
    l.select_previous();
    assert_eq!(l.selected(), Some(1));
    l.select_previous();
    l.select_previous();
    assert_eq!(l.selected(), Some(2));
}

#[test]
fn empty_list_never_selects() {
    let mut l = LoopListState::new(0);
    l.select_next();
    assert_eq!(l.selected(), None);
    l.select_previous();
    assert_eq!(l.selected(), None);
    l.select_first();
    assert_eq!(l.selected(), None);
    l.select_last();
    assert_eq!(l.selected(), None);
}

#[test]
fn first_last_and_builders() {
    let mut l = LoopListState::new(4).with_offset(2).with_selected(Some(1));
    assert_eq!(l.offset(), 2);
    assert_eq!(l.selected(), Some(1));
    assert_eq!(l.len(), 4);
    l.select_last();
    assert_eq!(l.selected(), Some(3));
    l.select_first();
    assert_eq!(l.selected(), Some(0));
}

#[test]
fn list_keys_follow_the_bindings() {
    let mut l = LoopListState::new(2);
    assert!(l.handle_key_event(&KeyEvent::plain(KeyCode::Down)));
    assert_eq!(l.selected(), Some(0));
    assert!(l.handle_key_event(&KeyEvent::plain(KeyCode::Char('j'))));
    assert_eq!(l.selected(), Some(1));
    assert!(l.handle_key_event(&KeyEvent::control('n')));
    assert_eq!(l.selected(), Some(0));
    assert!(l.handle_key_event(&KeyEvent::control('p')));
    assert_eq!(l.selected(), Some(1));
    assert!(l.handle_key_event(&KeyEvent::plain(KeyCode::Char('k'))));
    assert_eq!(l.selected(), Some(0));
    assert!(!l.handle_key_event(&KeyEvent::plain(KeyCode::Char('x'))));
    assert_eq!(l.selected(), Some(0));
}

#[test]
fn query_oo_keeps_the_items_that_contain_it() {
    let mut a = AutocompleteTextFieldState::new(names(&["Google", "Facebook", "Amazon"]));
    a.enter_char('o');
    a.enter_char('o');
    assert_eq!(a.filtered_items(), names(&["Google", "Facebook"]));
    a.enter_char('g');
    assert_eq!(a.filtered_items(), names(&["Google"]));
    assert_eq!(a.selected(), Some(0));
}

#[test]
fn empty_query_keeps_all_items_in_order() {
    let a = AutocompleteTextFieldState::new(names(&["Google", "Facebook", "Amazon"]));
    assert_eq!(a.filtered_items(), names(&["Google", "Facebook", "Amazon"]));
    assert_eq!(a.filtered_indices(), &vec![0, 1, 2]);
    assert_eq!(a.selected(), Some(0));
}

#[test]
fn filtering_ignores_case() {
    let mut a = AutocompleteTextFieldState::new(names(&["Google", "Facebook", "Amazon"]));
    a.enter_char('A');
    assert_eq!(a.filtered_items(), names(&["Facebook", "Amazon"]));
    a.delete_left_char();
    assert_eq!(a.filtered_items().len(), 3);
    assert!(matches_query("LinkedIn", "DIN"));
    assert!(!matches_query("Uber", "x"));
}

#[test]
fn no_match_leaves_no_selection() {
    let mut a = AutocompleteTextFieldState::new(names(&["Google"]));
    a.enter_char('z');
    assert!(a.filtered_items().is_empty());
    assert_eq!(a.selected(), None);
    assert_eq!(a.confirm(), None);
    assert_eq!(a.text(), "z");
}

#[test]
fn confirm_copies_the_selected_item_into_the_query() {
    let mut a = AutocompleteTextFieldState::new(names(&["Google", "Facebook", "Amazon"]));
    a.enter_char('a');
    a.select_next();
    assert_eq!(a.confirm(), Some("Amazon".to_string()));
    assert_eq!(a.text(), "Amazon");
    assert_eq!(a.text_field().cursor_index(), 6);
    assert_eq!(a.filtered_items(), names(&["Amazon"]));
}

#[test]
fn update_items_refilters_with_the_same_query() {
    let mut a = AutocompleteTextFieldState::new(names(&["Google"]));
    a.enter_char('b');
    assert!(a.filtered_items().is_empty());
    a.update_items(names(&["Airbnb", "Uber", "Apple"]));
    assert_eq!(a.text(), "b");
    assert_eq!(a.filtered_items(), names(&["Airbnb", "Uber"]));
    assert_eq!(a.selected(), Some(0));
}

#[test]
fn autocomplete_keys_follow_the_bindings() {
    let mut a = AutocompleteTextFieldState::new(names(&["Netflix", "Microsoft"]));
    assert!(a.handle_key_event(&KeyEvent::plain(KeyCode::Down)));
    assert_eq!(a.selected(), Some(1));
    assert!(a.handle_key_event(&KeyEvent::plain(KeyCode::Enter)));
    assert_eq!(a.text(), "Microsoft");
    assert!(a.handle_key_event(&KeyEvent::control('a')));
    assert!(a.handle_key_event(&KeyEvent::control('k')));
    assert_eq!(a.text(), "");
    assert_eq!(a.filtered_items().len(), 2);
    assert!(!a.handle_key_event(&KeyEvent::plain(KeyCode::Esc)));
}

#[test]
fn substring_search_on_characters() {
    assert!(contains_chars("hello", "ell"));
    assert!(contains_chars("hello", ""));
    assert!(contains_chars("日本語", "本語"));
    assert!(!contains_chars("hello", "hello!"));
    assert!(!contains_chars("", "a"));
}
