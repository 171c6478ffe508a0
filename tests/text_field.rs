use brag_view::controller::{Mode, TextFieldController};
use brag_view::key::{KeyCode, KeyEvent};
use brag_view::text_field::TextFieldState;

#[test]
fn typing_then_moving_left_then_typing_inserts_in_the_middle() {
    let mut t = TextFieldState::default();
    t.enter_char('H');
    t.enter_char('i');
    assert_eq!(t.text(), "Hi");
    assert_eq!(t.cursor_index(), 2);
    t.move_cursor_left();
    assert_eq!(t.cursor_index(), 1);
    t.enter_char('X');
    assert_eq!(t.text(), "HXi");
    assert_eq!(t.cursor_index(), 2);
}

#[test]
fn set_text_round_trips_and_puts_cursor_at_end() {
    let mut t = TextFieldState::default();
    t.set_text("héllo wörld 日本".to_string());
    assert_eq!(t.text(), "héllo wörld 日本");
    assert_eq!(t.cursor_index(), 14);
    t.set_text(String::new());
    assert_eq!(t.text(), "");
    assert_eq!(t.cursor_index(), 0);
}

#[test]
fn multibyte_insert_and_delete_never_split_a_character() {
    let mut t = TextFieldState::default();
    t.enter_char('é');
    t.enter_char('a');
    t.move_cursor_to_start();
    t.enter_char('ß');
    assert_eq!(t.text(), "ßéa");
    assert_eq!(t.cursor_index(), 1);
    assert_eq!(t.byte_index(), 2);
    t.move_cursor_right();
    assert_eq!(t.byte_index(), 4);
    t.delete_left_char();
    assert_eq!(t.text(), "ßa");
    assert_eq!(t.cursor_index(), 1);
    t.delete_right_char();
    assert_eq!(t.text(), "ß");
    t.delete_left_char();
    assert_eq!(t.text(), "");
    assert_eq!(t.cursor_index(), 0);
}

#[test]
fn moves_clamp_at_both_ends() {
    let mut t = TextFieldState::default();
    t.move_cursor_left();
    assert_eq!(t.cursor_index(), 0);
    t.set_text("ab".to_string());
    t.move_cursor_right();
    assert_eq!(t.cursor_index(), 2);
    t.move_cursor_to_start();
    t.move_cursor_left();
    assert_eq!(t.cursor_index(), 0);
    t.move_cursor_to_end();
    assert_eq!(t.cursor_index(), 2);
    assert_eq!(t.clamp_cursor(10), 2);
    assert_eq!(t.clamp_cursor(1), 1);
}

#[test]
fn deletes_at_the_edges_change_no_text() {
    let mut t = TextFieldState::default();
    t.set_text("ab".to_string());
    t.delete_right_char();
    assert_eq!(t.text(), "ab");
    t.move_cursor_to_start();
    t.delete_left_char();
    assert_eq!(t.text(), "ab");
    assert_eq!(t.cursor_index(), 0);
}

#[test]
fn delete_right_all_truncates_at_cursor() {
    let mut t = TextFieldState::default();
    t.set_text("hello".to_string());
    t.move_cursor_left();
    t.move_cursor_left();
    t.delete_right_all();
    assert_eq!(t.text(), "hel");
    assert_eq!(t.cursor_index(), 3);
}

#[test]
fn every_mutation_marks_the_buffer_modified() {
    let mut t = TextFieldState::default();
    assert!(!t.has_modified());
    t.move_cursor_left();
    assert!(!t.has_modified());
    t.delete_left_char();
    assert!(t.has_modified());
    let mut u = TextFieldState::default();
    u.enter_char('a');
    assert!(u.has_modified());
    let mut v = TextFieldState::default();
    v.set_text("x".to_string());
    assert!(v.has_modified());
    let w = TextFieldState::seeded("2024-01-01".to_string());
    assert!(!w.has_modified());
    assert_eq!(w.text(), "2024-01-01");
    assert_eq!(w.cursor_index(), 10);
}

#[test]
fn control_characters_take_no_column() {
    let mut t = TextFieldState::default();
    t.set_text("a	b".to_string());
    assert_eq!(t.unicode_index(), 2);
}

#[test]
fn display_column_counts_wide_characters_twice() {
    let mut t = TextFieldState::default();
    t.set_text("日本a".to_string());
    assert_eq!(t.unicode_index(), 5);
    t.move_cursor_left();
    assert_eq!(t.unicode_index(), 4);
    t.move_cursor_to_start();
    assert_eq!(t.unicode_index(), 0);
}

#[test]
fn text_keys_follow_the_bindings() {
    let mut t = TextFieldState::default();
    assert!(t.handle_key_event(&KeyEvent::plain(KeyCode::Char('a'))));
    assert!(t.handle_key_event(&KeyEvent::plain(KeyCode::Char('b'))));
    assert!(t.handle_key_event(&KeyEvent::control('a')));
    assert_eq!(t.cursor_index(), 0);
    assert!(t.handle_key_event(&KeyEvent::control('d')));
    assert_eq!(t.text(), "b");
    assert!(t.handle_key_event(&KeyEvent::control('e')));
    assert_eq!(t.cursor_index(), 1);
    assert!(t.handle_key_event(&KeyEvent::control('h')));
    assert_eq!(t.text(), "");
    assert!(!t.handle_key_event(&KeyEvent::plain(KeyCode::Up)));
    assert!(!t.handle_key_event(&KeyEvent::control('z')));
    assert_eq!(t.text(), "");
}

#[test]
fn controller_edits_by_character() {
    let mut c = TextFieldController::default();
    c.enter_char('ü');
    c.enter_char('b');
    assert_eq!(c.text(), "üb");
    assert_eq!(c.byte_index(), 3);
    c.move_cursor_left();
    c.delete_char();
    assert_eq!(c.text(), "b");
    assert_eq!(c.cursor_index(), 0);
    c.delete_char();
    assert_eq!(c.text(), "b");
    c.move_cursor_right();
    c.move_cursor_right();
    assert_eq!(c.cursor_index(), 1);
    assert_eq!(c.clamp_cursor(9), 1);
    c.reset_cursor();
    assert_eq!(c.cursor_index(), 0);
    assert_eq!(c.current_mode(), Mode::Display);
    c.mode(Mode::Edit);
    assert!(c.current_mode().is_edit());
}
