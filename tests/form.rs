use brag_view::brag::{Impact, Type};
use brag_view::error::Error;
use brag_view::form::{App, Effect};
use brag_view::key::{KeyCode, KeyEvent};
use brag_view::model::{self, Field};
use brag_view::screen::{organizations, SelectableField, State, Status};
use brag_view::type_list::TypeList;
use brag_view::validation::{date_error, validate_date, validate_title, ValidationError};

fn fresh() -> App {
    App::from_state(State::new("2024-05-01".to_string()))
}

fn press(app: &mut App, code: KeyCode) -> Effect {
    app.handle_key_event(&KeyEvent::plain(code))
}

#[test]
fn forward_from_end_date_lands_on_advanced_never_inside_the_group() {
    let mut s = State::new(String::new());
    s.selecting_field = SelectableField::EndDate;
    s.select_next_field();
    assert_eq!(s.selecting_field, SelectableField::Advanced);
    s.select_next_field();
    assert_eq!(s.selecting_field, SelectableField::Advanced);
}

#[test]
fn expanding_the_group_lets_focus_enter_it() {
    let mut s = State::new(String::new());
    s.selecting_field = SelectableField::Advanced;
    s.toggle_expand_advanced();
    assert!(s.is_expand_advanced);
    s.select_next_field();
    assert_eq!(s.selecting_field, SelectableField::Organization);
    s.select_next_field();
    assert_eq!(s.selecting_field, SelectableField::Title);
    s.select_previous_field();
    assert_eq!(s.selecting_field, SelectableField::Organization);
}

#[test]
fn backward_from_the_first_field_stops_on_the_collapsed_toggle() {
    let mut s = State::new(String::new());
    s.select_previous_field();
    assert_eq!(s.selecting_field, SelectableField::Advanced);
}

#[test]
fn toggle_elsewhere_than_the_toggle_changes_nothing() {
    let mut s = State::new(String::new());
    s.toggle_expand_advanced();
    assert!(!s.is_expand_advanced);
}

#[test]
fn field_order_lookup() {
    assert_eq!(SelectableField::Title.idx(), 0);
    assert_eq!(SelectableField::Organization.idx(), 6);
    assert_eq!(SelectableField::EndDate.next(), Some(SelectableField::Advanced));
    assert_eq!(SelectableField::Organization.next(), None);
    assert_eq!(SelectableField::Title.prev(), None);
    assert_eq!(SelectableField::Advanced.title(), "Advanced");
    assert_eq!(SelectableField::Title.title(), "\u{270f}\u{fe0f} Title");
    assert_eq!(Field::Title.idx(), 0);
    assert_eq!(Field::Title.next(), Some(Field::Type));
    assert_eq!(Field::Impact.next(), None);
    assert_eq!(Field::Type.prev(), Some(Field::Title));
    assert_eq!(Field::Title.prev(), None);
}

#[test]
fn required_error_shows_only_after_a_keystroke() {
    let mut app = fresh();
    assert_eq!(app.state().title_error(), None);
    assert_eq!(press(&mut app, KeyCode::Char('a')), Effect::Consumed);
    assert_eq!(app.state().title_error(), None);
    assert_eq!(press(&mut app, KeyCode::Backspace), Effect::Consumed);
    assert_eq!(app.state().title.text(), "");
    assert_eq!(app.state().title_error(), Some(ValidationError::Required));
    assert_eq!(ValidationError::Required.message(), "Required");
}

#[test]
fn title_rules() {
    assert_eq!(validate_title(""), Some(ValidationError::Required));
    assert_eq!(validate_title("ok"), None);
    assert_eq!(validate_title(&"a".repeat(100)), None);
    assert_eq!(validate_title(&"a".repeat(101)), Some(ValidationError::TooLong));
    assert_eq!(validate_title(&"é".repeat(51)), Some(ValidationError::TooLong));
    assert_eq!(ValidationError::TooLong.message(), "Too long");
}

#[test]
fn date_rules() {
    assert_eq!(validate_date("2024", true), None);
    assert_eq!(validate_date("2024-01", true), None);
    assert_eq!(validate_date("2024-01-01", true), None);
    assert_eq!(validate_date("2024-1", true), Some(ValidationError::InvalidDate));
    assert_eq!(validate_date("24-01-01", false), Some(ValidationError::InvalidDate));
    assert_eq!(validate_date("", true), Some(ValidationError::Required));
    assert_eq!(validate_date("", false), None);
    assert_eq!(date_error("x", false, None), Some(ValidationError::InvalidDate));
    assert_eq!(date_error("x", false, Some(true)), None);
    assert_eq!(ValidationError::InvalidDate.message(), "Invalid date");
}

#[test]
fn date_errors_show_once_modified() {
    let mut app = fresh();
    assert_eq!(app.state().start_date.text(), "2024-05-01");
    assert_eq!(app.state().start_date_error(), None);
    press(&mut app, KeyCode::Tab);
    press(&mut app, KeyCode::Tab);
    press(&mut app, KeyCode::Tab);
    assert_eq!(app.state().selecting_field, SelectableField::StartDate);
    press(&mut app, KeyCode::Backspace);
    assert_eq!(app.state().start_date.text(), "2024-05-0");
    assert_eq!(app.state().start_date_error(), Some(ValidationError::InvalidDate));
    assert_eq!(app.state().end_date_error(), None);
}

#[test]
fn end_to_end_typing_in_the_title() {
    let mut app = fresh();
    assert!(app.state().is_edit_mode);
    press(&mut app, KeyCode::Char('H'));
    press(&mut app, KeyCode::Char('i'));
    assert_eq!(app.state().title.text(), "Hi");
    assert_eq!(app.state().title.cursor_index(), 2);
    press(&mut app, KeyCode::Left);
    assert_eq!(app.state().title.cursor_index(), 1);
    press(&mut app, KeyCode::Char('X'));
    assert_eq!(app.state().title.text(), "HXi");
    assert_eq!(app.state().title.cursor_index(), 2);
}

#[test]
fn global_keys_act_in_any_mode() {
    let mut app = fresh();
    assert_eq!(app.handle_key_event(&KeyEvent::control('o')), Effect::OpenExternalEditor);
    assert!(app.should_clear_terminal());
    app.finish_edit_content(Some("notes".to_string()));
    assert_eq!(app.state().content, "notes");
    app.finish_edit_content(None);
    assert_eq!(app.state().content, "notes");
    app.terminal_cleared();
    assert!(!app.should_clear_terminal());
    assert!(!app.should_quit());
    assert_eq!(app.handle_key_event(&KeyEvent::control('c')), Effect::Quit);
    assert!(app.should_quit());
}

#[test]
fn select_mode_navigates_and_enter_starts_editing() {
    let mut app = fresh();
    assert_eq!(press(&mut app, KeyCode::Esc), Effect::Consumed);
    assert_eq!(app.handle_key_event(&KeyEvent::control('n')), Effect::Consumed);
    assert_eq!(app.state().selecting_field, SelectableField::Type);
    assert_eq!(app.handle_key_event(&KeyEvent::control('p')), Effect::Consumed);
    assert_eq!(app.state().selecting_field, SelectableField::Title);
    assert_eq!(app.handle_key_event(&KeyEvent::control('x')), Effect::Unhandled);
    assert!(!app.state().is_edit_mode);
    assert_eq!(press(&mut app, KeyCode::Char('j')), Effect::Consumed);
    assert_eq!(app.state().selecting_field, SelectableField::Type);
    assert_eq!(press(&mut app, KeyCode::Char('x')), Effect::Unhandled);
    assert_eq!(press(&mut app, KeyCode::Up), Effect::Consumed);
    assert_eq!(app.state().selecting_field, SelectableField::Title);
    assert_eq!(app.state().status_of(SelectableField::Title), Status::Selecting);
    assert_eq!(app.state().status_of(SelectableField::Type), Status::Displaying);
    assert_eq!(press(&mut app, KeyCode::Enter), Effect::Consumed);
    assert!(app.state().is_edit_mode);
    assert_eq!(app.state().status_of(SelectableField::Title), Status::Editing);
}

#[test]
fn edit_mode_forwards_keys_to_the_focused_list() {
    let mut app = fresh();
    press(&mut app, KeyCode::Tab);
    assert_eq!(app.state().typ.selected(), Some(0));
    assert_eq!(press(&mut app, KeyCode::Down), Effect::Consumed);
    assert_eq!(app.state().typ.selected(), Some(1));
    assert_eq!(press(&mut app, KeyCode::Char('z')), Effect::Unhandled);
    assert_eq!(press(&mut app, KeyCode::Enter), Effect::Consumed);
    assert_eq!(app.state().selecting_field, SelectableField::Impact);
}

#[test]
fn organization_field_filters_and_confirms() {
    let mut app = fresh();
    press(&mut app, KeyCode::BackTab);
    assert_eq!(app.state().selecting_field, SelectableField::Advanced);
    assert_eq!(press(&mut app, KeyCode::Enter), Effect::Consumed);
    assert!(app.state().is_expand_advanced);
    press(&mut app, KeyCode::Tab);
    assert_eq!(app.state().selecting_field, SelectableField::Organization);
    press(&mut app, KeyCode::Char('u'));
    press(&mut app, KeyCode::Char('b'));
    assert_eq!(app.state().organization.filtered_items(), vec!["Uber".to_string()]);
    assert_eq!(press(&mut app, KeyCode::Enter), Effect::Consumed);
    assert_eq!(app.state().organization.text(), "Uber");
    assert_eq!(app.state().selecting_field, SelectableField::Organization);
}

#[test]
fn before_render_marks_the_focused_text_field() {
    let mut app = fresh();
    app.before_render();
    assert!(app.state().title.is_editing());
    assert!(!app.state().start_date.is_editing());
    press(&mut app, KeyCode::Tab);
    app.before_render();
    assert!(!app.state().title.is_editing());
}

#[test]
fn default_state_starts_on_the_title_with_a_date() {
    let app = App::default();
    assert_eq!(app.state().selecting_field, SelectableField::Title);
    assert!(!app.state().start_date.text().is_empty());
    assert_eq!(validate_date(app.state().start_date.text(), true), None);
    assert_eq!(organizations().len(), 10);
}

#[test]
fn labels_of_types_and_impacts() {
    assert_eq!(Type::Project.text(), "Project");
    assert_eq!(Type::OutsideOfWork.text(), "Outside of Work");
    assert_eq!(Type::from_index(1), Some(Type::CollaborationAndMembership));
    assert_eq!(Type::from_index(6), None);
    assert_eq!(Impact::Extraordinary.text(), "Extraordinary");
    assert_eq!(Impact::from_index(4), Some(Impact::Extraordinary));
    assert_eq!(Impact::from_index(5), None);
}

#[test]
fn minimal_model_quits_only_when_nothing_is_chosen() {
    let mut s = model::State::empty();
    s.selecting_field = Some(Field::Type);
    assert!(!s.can_quit());
    s.quit();
    assert!(!s.should_quit);
    s.unselect();
    s.quit();
    assert!(s.should_quit);
    assert_eq!(s.inputs.typ, Type::Project);
}

#[test]
fn error_text_and_type_list() {
    let e = Error::Unknown { message: "boom".to_string() };
    assert_eq!(e.describe(), "unknown error: boom");
    let l = TypeList::default(vec!["Project".to_string()]);
    assert_eq!(l.items(), &vec!["Project".to_string()]);
}
