use chat_input::events::{Action, App, Event, SendMessageCommand, WriteOutcome};
use chat_input::input_box::InputBox;
use chat_input::keys::{KeyCode, KeyEvent, KeyEventKind};
use chat_input::render::{Color, Rect};
use chat_input::shared_state::{Section, SharedState};

fn press(code: KeyCode) -> KeyEvent {
    KeyEvent::press(code)
}

fn type_text(app: &mut App, text: &str) {
    for c in text.chars() {
        assert_eq!(app.handle_key_event(press(KeyCode::Char(c))), Action::Nothing);
    }
}

fn editing(room: Option<&str>, text: &str) -> App {
    let mut app = App::new();
    app.set_active_room(room.map(|name| name.to_string()));
    app.activate(Section::MessageInput);
    type_text(&mut app, text);
    app
}

#[test]
fn new_app_has_no_room_and_no_focus() {
    let app = App::new();
    assert_eq!(app.shared_state().active_room, None);
    assert_eq!(app.shared_state().active_section, None);
    assert_eq!(app.shared_state().last_hovered_section, Section::RoomList);
    assert_eq!(app.input_box().text(), "");
    assert_eq!(app.input_box().cursor_position(), 0);
    assert!(!app.is_write_pending());
}

#[test]
fn new_shared_state_is_unfocused() {
    let shared_state = SharedState::new();
    assert_eq!(shared_state.active_room, None);
    assert_eq!(shared_state.active_section, None);
    assert!(!shared_state.has_focus(Section::MessageInput));
    assert!(!shared_state.has_focus(Section::RoomList));
}

#[test]
fn submit_without_room_writes_nothing_and_loses_focus() {
    let mut app = editing(None, "hello");
    assert_eq!(app.input_box().text(), "hello");
    let action = app.handle_key_event(press(KeyCode::Enter));
    assert_eq!(action, Action::Nothing);
    assert_eq!(app.input_box().text(), "");
    assert_eq!(app.input_box().cursor_position(), 0);
    assert_eq!(app.shared_state().active_section, None);
    assert!(!app.is_write_pending());
}

#[test]
fn submit_with_room_writes_once_and_resets_after_success() {
    let mut app = editing(Some("general"), "hello");
    let action = app.handle_key_event(press(KeyCode::Enter));
    assert_eq!(
        action,
        Action::Write(SendMessageCommand {
            room: "general".to_string(),
            content: "hello".to_string()
        })
    );
    assert!(app.is_write_pending());
    app.write_completed(WriteOutcome::Sent);
    assert_eq!(app.input_box().text(), "");
    assert_eq!(app.input_box().cursor_position(), 0);
    assert_eq!(app.shared_state().active_section, None);
    assert!(!app.is_write_pending());
    assert_eq!(app.shared_state().active_room, Some("general".to_string()));
}

#[test]
fn submit_with_room_resets_after_failure_too() {
    let mut app = editing(Some("general"), "hello");
    let action = app.handle_event(Event::Key(press(KeyCode::Enter)));
    assert_eq!(
        action,
        Action::Write(SendMessageCommand {
            room: "general".to_string(),
            content: "hello".to_string()
        })
    );
    let action = app.handle_event(Event::WriteCompleted(WriteOutcome::Failed));
    assert_eq!(action, Action::Nothing);
    assert_eq!(app.input_box().text(), "");
    assert_eq!(app.input_box().cursor_position(), 0);
    assert_eq!(app.shared_state().active_section, None);
    assert!(!app.is_write_pending());
}

#[test]
fn no_second_write_while_one_is_pending() {
    let mut app = editing(Some("general"), "hello");
    assert!(matches!(app.handle_key_event(press(KeyCode::Enter)), Action::Write(_)));
    for code in [KeyCode::Enter, KeyCode::Char('x'), KeyCode::Backspace, KeyCode::Left] {
        assert_eq!(app.handle_key_event(press(code)), Action::Nothing);
        assert_eq!(app.input_box().text(), "hello");
        assert_eq!(app.input_box().cursor_position(), 5);
        assert!(app.is_write_pending());
        assert_eq!(app.shared_state().active_section, Some(Section::MessageInput));
    }
    app.write_completed(WriteOutcome::Sent);
    assert!(!app.is_write_pending());
}

#[test]
fn submit_of_an_empty_line_is_still_a_write() {
    let mut app = editing(Some("general"), "");
    assert_eq!(
        app.handle_key_event(press(KeyCode::Enter)),
        Action::Write(SendMessageCommand { room: "general".to_string(), content: String::new() })
    );
}

#[test]
fn only_a_press_submits() {
    for kind in [KeyEventKind::Release, KeyEventKind::Repeat] {
        let mut app = editing(Some("general"), "hello");
        let action = app.handle_key_event(KeyEvent { code: KeyCode::Enter, kind });
        assert_eq!(action, Action::Nothing);
        assert_eq!(app.input_box().text(), "hello");
        assert_eq!(app.shared_state().active_section, Some(Section::MessageInput));
        assert!(!app.is_write_pending());
        let action = app.handle_key_event(KeyEvent { code: KeyCode::Char('x'), kind });
        assert_eq!(action, Action::Nothing);
        assert_eq!(app.input_box().text(), "hello");
    }
}

#[test]
fn keys_do_nothing_without_focus_on_the_input() {
    let mut app = App::new();
    app.set_active_room(Some("general".to_string()));
    for code in [KeyCode::Char('x'), KeyCode::Enter, KeyCode::Backspace] {
        assert_eq!(app.handle_key_event(press(code)), Action::Nothing);
    }
    assert_eq!(app.input_box().text(), "");
    assert_eq!(app.shared_state().active_section, None);
    app.activate(Section::RoomList);
    for code in [KeyCode::Char('x'), KeyCode::Enter, KeyCode::Backspace] {
        assert_eq!(app.handle_key_event(press(code)), Action::Nothing);
    }
    assert_eq!(app.input_box().text(), "");
    assert_eq!(app.shared_state().active_section, Some(Section::RoomList));
    assert!(!app.is_write_pending());
}

#[test]
fn editing_keys_reach_the_input_box() {
    let mut app = editing(None, "añ世");
    assert_eq!(app.handle_key_event(press(KeyCode::Left)), Action::Nothing);
    assert_eq!(app.handle_key_event(press(KeyCode::Backspace)), Action::Nothing);
    assert_eq!(app.input_box().text(), "a世");
    assert_eq!(app.input_box().cursor_position(), 1);
    assert_eq!(app.handle_key_event(press(KeyCode::Right)), Action::Nothing);
    assert_eq!(app.input_box().cursor_position(), 2);
    assert_eq!(app.handle_key_event(press(KeyCode::Other)), Action::Nothing);
    assert_eq!(app.input_box().text(), "a世");
}

#[test]
fn activation_keeps_what_was_typed() {
    let mut app = editing(None, "draft");
    app.activate(Section::RoomList);
    assert_eq!(app.shared_state().active_section, Some(Section::RoomList));
    assert_eq!(app.input_box().text(), "draft");
    app.activate(Section::MessageInput);
    assert_eq!(app.input_box().text(), "draft");
    assert_eq!(app.input_box().cursor_position(), 5);
}

#[test]
fn deactivation_of_the_input_throws_the_line_away() {
    let mut app = editing(None, "draft");
    app.deactivate();
    assert_eq!(app.shared_state().active_section, None);
    assert_eq!(app.input_box().text(), "");
    assert_eq!(app.input_box().cursor_position(), 0);
}

#[test]
fn deactivation_of_another_section_leaves_the_line() {
    let mut app = editing(None, "draft");
    app.activate(Section::RoomList);
    app.deactivate();
    assert_eq!(app.shared_state().active_section, None);
    assert_eq!(app.input_box().text(), "draft");
}

#[test]
fn completion_without_a_pending_write_changes_nothing() {
    let mut app = editing(Some("general"), "draft");
    app.write_completed(WriteOutcome::Sent);
    assert_eq!(app.input_box().text(), "draft");
    assert_eq!(app.shared_state().active_section, Some(Section::MessageInput));
    assert!(!app.is_write_pending());
}

#[test]
fn events_do_what_the_methods_do() {
    let mut app = App::new();
    assert_eq!(app.handle_event(Event::RoomSelected(Some("rust".to_string()))), Action::Nothing);
    assert_eq!(app.shared_state().active_room, Some("rust".to_string()));
    assert_eq!(app.handle_event(Event::Hover(Section::MessageInput)), Action::Nothing);
    assert_eq!(app.shared_state().last_hovered_section, Section::MessageInput);
    assert_eq!(app.handle_event(Event::Activate(Section::MessageInput)), Action::Nothing);
    assert_eq!(app.shared_state().active_section, Some(Section::MessageInput));
    assert_eq!(app.handle_event(Event::Key(press(KeyCode::Char('y')))), Action::Nothing);
    assert_eq!(app.input_box().text(), "y");
    assert_eq!(app.handle_event(Event::Deactivate), Action::Nothing);
    assert_eq!(app.shared_state().active_section, None);
    assert_eq!(app.input_box().text(), "");
    assert_eq!(app.handle_event(Event::RoomSelected(None)), Action::Nothing);
    assert_eq!(app.shared_state().active_room, None);
}

#[test]
fn submit_message_takes_room_and_text() {
    let mut input_box = InputBox::new();
    input_box.set_text("héllo");
    let command = input_box.submit_message("general".to_string());
    assert_eq!(command.room, "general");
    assert_eq!(command.content, "héllo");
    assert_eq!(input_box.text(), "héllo");
}

#[test]
fn border_color_prefers_the_active_section() {
    let mut app = App::new();
    assert_eq!(app.calculate_border_color(Section::RoomList), Color::Blue);
    assert_eq!(app.calculate_border_color(Section::MessageInput), Color::Reset);
    app.activate(Section::MessageInput);
    assert_eq!(app.calculate_border_color(Section::MessageInput), Color::Yellow);
    assert_eq!(app.calculate_border_color(Section::RoomList), Color::Blue);
    app.activate(Section::RoomList);
    assert_eq!(app.calculate_border_color(Section::RoomList), Color::Yellow);
    assert_eq!(app.calculate_border_color(Section::MessageInput), Color::Reset);
    app.hover(Section::MessageInput);
    assert_eq!(app.calculate_border_color(Section::MessageInput), Color::Blue);
    assert_eq!(app.calculate_border_color(Section::RoomList), Color::Yellow);
    app.deactivate();
    assert_eq!(app.calculate_border_color(Section::RoomList), Color::Reset);
    assert_eq!(app.calculate_border_color(Section::MessageInput), Color::Blue);
}

#[test]
fn input_frame_shows_the_cursor_only_with_focus() {
    let area = Rect { x: 20, y: 30, width: 60, height: 3 };
    let mut app = editing(None, "世a");
    let frame = app.render_input_box(area).unwrap();
    assert_eq!(frame.text, "世a");
    assert_eq!(frame.title, "Input");
    assert_eq!(frame.area, area);
    assert_eq!(frame.border_color, Color::Yellow);
    assert_eq!(frame.cursor, Some((24, 31)));
    app.activate(Section::RoomList);
    let frame = app.render_input_box(area).unwrap();
    assert_eq!(frame.text, "世a");
    assert_eq!(frame.border_color, Color::Reset);
    assert_eq!(frame.cursor, None);
}

#[test]
fn input_frame_is_none_where_the_cursor_leaves_the_screen() {
    let app = editing(None, "ab");
    assert!(app.render_input_box(Rect { x: 65533, y: 0, width: 1, height: 3 }).is_none());
    assert_eq!(
        app.render_input_box(Rect { x: 65532, y: 0, width: 1, height: 3 }).unwrap().cursor,
        Some((65535, 1))
    );
    assert!(app.render_input_box(Rect { x: 0, y: 65535, width: 1, height: 3 }).is_none());
}
