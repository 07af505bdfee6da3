use chat_input::screen::{
    active_room_line, find_active_room, message_line, message_lines, room_list_item,
    MessageBoxItem, RoomState, StyledText,
};

fn room(name: &str, description: &str) -> RoomState {
    RoomState { name: name.to_string(), description: description.to_string() }
}

fn plain(text: &str) -> StyledText {
    StyledText { text: text.to_string(), bold: false, italic: false }
}

fn rooms() -> Vec<RoomState> {
    vec![room("general", "Anything goes"), room("rust", "Crabs"), room("rust", "Second")]
}

#[test]
fn room_list_item_is_the_name_behind_a_hash() {
    let item = room_list_item(&room("general", "x"), Some(0), &None);
    assert_eq!(item, plain("#general"));
    let item = room_list_item(&room("", "x"), Some(0), &None);
    assert_eq!(item, plain("#"));
}

#[test]
fn active_room_is_bold_only_without_a_selection() {
    let general = room("general", "x");
    let active = Some("general".to_string());
    assert!(room_list_item(&general, None, &active).bold);
    assert!(!room_list_item(&general, Some(0), &active).bold);
    assert!(!room_list_item(&general, None, &Some("rust".to_string())).bold);
    assert!(!room_list_item(&general, None, &None).bold);
    assert_eq!(room_list_item(&general, None, &active).text, "#general");
    assert!(!room_list_item(&general, None, &active).italic);
}

#[test]
fn find_active_room_gives_the_first_match() {
    assert_eq!(find_active_room(&rooms(), &Some("general".to_string())), Some(0));
    assert_eq!(find_active_room(&rooms(), &Some("rust".to_string())), Some(1));
    assert_eq!(find_active_room(&rooms(), &Some("go".to_string())), None);
    assert_eq!(find_active_room(&rooms(), &None), None);
    assert_eq!(find_active_room(&Vec::new(), &Some("general".to_string())), None);
}

#[test]
fn active_room_line_names_room_and_description() {
    let line = active_room_line(&rooms(), &Some("rust".to_string()));
    assert_eq!(
        line,
        vec![
            plain("on "),
            StyledText { text: "#rust".to_string(), bold: true, italic: false },
            plain(" for "),
            StyledText { text: "\"Crabs\"".to_string(), bold: false, italic: true },
        ]
    );
}

#[test]
fn active_room_line_asks_for_a_room() {
    assert_eq!(active_room_line(&rooms(), &None), vec![plain("Please select a room.")]);
    assert_eq!(
        active_room_line(&rooms(), &Some("go".to_string())),
        vec![plain("Please select a room.")]
    );
}

#[test]
fn message_line_of_a_message_and_of_a_notification() {
    let message = MessageBoxItem::Message {
        username: "jane".to_string(),
        content: "hello there".to_string(),
    };
    assert_eq!(message_line(&message), plain("@jane: hello there"));
    let notification = MessageBoxItem::Notification("jane joined".to_string());
    assert_eq!(
        message_line(&notification),
        StyledText { text: "jane joined".to_string(), bold: false, italic: true }
    );
}

#[test]
fn message_lines_follow_the_messages() {
    let messages = vec![
        MessageBoxItem::Notification("jane joined".to_string()),
        MessageBoxItem::Message { username: "jane".to_string(), content: "hi".to_string() },
        MessageBoxItem::Message { username: "john".to_string(), content: "世界".to_string() },
    ];
    let lines = message_lines(&Some("general".to_string()), Some(&messages));
    assert_eq!(
        lines,
        vec![
            StyledText { text: "jane joined".to_string(), bold: false, italic: true },
            plain("@jane: hi"),
            plain("@john: 世界"),
        ]
    );
}

#[test]
fn message_lines_without_messages_or_room() {
    assert_eq!(message_lines(&Some("general".to_string()), None), Vec::new());
    assert_eq!(message_lines(&Some("general".to_string()), Some(&Vec::new())), Vec::new());
    assert_eq!(message_lines(&None, None), vec![plain("Please select a room.")]);
    let messages = vec![MessageBoxItem::Notification("x".to_string())];
    assert_eq!(message_lines(&None, Some(&messages)), vec![plain("Please select a room.")]);
}
