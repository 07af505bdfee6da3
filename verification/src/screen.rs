//! What a frame shows of the rooms and of their messages.
//!
//! Each piece of text on the screen follows from the state in one step:
//! nothing here changes the state, and nothing here draws.

use crate::shared_state::room_view;
use vstd::prelude::*;

verus! {

/// A room as the room list knows it.
pub struct RoomState {
    pub name: String,
    pub description: String,
}

/// One entry of the message box.
pub enum MessageBoxItem {
    Message { username: String, content: String },
    Notification(String),
}

/// A piece of text and how it is set.
#[derive(Clone, Debug, PartialEq, Eq)]
pub struct StyledText {
    pub text: String,
    pub bold: bool,
    pub italic: bool,
}

/// A piece of text as a sequence of characters and how it is set.
pub struct Styled {
    pub text: Seq<char>,
    pub bold: bool,
    pub italic: bool,
}

impl View for StyledText {
    type V = Styled;

    open spec fn view(&self) -> Styled {
        Styled { text: self.text@, bold: self.bold, italic: self.italic }
    }
}

/// `text` set plainly.
pub open spec fn plain(text: Seq<char>) -> Styled {
    Styled { text, bold: false, italic: false }
}

/// How a room is named on the screen: its name behind a `#`.
pub open spec fn room_label(name: Seq<char>) -> Seq<char> {
    "#"@ + name
}

/// Whether a room of the list stands out: while the list has no selection
/// of its own, the active room does.
pub open spec fn room_stands_out(
    name: Seq<char>,
    selected: Option<usize>,
    active_room: Option<Seq<char>>,
) -> bool {
    selected is None && active_room == Some(name)
}

/// The entry of `room` in the room list.
pub fn room_list_item(
    room: &RoomState,
    selected: Option<usize>,
    active_room: &Option<String>,
) -> (item: StyledText)
    ensures
        item@ == (Styled {
            text: room_label(room.name@),
            bold: room_stands_out(room.name@, selected, room_view(*active_room)),
            italic: false,
        }),
{
    let is_active = match active_room {
        Some(active_room) => *active_room == room.name,
        None => false,
    };
    StyledText {
        text: "#".to_owned().concat(room.name.as_str()),
        bold: selected.is_none() && is_active,
        italic: false,
    }
}

/// Whether `index` is the place of the first room of `rooms` that is called
/// `name`.
pub open spec fn is_first_room_named(rooms: Seq<RoomState>, name: Seq<char>, index: int) -> bool {
    &&& 0 <= index < rooms.len()
    &&& rooms[index].name@ == name
    &&& forall|earlier: int| 0 <= earlier < index ==> (#[trigger] rooms[earlier]).name@ != name
}

/// Whether no room of `rooms` is called `name`.
pub open spec fn no_room_named(rooms: Seq<RoomState>, name: Seq<char>) -> bool {
    forall|index: int| 0 <= index < rooms.len() ==> (#[trigger] rooms[index]).name@ != name
}

/// The place in `rooms` of the active room: of the first room whose name is
/// the active room's. `None` where no room is active or the list does not
/// hold it.
pub fn find_active_room(
    rooms: &Vec<RoomState>,
    active_room: &Option<String>,
) -> (found: Option<usize>)
    ensures
        match found {
            Some(index) => active_room matches Some(name) && is_first_room_named(
                rooms@,
                name@,
                index as int,
            ),
            None => active_room matches Some(name) ==> no_room_named(rooms@, name@),
        },
{
    match active_room {
        Some(name) => {
            let mut index: usize = 0;
            while index < rooms.len()
                invariant
                    index <= rooms.len(),
                    *active_room == Some(*name),
                    forall|earlier: int|
                        0 <= earlier < index ==> (#[trigger] rooms@[earlier]).name@ != name@,
                decreases rooms.len() - index,
            {
                if rooms[index].name == *name {
                    return Some(index);
                }
                index = index + 1;
            }
            None
        },
        None => None,
    }
}

/// What stands in place of a room's content while no room is chosen.
pub open spec fn select_room_notice() -> Seq<char> {
    "Please select a room."@
}

/// The line that tells which room is active: for a room `#name` with the
/// description `text`, the four pieces `on `, `#name` in bold, ` for ` and
/// `"text"` in italics.
pub open spec fn room_banner(room: RoomState) -> Seq<Styled> {
    seq![
        plain("on "@),
        Styled { text: room_label(room.name@), bold: true, italic: false },
        plain(" for "@),
        Styled { text: "\""@ + room.description@ + "\""@, bold: false, italic: true },
    ]
}

/// The views of the pieces of a line.
pub open spec fn styled_views(line: Seq<StyledText>) -> Seq<Styled> {
    line.map_values(|piece: StyledText| piece@)
}

/// The line above the messages: the banner of the active room where the
/// room list holds it, and otherwise the request to choose a room.
pub fn active_room_line(
    rooms: &Vec<RoomState>,
    active_room: &Option<String>,
) -> (line: Vec<StyledText>)
    ensures
        match active_room {
            Some(name) => if no_room_named(rooms@, name@) {
                styled_views(line@) == seq![plain(select_room_notice())]
            } else {
                exists|index: int|
                    is_first_room_named(rooms@, name@, index) && styled_views(line@)
                        == room_banner(rooms@[index])
            },
            None => styled_views(line@) == seq![plain(select_room_notice())],
        },
{
    let mut line: Vec<StyledText> = Vec::new();
    match find_active_room(rooms, active_room) {
        Some(index) => {
            let room = &rooms[index];
            line.push(StyledText { text: "on ".to_owned(), bold: false, italic: false });
            line.push(
                StyledText {
                    text: "#".to_owned().concat(room.name.as_str()),
                    bold: true,
                    italic: false,
                },
            );
            line.push(StyledText { text: " for ".to_owned(), bold: false, italic: false });
            line.push(
                StyledText {
                    text: "\"".to_owned().concat(room.description.as_str()).concat("\""),
                    bold: false,
                    italic: true,
                },
            );
            proof {
                assert(styled_views(line@) =~= room_banner(rooms@[index as int]));
                assert(is_first_room_named(rooms@, active_room->0@, index as int));
            }
        },
        None => {
            line.push(
                StyledText { text: "Please select a room.".to_owned(), bold: false, italic: false },
            );
            proof {
                assert(styled_views(line@) =~= seq![plain(select_room_notice())]);
            }
        },
    }
    line
}

/// How an entry of the message box reads: a message as `@user: text`, a
/// notification as its text in italics.
pub open spec fn message_text(item: MessageBoxItem) -> Styled {
    match item {
        MessageBoxItem::Message { username, content } => plain(
            "@"@ + username@ + ": "@ + content@,
        ),
        MessageBoxItem::Notification(content) => Styled {
            text: content@,
            bold: false,
            italic: true,
        },
    }
}

/// The line of one entry of the message box.
pub fn message_line(item: &MessageBoxItem) -> (line: StyledText)
    ensures
        line@ == message_text(*item),
{
    match item {
        MessageBoxItem::Message { username, content } => StyledText {
            text: "@".to_owned().concat(username.as_str()).concat(": ").concat(content.as_str()),
            bold: false,
            italic: false,
        },
        MessageBoxItem::Notification(content) => StyledText {
            text: content.clone(),
            bold: false,
            italic: true,
        },
    }
}

/// The lines of the message box: one for each message of the active room
/// in their order, none where the room has no messages yet, and the request
/// to choose a room where none is active.
pub fn message_lines(
    active_room: &Option<String>,
    messages: Option<&Vec<MessageBoxItem>>,
) -> (lines: Vec<StyledText>)
    ensures
        match (active_room, messages) {
            (Some(_), Some(messages)) => styled_views(lines@) == messages@.map_values(
                |item: MessageBoxItem| message_text(item),
            ),
            (Some(_), None) => lines@.len() == 0,
            (None, _) => styled_views(lines@) == seq![plain(select_room_notice())],
        },
{
    let mut lines: Vec<StyledText> = Vec::new();
    match active_room {
        Some(_) => {
            match messages {
                Some(messages) => {
                    let mut index: usize = 0;
                    while index < messages.len()
                        invariant
                            index <= messages.len(),
                            lines@.len() == index,
                            forall|done: int|
                                0 <= done < index ==> (#[trigger] lines@[done])@ == message_text(
                                    messages@[done],
                                ),
                        decreases messages.len() - index,
                    {
                        lines.push(message_line(&messages[index]));
                        index = index + 1;
                    }
                    proof {
                        assert(styled_views(lines@) =~= messages@.map_values(
                            |item: MessageBoxItem| message_text(item),
                        ));
                    }
                },
                None => {},
            }
        },
        None => {
            lines.push(
                StyledText { text: "Please select a room.".to_owned(), bold: false, italic: false },
            );
            proof {
                assert(styled_views(lines@) =~= seq![plain(select_room_notice())]);
            }
        },
    }
    lines
}

} // verus!
