//! Focus, key routing and submission.
//!
//! The program around this library reads key events, writes commands to
//! the network and waits for the write to end. What happens to the state
//! on each of these events, and what is to be written, is decided here:
//! every event takes a state to the next state and to an action, and the
//! program carries the action out.

use crate::edit_state::EditState;
use crate::input_box::InputBox;
use crate::keys::{KeyCode, KeyEvent, KeyEventKind};
use crate::render::{cursor_fits_screen, is_frame_of, Color, InputBoxFrame, Rect, RenderProps};
use crate::shared_state::{room_view, Section, SharedState};
use vstd::prelude::*;

verus! {

/// The command that sends a message to a room.
#[derive(Clone, Debug, PartialEq, Eq)]
pub struct SendMessageCommand {
    pub room: String,
    pub content: String,
}

/// A command as two sequences of characters.
pub struct Message {
    pub room: Seq<char>,
    pub content: Seq<char>,
}

impl View for SendMessageCommand {
    type V = Message;

    open spec fn view(&self) -> Message {
        Message { room: self.room@, content: self.content@ }
    }
}

/// What the program is asked to do after an event.
#[derive(Clone, Debug, PartialEq, Eq)]
pub enum Action {
    /// Nothing is to be done.
    Nothing,
    /// Write this command to the network, wait until the write has ended,
    /// and report the end with [`Event::WriteCompleted`].
    Write(SendMessageCommand),
}

/// An action with its command as sequences of characters.
pub enum Request {
    Nothing,
    Write(Message),
}

impl View for Action {
    type V = Request;

    open spec fn view(&self) -> Request {
        match self {
            Action::Nothing => Request::Nothing,
            Action::Write(command) => Request::Write(command@),
        }
    }
}

/// How a write ended.
#[derive(Clone, Copy, Debug, PartialEq, Eq, Structural)]
pub enum WriteOutcome {
    Sent,
    Failed,
}

/// What can happen to the application.
pub enum Event {
    /// A key event from the terminal.
    Key(KeyEvent),
    /// The command to give a section the focus.
    Activate(Section),
    /// The command to take the focus away.
    Deactivate,
    /// A section was hovered.
    Hover(Section),
    /// A room was chosen, or the choice was taken back.
    RoomSelected(Option<String>),
    /// The write that was asked for has ended.
    WriteCompleted(WriteOutcome),
}

/// The state of the application as mathematical values.
pub struct AppState {
    pub active_room: Option<Seq<char>>,
    pub active_section: Option<Section>,
    pub last_hovered_section: Section,
    pub input: EditState,
    /// A write has been asked for and has not ended yet.
    pub write_pending: bool,
}

impl AppState {
    /// The state at the start.
    pub open spec fn initial() -> AppState {
        AppState {
            active_room: None,
            active_section: None,
            last_hovered_section: Section::RoomList,
            input: EditState::empty(),
            write_pending: false,
        }
    }

    /// No section has the focus.
    pub open spec fn unfocused(self) -> bool {
        self.active_section is None
    }

    /// Key events reach the input box: it has the focus and no write is
    /// under way.
    pub open spec fn input_takes_keys(self) -> bool {
        !self.write_pending && self.active_section == Some(Section::MessageInput)
    }

    /// `section` is given the focus. What has been typed stays.
    pub open spec fn activate(self, section: Section) -> AppState {
        AppState { active_section: Some(section), ..self }
    }

    /// The focus is taken away. Where the input box had it, what has been
    /// typed is thrown away, so that nothing stale is left for the next
    /// time.
    pub open spec fn deactivate(self) -> AppState {
        AppState {
            active_section: None,
            input: if self.active_section == Some(Section::MessageInput) {
                EditState::empty()
            } else {
                self.input
            },
            ..self
        }
    }

    /// The command that submitting the line sends: the text typed, to the
    /// active room. Without an active room there is nothing to send.
    pub open spec fn submission(self) -> Request {
        match self.active_room {
            Some(room) => Request::Write(Message { room, content: self.input.text }),
            None => Request::Nothing,
        }
    }

    /// What a key event asks the program to do: a write where the line is
    /// submitted and a room is active, and nothing otherwise.
    pub open spec fn key_request(self, key: KeyEvent) -> Request {
        if self.input_takes_keys() && key.is_submit() {
            self.submission()
        } else {
            Request::Nothing
        }
    }

    /// The state after a key event.
    ///
    /// Keys reach the input box only while it has the focus and no write is
    /// under way. The key that submits ends the editing: with an active
    /// room the state waits for the write to end, and without one the focus
    /// is taken away at once. Every other key edits the line.
    pub open spec fn after_key(self, key: KeyEvent) -> AppState {
        if !self.input_takes_keys() {
            self
        } else if key.is_submit() {
            if self.active_room is Some {
                AppState { write_pending: true, ..self }
            } else {
                self.deactivate()
            }
        } else {
            AppState { input: self.input.after_key(key), ..self }
        }
    }

    /// The state after the end of a write, whichever way it ended: the line
    /// is empty and nothing has the focus. An end that no write was waiting
    /// for changes nothing.
    pub open spec fn after_write_completed(self) -> AppState {
        if self.write_pending {
            AppState {
                write_pending: false,
                active_section: None,
                input: EditState::empty(),
                ..self
            }
        } else {
            self
        }
    }

    /// The state after `event`.
    pub open spec fn step(self, event: Event) -> AppState {
        match event {
            Event::Key(key) => self.after_key(key),
            Event::Activate(section) => self.activate(section),
            Event::Deactivate => self.deactivate(),
            Event::Hover(section) => AppState { last_hovered_section: section, ..self },
            Event::RoomSelected(room) => AppState { active_room: room_view(room), ..self },
            Event::WriteCompleted(_) => self.after_write_completed(),
        }
    }

    /// What `event` asks the program to do.
    pub open spec fn request(self, event: Event) -> Request {
        match event {
            Event::Key(key) => self.key_request(key),
            _ => Request::Nothing,
        }
    }

    /// The colour of the border of `section`: the active section is drawn
    /// in the first highlight, the section hovered last in the second, and
    /// every other section plainly.
    pub open spec fn border_color(self, section: Section) -> Color {
        if self.active_section == Some(section) {
            Color::Yellow
        } else if self.last_hovered_section == section {
            Color::Blue
        } else {
            Color::Reset
        }
    }
}

/// The application: the shared state, the input box, and whether a write is
/// under way.
pub struct App {
    shared_state: SharedState,
    input_box: InputBox,
    write_pending: bool,
}

impl View for App {
    type V = AppState;

    closed spec fn view(&self) -> AppState {
        AppState {
            active_room: room_view(self.shared_state.active_room),
            active_section: self.shared_state.active_section,
            last_hovered_section: self.shared_state.last_hovered_section,
            input: self.input_box@,
            write_pending: self.write_pending,
        }
    }
}

impl InputBox {
    /// The command that sends the text typed so far to `room`.
    pub fn submit_message(&self, room: String) -> (command: SendMessageCommand)
        ensures
            command@ == (Message { room: room@, content: self@.text }),
    {
        SendMessageCommand { room, content: self.text().to_owned() }
    }

    /// The input box is given the focus. What has been typed stays.
    pub fn activate(&mut self)
        ensures
            final(self)@ == old(self)@,
    {
    }

    /// The input box loses the focus: what has been typed is thrown away.
    pub fn deactivate(&mut self)
        ensures
            final(self)@ == EditState::empty(),
            final(self)@.valid(),
    {
        self.reset();
    }
}

impl App {
    /// The application at its start: no room, no focus, an empty line.
    pub fn new() -> (app: Self)
        ensures
            app@ == AppState::initial(),
            app@.input.valid(),
    {
        App { shared_state: SharedState::new(), input_box: InputBox::new(), write_pending: false }
    }

    /// The state that the widgets share.
    pub fn shared_state(&self) -> (shared_state: &SharedState)
        ensures
            room_view(shared_state.active_room) == self@.active_room,
            shared_state.active_section == self@.active_section,
            shared_state.last_hovered_section == self@.last_hovered_section,
    {
        &self.shared_state
    }

    /// The input box.
    pub fn input_box(&self) -> (input_box: &InputBox)
        ensures
            input_box@ == self@.input,
            self@.input.valid(),
    {
        proof {
            use_type_invariant(&self.input_box);
        }
        &self.input_box
    }

    /// Whether a write has been asked for and has not ended yet.
    pub fn is_write_pending(&self) -> (pending: bool)
        ensures
            pending == self@.write_pending,
    {
        self.write_pending
    }

    /// Makes `room` the room that messages go to.
    pub fn set_active_room(&mut self, room: Option<String>)
        ensures
            final(self)@ == (AppState { active_room: room_view(room), ..old(self)@ }),
    {
        self.shared_state.active_room = room;
    }

    /// Records that `section` was hovered.
    pub fn hover(&mut self, section: Section)
        ensures
            final(self)@ == (AppState { last_hovered_section: section, ..old(self)@ }),
    {
        self.shared_state.last_hovered_section = section;
    }

    /// Gives `section` the focus. What has been typed stays.
    pub fn activate(&mut self, section: Section)
        ensures
            final(self)@ == old(self)@.activate(section),
            final(self)@.input.valid(),
    {
        match section {
            Section::MessageInput => self.input_box.activate(),
            Section::RoomList => {},
        }
        self.shared_state.active_section = Some(section);
        proof {
            use_type_invariant(&self.input_box);
        }
    }

    /// Takes the focus away. Where the input box had it, what has been typed
    /// is thrown away.
    pub fn deactivate(&mut self)
        ensures
            final(self)@ == old(self)@.deactivate(),
            final(self)@.unfocused(),
            final(self)@.input.valid(),
    {
        if self.shared_state.has_focus(Section::MessageInput) {
            self.input_box.deactivate();
        }
        self.shared_state.active_section = None;
        proof {
            use_type_invariant(&self.input_box);
        }
    }

    /// Routes one key event and says what is to be written.
    ///
    /// While a write is under way, and while the input box does not have
    /// the focus, the event changes nothing and asks for nothing: at most
    /// one write is ever outstanding. Only a key going down counts. The key
    /// that submits asks for the text to be written to the active room and
    /// waits for [`Self::write_completed`]; without an active room nothing
    /// is written and the focus is taken away at once. Every other key
    /// edits the line.
    pub fn handle_key_event(&mut self, key: KeyEvent) -> (action: Action)
        ensures
            final(self)@ == old(self)@.after_key(key),
            action@ == old(self)@.key_request(key),
            final(self)@.input.valid(),
    {
        proof {
            use_type_invariant(&self.input_box);
        }
        if self.write_pending || !self.shared_state.has_focus(Section::MessageInput) {
            return Action::Nothing;
        }
        match key.kind {
            KeyEventKind::Press => {},
            _ => {
                return Action::Nothing;
            },
        }
        match key.code {
            KeyCode::Enter => {
                match &self.shared_state.active_room {
                    Some(active_room) => {
                        let command = self.input_box.submit_message(active_room.clone());
                        self.write_pending = true;
                        Action::Write(command)
                    },
                    None => {
                        self.deactivate();
                        Action::Nothing
                    },
                }
            },
            _ => {
                self.input_box.handle_key_event(key);
                Action::Nothing
            },
        }
    }

    /// Records that the write has ended. Whether the message was sent or
    /// not, the line is emptied and the focus is taken away. An end that no
    /// write was waiting for changes nothing.
    pub fn write_completed(&mut self, outcome: WriteOutcome)
        ensures
            final(self)@ == old(self)@.after_write_completed(),
            final(self)@.input.valid(),
    {
        proof {
            use_type_invariant(&self.input_box);
        }
        if self.write_pending {
            self.write_pending = false;
            self.input_box.reset();
            self.shared_state.active_section = None;
        }
    }

    /// Takes the state through one event and says what the program is to
    /// do next.
    pub fn handle_event(&mut self, event: Event) -> (action: Action)
        ensures
            final(self)@ == old(self)@.step(event),
            action@ == old(self)@.request(event),
            final(self)@.input.valid(),
    {
        proof {
            use_type_invariant(&self.input_box);
        }
        match event {
            Event::Key(key) => self.handle_key_event(key),
            Event::Activate(section) => {
                self.activate(section);
                Action::Nothing
            },
            Event::Deactivate => {
                self.deactivate();
                Action::Nothing
            },
            Event::Hover(section) => {
                self.hover(section);
                Action::Nothing
            },
            Event::RoomSelected(room) => {
                self.set_active_room(room);
                Action::Nothing
            },
            Event::WriteCompleted(outcome) => {
                self.write_completed(outcome);
                Action::Nothing
            },
        }
    }

    /// What is drawn of the input box in the rectangle `container_input`:
    /// the text typed so far under the title "Input", the border in the
    /// colour of the section, and the cursor only while the input box has
    /// the focus. `None` where the cursor is to be shown and its cell lies
    /// beyond what screen coordinates can name.
    pub fn render_input_box(&self, container_input: Rect) -> (frame: Option<InputBoxFrame>)
        ensures
            match frame {
                Some(frame) => is_frame_of(
                    frame,
                    self@.input,
                    "Input"@,
                    container_input,
                    self@.border_color(Section::MessageInput),
                    self@.active_section == Some(Section::MessageInput),
                ),
                None => self@.active_section == Some(Section::MessageInput) && !cursor_fits_screen(
                    self@.input,
                    container_input,
                ),
            },
    {
        let props = RenderProps {
            title: "Input".to_owned(),
            area: container_input,
            border_color: self.calculate_border_color(Section::MessageInput),
            show_cursor: self.shared_state.has_focus(Section::MessageInput),
        };
        self.input_box.try_render(props)
    }

    /// The colour of the border of `section`.
    pub fn calculate_border_color(&self, section: Section) -> (color: Color)
        ensures
            color == self@.border_color(section),
    {
        if self.shared_state.has_focus(section) {
            Color::Yellow
        } else if self.shared_state.last_hovered_section == section {
            Color::Blue
        } else {
            Color::Reset
        }
    }
}

/// No event takes the cursor out of the text.
pub proof fn lemma_step_keeps_cursor_in_text(state: AppState, event: Event)
    requires
        state.input.valid(),
    ensures
        state.step(event).input.valid(),
{
}

/// Only a key going down counts: a key that repeats or comes up changes
/// nothing and asks for nothing, whatever the key and whatever the state.
pub proof fn lemma_only_presses_count(state: AppState, key: KeyEvent)
    requires
        !key.is_press(),
    ensures
        state.after_key(key) == state,
        state.key_request(key) == Request::Nothing,
{
}

/// While a write is under way no key asks for another one, and no key
/// changes the state: writes never overlap.
pub proof fn lemma_one_write_at_a_time(state: AppState, key: KeyEvent)
    requires
        state.write_pending,
    ensures
        state.after_key(key) == state,
        state.key_request(key) == Request::Nothing,
{
}

/// Submitting without an active room writes nothing, empties the line and
/// takes the focus away.
pub proof fn lemma_submit_without_room(state: AppState, key: KeyEvent)
    requires
        state.input_takes_keys(),
        key.is_submit(),
        state.active_room is None,
    ensures
        state.key_request(key) == Request::Nothing,
        state.after_key(key).input == EditState::empty(),
        state.after_key(key).unfocused(),
        !state.after_key(key).write_pending,
{
}

/// Submitting with an active room asks for one write, of the text typed to
/// that room. Until the write has ended nothing changes; once it has,
/// however it ended, the line is empty, the cursor is at the start and
/// nothing has the focus.
pub proof fn lemma_submit_with_room(state: AppState, key: KeyEvent, outcome: WriteOutcome)
    requires
        state.input_takes_keys(),
        key.is_submit(),
        state.active_room is Some,
    ensures
        state.key_request(key) == Request::Write(
            Message { room: state.active_room->0, content: state.input.text },
        ),
        state.after_key(key) == (AppState { write_pending: true, ..state }),
        state.after_key(key).step(Event::WriteCompleted(outcome)).input == EditState::empty(),
        state.after_key(key).step(Event::WriteCompleted(outcome)).unfocused(),
        !state.after_key(key).step(Event::WriteCompleted(outcome)).write_pending,
{
}

/// Giving a section the focus keeps what has been typed; taking the focus
/// away from the input box throws it away.
pub proof fn lemma_focus_and_the_line(state: AppState, section: Section)
    ensures
        state.activate(section).input == state.input,
        state.activate(section).active_section == Some(section),
        state.deactivate().unfocused(),
        state.active_section == Some(Section::MessageInput) ==> state.deactivate().input
            == EditState::empty(),
{
}

} // verus!
