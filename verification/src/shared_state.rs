//! The state that the widgets of the screen share.

use vstd::prelude::*;

verus! {

/// The regions of the screen that can take the focus.
#[derive(Clone, Copy, Debug, PartialEq, Eq, Structural)]
pub enum Section {
    RoomList,
    MessageInput,
}

/// What every widget and the renderer read: the room that messages go to,
/// the section that has the focus, and the section that was hovered last.
///
/// At most one section is active at a time. The section hovered last need
/// not be the active one; it only decides a second kind of highlight.
pub struct SharedState {
    pub active_room: Option<String>,
    pub active_section: Option<Section>,
    pub last_hovered_section: Section,
}

/// A room name as a sequence of characters, for use in contracts.
pub open spec fn room_view(room: Option<String>) -> Option<Seq<char>> {
    match room {
        Some(name) => Some(name@),
        None => None,
    }
}

impl SharedState {
    /// The state at the start: no room chosen, nothing focused.
    pub fn new() -> (state: Self)
        ensures
            state.active_room is None,
            state.active_section is None,
            state.last_hovered_section == Section::RoomList,
    {
        SharedState {
            active_room: None,
            active_section: None,
            last_hovered_section: Section::RoomList,
        }
    }

    /// Whether `section` has the focus.
    pub open spec fn is_active(&self, section: Section) -> bool {
        self.active_section == Some(section)
    }

    /// Whether `section` has the focus.
    pub fn has_focus(&self, section: Section) -> (active: bool)
        ensures
            active == self.is_active(section),
    {
        match self.active_section {
            Some(active_section) => active_section == section,
            None => false,
        }
    }
}

} // verus!
