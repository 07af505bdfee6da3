//! What a frame draws of the input box.
//!
//! Drawing itself belongs to the terminal toolkit. Decided here, from the
//! state alone and without changing it, is what is to be drawn: the text,
//! the title, the colour of the border, and where on the screen the cursor
//! stands.

use crate::edit_state::EditState;
use crate::input_box::InputBox;
use vstd::prelude::*;

verus! {

/// A rectangle of the screen, in terminal cells.
#[derive(Clone, Copy, Debug, PartialEq, Eq, Structural)]
pub struct Rect {
    pub x: u16,
    pub y: u16,
    pub width: u16,
    pub height: u16,
}

/// The colours that a border is drawn in.
#[derive(Clone, Copy, Debug, PartialEq, Eq, Structural)]
pub enum Color {
    /// The terminal's own colour: a widget that is neither active nor
    /// hovered.
    Reset,
    /// The widget that was hovered last.
    Blue,
    /// The active widget.
    Yellow,
}

/// What the caller decides of how the input box is drawn.
pub struct RenderProps {
    pub title: String,
    pub area: Rect,
    pub border_color: Color,
    pub show_cursor: bool,
}

/// What is drawn of the input box: a bordered block that holds the text,
/// and the cell of the cursor where it is shown.
#[derive(Clone, Debug, PartialEq, Eq)]
pub struct InputBoxFrame {
    pub text: String,
    pub title: String,
    pub area: Rect,
    pub border_color: Color,
    /// Column and row of the cursor on the screen.
    pub cursor: Option<(u16, u16)>,
}

/// The screen column of the cursor of `state` in a box drawn at `area`:
/// one cell for the border, then the display column of the cursor. It is
/// never the cursor's position in characters.
pub open spec fn cursor_column_on_screen(state: EditState, area: Rect) -> int {
    area.x + state.display_column() + 1
}

/// The screen row of the cursor in a box drawn at `area`: the line below
/// the border.
pub open spec fn cursor_row_on_screen(area: Rect) -> int {
    area.y + 1
}

/// Whether the cell of the cursor can be written as screen coordinates.
pub open spec fn cursor_fits_screen(state: EditState, area: Rect) -> bool {
    cursor_column_on_screen(state, area) <= u16::MAX && cursor_row_on_screen(area) <= u16::MAX
}

/// Whether `frame` is what is to be drawn of `state` in a box at `area`
/// with the given title and border, the cursor shown or not.
pub open spec fn is_frame_of(
    frame: InputBoxFrame,
    state: EditState,
    title: Seq<char>,
    area: Rect,
    border_color: Color,
    show_cursor: bool,
) -> bool {
    &&& frame.text@ == state.text
    &&& frame.title@ == title
    &&& frame.area == area
    &&& frame.border_color == border_color
    &&& match frame.cursor {
        Some((column, row)) => {
            &&& show_cursor
            &&& column == cursor_column_on_screen(state, area)
            &&& row == cursor_row_on_screen(area)
        },
        None => !show_cursor,
    }
}

impl InputBox {
    /// What is drawn of the input box. The cursor is part of the frame only
    /// where `props` asks for it.
    ///
    /// Where the cursor is shown, its cell has to be one that screen
    /// coordinates can name; [`Self::try_render`] finds out whether it is.
    pub fn render(&self, props: RenderProps) -> (frame: InputBoxFrame)
        requires
            props.show_cursor ==> cursor_fits_screen(self@, props.area),
        ensures
            is_frame_of(
                frame,
                self@,
                props.title@,
                props.area,
                props.border_color,
                props.show_cursor,
            ),
    {
        let cursor = if props.show_cursor {
            // Draw the cursor at the current position in the input field:
            // behind the border, and one line down from it.
            Some((props.area.x + self.get_cursor_offset_in_terminal() + 1, props.area.y + 1))
        } else {
            None
        };
        InputBoxFrame {
            text: self.text().to_owned(),
            title: props.title,
            area: props.area,
            border_color: props.border_color,
            cursor,
        }
    }

    /// What is drawn of the input box, or `None` where the cursor is to be
    /// shown and its cell lies beyond what screen coordinates can name.
    pub fn try_render(&self, props: RenderProps) -> (frame: Option<InputBoxFrame>)
        ensures
            match frame {
                Some(frame) => is_frame_of(
                    frame,
                    self@,
                    props.title@,
                    props.area,
                    props.border_color,
                    props.show_cursor,
                ),
                None => props.show_cursor && !cursor_fits_screen(self@, props.area),
            },
    {
        if props.show_cursor {
            match self.checked_cursor_offset_in_terminal() {
                Some(cursor_offset) => {
                    if props.area.y == u16::MAX || cursor_offset >= u16::MAX - props.area.x {
                        return None;
                    }
                },
                None => {
                    return None;
                },
            }
        }
        Some(self.render(props))
    }
}

} // verus!
