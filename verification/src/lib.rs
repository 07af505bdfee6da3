//! The editing core of a terminal chat client's input line: a text buffer
//! whose cursor counts Unicode scalar values, the state that the widgets of
//! the screen share, the routing of key events to the focused widget, and the
//! plan of what a frame draws.

pub mod edit_state;
pub mod events;
pub mod input_box;
pub mod keys;
pub mod offsets;
pub mod render;
pub mod screen;
pub mod shared_state;
pub mod storage;
pub mod width;
