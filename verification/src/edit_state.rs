//! The mathematical model of the line being typed: a sequence of Unicode
//! scalar values and a cursor that stands between two of them.
//!
//! Three ways of counting meet in this model and must never be confused:
//! the cursor counts scalar values, storage counts UTF-8 bytes, and the
//! terminal counts display columns.

use crate::keys::{KeyCode, KeyEvent};
use crate::offsets::byte_offset;
use crate::width::{display_width, lemma_display_width_prefix_monotonic};
use vstd::prelude::*;

verus! {

/// The text of the line and the position of the cursor in it.
///
/// `cursor == 0` is the position before the first character and
/// `cursor == text.len()` the position after the last.
pub struct EditState {
    pub text: Seq<char>,
    pub cursor: nat,
}

impl EditState {
    /// The cursor stands inside the text or at one of its two ends.
    pub open spec fn valid(self) -> bool {
        self.cursor <= self.text.len()
    }

    /// The empty line, with the cursor at its start.
    pub open spec fn empty() -> EditState {
        EditState { text: Seq::empty(), cursor: 0 }
    }

    /// The line that holds `text`, with the cursor after its last character.
    pub open spec fn with_text(text: Seq<char>) -> EditState {
        EditState { text, cursor: text.len() }
    }

    /// The largest position that the cursor may take: the number of
    /// characters, not of bytes.
    pub open spec fn max_cursor(self) -> nat {
        self.text.len()
    }

    /// `pos`, or the end of the text where `pos` lies beyond it.
    pub open spec fn clamp(self, pos: nat) -> nat {
        if pos > self.text.len() {
            self.text.len()
        } else {
            pos
        }
    }

    /// The cursor one character to the left; at the start it stays.
    pub open spec fn move_left(self) -> EditState {
        EditState {
            text: self.text,
            cursor: self.clamp(
                if self.cursor == 0 {
                    0
                } else {
                    (self.cursor - 1) as nat
                },
            ),
        }
    }

    /// The cursor one character to the right; at the end it stays.
    pub open spec fn move_right(self) -> EditState {
        EditState { text: self.text, cursor: self.clamp(self.cursor + 1) }
    }

    /// `c` put in at the cursor, and the cursor moved behind it.
    pub open spec fn insert(self, c: char) -> EditState {
        EditState { text: self.text.insert(self.cursor as int, c), cursor: self.cursor + 1 }
    }

    /// The character before the cursor taken out, and the cursor moved into
    /// its place. At the start of the line nothing changes.
    pub open spec fn delete_before_cursor(self) -> EditState {
        if self.cursor == 0 {
            self
        } else {
            EditState {
                text: self.text.take(self.cursor - 1) + self.text.skip(self.cursor as int),
                cursor: (self.cursor - 1) as nat,
            }
        }
    }

    /// The line after the key event `key`. Only a key going down edits:
    /// a character is typed, backspace deletes, the arrows move the cursor,
    /// and every other key leaves the line as it is.
    pub open spec fn after_key(self, key: KeyEvent) -> EditState {
        if !key.is_press() {
            self
        } else {
            match key.code {
                KeyCode::Char(to_insert) => self.insert(to_insert),
                KeyCode::Backspace => self.delete_before_cursor(),
                KeyCode::Left => self.move_left(),
                KeyCode::Right => self.move_right(),
                _ => self,
            }
        }
    }

    /// The characters that stand before the cursor.
    pub open spec fn before_cursor(self) -> Seq<char> {
        self.text.take(self.cursor as int)
    }

    /// The terminal column of the cursor, counted from the start of the
    /// line: the display width of what stands before it.
    pub open spec fn display_column(self) -> nat {
        display_width(self.before_cursor())
    }

    /// The byte offset of the cursor in the UTF-8 encoding of the text.
    pub open spec fn byte_offset(self) -> nat {
        byte_offset(self.text, self.cursor)
    }
}

/// Every way of making or changing a line leaves the cursor inside the
/// text: for each state that can be reached, `0 <= cursor <= text.len()`.
pub proof fn lemma_cursor_stays_in_text(state: EditState, text: Seq<char>, c: char, key: KeyEvent)
    requires
        state.valid(),
    ensures
        EditState::empty().valid(),
        EditState::with_text(text).valid(),
        state.insert(c).valid(),
        state.delete_before_cursor().valid(),
        state.move_left().valid(),
        state.move_right().valid(),
        state.after_key(key).valid(),
{
}

/// Deleting with the cursor at the start of the line changes neither the
/// text nor the cursor.
pub proof fn lemma_delete_at_start_changes_nothing(state: EditState)
    requires
        state.cursor == 0,
    ensures
        state.delete_before_cursor() == state,
{
}

/// Moving right with the cursor at the end of the line changes nothing.
pub proof fn lemma_move_right_at_end_changes_nothing(state: EditState)
    requires
        state.cursor == state.text.len(),
    ensures
        state.move_right() == state,
{
}

/// Moving left with the cursor at the start of the line changes nothing.
pub proof fn lemma_move_left_at_start_changes_nothing(state: EditState)
    requires
        state.cursor == 0,
    ensures
        state.move_left() == state,
{
}

/// Typing a character and deleting it at once gives back the text and the
/// cursor exactly, wherever in the line the cursor stood.
pub proof fn lemma_insert_then_delete_restores(state: EditState, c: char)
    requires
        state.valid(),
    ensures
        state.insert(c).delete_before_cursor() == state,
{
    let typed = state.insert(c);
    assert(typed.text.take(typed.cursor - 1) + typed.text.skip(typed.cursor as int)
        =~= state.text);
}

/// Deleting the character before the cursor is taking that one character
/// out of the text.
pub proof fn lemma_delete_removes_one(state: EditState)
    requires
        state.valid(),
        state.cursor > 0,
    ensures
        state.delete_before_cursor().text == state.text.remove(state.cursor - 1),
        state.delete_before_cursor().text.len() == state.text.len() - 1,
{
    assert(state.text.take(state.cursor - 1) + state.text.skip(state.cursor as int)
        =~= state.text.remove(state.cursor - 1));
}

/// The column of the cursor never goes down when the cursor moves one
/// character to the right.
pub proof fn lemma_display_column_monotonic(state: EditState)
    requires
        state.valid(),
    ensures
        state.display_column() <= state.move_right().display_column(),
{
    if state.cursor < state.text.len() {
        lemma_display_width_prefix_monotonic(
            state.text,
            state.cursor as int,
            state.cursor as int + 1,
        );
    }
}

/// Of two cursors in the same text, the one further right is in no smaller
/// a column.
pub proof fn lemma_display_column_ordered(left: EditState, right: EditState)
    requires
        left.text == right.text,
        left.cursor <= right.cursor,
        right.valid(),
    ensures
        left.display_column() <= right.display_column(),
{
    lemma_display_width_prefix_monotonic(left.text, left.cursor as int, right.cursor as int);
}

} // verus!
