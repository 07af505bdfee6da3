//! The input box: the line being typed and its cursor.
//!
//! The text is kept as a `String`, so every edit has to turn the cursor's
//! character position into a byte offset before it touches storage, and the
//! screen column of the cursor has to be computed from display widths.

use crate::edit_state::EditState;
use crate::keys::{KeyCode, KeyEvent, KeyEventKind};
use crate::offsets::{
    byte_offset, len_utf8, lemma_encode_concat, lemma_encode_prefix_step, lemma_encode_single,
    lemma_encode_split, lemma_prefix_is_char_boundary,
};
use crate::storage::string_insert;
use crate::width::{
    columns_of, display_width, lemma_display_width_prefix_monotonic,
    lemma_display_width_prefix_step,
};
use vstd::prelude::*;
use vstd::std_specs::iter::IteratorSpec;
use vstd::utf8::*;

verus! {

/// The byte offset, in the UTF-8 encoding of `text`, of the character
/// position `position`: the offset at which the character with that index
/// starts, or the length of the encoding where `position` is the end of
/// the text or lies beyond it.
pub fn byte_index_of(text: &str, position: usize) -> (index: usize)
    ensures
        index == byte_offset(text@, position as nat),
        index <= encode_utf8(text@).len(),
        is_char_boundary(encode_utf8(text@), index as int),
{
    // Known to the proof alone: the offset never passes the length in bytes.
    let total = text.as_bytes().len();
    let mut chars = text.chars();
    let mut index: usize = 0;
    let mut seen: usize = 0;
    proof {
        assert(text@.take(0) =~= Seq::<char>::empty());
        assert(text@.skip(0) =~= text@);
        lemma_prefix_is_char_boundary(text@.take(0), text@);
    }
    while seen < position
        invariant
            seen <= position,
            seen <= text@.len(),
            chars.remaining() == text@.skip(seen as int),
            index == encode_utf8(text@.take(seen as int)).len(),
            is_char_boundary(encode_utf8(text@), index as int),
            total == encode_utf8(text@).len(),
        decreases position - seen,
    {
        match chars.next() {
            Some(c) => {
                proof {
                    lemma_encode_prefix_step(text@, seen as int);
                    lemma_encode_split(text@, seen + 1);
                    assert(text@.skip(seen as int).drop_first() =~= text@.skip(seen + 1));
                    assert(text@ =~= text@.take(seen + 1) + text@.skip(seen + 1));
                    lemma_prefix_is_char_boundary(text@.take(seen + 1), text@.skip(seen + 1));
                }
                index = index + len_utf8(c);
                seen = seen + 1;
            },
            None => {
                proof {
                    assert(text@.take(seen as int) =~= text@);
                }
                return index;
            },
        }
    }
    proof {
        lemma_encode_split(text@, seen as int);
    }
    index
}

/// Puts `new_char` into `text` at the byte offset `index`, which is the
/// offset of the character position `position`.
fn insert_at_offset(text: &mut String, index: usize, new_char: char, Ghost(position): Ghost<int>)
    requires
        0 <= position <= old(text)@.len(),
        index == encode_utf8(old(text)@.take(position)).len(),
    ensures
        final(text)@ == old(text)@.insert(position, new_char),
{
    let ghost before = text@.take(position);
    let ghost after = text@.skip(position);
    let ghost bytes = encode_utf8(text@);
    proof {
        assert(text@ =~= before + after);
        lemma_encode_concat(before, after);
        lemma_prefix_is_char_boundary(before, after);
    }
    string_insert(text, index, new_char);
    proof {
        let inserted = old(text)@.insert(position, new_char);
        assert(inserted =~= before + seq![new_char] + after);
        lemma_encode_concat(before + seq![new_char], after);
        lemma_encode_concat(before, seq![new_char]);
        lemma_encode_single(new_char);
        assert(bytes.subrange(0, index as int) =~= encode_utf8(before));
        assert(bytes.subrange(index as int, bytes.len() as int) =~= encode_utf8(after));
        assert(encode_utf8(text@) == encode_utf8(inserted));
        encode_utf8_decode_utf8(text@);
        encode_utf8_decode_utf8(inserted);
    }
}

/// A single-line text editor with a cursor.
///
/// The cursor never leaves the text: it is a position between `0` and the
/// number of characters, both included. The type keeps this as its
/// invariant, so it holds of every value that exists.
pub struct InputBox {
    /// Current value of the input box.
    text: String,
    /// Position of the cursor, counted in characters.
    cursor_position: usize,
}

impl View for InputBox {
    type V = EditState;

    closed spec fn view(&self) -> EditState {
        EditState { text: self.text@, cursor: self.cursor_position as nat }
    }
}

impl InputBox {
    /// The invariant of the type: the cursor stands inside the text or at
    /// one of its two ends.
    #[verifier::type_invariant]
    pub open spec fn cursor_in_text(&self) -> bool {
        self@.valid()
    }

    /// An empty input box.
    pub fn new() -> (input_box: Self)
        ensures
            input_box@ == EditState::empty(),
            input_box@.valid(),
    {
        InputBox { text: String::new(), cursor_position: 0 }
    }

    /// The text typed so far.
    pub fn text(&self) -> (text: &str)
        ensures
            text@ == self@.text,
    {
        self.text.as_str()
    }

    /// The position of the cursor, counted in characters.
    pub fn cursor_position(&self) -> (position: usize)
        ensures
            position == self@.cursor,
            position <= self@.text.len(),
    {
        proof {
            use_type_invariant(&*self);
        }
        self.cursor_position
    }

    /// Replaces the text and puts the cursor behind its last character.
    pub fn set_text(&mut self, new_text: &str)
        ensures
            final(self)@ == EditState::with_text(new_text@),
            final(self)@.valid(),
    {
        let text = new_text.to_owned();
        let cursor_position = text.as_str().unicode_len();
        *self = InputBox { text, cursor_position };
    }

    /// Empties the input box and puts the cursor at the start.
    pub fn reset(&mut self)
        ensures
            final(self)@ == EditState::empty(),
            final(self)@.valid(),
    {
        self.cursor_position = 0;
        self.text = String::new();
    }

    /// Puts the cursor at the start of the line and leaves the text as it
    /// is.
    pub fn reset_cursor(&mut self)
        ensures
            final(self)@ == (EditState { cursor: 0, ..old(self)@ }),
            final(self)@.valid(),
    {
        self.cursor_position = 0;
    }

    /// The name of the widget.
    pub fn name(&self) -> (name: &'static str)
        ensures
            name@ == "Input Box"@,
    {
        "Input Box"
    }

    /// Whether nothing has been typed.
    pub fn is_empty(&self) -> (empty: bool)
        ensures
            empty == (self@.text.len() == 0),
    {
        self.text.as_str().is_empty()
    }

    /// The largest position that the cursor may take: the number of
    /// characters of the text, which is not its length in bytes.
    pub fn get_max_cursor_position(&self) -> (max: usize)
        ensures
            max == self@.max_cursor(),
            self@.text.len() <= usize::MAX,
    {
        self.text.as_str().unicode_len()
    }

    /// `new_cursor_pos`, or the end of the text where it lies beyond it.
    pub fn clamp_cursor(&self, new_cursor_pos: usize) -> (clamped: usize)
        ensures
            clamped == self@.clamp(new_cursor_pos as nat),
            clamped <= self@.text.len() <= usize::MAX,
    {
        let max = self.get_max_cursor_position();
        if new_cursor_pos > max {
            max
        } else {
            new_cursor_pos
        }
    }

    /// Hands out the stored text and leaves the input box empty, so that
    /// the text can be edited in place and put back.
    fn take_text(&mut self) -> (text: String)
        ensures
            text@ == old(self)@.text,
            final(self)@ == EditState::empty(),
    {
        let mut text = String::new();
        self.cursor_position = 0;
        core::mem::swap(&mut self.text, &mut text);
        text
    }

    /// The byte offset of the cursor in the stored text. The text is UTF-8,
    /// so this is the cursor's position only while every character before
    /// it is ASCII.
    pub fn get_cursor_byte_index(&self) -> (index: usize)
        ensures
            index == self@.byte_offset(),
            is_char_boundary(encode_utf8(self@.text), index as int),
    {
        proof {
            use_type_invariant(&*self);
        }
        byte_index_of(self.text.as_str(), self.cursor_position)
    }

    /// Types `new_char` at the cursor and moves the cursor behind it.
    pub fn enter_char(&mut self, new_char: char)
        ensures
            final(self)@ == old(self)@.insert(new_char),
            final(self)@.valid(),
    {
        proof {
            use_type_invariant(&*self);
        }
        let index = self.get_cursor_byte_index();
        let cursor_position = self.cursor_position;
        let mut text = self.take_text();
        insert_at_offset(&mut text, index, new_char, Ghost(cursor_position as int));
        *self = InputBox { text, cursor_position };
        self.move_cursor_right();
    }

    /// Deletes the character before the cursor and moves the cursor into its
    /// place. At the start of the line nothing happens.
    ///
    /// The text is put together again from the characters before the deleted
    /// one and those after it, so no character is ever cut in two.
    pub fn delete_char(&mut self)
        ensures
            final(self)@ == old(self)@.delete_before_cursor(),
            final(self)@.valid(),
    {
        proof {
            use_type_invariant(&*self);
        }
        let is_not_cursor_leftmost = self.cursor_position != 0;
        if is_not_cursor_leftmost {
            let current_index = self.cursor_position;
            let from_left_to_current_index = current_index - 1;
            let end = self.get_max_cursor_position();
            let before_char_to_delete = self.text.as_str().substring_char(
                0,
                from_left_to_current_index,
            );
            let after_char_to_delete = self.text.as_str().substring_char(current_index, end);
            let text = before_char_to_delete.to_owned().concat(after_char_to_delete);
            *self = InputBox { text, cursor_position: from_left_to_current_index };
        }
    }

    /// Applies one key event to the line. Only a key going down does
    /// anything: a character is typed at the cursor, backspace deletes the
    /// character before it, and the arrows move it. Every other event is
    /// passed over.
    pub fn handle_key_event(&mut self, key: KeyEvent)
        ensures
            final(self)@ == old(self)@.after_key(key),
            final(self)@.valid(),
    {
        proof {
            use_type_invariant(&*self);
        }
        match key.kind {
            KeyEventKind::Press => {},
            _ => {
                return ;
            },
        }
        match key.code {
            KeyCode::Char(to_insert) => {
                self.enter_char(to_insert);
            },
            KeyCode::Backspace => {
                self.delete_char();
            },
            KeyCode::Left => {
                self.move_cursor_left();
            },
            KeyCode::Right => {
                self.move_cursor_right();
            },
            _ => {},
        }
    }

    /// The terminal column of the cursor, counted from the start of the
    /// line, or `None` where it is too large for a screen coordinate.
    ///
    /// The column is the sum of the display widths of the characters before
    /// the cursor: a combining mark adds nothing and a wide character adds
    /// two, so the column is not the cursor position.
    pub fn checked_cursor_offset_in_terminal(&self) -> (cursor_offset: Option<u16>)
        ensures
            match cursor_offset {
                Some(column) => column == self@.display_column(),
                None => self@.display_column() > u16::MAX,
            },
    {
        proof {
            use_type_invariant(&*self);
        }
        let text = self.text.as_str();
        let mut chars = text.chars();
        let mut cursor_offset: usize = 0;
        let mut i: usize = 0;
        proof {
            assert(text@.take(0) =~= Seq::<char>::empty());
            assert(text@.skip(0) =~= text@);
        }
        while i < self.cursor_position
            invariant
                i <= self.cursor_position <= text@.len(),
                text@ == self@.text,
                self.cursor_position == self@.cursor,
                chars.remaining() == text@.skip(i as int),
                cursor_offset == display_width(text@.take(i as int)),
                cursor_offset <= u16::MAX,
            decreases self.cursor_position - i,
        {
            let next = chars.next();
            proof {
                lemma_display_width_prefix_step(text@, i as int);
                lemma_display_width_prefix_monotonic(text@, i + 1, self.cursor_position as int);
                assert(text@.skip(i as int).drop_first() =~= text@.skip(i + 1));
            }
            let c = next.unwrap();
            let width = columns_of(c);
            if width > u16::MAX as usize - cursor_offset {
                return None;
            }
            cursor_offset = cursor_offset + width;
            i = i + 1;
        }
        Some(cursor_offset as u16)
    }

    /// The terminal column of the cursor, counted from the start of the
    /// line: the sum of the display widths of the characters before it.
    ///
    /// The column has to fit a screen coordinate;
    /// [`Self::checked_cursor_offset_in_terminal`] finds out whether it does.
    pub fn get_cursor_offset_in_terminal(&self) -> (cursor_offset: u16)
        requires
            self@.display_column() <= u16::MAX,
        ensures
            cursor_offset == self@.display_column(),
    {
        proof {
            use_type_invariant(&*self);
        }
        let text = self.text.as_str();
        let mut chars = text.chars();
        let mut cursor_offset: u16 = 0;
        let mut i: usize = 0;
        proof {
            assert(text@.take(0) =~= Seq::<char>::empty());
            assert(text@.skip(0) =~= text@);
        }
        while i < self.cursor_position
            invariant
                i <= self.cursor_position <= text@.len(),
                text@ == self@.text,
                self.cursor_position == self@.cursor,
                self@.display_column() <= u16::MAX,
                chars.remaining() == text@.skip(i as int),
                cursor_offset == display_width(text@.take(i as int)),
            decreases self.cursor_position - i,
        {
            let next = chars.next();
            proof {
                lemma_display_width_prefix_step(text@, i as int);
                lemma_display_width_prefix_monotonic(text@, i + 1, self.cursor_position as int);
                assert(text@.skip(i as int).drop_first() =~= text@.skip(i + 1));
            }
            let c = next.unwrap();
            // Add character width
            cursor_offset = cursor_offset + columns_of(c) as u16;
            i = i + 1;
        }
        cursor_offset
    }

    /// Moves the cursor one character to the left. At the start of the line
    /// it stays where it is.
    pub fn move_cursor_left(&mut self)
        ensures
            final(self)@ == old(self)@.move_left(),
            final(self)@.valid(),
    {
        let cursor_moved_left = self.cursor_position.saturating_sub(1);
        self.cursor_position = self.clamp_cursor(cursor_moved_left);
    }

    /// Moves the cursor one character to the right. At the end of the line
    /// it stays where it is.
    pub fn move_cursor_right(&mut self)
        ensures
            final(self)@ == old(self)@.move_right(),
            final(self)@.valid(),
    {
        proof {
            use_type_invariant(&*self);
        }
        let cursor_moved_right = self.cursor_position.saturating_add(1);
        self.cursor_position = self.clamp_cursor(cursor_moved_right);
    }
}

} // verus!
