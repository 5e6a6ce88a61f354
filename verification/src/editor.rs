//! The argument line: a text and a cursor that counts characters.

use vstd::prelude::*;
use vstd::string::*;
use vstd::utf8::{encode_utf8, is_char_boundary};
use crate::app::{App, AppState};
use crate::scroll::saturating_backward;
use crate::text::{byte_offset, byte_offset_of, insert_char, without_char};

verus! {

impl AppState {
    /// The cursor position nearest to `position` that lies within the
    /// argument line.
    pub open spec fn clamp_cursor(self, position: nat) -> nat {
        if position <= self.input.len() {
            position
        } else {
            self.input.len()
        }
    }

    /// The state after a step of the cursor towards the start of the line.
    pub open spec fn move_cursor_left(self) -> AppState {
        AppState {
            character_index: self.clamp_cursor(saturating_backward(self.character_index, 1)),
            ..self
        }
    }

    /// The state after a step of the cursor towards the end of the line.
    pub open spec fn move_cursor_right(self) -> AppState {
        AppState { character_index: self.clamp_cursor(self.character_index + 1), ..self }
    }

    /// The state after typing `c`: it stands where the cursor was, and the
    /// cursor behind it.
    pub open spec fn enter_char(self, c: char) -> AppState {
        AppState {
            input: self.input.insert(self.character_index as int, c),
            character_index: self.character_index + 1,
            ..self
        }
    }

    /// The state after deleting the character before the cursor. With the
    /// cursor at the start of the line nothing changes.
    pub open spec fn delete_char(self) -> AppState {
        if self.character_index == 0 {
            self
        } else {
            AppState {
                input: self.input.remove(self.character_index - 1),
                character_index: (self.character_index - 1) as nat,
                ..self
            }
        }
    }
}

impl App {
    /// Brings a cursor position into the argument line.
    pub fn clamp_cursor(&self, new_cursor_pos: usize) -> (position: usize)
        ensures
            position == self@.clamp_cursor(new_cursor_pos as nat),
            position <= self@.input.len() <= usize::MAX,
    {
        let len = self.input.as_str().unicode_len();
        if new_cursor_pos <= len {
            new_cursor_pos
        } else {
            len
        }
    }

    /// Moves the cursor one character to the left, if it is not at the start.
    pub fn move_cursor_left(&mut self)
        ensures
            final(self)@ == old(self)@.move_cursor_left(),
            final(self)@.wf(),
    {
        proof {
            use_type_invariant(&*self);
        }
        let cursor_moved_left = self.character_index.saturating_sub(1);
        self.character_index = self.clamp_cursor(cursor_moved_left);
    }

    /// Moves the cursor one character to the right, if it is not at the end.
    pub fn move_cursor_right(&mut self)
        ensures
            final(self)@ == old(self)@.move_cursor_right(),
            final(self)@.wf(),
    {
        proof {
            use_type_invariant(&*self);
        }
        let cursor_moved_right = self.character_index.saturating_add(1);
        self.character_index = self.clamp_cursor(cursor_moved_right);
    }

    /// The byte offset in the argument line at which the character under the
    /// cursor starts.
    pub fn byte_index(&self) -> (index: usize)
        ensures
            index == byte_offset(self@.input, self@.character_index as int),
            is_char_boundary(encode_utf8(self@.input), index as int),
    {
        proof {
            use_type_invariant(self);
        }
        byte_offset_of(self.input.as_str(), self.character_index)
    }

    /// Types `new_char` at the cursor.
    pub fn enter_char(&mut self, new_char: char)
        ensures
            final(self)@ == old(self)@.enter_char(new_char),
            final(self)@.wf(),
    {
        proof {
            use_type_invariant(&*self);
        }
        let mut longer = self.input.clone();
        insert_char(&mut longer, self.character_index, new_char);
        self.input = longer;
        self.move_cursor_right();
    }

    /// Deletes the character before the cursor and moves the cursor onto its
    /// place.
    pub fn delete_char(&mut self)
        ensures
            final(self)@ == old(self)@.delete_char(),
            final(self)@.wf(),
            old(self)@.character_index == 0 ==> final(self)@ == old(self)@,
    {
        proof {
            use_type_invariant(&*self);
        }
        if self.character_index != 0 {
            let shorter = without_char(self.input.as_str(), self.character_index - 1);
            self.character_index = self.character_index - 1;
            self.input = shorter;
        }
    }
}

} // verus!
