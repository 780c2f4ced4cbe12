//! A single editable text value with a character-index cursor.

use crate::text::chars_to_string;
use crate::text::string_to_chars;
use vstd::prelude::*;

verus! {

/// An editable text value. The text is held as its characters, so every
/// cursor position and edit is character-based and multi-byte characters are
/// never split.
pub struct FieldBuffer {
    pub value: Vec<char>,
    pub cursor: usize,
}

impl FieldBuffer {
    /// The cursor always sits between 0 and the character count.
    pub open spec fn wf(self) -> bool {
        self.cursor <= self.value@.len()
    }

    /// A buffer over the characters of `value`, cursor at the end.
    pub fn new(value: String) -> (r: FieldBuffer)
        ensures
            r.value@ == value@,
            r.cursor == value@.len(),
            r.wf(),
    {
        let chars = string_to_chars(value.as_str());
        let cursor = chars.len();
        FieldBuffer { value: chars, cursor }
    }

    /// A buffer over `value` directly, cursor at the end.
    pub fn from_chars(value: Vec<char>) -> (r: FieldBuffer)
        ensures
            r.value@ == value@,
            r.cursor == value@.len(),
            r.wf(),
    {
        let cursor = value.len();
        FieldBuffer { value, cursor }
    }

    /// The text of the buffer as a string.
    pub fn text(&self) -> (r: String)
        ensures
            r@ == self.value@,
    {
        chars_to_string(&self.value)
    }

    /// Moves the cursor one character left, stopping at the start.
    pub fn move_left(&mut self)
        requires
            old(self).wf(),
        ensures
            final(self).value == old(self).value,
            final(self).cursor as int == if old(self).cursor > 0 {
                old(self).cursor - 1
            } else {
                0int
            },
            final(self).wf(),
    {
        if self.cursor > 0 {
            self.cursor = self.cursor - 1;
        }
    }

    /// Moves the cursor one character right, stopping at the end of the text.
    pub fn move_right(&mut self)
        requires
            old(self).wf(),
        ensures
            final(self).value == old(self).value,
            final(self).cursor as int == if old(self).cursor < old(self).value@.len() {
                old(self).cursor + 1
            } else {
                old(self).cursor as int
            },
            final(self).wf(),
    {
        if self.cursor < self.value.len() {
            self.cursor = self.cursor + 1;
        }
    }

    /// Puts the cursor at the end of the text.
    pub fn reset_cursor(&mut self)
        ensures
            final(self).value == old(self).value,
            final(self).cursor == old(self).value@.len(),
            final(self).wf(),
    {
        self.cursor = self.value.len();
    }

    /// Inserts `ch` at the cursor and moves the cursor right past it.
    pub fn insert_char(&mut self, ch: char)
        requires
            old(self).wf(),
        ensures
            final(self).value@ == old(self).value@.insert(old(self).cursor as int, ch),
            final(self).cursor == old(self).cursor + 1,
            final(self).wf(),
    {
        self.value.insert(self.cursor, ch);
        let n = self.value.len();
        self.cursor = self.cursor + 1;
    }

    /// Removes the character before the cursor and moves the cursor left;
    /// does nothing with the cursor at the start.
    pub fn backspace(&mut self)
        requires
            old(self).wf(),
        ensures
            old(self).cursor == 0 ==> *final(self) == *old(self),
            old(self).cursor > 0 ==> final(self).value@ == old(self).value@.remove(
                old(self).cursor - 1,
            ) && final(self).cursor == old(self).cursor - 1,
            final(self).wf(),
    {
        if self.cursor == 0 {
            return ;
        }
        self.value.remove(self.cursor - 1);
        self.cursor = self.cursor - 1;
    }
}

} // verus!
