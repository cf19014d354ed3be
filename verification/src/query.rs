//! The interactive search prompt's query buffer.
//!
//! The prompt reads one key at a time and edits a buffer of characters; the
//! terminal work stays with the driver, the editing rule lives here.

use vstd::prelude::*;

verus! {

/// A keystroke, as far as the query buffer cares.
#[derive(Clone, Copy, Debug, PartialEq, Eq, Structural)]
pub enum KeyEvent {
    /// Finish the query.
    Enter,
    /// Delete the last character, if there is one.
    Backspace,
    /// Append a character.
    Character(char),
    /// Anything else; ignored.
    Other,
}

/// The characters typed so far.
pub struct QueryBuffer {
    pub chars: Vec<char>,
}

impl QueryBuffer {
    pub fn new() -> (q: QueryBuffer)
        ensures
            q.chars@ == Seq::<char>::empty(),
    {
        QueryBuffer { chars: Vec::new() }
    }

    /// Apply one keystroke. Returns whether the query is finished: only
    /// Enter finishes it. Enter and unknown keys leave the buffer as it is,
    /// Backspace drops the last character of a non-empty buffer, and a
    /// character key appends that character.
    pub fn apply_key(&mut self, key: KeyEvent) -> (done: bool)
        ensures
            done == (key is Enter),
            match key {
                KeyEvent::Enter => final(self).chars@ == old(self).chars@,
                KeyEvent::Backspace => final(self).chars@ == if old(self).chars@.len() == 0 {
                    old(self).chars@
                } else {
                    old(self).chars@.drop_last()
                },
                KeyEvent::Character(c) => final(self).chars@ == old(self).chars@.push(c),
                KeyEvent::Other => final(self).chars@ == old(self).chars@,
            },
    {
        match key {
            KeyEvent::Enter => true,
            KeyEvent::Backspace => {
                if self.chars.len() > 0 {
                    self.chars.pop();
                }
                false
            },
            KeyEvent::Character(c) => {
                self.chars.push(c);
                false
            },
            KeyEvent::Other => false,
        }
    }
}

} // verus!
