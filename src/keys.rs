use vstd::prelude::*;

use crate::line_buffer::{append_state, delete_last_state, BufferState, LineBuffer};

verus! {

/// A decoded keystroke, as the surrounding event loop hands it over.
#[derive(Debug, Clone, Copy, PartialEq, Eq, Structural)]
pub enum Key {
    Char(char),
    Enter,
    Backspace,
    Quit,
    Other,
}

/// What the event loop does after a keystroke has been applied.
#[derive(Debug, Clone, Copy, PartialEq, Eq, Structural)]
pub enum Action {
    /// The content changed: clear the screen and draw it again.
    Redraw,
    /// Nothing to show: wait for the next key.
    Ignore,
    /// Leave the loop.
    Quit,
}

/// The buffer's state after `key`.
pub open spec fn key_state(s: BufferState, key: Key) -> BufferState {
    match key {
        Key::Char(c) => append_state(s, c),
        Key::Backspace => delete_last_state(s),
        _ => s,
    }
}

/// The loop's action after `key`.
pub open spec fn key_action(key: Key) -> Action {
    match key {
        Key::Char(_) => Action::Redraw,
        Key::Backspace => Action::Redraw,
        Key::Quit => Action::Quit,
        _ => Action::Ignore,
    }
}

impl LineBuffer {
    /// Applies one keystroke: a character is appended, backspace deletes the
    /// last character, enter is refused by the single-line model, the quit
    /// key ends the loop and any other key is ignored.
    pub fn handle_key(&mut self, key: Key) -> (a: Action)
        requires
            old(self).wf(),
        ensures
            final(self).wf(),
            final(self)@ == key_state(old(self)@, key),
            a == key_action(key),
    {
        match key {
            Key::Char(c) => {
                self.append(c);
                Action::Redraw
            },
            Key::Backspace => {
                self.delete_last();
                Action::Redraw
            },
            Key::Enter => {
                let _ = self.insert_newline();
                Action::Ignore
            },
            Key::Quit => Action::Quit,
            Key::Other => Action::Ignore,
        }
    }
}

} // verus!
