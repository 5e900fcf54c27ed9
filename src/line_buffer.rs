use vstd::prelude::*;

use crate::text::{overlay_chars, overlay_seq, string_from_chars};

verus! {

/// The abstract state of a [`LineBuffer`]: its characters and its cursor.
pub struct BufferState {
    pub text: Seq<char>,
    pub row: nat,
    pub column: nat,
}

/// The state of a freshly created buffer.
pub open spec fn empty_state() -> BufferState {
    BufferState { text: Seq::empty(), row: 0, column: 0 }
}

/// A state is valid when the cursor column lies within `[0, length]`.
pub open spec fn valid_state(s: BufferState) -> bool {
    s.column <= s.text.len()
}

/// The position in the flat character sequence that a cursor addresses.
/// On a single line only the column counts.
pub open spec fn linear_index(row: nat, column: nat) -> int {
    column as int
}

/// `append(c)`: `c` goes to the end; the cursor stays where it is.
pub open spec fn append_state(s: BufferState, c: char) -> BufferState {
    BufferState { text: s.text.push(c), ..s }
}

/// `delete_last()`: the last character goes, if there is one; the cursor
/// column is pulled back to the new length when it lay past it.
pub open spec fn delete_last_state(s: BufferState) -> BufferState {
    if s.text.len() == 0 {
        s
    } else {
        let t = s.text.drop_last();
        BufferState {
            text: t,
            row: s.row,
            column: if s.column <= t.len() { s.column } else { t.len() },
        }
    }
}

/// The state after appending each character of `cs` in order.
pub open spec fn append_all_state(s: BufferState, cs: Seq<char>) -> BufferState
    decreases cs.len(),
{
    if cs.len() == 0 {
        s
    } else {
        append_state(append_all_state(s, cs.drop_last()), cs.last())
    }
}

/// What the display shows for a state when `glyph` is laid over the cursor.
pub open spec fn overlay_render(s: BufferState, glyph: char) -> Seq<char> {
    overlay_seq(s.text, linear_index(s.row, s.column), glyph)
}

/// Why an edit was refused.
#[derive(Debug, Clone, Copy, PartialEq, Eq, Structural)]
pub enum EditError {
    /// The buffer holds a single line: a line break has no place in it.
    MultiLineUnsupported,
}

/// A single line of text with a logical cursor.
pub struct LineBuffer {
    content: Vec<char>,
    row: usize,
    column: usize,
}

impl View for LineBuffer {
    type V = BufferState;

    closed spec fn view(&self) -> BufferState {
        BufferState { text: self.content@, row: self.row as nat, column: self.column as nat }
    }
}

impl LineBuffer {
    /// The buffer's invariant: the cursor column never passes the end.
    pub closed spec fn wf(&self) -> bool {
        self.column <= self.content@.len()
    }

    /// An empty buffer with the cursor at the origin.
    pub fn new() -> (b: LineBuffer)
        ensures
            b.wf(),
            b@ == empty_state(),
    {
        LineBuffer { content: Vec::new(), row: 0, column: 0 }
    }

    /// The number of characters held.
    pub fn len(&self) -> (n: usize)
        ensures
            n == self@.text.len(),
    {
        self.content.len()
    }

    /// Whether no character is held.
    pub fn is_empty(&self) -> (r: bool)
        ensures
            r == (self@.text.len() == 0),
    {
        self.content.len() == 0
    }

    /// The cursor as `(row, column)`.
    pub fn cursor(&self) -> (rc: (usize, usize))
        ensures
            rc.0 == self@.row,
            rc.1 == self@.column,
    {
        (self.row, self.column)
    }

    /// Inserts `c` at the end of the content.
    pub fn append(&mut self, c: char)
        requires
            old(self).wf(),
        ensures
            final(self).wf(),
            final(self)@ == append_state(old(self)@, c),
    {
        self.content.push(c);
    }

    /// Removes the last character; does nothing on an empty buffer.
    pub fn delete_last(&mut self)
        requires
            old(self).wf(),
        ensures
            final(self).wf(),
            final(self)@ == delete_last_state(old(self)@),
            old(self)@.text.len() == 0 ==> final(self)@ == old(self)@,
    {
        if self.content.len() > 0 {
            self.content.pop();
            if self.column > self.content.len() {
                self.column = self.content.len();
            }
        }
    }

    /// A line break cannot be stored in a single-line buffer: always refused,
    /// leaving the buffer as it was.
    pub fn insert_newline(&mut self) -> (r: Result<(), EditError>)
        requires
            old(self).wf(),
        ensures
            final(self).wf(),
            final(self)@ == old(self)@,
            r == Err::<(), EditError>(EditError::MultiLineUnsupported),
    {
        Err(EditError::MultiLineUnsupported)
    }

    /// Moves the cursor to `(row, column)`, with the column clamped to the
    /// content's length.
    pub fn set_cursor(&mut self, row: usize, column: usize)
        requires
            old(self).wf(),
        ensures
            final(self).wf(),
            final(self)@.text == old(self)@.text,
            final(self)@.row == row,
            final(self)@.column == if column <= old(self)@.text.len() {
                column as nat
            } else {
                old(self)@.text.len()
            },
    {
        self.row = row;
        self.column = if column <= self.content.len() {
            column
        } else {
            self.content.len()
        };
    }

    /// The content as a string.
    pub fn render(&self) -> (r: String)
        ensures
            r@ == self@.text,
    {
        string_from_chars(&self.content)
    }

    /// The content with the character under the cursor replaced by `glyph`;
    /// the stored content is left as it is. Where the cursor addresses no
    /// character, the content comes back unchanged.
    pub fn render_with_cursor_overlay(&self, glyph: char) -> (r: String)
        ensures
            r@ == overlay_render(self@, glyph),
    {
        let shown = overlay_chars(&self.content, self.column, glyph);
        string_from_chars(&shown)
    }
}

} // verus!
