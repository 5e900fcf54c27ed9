use vstd::prelude::*;

use crate::line_buffer::{
    append_all_state,
    append_state,
    delete_last_state,
    empty_state,
    valid_state,
    BufferState,
};
use crate::text::overlay_seq;

verus! {

/// Appending `c1 .. cn` to an empty buffer leaves exactly `c1 .. cn` in it,
/// and a render with no character to overlay (an index at or past the end)
/// shows exactly that sequence.
pub proof fn appends_render_their_concatenation(cs: Seq<char>)
    ensures
        valid_state(append_all_state(empty_state(), cs)),
        append_all_state(empty_state(), cs).text == cs,
        forall|index: int, glyph: char|
            index >= cs.len() ==> overlay_seq(
                #[trigger] append_all_state(empty_state(), cs).text,
                index,
                glyph,
            ) == cs,
    decreases cs.len(),
{
    if cs.len() > 0 {
        appends_render_their_concatenation(cs.drop_last());
        assert(cs.drop_last().push(cs.last()) == cs);
    }
}

/// Deleting from an empty buffer changes nothing, however often it is done.
pub proof fn delete_last_on_empty_is_no_op(s: BufferState)
    requires
        s.text.len() == 0,
    ensures
        delete_last_state(s) == s,
        delete_last_state(delete_last_state(s)) == s,
{
}

/// Appending a character and then deleting the last one restores the buffer.
pub proof fn append_then_delete_last_restores(s: BufferState, c: char)
    requires
        valid_state(s),
    ensures
        delete_last_state(append_state(s, c)) == s,
{
    assert(s.text.push(c).drop_last() == s.text);
}

/// Appending a character to an empty buffer and then deleting it gives the
/// empty buffer back.
pub proof fn append_then_delete_last_on_empty(c: char)
    ensures
        delete_last_state(append_state(empty_state(), c)) == empty_state(),
{
    append_then_delete_last_restores(empty_state(), c);
}

/// An overlay at an index inside the string replaces exactly the character
/// there and keeps the length.
pub proof fn overlay_in_range_replaces_one(s: Seq<char>, index: int, glyph: char)
    requires
        0 <= index < s.len(),
    ensures
        overlay_seq(s, index, glyph).len() == s.len(),
        overlay_seq(s, index, glyph)[index] == glyph,
        forall|j: int|
            0 <= j < s.len() && j != index ==> #[trigger] overlay_seq(s, index, glyph)[j] == s[j],
{
}

/// An overlay at an index outside the string returns the string unchanged.
pub proof fn overlay_out_of_range_is_identity(s: Seq<char>, index: int, glyph: char)
    requires
        index < 0 || index >= s.len(),
    ensures
        overlay_seq(s, index, glyph) == s,
{
}

} // verus!
