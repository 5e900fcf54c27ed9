use vstd::prelude::*;

verus! {

/// `s` with the character at `index` replaced by `glyph`; `s` itself where
/// `index` addresses no character.
pub open spec fn overlay_seq(s: Seq<char>, index: int, glyph: char) -> Seq<char> {
    if 0 <= index < s.len() {
        s.update(index, glyph)
    } else {
        s
    }
}

/// Relies on `String`'s `FromIterator<char>`: the string holds the
/// characters in the order given.
#[verifier::external_body]
pub(crate) fn string_from_chars(cs: &Vec<char>) -> (r: String)
    ensures
        r@ == cs@,
{
    cs.iter().collect()
}

/// A copy of `cs` with the character at `index` replaced by `glyph`.
pub(crate) fn overlay_chars(cs: &Vec<char>, index: usize, glyph: char) -> (r: Vec<char>)
    ensures
        r@ == overlay_seq(cs@, index as int, glyph),
{
    let mut out: Vec<char> = Vec::new();
    let n = cs.len();
    let mut i: usize = 0;
    while i < n
        invariant
            n == cs@.len(),
            i <= n,
            out@ == overlay_seq(cs@, index as int, glyph).subrange(0, i as int),
        decreases n - i,
    {
        if i == index {
            out.push(glyph);
        } else {
            out.push(cs[i]);
        }
        i += 1;
    }
    assert(out@ == overlay_seq(cs@, index as int, glyph));
    out
}

/// `text` with the character at position `index` (counted in characters)
/// replaced by `glyph`. An index at or past the end leaves `text` unchanged.
pub fn overlay(text: &str, index: usize, glyph: char) -> (r: String)
    ensures
        r@ == overlay_seq(text@, index as int, glyph),
{
    let n = text.unicode_len();
    let mut out: Vec<char> = Vec::new();
    let mut i: usize = 0;
    while i < n
        invariant
            n == text@.len(),
            i <= n,
            out@ == overlay_seq(text@, index as int, glyph).subrange(0, i as int),
        decreases n - i,
    {
        if i == index {
            out.push(glyph);
        } else {
            out.push(text.get_char(i));
        }
        i += 1;
    }
    assert(out@ == overlay_seq(text@, index as int, glyph));
    string_from_chars(&out)
}

} // verus!
