//! Line editing on the console: what each typed character does to the line being read.
use vstd::prelude::*;

verus! {

/// What a typed character does to the line.
#[derive(Debug, Clone, Copy, PartialEq, Eq, Structural)]
pub enum LineEdit {
    /// Carriage return or line feed: the line is complete; echo a newline.
    Done,
    /// Backspace or delete with characters on the line: the last one is dropped; echo
    /// backspace, space, backspace.
    Erase,
    /// The character is stored at the end of the line; echo it.
    Insert(u8),
    /// Nothing changes: a backspace on an empty line, or a character when the line is full.
    Ignore,
}

/// The line after one edit: its buffer and length.
pub open spec fn spec_line_edit(buf: Seq<u8>, len: usize, c: u8) -> (LineEdit, Seq<u8>, usize) {
    if c == 0x0D || c == 0x0A {
        (LineEdit::Done, buf, len)
    } else if c == 0x08 || c == 0x7F {
        if len > 0 { (LineEdit::Erase, buf, (len - 1) as usize) } else { (LineEdit::Ignore, buf, len) }
    } else if len < buf.len() {
        (LineEdit::Insert(c), buf.update(len as int, c), (len + 1) as usize)
    } else {
        (LineEdit::Ignore, buf, len)
    }
}

/// Applies the typed character `c` to the line of `*len` characters held in `buffer`.
pub fn edit_line(buffer: &mut [u8], len: &mut usize, c: u8) -> (r: LineEdit)
    requires
        *old(len) <= old(buffer)@.len(),
    ensures
        (r, final(buffer)@, *final(len)) == spec_line_edit(old(buffer)@, *old(len), c),
        *final(len) <= final(buffer)@.len(),
{
    if c == 0x0D || c == 0x0A {
        LineEdit::Done
    } else if c == 0x08 || c == 0x7F {
        if *len > 0 {
            *len = *len - 1;
            LineEdit::Erase
        } else {
            LineEdit::Ignore
        }
    } else if *len < buffer.len() {
        buffer[*len] = c;
        *len = *len + 1;
        LineEdit::Insert(c)
    } else {
        LineEdit::Ignore
    }
}

/// A line typed without corrections reads back as typed: typing characters that are neither
/// line ends nor erasures into a line with room keeps them, in order, after what was there.
pub proof fn lemma_typed_chars_kept(buf: Seq<u8>, len: usize, c: u8)
    requires
        len < buf.len(),
        len < usize::MAX,
        c != 0x0D && c != 0x0A && c != 0x08 && c != 0x7F,
    ensures
        spec_line_edit(buf, len, c).2 == len + 1,
        spec_line_edit(buf, len, c).1.subrange(0, len + 1) == buf.subrange(0, len as int).push(c),
{
    assert(spec_line_edit(buf, len, c) == (LineEdit::Insert(c), buf.update(len as int, c), (len + 1) as usize));
    assert(buf.update(len as int, c).subrange(0, len + 1) =~= buf.subrange(0, len as int).push(c));
}

} // verus!
