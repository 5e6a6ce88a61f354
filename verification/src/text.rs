//! Character positions and byte offsets in UTF-8 text.
//!
//! The editor counts its cursor in characters while `String` addresses its
//! contents in bytes. This module is the one place where one is turned into
//! the other.

use vstd::prelude::*;
use vstd::string::*;
use vstd::utf8::*;

verus! {

/// Number of bytes that the UTF-8 encoding of `c` takes.
pub open spec fn char_width(c: char) -> nat {
    encode_scalar(c as u32).len()
}

/// Byte offset at which the character with position `index` starts in the
/// UTF-8 encoding of `s`: the length of the encoding of the characters before
/// it. For `index == s.len()` this is the length of the whole encoding.
pub open spec fn byte_offset(s: Seq<char>, index: int) -> nat {
    encode_utf8(s.subrange(0, index)).len()
}

/// Every character takes between one and four bytes.
pub proof fn lemma_char_width_bounds(c: char)
    ensures
        1 <= char_width(c) <= 4,
{
}

/// The encoding of a concatenation is the concatenation of the encodings.
pub proof fn lemma_encode_concat(a: Seq<char>, b: Seq<char>)
    ensures
        encode_utf8(a + b) == encode_utf8(a) + encode_utf8(b),
    decreases a.len(),
{
    if a.len() == 0 {
        assert(a + b =~= b);
        assert(encode_utf8(a) + encode_utf8(b) =~= encode_utf8(b));
    } else {
        lemma_encode_concat(a.drop_first(), b);
        assert((a + b).drop_first() =~= a.drop_first() + b);
        assert((a + b)[0] == a[0]);
        assert(encode_utf8(a + b) =~= encode_utf8(a) + encode_utf8(b));
    }
}

/// The encoding of a single character.
pub proof fn lemma_encode_single(c: char)
    ensures
        encode_utf8(seq![c]) == encode_scalar(c as u32),
{
    let s = seq![c];
    assert(s.drop_first() =~= Seq::<char>::empty());
    assert(encode_utf8(s.drop_first()) =~= Seq::<u8>::empty());
    assert(encode_utf8(s) =~= encode_scalar(c as u32));
}

/// An encoding has at least as many bytes as characters, and at most four
/// times as many.
pub proof fn lemma_encode_len(s: Seq<char>)
    ensures
        s.len() <= encode_utf8(s).len() <= 4 * s.len(),
    decreases s.len(),
{
    if s.len() > 0 {
        lemma_encode_len(s.drop_first());
        lemma_char_width_bounds(s[0]);
    }
}

/// Byte offsets start at zero, end at the length of the encoding, and each
/// character moves the offset on by its own width.
pub proof fn lemma_byte_offset_step(s: Seq<char>, index: int)
    requires
        0 <= index < s.len(),
    ensures
        byte_offset(s, 0) == 0,
        byte_offset(s, s.len() as int) == encode_utf8(s).len(),
        byte_offset(s, index + 1) == byte_offset(s, index) + char_width(s[index]),
        byte_offset(s, index + 1) <= encode_utf8(s).len(),
{
    assert(s.subrange(0, 0) =~= Seq::<char>::empty());
    assert(s.subrange(0, s.len() as int) =~= s);
    assert(s.subrange(0, index + 1) =~= s.subrange(0, index) + seq![s[index]]);
    lemma_encode_concat(s.subrange(0, index), seq![s[index]]);
    lemma_encode_single(s[index]);
    lemma_byte_offset_split(s, index + 1);
}

/// The encoding of `s` splits at a byte offset into the encodings of the
/// characters before and after the position.
pub proof fn lemma_byte_offset_split(s: Seq<char>, index: int)
    requires
        0 <= index <= s.len(),
    ensures
        byte_offset(s, index) <= encode_utf8(s).len(),
        encode_utf8(s).subrange(0, byte_offset(s, index) as int) == encode_utf8(
            s.subrange(0, index),
        ),
        encode_utf8(s).subrange(byte_offset(s, index) as int, encode_utf8(s).len() as int)
            == encode_utf8(s.subrange(index, s.len() as int)),
{
    let head = s.subrange(0, index);
    let tail = s.subrange(index, s.len() as int);
    assert(s =~= head + tail);
    lemma_encode_concat(head, tail);
    let bytes = encode_utf8(head) + encode_utf8(tail);
    assert(bytes.subrange(0, encode_utf8(head).len() as int) =~= encode_utf8(head));
    assert(bytes.subrange(encode_utf8(head).len() as int, bytes.len() as int) =~= encode_utf8(
        tail,
    ));
}

/// The byte offset of every character position is a character boundary of the
/// encoding.
pub proof fn lemma_byte_offset_is_boundary(s: Seq<char>, index: int)
    requires
        0 <= index <= s.len(),
    ensures
        is_char_boundary(encode_utf8(s), byte_offset(s, index) as int),
    decreases index,
{
    broadcast use encode_utf8_valid_utf8;

    let bytes = encode_utf8(s);
    if index == 0 {
        assert(s.subrange(0, 0) =~= Seq::<char>::empty());
    } else {
        let rest = s.drop_first();
        encode_utf8_first_scalar(s);
        assert(pop_first_scalar(bytes) =~= encode_utf8(rest));
        lemma_byte_offset_is_boundary(rest, index - 1);
        assert(s.subrange(0, index).drop_first() =~= rest.subrange(0, index - 1));
        assert(s.subrange(0, index)[0] == s[0]);
        lemma_byte_offset_split(s, index);
        lemma_char_width_bounds(s[0]);
    }
}

/// Two texts with the same encoding are the same text.
pub proof fn lemma_encode_injective(a: Seq<char>, b: Seq<char>)
    requires
        encode_utf8(a) == encode_utf8(b),
    ensures
        a == b,
{
    encode_utf8_decode_utf8(a);
    encode_utf8_decode_utf8(b);
}

/// The character position that `index` stands for in a text of `len`
/// characters: positions past the end stand for the end.
pub open spec fn clamp_position(index: int, len: nat) -> int {
    if index <= len {
        index
    } else {
        len as int
    }
}

/// Computes [`char_width`].
pub fn utf8_width(c: char) -> (width: usize)
    ensures
        width == char_width(c),
        1 <= width <= 4,
{
    let code: u32 = c as u32;
    if code < 0x80 {
        1
    } else if code < 0x800 {
        2
    } else if code < 0x10000 {
        3
    } else {
        4
    }
}

/// Byte offset of the character position `index` in `s`, found by walking the
/// characters from the start and adding up their widths. A position past the
/// end gives the length of `s` in bytes.
pub fn byte_offset_of(s: &str, index: usize) -> (offset: usize)
    ensures
        offset == byte_offset(s@, clamp_position(index as int, s@.len())),
        is_char_boundary(s.spec_bytes(), offset as int),
{
    let bytes = s.as_bytes();
    let total: usize = bytes.len();
    let mut offset: usize = 0;
    let mut seen: usize = 0;
    proof {
        lemma_byte_offset_split(s@, 0);
        assert(s@.subrange(0, 0) =~= Seq::<char>::empty());
    }
    for c in it: s.chars()
        invariant
            it.seq() == s@,
            total == encode_utf8(s@).len(),
            seen == clamp_position(index as int, it.index() as nat),
            offset == byte_offset(s@, seen as int),
    {
        if seen < index {
            proof {
                lemma_byte_offset_step(s@, seen as int);
            }
            offset = offset + utf8_width(c);
            seen = seen + 1;
        }
    }
    proof {
        lemma_byte_offset_is_boundary(s@, seen as int);
    }
    offset
}

/// `String::insert` of the standard library: puts the encoding of `c` into
/// the text at the byte offset `offset`, which has to lie on a character
/// boundary, and moves the bytes from there on back.
#[verifier::external_body]
fn insert_at_byte(text: &mut String, offset: usize, c: char)
    requires
        is_char_boundary(encode_utf8(old(text)@), offset as int),
    ensures
        encode_utf8(final(text)@) == encode_utf8(old(text)@).subrange(0, offset as int)
            + encode_scalar(c as u32) + encode_utf8(old(text)@).subrange(
            offset as int,
            encode_utf8(old(text)@).len() as int,
        ),
{
    text.insert(offset, c);
}

/// Puts `c` into `text` before the character with position `index`; a
/// position past the end appends.
pub fn insert_char(text: &mut String, index: usize, c: char)
    ensures
        final(text)@ == old(text)@.insert(clamp_position(index as int, old(text)@.len()), c),
{
    let ghost before = text@;
    let ghost position = clamp_position(index as int, before.len());
    let offset = byte_offset_of(text.as_str(), index);
    insert_at_byte(text, offset, c);
    proof {
        let head = before.subrange(0, position);
        let tail = before.subrange(position, before.len() as int);
        lemma_byte_offset_split(before, position);
        lemma_encode_single(c);
        lemma_encode_concat(head, seq![c]);
        lemma_encode_concat(head + seq![c], tail);
        assert(before.insert(position, c) =~= head + seq![c] + tail);
        lemma_encode_injective(text@, before.insert(position, c));
    }
}

/// The text `s` without the character at position `index`; a position past
/// the end leaves nothing out.
pub fn without_char(s: &str, index: usize) -> (shorter: String)
    ensures
        shorter@ == if index < s@.len() {
            s@.remove(index as int)
        } else {
            s@
        },
{
    let len = s.unicode_len();
    if index >= len {
        return String::from_str(s);
    }
    let head = s.substring_char(0, index);
    let tail = s.substring_char(index + 1, len);
    let mut shorter = String::from_str(head);
    shorter.append(tail);
    proof {
        assert(shorter@ =~= s@.remove(index as int));
    }
    shorter
}

} // verus!
