//! The bytes that input actions write to a session's terminal.

use vstd::prelude::*;
use crate::keys::{spec_key_to_char, key_to_char, Key, Mods};
use crate::text::chars_of;

verus! {

/// The UTF-8 encoding of a character.
pub open spec fn utf8_of(c: char) -> Seq<u8> {
    let v = c as u32;
    if v < 0x80 {
        seq![v as u8]
    } else if v < 0x800 {
        seq![(0xC0 + v / 64) as u8, (0x80 + v % 64) as u8]
    } else if v < 0x10000 {
        seq![(0xE0 + v / 4096) as u8, (0x80 + (v / 64) % 64) as u8, (0x80 + v % 64) as u8]
    } else {
        seq![
            (0xF0 + v / 262144) as u8,
            (0x80 + (v / 4096) % 64) as u8,
            (0x80 + (v / 64) % 64) as u8,
            (0x80 + v % 64) as u8,
        ]
    }
}

/// The UTF-8 encoding of a text: its characters' encodings in order.
pub open spec fn utf8_str(s: Seq<char>) -> Seq<u8>
    decreases s.len(),
{
    if s.len() == 0 {
        Seq::empty()
    } else {
        utf8_str(s.drop_last()) + utf8_of(s.last())
    }
}

/// The UTF-8 bytes of one character.
pub fn char_bytes(c: char) -> (b: Vec<u8>)
    ensures
        b@ == utf8_of(c),
{
    let v = c as u32;
    let mut b: Vec<u8> = Vec::new();
    if v < 0x80 {
        b.push(v as u8);
    } else if v < 0x800 {
        b.push((0xC0 + v / 64) as u8);
        b.push((0x80 + v % 64) as u8);
    } else if v < 0x10000 {
        b.push((0xE0 + v / 4096) as u8);
        b.push((0x80 + (v / 64) % 64) as u8);
        b.push((0x80 + v % 64) as u8);
    } else {
        assert(v <= 0x10FFFF);
        b.push((0xF0 + v / 262144) as u8);
        b.push((0x80 + (v / 4096) % 64) as u8);
        b.push((0x80 + (v / 64) % 64) as u8);
        b.push((0x80 + v % 64) as u8);
    }
    assert(b@ =~= utf8_of(c));
    b
}

/// The UTF-8 bytes of a text.
pub fn text_bytes(s: &str) -> (b: Vec<u8>)
    ensures
        b@ == utf8_str(s@),
{
    let cs = chars_of(s);
    let mut b: Vec<u8> = Vec::new();
    let mut i: usize = 0;
    while i < cs.len()
        invariant
            cs@ == s@,
            i <= cs@.len(),
            b@ == utf8_str(cs@.take(i as int)),
        decreases cs@.len() - i,
    {
        let mut cb = char_bytes(cs[i]);
        assert(cs@.take(i + 1).drop_last() =~= cs@.take(i as int));
        b.append(&mut cb);
        i = i + 1;
    }
    assert(cs@.take(cs@.len() as int) =~= cs@);
    b
}

/// Typed text is written one character at a time: the UTF-8 bytes of each
/// character, in order.
pub fn typed_chunks(text: &str) -> (chunks: Vec<Vec<u8>>)
    ensures
        chunks@.len() == text@.len(),
        forall|i: int| 0 <= i < chunks@.len() ==> #[trigger] chunks@[i]@ == utf8_of(text@[i]),
{
    let cs = chars_of(text);
    let mut chunks: Vec<Vec<u8>> = Vec::new();
    let mut i: usize = 0;
    while i < cs.len()
        invariant
            cs@ == text@,
            i <= cs@.len(),
            chunks@.len() == i,
            forall|j: int| 0 <= j < i ==> #[trigger] chunks@[j]@ == utf8_of(text@[j]),
        decreases cs@.len() - i,
    {
        chunks.push(char_bytes(cs[i]));
        i = i + 1;
    }
    chunks
}

/// The pause after each typed character: the delay, when one is given and
/// it is not zero.
pub fn typing_pause(delay_ms: Option<u64>) -> (p: Option<u64>)
    ensures
        p == (match delay_ms {
            Some(d) => if d > 0 {
                Some(d)
            } else {
                None
            },
            None => None,
        }),
{
    match delay_ms {
        Some(d) => if d > 0 {
            Some(d)
        } else {
            None
        },
        None => None,
    }
}

/// The opening of a bracketed paste, `ESC [ 2 0 0 ~`.
pub open spec fn paste_open() -> Seq<u8> {
    seq![0x1bu8, 0x5bu8, 0x32u8, 0x30u8, 0x30u8, 0x7eu8]
}

/// The closing of a bracketed paste, `ESC [ 2 0 1 ~`.
pub open spec fn paste_close() -> Seq<u8> {
    seq![0x1bu8, 0x5bu8, 0x32u8, 0x30u8, 0x31u8, 0x7eu8]
}

/// The writes of a paste: the text's bytes, wrapped in the bracketed-paste
/// markers when the terminal has that mode on.
pub fn paste_writes(text: &str, bracketed: bool) -> (w: Vec<Vec<u8>>)
    ensures
        bracketed ==> w@.len() == 3 && w@[0]@ == paste_open() && w@[1]@ == utf8_str(text@)
            && w@[2]@ == paste_close(),
        !bracketed ==> w@.len() == 1 && w@[0]@ == utf8_str(text@),
{
    let mut w: Vec<Vec<u8>> = Vec::new();
    if bracketed {
        let open: Vec<u8> = vec![0x1bu8, 0x5bu8, 0x32u8, 0x30u8, 0x30u8, 0x7eu8];
        assert(open@ =~= paste_open());
        w.push(open);
    }
    w.push(text_bytes(text));
    if bracketed {
        let close: Vec<u8> = vec![0x1bu8, 0x5bu8, 0x32u8, 0x30u8, 0x31u8, 0x7eu8];
        assert(close@ =~= paste_close());
        w.push(close);
    }
    w
}

/// The text a key press carries: the key's character, for a key without
/// modifiers that stands for one.
pub fn key_text(key: Key, mods: Mods) -> (c: Option<char>)
    ensures
        c == (if mods == Mods::none() {
            spec_key_to_char(key)
        } else {
            None
        }),
{
    if mods.is_empty() {
        key_to_char(key)
    } else {
        None
    }
}

} // verus!
