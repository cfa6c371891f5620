//! Key and mouse specifications: the text forms `ctrl-c`, `f1`, `click:10,5`
//! that callers use to name terminal input.

use vstd::prelude::*;
use vstd::string::*;
use crate::text::{
    chars_of, eq_str, lemma_split_on_nonempty, split_chars, split_on, split_once, split_once_chars,
    string_of,
};

verus! {

/// A key that the terminal's key encoder knows.
#[derive(Clone, Copy, Debug, PartialEq, Eq, Structural)]
pub enum Key {
    Enter,
    Tab,
    Escape,
    Space,
    Backspace,
    Delete,
    ArrowUp,
    ArrowDown,
    ArrowLeft,
    ArrowRight,
    Home,
    End,
    PageUp,
    PageDown,
    Insert,
    F1,
    F2,
    F3,
    F4,
    F5,
    F6,
    F7,
    F8,
    F9,
    F10,
    F11,
    F12,
    A,
    B,
    C,
    D,
    E,
    F,
    G,
    H,
    I,
    J,
    K,
    L,
    M,
    N,
    O,
    P,
    Q,
    R,
    S,
    T,
    U,
    V,
    W,
    X,
    Y,
    Z,
    Digit0,
    Digit1,
    Digit2,
    Digit3,
    Digit4,
    Digit5,
    Digit6,
    Digit7,
    Digit8,
    Digit9,
}

/// Modifier keys held with a key.
#[derive(Clone, Copy, Debug, PartialEq, Eq, Structural)]
pub struct Mods {
    pub ctrl: bool,
    pub alt: bool,
    pub shift: bool,
    pub super_key: bool,
}

/// One modifier, as a key spec names it.
#[derive(Clone, Copy, Debug, PartialEq, Eq, Structural)]
pub enum Modifier {
    Ctrl,
    Alt,
    Shift,
    Super,
}

impl Mods {
    /// No modifier held.
    pub open spec fn none() -> Mods {
        Mods { ctrl: false, alt: false, shift: false, super_key: false }
    }

    /// These modifiers together with `m`.
    pub open spec fn with(self, m: Modifier) -> Mods {
        match m {
            Modifier::Ctrl => Mods { ctrl: true, ..self },
            Modifier::Alt => Mods { alt: true, ..self },
            Modifier::Shift => Mods { shift: true, ..self },
            Modifier::Super => Mods { super_key: true, ..self },
        }
    }

    /// No modifier held.
    pub fn empty() -> (m: Mods)
        ensures
            m == Mods::none(),
    {
        Mods { ctrl: false, alt: false, shift: false, super_key: false }
    }

    /// Whether no modifier is held.
    pub fn is_empty(&self) -> (b: bool)
        ensures
            b == (*self == Mods::none()),
    {
        !self.ctrl && !self.alt && !self.shift && !self.super_key
    }

    /// Adds `m`.
    pub fn add(&mut self, m: Modifier)
        ensures
            *final(self) == old(self).with(m),
    {
        match m {
            Modifier::Ctrl => self.ctrl = true,
            Modifier::Alt => self.alt = true,
            Modifier::Shift => self.shift = true,
            Modifier::Super => self.super_key = true,
        }
    }
}

/// The key that a single character names.
pub open spec fn spec_char_to_key(ch: char) -> Option<Key> {
    match ch {
        'a' => Some(Key::A),
        'b' => Some(Key::B),
        'c' => Some(Key::C),
        'd' => Some(Key::D),
        'e' => Some(Key::E),
        'f' => Some(Key::F),
        'g' => Some(Key::G),
        'h' => Some(Key::H),
        'i' => Some(Key::I),
        'j' => Some(Key::J),
        'k' => Some(Key::K),
        'l' => Some(Key::L),
        'm' => Some(Key::M),
        'n' => Some(Key::N),
        'o' => Some(Key::O),
        'p' => Some(Key::P),
        'q' => Some(Key::Q),
        'r' => Some(Key::R),
        's' => Some(Key::S),
        't' => Some(Key::T),
        'u' => Some(Key::U),
        'v' => Some(Key::V),
        'w' => Some(Key::W),
        'x' => Some(Key::X),
        'y' => Some(Key::Y),
        'z' => Some(Key::Z),
        '0' => Some(Key::Digit0),
        '1' => Some(Key::Digit1),
        '2' => Some(Key::Digit2),
        '3' => Some(Key::Digit3),
        '4' => Some(Key::Digit4),
        '5' => Some(Key::Digit5),
        '6' => Some(Key::Digit6),
        '7' => Some(Key::Digit7),
        '8' => Some(Key::Digit8),
        '9' => Some(Key::Digit9),
        _ => None,
    }
}

/// The character that a key types when no modifier is held.
pub open spec fn spec_key_to_char(key: Key) -> Option<char> {
    match key {
        Key::A => Some('a'),
        Key::B => Some('b'),
        Key::C => Some('c'),
        Key::D => Some('d'),
        Key::E => Some('e'),
        Key::F => Some('f'),
        Key::G => Some('g'),
        Key::H => Some('h'),
        Key::I => Some('i'),
        Key::J => Some('j'),
        Key::K => Some('k'),
        Key::L => Some('l'),
        Key::M => Some('m'),
        Key::N => Some('n'),
        Key::O => Some('o'),
        Key::P => Some('p'),
        Key::Q => Some('q'),
        Key::R => Some('r'),
        Key::S => Some('s'),
        Key::T => Some('t'),
        Key::U => Some('u'),
        Key::V => Some('v'),
        Key::W => Some('w'),
        Key::X => Some('x'),
        Key::Y => Some('y'),
        Key::Z => Some('z'),
        Key::Space => Some(' '),
        Key::Enter => Some('\r'),
        Key::Tab => Some('\t'),
        _ => None,
    }
}

/// Maps a lowercase letter or a digit to its key.
pub fn char_to_key(ch: char) -> (r: Option<Key>)
    ensures
        r == spec_char_to_key(ch),
{
    match ch {
        'a' => Some(Key::A),
        'b' => Some(Key::B),
        'c' => Some(Key::C),
        'd' => Some(Key::D),
        'e' => Some(Key::E),
        'f' => Some(Key::F),
        'g' => Some(Key::G),
        'h' => Some(Key::H),
        'i' => Some(Key::I),
        'j' => Some(Key::J),
        'k' => Some(Key::K),
        'l' => Some(Key::L),
        'm' => Some(Key::M),
        'n' => Some(Key::N),
        'o' => Some(Key::O),
        'p' => Some(Key::P),
        'q' => Some(Key::Q),
        'r' => Some(Key::R),
        's' => Some(Key::S),
        't' => Some(Key::T),
        'u' => Some(Key::U),
        'v' => Some(Key::V),
        'w' => Some(Key::W),
        'x' => Some(Key::X),
        'y' => Some(Key::Y),
        'z' => Some(Key::Z),
        '0' => Some(Key::Digit0),
        '1' => Some(Key::Digit1),
        '2' => Some(Key::Digit2),
        '3' => Some(Key::Digit3),
        '4' => Some(Key::Digit4),
        '5' => Some(Key::Digit5),
        '6' => Some(Key::Digit6),
        '7' => Some(Key::Digit7),
        '8' => Some(Key::Digit8),
        '9' => Some(Key::Digit9),
        _ => None,
    }
}

/// The character a key types on its own, if it types one.
pub fn key_to_char(key: Key) -> (r: Option<char>)
    ensures
        r == spec_key_to_char(key),
{
    match key {
        Key::A => Some('a'),
        Key::B => Some('b'),
        Key::C => Some('c'),
        Key::D => Some('d'),
        Key::E => Some('e'),
        Key::F => Some('f'),
        Key::G => Some('g'),
        Key::H => Some('h'),
        Key::I => Some('i'),
        Key::J => Some('j'),
        Key::K => Some('k'),
        Key::L => Some('l'),
        Key::M => Some('m'),
        Key::N => Some('n'),
        Key::O => Some('o'),
        Key::P => Some('p'),
        Key::Q => Some('q'),
        Key::R => Some('r'),
        Key::S => Some('s'),
        Key::T => Some('t'),
        Key::U => Some('u'),
        Key::V => Some('v'),
        Key::W => Some('w'),
        Key::X => Some('x'),
        Key::Y => Some('y'),
        Key::Z => Some('z'),
        Key::Space => Some(' '),
        Key::Enter => Some('\r'),
        Key::Tab => Some('\t'),
        _ => None,
    }
}

/// A letter key types the letter that names it, and that letter names the key
/// again.
pub proof fn lemma_letter_keys_roundtrip(ch: char)
    requires
        'a' <= ch && ch <= 'z',
    ensures
        spec_char_to_key(ch) is Some,
        spec_key_to_char(spec_char_to_key(ch)->0) == Some(ch),
{
}

/// Every key that types a character other than a control or blank one is
/// named by that character.
pub proof fn lemma_typed_char_names_key(key: Key)
    requires
        spec_key_to_char(key) is Some,
        key != Key::Space && key != Key::Enter && key != Key::Tab,
    ensures
        spec_char_to_key(spec_key_to_char(key)->0) == Some(key),
{
}

/// Unicode lowercase mapping of a string, as `str::to_lowercase` computes it.
pub uninterp spec fn unicode_lowercase(s: Seq<char>) -> Seq<char>;

/// An ASCII character lowercased: `A`-`Z` become `a`-`z`, every other
/// character stays.
pub open spec fn ascii_lower(c: char) -> char {
    if 'A' <= c && c <= 'Z' {
        ((c as u32) + 32) as char
    } else {
        c
    }
}

/// Every character is ASCII.
pub open spec fn is_ascii_text(s: Seq<char>) -> bool {
    forall|i: int| 0 <= i < s.len() ==> (#[trigger] s[i]) <= '\u{7f}'
}

/// Text lowercased as key specs are read: ASCII letter by letter, other
/// text by the Unicode mapping.
pub open spec fn spec_lowercase(s: Seq<char>) -> Seq<char> {
    if is_ascii_text(s) {
        s.map_values(|c: char| ascii_lower(c))
    } else {
        unicode_lowercase(s)
    }
}

/// Calls `str::to_lowercase`. Claims: the result is the Unicode lowercase
/// mapping of the argument, which it names; on ASCII text that mapping
/// lowercases `A`-`Z` character by character and keeps every other
/// character. Beyond ASCII nothing more is said.
#[verifier::external_body]
fn to_lowercase(s: &str) -> (r: String)
    ensures
        r@ == unicode_lowercase(s@),
        is_ascii_text(s@) ==> r@ == s@.map_values(|c: char| ascii_lower(c)),
{
    s.to_lowercase()
}

/// The modifier that an already lowercased name denotes.
pub open spec fn spec_modifier_named(name: Seq<char>) -> Option<Modifier> {
    if name == "ctrl"@ || name == "c"@ {
        Some(Modifier::Ctrl)
    } else if name == "alt"@ || name == "a"@ || name == "meta"@ || name == "m"@ {
        Some(Modifier::Alt)
    } else if name == "shift"@ || name == "s"@ {
        Some(Modifier::Shift)
    } else if name == "super"@ {
        Some(Modifier::Super)
    } else {
        None
    }
}

/// The key that an already lowercased name denotes.
pub open spec fn spec_key_named(name: Seq<char>) -> Option<Key> {
    if name == "enter"@ || name == "return"@ || name == "cr"@ {
        Some(Key::Enter)
    } else if name == "tab"@ {
        Some(Key::Tab)
    } else if name == "escape"@ || name == "esc"@ {
        Some(Key::Escape)
    } else if name == "space"@ {
        Some(Key::Space)
    } else if name == "backspace"@ || name == "bs"@ {
        Some(Key::Backspace)
    } else if name == "delete"@ || name == "del"@ {
        Some(Key::Delete)
    } else if name == "up"@ {
        Some(Key::ArrowUp)
    } else if name == "down"@ {
        Some(Key::ArrowDown)
    } else if name == "left"@ {
        Some(Key::ArrowLeft)
    } else if name == "right"@ {
        Some(Key::ArrowRight)
    } else if name == "home"@ {
        Some(Key::Home)
    } else if name == "end"@ {
        Some(Key::End)
    } else if name == "pageup"@ || name == "pgup"@ {
        Some(Key::PageUp)
    } else if name == "pagedown"@ || name == "pgdn"@ {
        Some(Key::PageDown)
    } else if name == "insert"@ || name == "ins"@ {
        Some(Key::Insert)
    } else if name == "f1"@ {
        Some(Key::F1)
    } else if name == "f2"@ {
        Some(Key::F2)
    } else if name == "f3"@ {
        Some(Key::F3)
    } else if name == "f4"@ {
        Some(Key::F4)
    } else if name == "f5"@ {
        Some(Key::F5)
    } else if name == "f6"@ {
        Some(Key::F6)
    } else if name == "f7"@ {
        Some(Key::F7)
    } else if name == "f8"@ {
        Some(Key::F8)
    } else if name == "f9"@ {
        Some(Key::F9)
    } else if name == "f10"@ {
        Some(Key::F10)
    } else if name == "f11"@ {
        Some(Key::F11)
    } else if name == "f12"@ {
        Some(Key::F12)
    } else if name.len() == 1 && (name[0] as u32) < 128 {
        spec_char_to_key(name[0])
    } else {
        None
    }
}

/// Which names denote the named keys, over every (lowercased) name: the
/// name denotes a key exactly when it is one of that key's names: `enter`,
/// `return` or `cr` for Enter, `left` for the left arrow, `right` for the
/// right arrow, `up` and `down` for those arrows, `f1` to `f12` for the
/// function keys, and so on. No other name, and no single character,
/// denotes one of these keys.
pub proof fn law_key_names(name: Seq<char>)
    ensures
        spec_key_named(name) == Some(Key::Enter) <==> (name == "enter"@ || name == "return"@ || name == "cr"@),
        spec_key_named(name) == Some(Key::Tab) <==> (name == "tab"@),
        spec_key_named(name) == Some(Key::Escape) <==> (name == "escape"@ || name == "esc"@),
        spec_key_named(name) == Some(Key::Space) <==> (name == "space"@),
        spec_key_named(name) == Some(Key::Backspace) <==> (name == "backspace"@ || name == "bs"@),
        spec_key_named(name) == Some(Key::Delete) <==> (name == "delete"@ || name == "del"@),
        spec_key_named(name) == Some(Key::ArrowUp) <==> (name == "up"@),
        spec_key_named(name) == Some(Key::ArrowDown) <==> (name == "down"@),
        spec_key_named(name) == Some(Key::ArrowLeft) <==> (name == "left"@),
        spec_key_named(name) == Some(Key::ArrowRight) <==> (name == "right"@),
        spec_key_named(name) == Some(Key::Home) <==> (name == "home"@),
        spec_key_named(name) == Some(Key::End) <==> (name == "end"@),
        spec_key_named(name) == Some(Key::PageUp) <==> (name == "pageup"@ || name == "pgup"@),
        spec_key_named(name) == Some(Key::PageDown) <==> (name == "pagedown"@ || name == "pgdn"@),
        spec_key_named(name) == Some(Key::Insert) <==> (name == "insert"@ || name == "ins"@),
        spec_key_named(name) == Some(Key::F1) <==> (name == "f1"@),
        spec_key_named(name) == Some(Key::F2) <==> (name == "f2"@),
        spec_key_named(name) == Some(Key::F3) <==> (name == "f3"@),
        spec_key_named(name) == Some(Key::F4) <==> (name == "f4"@),
        spec_key_named(name) == Some(Key::F5) <==> (name == "f5"@),
        spec_key_named(name) == Some(Key::F6) <==> (name == "f6"@),
        spec_key_named(name) == Some(Key::F7) <==> (name == "f7"@),
        spec_key_named(name) == Some(Key::F8) <==> (name == "f8"@),
        spec_key_named(name) == Some(Key::F9) <==> (name == "f9"@),
        spec_key_named(name) == Some(Key::F10) <==> (name == "f10"@),
        spec_key_named(name) == Some(Key::F11) <==> (name == "f11"@),
        spec_key_named(name) == Some(Key::F12) <==> (name == "f12"@),
{
    lemma_names_of_enter(name);
    lemma_names_of_tab(name);
    lemma_names_of_escape(name);
    lemma_names_of_space(name);
    lemma_names_of_backspace(name);
    lemma_names_of_delete(name);
    lemma_names_of_arrow_up(name);
    lemma_names_of_arrow_down(name);
    lemma_names_of_arrow_left(name);
    lemma_names_of_arrow_right(name);
    lemma_names_of_home(name);
    lemma_names_of_end(name);
    lemma_names_of_page_up(name);
    lemma_names_of_page_down(name);
    lemma_names_of_insert(name);
    lemma_names_of_f1(name);
    lemma_names_of_f2(name);
    lemma_names_of_f3(name);
    lemma_names_of_f4(name);
    lemma_names_of_f5(name);
    lemma_names_of_f6(name);
    lemma_names_of_f7(name);
    lemma_names_of_f8(name);
    lemma_names_of_f9(name);
    lemma_names_of_f10(name);
    lemma_names_of_f11(name);
    lemma_names_of_f12(name);
}

proof fn lemma_names_of_enter(name: Seq<char>)
    ensures
        spec_key_named(name) == Some(Key::Enter) <==> (name == "enter"@ || name == "return"@ || name == "cr"@),
{
    reveal_strlit("enter");
    reveal_strlit("return");
    reveal_strlit("cr");
}

proof fn lemma_names_of_tab(name: Seq<char>)
    ensures
        spec_key_named(name) == Some(Key::Tab) <==> (name == "tab"@),
{
    reveal_strlit("tab");
    reveal_strlit("enter");
    reveal_strlit("return");
    reveal_strlit("cr");
    assert("tab"@.len() != "enter"@.len());
    assert("tab"@.len() != "return"@.len());
    assert("tab"@.len() != "cr"@.len());
}

proof fn lemma_names_of_escape(name: Seq<char>)
    ensures
        spec_key_named(name) == Some(Key::Escape) <==> (name == "escape"@ || name == "esc"@),
{
    reveal_strlit("escape");
    reveal_strlit("esc");
    reveal_strlit("enter");
    reveal_strlit("return");
    reveal_strlit("cr");
    reveal_strlit("tab");
    assert("escape"@.len() != "enter"@.len());
    assert("escape"@[0] != "return"@[0]);
    assert("escape"@.len() != "cr"@.len());
    assert("escape"@.len() != "tab"@.len());
    assert("esc"@.len() != "enter"@.len());
    assert("esc"@.len() != "return"@.len());
    assert("esc"@.len() != "cr"@.len());
    assert("esc"@[0] != "tab"@[0]);
}

proof fn lemma_names_of_space(name: Seq<char>)
    ensures
        spec_key_named(name) == Some(Key::Space) <==> (name == "space"@),
{
    reveal_strlit("space");
    reveal_strlit("enter");
    reveal_strlit("return");
    reveal_strlit("cr");
    reveal_strlit("tab");
    reveal_strlit("escape");
    reveal_strlit("esc");
    assert("space"@[0] != "enter"@[0]);
    assert("space"@.len() != "return"@.len());
    assert("space"@.len() != "cr"@.len());
    assert("space"@.len() != "tab"@.len());
    assert("space"@.len() != "escape"@.len());
    assert("space"@.len() != "esc"@.len());
}

proof fn lemma_names_of_backspace(name: Seq<char>)
    ensures
        spec_key_named(name) == Some(Key::Backspace) <==> (name == "backspace"@ || name == "bs"@),
{
    reveal_strlit("backspace");
    reveal_strlit("bs");
    reveal_strlit("enter");
    reveal_strlit("return");
    reveal_strlit("cr");
    reveal_strlit("tab");
    reveal_strlit("escape");
    reveal_strlit("esc");
    reveal_strlit("space");
    assert("backspace"@.len() != "enter"@.len());
    assert("backspace"@.len() != "return"@.len());
    assert("backspace"@.len() != "cr"@.len());
    assert("backspace"@.len() != "tab"@.len());
    assert("backspace"@.len() != "escape"@.len());
    assert("backspace"@.len() != "esc"@.len());
    assert("backspace"@.len() != "space"@.len());
    assert("bs"@.len() != "enter"@.len());
    assert("bs"@.len() != "return"@.len());
    assert("bs"@[0] != "cr"@[0]);
    assert("bs"@.len() != "tab"@.len());
    assert("bs"@.len() != "escape"@.len());
    assert("bs"@.len() != "esc"@.len());
    assert("bs"@.len() != "space"@.len());
}

proof fn lemma_names_of_delete(name: Seq<char>)
    ensures
        spec_key_named(name) == Some(Key::Delete) <==> (name == "delete"@ || name == "del"@),
{
    reveal_strlit("delete");
    reveal_strlit("del");
    reveal_strlit("enter");
    reveal_strlit("return");
    reveal_strlit("cr");
    reveal_strlit("tab");
    reveal_strlit("escape");
    reveal_strlit("esc");
    reveal_strlit("space");
    reveal_strlit("backspace");
    reveal_strlit("bs");
    assert("delete"@.len() != "enter"@.len());
    assert("delete"@[0] != "return"@[0]);
    assert("delete"@.len() != "cr"@.len());
    assert("delete"@.len() != "tab"@.len());
    assert("delete"@[0] != "escape"@[0]);
    assert("delete"@.len() != "esc"@.len());
    assert("delete"@.len() != "space"@.len());
    assert("delete"@.len() != "backspace"@.len());
    assert("delete"@.len() != "bs"@.len());
    assert("del"@.len() != "enter"@.len());
    assert("del"@.len() != "return"@.len());
    assert("del"@.len() != "cr"@.len());
    assert("del"@[0] != "tab"@[0]);
    assert("del"@.len() != "escape"@.len());
    assert("del"@[0] != "esc"@[0]);
    assert("del"@.len() != "space"@.len());
    assert("del"@.len() != "backspace"@.len());
    assert("del"@.len() != "bs"@.len());
}

proof fn lemma_names_of_arrow_up(name: Seq<char>)
    ensures
        spec_key_named(name) == Some(Key::ArrowUp) <==> (name == "up"@),
{
    reveal_strlit("up");
    reveal_strlit("enter");
    reveal_strlit("return");
    reveal_strlit("cr");
    reveal_strlit("tab");
    reveal_strlit("escape");
    reveal_strlit("esc");
    reveal_strlit("space");
    reveal_strlit("backspace");
    reveal_strlit("bs");
    reveal_strlit("delete");
    reveal_strlit("del");
    assert("up"@.len() != "enter"@.len());
    assert("up"@.len() != "return"@.len());
    assert("up"@[0] != "cr"@[0]);
    assert("up"@.len() != "tab"@.len());
    assert("up"@.len() != "escape"@.len());
    assert("up"@.len() != "esc"@.len());
    assert("up"@.len() != "space"@.len());
    assert("up"@.len() != "backspace"@.len());
    assert("up"@[0] != "bs"@[0]);
    assert("up"@.len() != "delete"@.len());
    assert("up"@.len() != "del"@.len());
}

proof fn lemma_names_of_arrow_down(name: Seq<char>)
    ensures
        spec_key_named(name) == Some(Key::ArrowDown) <==> (name == "down"@),
{
    reveal_strlit("down");
    reveal_strlit("enter");
    reveal_strlit("return");
    reveal_strlit("cr");
    reveal_strlit("tab");
    reveal_strlit("escape");
    reveal_strlit("esc");
    reveal_strlit("space");
    reveal_strlit("backspace");
    reveal_strlit("bs");
    reveal_strlit("delete");
    reveal_strlit("del");
    reveal_strlit("up");
    assert("down"@.len() != "enter"@.len());
    assert("down"@.len() != "return"@.len());
    assert("down"@.len() != "cr"@.len());
    assert("down"@.len() != "tab"@.len());
    assert("down"@.len() != "escape"@.len());
    assert("down"@.len() != "esc"@.len());
    assert("down"@.len() != "space"@.len());
    assert("down"@.len() != "backspace"@.len());
    assert("down"@.len() != "bs"@.len());
    assert("down"@.len() != "delete"@.len());
    assert("down"@.len() != "del"@.len());
    assert("down"@.len() != "up"@.len());
}

proof fn lemma_names_of_arrow_left(name: Seq<char>)
    ensures
        spec_key_named(name) == Some(Key::ArrowLeft) <==> (name == "left"@),
{
    reveal_strlit("left");
    reveal_strlit("enter");
    reveal_strlit("return");
    reveal_strlit("cr");
    reveal_strlit("tab");
    reveal_strlit("escape");
    reveal_strlit("esc");
    reveal_strlit("space");
    reveal_strlit("backspace");
    reveal_strlit("bs");
    reveal_strlit("delete");
    reveal_strlit("del");
    reveal_strlit("up");
    reveal_strlit("down");
    assert("left"@.len() != "enter"@.len());
    assert("left"@.len() != "return"@.len());
    assert("left"@.len() != "cr"@.len());
    assert("left"@.len() != "tab"@.len());
    assert("left"@.len() != "escape"@.len());
    assert("left"@.len() != "esc"@.len());
    assert("left"@.len() != "space"@.len());
    assert("left"@.len() != "backspace"@.len());
    assert("left"@.len() != "bs"@.len());
    assert("left"@.len() != "delete"@.len());
    assert("left"@.len() != "del"@.len());
    assert("left"@.len() != "up"@.len());
    assert("left"@[0] != "down"@[0]);
}

proof fn lemma_names_of_arrow_right(name: Seq<char>)
    ensures
        spec_key_named(name) == Some(Key::ArrowRight) <==> (name == "right"@),
{
    reveal_strlit("right");
    reveal_strlit("enter");
    reveal_strlit("return");
    reveal_strlit("cr");
    reveal_strlit("tab");
    reveal_strlit("escape");
    reveal_strlit("esc");
    reveal_strlit("space");
    reveal_strlit("backspace");
    reveal_strlit("bs");
    reveal_strlit("delete");
    reveal_strlit("del");
    reveal_strlit("up");
    reveal_strlit("down");
    reveal_strlit("left");
    assert("right"@[0] != "enter"@[0]);
    assert("right"@.len() != "return"@.len());
    assert("right"@.len() != "cr"@.len());
    assert("right"@.len() != "tab"@.len());
    assert("right"@.len() != "escape"@.len());
    assert("right"@.len() != "esc"@.len());
    assert("right"@[0] != "space"@[0]);
    assert("right"@.len() != "backspace"@.len());
    assert("right"@.len() != "bs"@.len());
    assert("right"@.len() != "delete"@.len());
    assert("right"@.len() != "del"@.len());
    assert("right"@.len() != "up"@.len());
    assert("right"@.len() != "down"@.len());
    assert("right"@.len() != "left"@.len());
}

proof fn lemma_names_of_home(name: Seq<char>)
    ensures
        spec_key_named(name) == Some(Key::Home) <==> (name == "home"@),
{
    reveal_strlit("home");
    reveal_strlit("enter");
    reveal_strlit("return");
    reveal_strlit("cr");
    reveal_strlit("tab");
    reveal_strlit("escape");
    reveal_strlit("esc");
    reveal_strlit("space");
    reveal_strlit("backspace");
    reveal_strlit("bs");
    reveal_strlit("delete");
    reveal_strlit("del");
    reveal_strlit("up");
    reveal_strlit("down");
    reveal_strlit("left");
    reveal_strlit("right");
    assert("home"@.len() != "enter"@.len());
    assert("home"@.len() != "return"@.len());
    assert("home"@.len() != "cr"@.len());
    assert("home"@.len() != "tab"@.len());
    assert("home"@.len() != "escape"@.len());
    assert("home"@.len() != "esc"@.len());
    assert("home"@.len() != "space"@.len());
    assert("home"@.len() != "backspace"@.len());
    assert("home"@.len() != "bs"@.len());
    assert("home"@.len() != "delete"@.len());
    assert("home"@.len() != "del"@.len());
    assert("home"@.len() != "up"@.len());
    assert("home"@[0] != "down"@[0]);
    assert("home"@[0] != "left"@[0]);
    assert("home"@.len() != "right"@.len());
}

proof fn lemma_names_of_end(name: Seq<char>)
    ensures
        spec_key_named(name) == Some(Key::End) <==> (name == "end"@),
{
    reveal_strlit("end");
    reveal_strlit("enter");
    reveal_strlit("return");
    reveal_strlit("cr");
    reveal_strlit("tab");
    reveal_strlit("escape");
    reveal_strlit("esc");
    reveal_strlit("space");
    reveal_strlit("backspace");
    reveal_strlit("bs");
    reveal_strlit("delete");
    reveal_strlit("del");
    reveal_strlit("up");
    reveal_strlit("down");
    reveal_strlit("left");
    reveal_strlit("right");
    reveal_strlit("home");
    assert("end"@.len() != "enter"@.len());
    assert("end"@.len() != "return"@.len());
    assert("end"@.len() != "cr"@.len());
    assert("end"@[0] != "tab"@[0]);
    assert("end"@.len() != "escape"@.len());
    assert("end"@[1] != "esc"@[1]);
    assert("end"@.len() != "space"@.len());
    assert("end"@.len() != "backspace"@.len());
    assert("end"@.len() != "bs"@.len());
    assert("end"@.len() != "delete"@.len());
    assert("end"@[0] != "del"@[0]);
    assert("end"@.len() != "up"@.len());
    assert("end"@.len() != "down"@.len());
    assert("end"@.len() != "left"@.len());
    assert("end"@.len() != "right"@.len());
    assert("end"@.len() != "home"@.len());
}

proof fn lemma_names_of_page_up(name: Seq<char>)
    ensures
        spec_key_named(name) == Some(Key::PageUp) <==> (name == "pageup"@ || name == "pgup"@),
{
    reveal_strlit("pageup");
    reveal_strlit("pgup");
    reveal_strlit("enter");
    reveal_strlit("return");
    reveal_strlit("cr");
    reveal_strlit("tab");
    reveal_strlit("escape");
    reveal_strlit("esc");
    reveal_strlit("space");
    reveal_strlit("backspace");
    reveal_strlit("bs");
    reveal_strlit("delete");
    reveal_strlit("del");
    reveal_strlit("up");
    reveal_strlit("down");
    reveal_strlit("left");
    reveal_strlit("right");
    reveal_strlit("home");
    reveal_strlit("end");
    assert("pageup"@.len() != "enter"@.len());
    assert("pageup"@[0] != "return"@[0]);
    assert("pageup"@.len() != "cr"@.len());
    assert("pageup"@.len() != "tab"@.len());
    assert("pageup"@[0] != "escape"@[0]);
    assert("pageup"@.len() != "esc"@.len());
    assert("pageup"@.len() != "space"@.len());
    assert("pageup"@.len() != "backspace"@.len());
    assert("pageup"@.len() != "bs"@.len());
    assert("pageup"@[0] != "delete"@[0]);
    assert("pageup"@.len() != "del"@.len());
    assert("pageup"@.len() != "up"@.len());
    assert("pageup"@.len() != "down"@.len());
    assert("pageup"@.len() != "left"@.len());
    assert("pageup"@.len() != "right"@.len());
    assert("pageup"@.len() != "home"@.len());
    assert("pageup"@.len() != "end"@.len());
    assert("pgup"@.len() != "enter"@.len());
    assert("pgup"@.len() != "return"@.len());
    assert("pgup"@.len() != "cr"@.len());
    assert("pgup"@.len() != "tab"@.len());
    assert("pgup"@.len() != "escape"@.len());
    assert("pgup"@.len() != "esc"@.len());
    assert("pgup"@.len() != "space"@.len());
    assert("pgup"@.len() != "backspace"@.len());
    assert("pgup"@.len() != "bs"@.len());
    assert("pgup"@.len() != "delete"@.len());
    assert("pgup"@.len() != "del"@.len());
    assert("pgup"@.len() != "up"@.len());
    assert("pgup"@[0] != "down"@[0]);
    assert("pgup"@[0] != "left"@[0]);
    assert("pgup"@.len() != "right"@.len());
    assert("pgup"@[0] != "home"@[0]);
    assert("pgup"@.len() != "end"@.len());
}

proof fn lemma_names_of_page_down(name: Seq<char>)
    ensures
        spec_key_named(name) == Some(Key::PageDown) <==> (name == "pagedown"@ || name == "pgdn"@),
{
    reveal_strlit("pagedown");
    reveal_strlit("pgdn");
    reveal_strlit("enter");
    reveal_strlit("return");
    reveal_strlit("cr");
    reveal_strlit("tab");
    reveal_strlit("escape");
    reveal_strlit("esc");
    reveal_strlit("space");
    reveal_strlit("backspace");
    reveal_strlit("bs");
    reveal_strlit("delete");
    reveal_strlit("del");
    reveal_strlit("up");
    reveal_strlit("down");
    reveal_strlit("left");
    reveal_strlit("right");
    reveal_strlit("home");
    reveal_strlit("end");
    reveal_strlit("pageup");
    reveal_strlit("pgup");
    assert("pagedown"@.len() != "enter"@.len());
    assert("pagedown"@.len() != "return"@.len());
    assert("pagedown"@.len() != "cr"@.len());
    assert("pagedown"@.len() != "tab"@.len());
    assert("pagedown"@.len() != "escape"@.len());
    assert("pagedown"@.len() != "esc"@.len());
    assert("pagedown"@.len() != "space"@.len());
    assert("pagedown"@.len() != "backspace"@.len());
    assert("pagedown"@.len() != "bs"@.len());
    assert("pagedown"@.len() != "delete"@.len());
    assert("pagedown"@.len() != "del"@.len());
    assert("pagedown"@.len() != "up"@.len());
    assert("pagedown"@.len() != "down"@.len());
    assert("pagedown"@.len() != "left"@.len());
    assert("pagedown"@.len() != "right"@.len());
    assert("pagedown"@.len() != "home"@.len());
    assert("pagedown"@.len() != "end"@.len());
    assert("pagedown"@.len() != "pageup"@.len());
    assert("pagedown"@.len() != "pgup"@.len());
    assert("pgdn"@.len() != "enter"@.len());
    assert("pgdn"@.len() != "return"@.len());
    assert("pgdn"@.len() != "cr"@.len());
    assert("pgdn"@.len() != "tab"@.len());
    assert("pgdn"@.len() != "escape"@.len());
    assert("pgdn"@.len() != "esc"@.len());
    assert("pgdn"@.len() != "space"@.len());
    assert("pgdn"@.len() != "backspace"@.len());
    assert("pgdn"@.len() != "bs"@.len());
    assert("pgdn"@.len() != "delete"@.len());
    assert("pgdn"@.len() != "del"@.len());
    assert("pgdn"@.len() != "up"@.len());
    assert("pgdn"@[0] != "down"@[0]);
    assert("pgdn"@[0] != "left"@[0]);
    assert("pgdn"@.len() != "right"@.len());
    assert("pgdn"@[0] != "home"@[0]);
    assert("pgdn"@.len() != "end"@.len());
    assert("pgdn"@.len() != "pageup"@.len());
    assert("pgdn"@[2] != "pgup"@[2]);
}

proof fn lemma_names_of_insert(name: Seq<char>)
    ensures
        spec_key_named(name) == Some(Key::Insert) <==> (name == "insert"@ || name == "ins"@),
{
    reveal_strlit("insert");
    reveal_strlit("ins");
    reveal_strlit("enter");
    reveal_strlit("return");
    reveal_strlit("cr");
    reveal_strlit("tab");
    reveal_strlit("escape");
    reveal_strlit("esc");
    reveal_strlit("space");
    reveal_strlit("backspace");
    reveal_strlit("bs");
    reveal_strlit("delete");
    reveal_strlit("del");
    reveal_strlit("up");
    reveal_strlit("down");
    reveal_strlit("left");
    reveal_strlit("right");
    reveal_strlit("home");
    reveal_strlit("end");
    reveal_strlit("pageup");
    reveal_strlit("pgup");
    reveal_strlit("pagedown");
    reveal_strlit("pgdn");
    assert("insert"@.len() != "enter"@.len());
    assert("insert"@[0] != "return"@[0]);
    assert("insert"@.len() != "cr"@.len());
    assert("insert"@.len() != "tab"@.len());
    assert("insert"@[0] != "escape"@[0]);
    assert("insert"@.len() != "esc"@.len());
    assert("insert"@.len() != "space"@.len());
    assert("insert"@.len() != "backspace"@.len());
    assert("insert"@.len() != "bs"@.len());
    assert("insert"@[0] != "delete"@[0]);
    assert("insert"@.len() != "del"@.len());
    assert("insert"@.len() != "up"@.len());
    assert("insert"@.len() != "down"@.len());
    assert("insert"@.len() != "left"@.len());
    assert("insert"@.len() != "right"@.len());
    assert("insert"@.len() != "home"@.len());
    assert("insert"@.len() != "end"@.len());
    assert("insert"@[0] != "pageup"@[0]);
    assert("insert"@.len() != "pgup"@.len());
    assert("insert"@.len() != "pagedown"@.len());
    assert("insert"@.len() != "pgdn"@.len());
    assert("ins"@.len() != "enter"@.len());
    assert("ins"@.len() != "return"@.len());
    assert("ins"@.len() != "cr"@.len());
    assert("ins"@[0] != "tab"@[0]);
    assert("ins"@.len() != "escape"@.len());
    assert("ins"@[0] != "esc"@[0]);
    assert("ins"@.len() != "space"@.len());
    assert("ins"@.len() != "backspace"@.len());
    assert("ins"@.len() != "bs"@.len());
    assert("ins"@.len() != "delete"@.len());
    assert("ins"@[0] != "del"@[0]);
    assert("ins"@.len() != "up"@.len());
    assert("ins"@.len() != "down"@.len());
    assert("ins"@.len() != "left"@.len());
    assert("ins"@.len() != "right"@.len());
    assert("ins"@.len() != "home"@.len());
    assert("ins"@[0] != "end"@[0]);
    assert("ins"@.len() != "pageup"@.len());
    assert("ins"@.len() != "pgup"@.len());
    assert("ins"@.len() != "pagedown"@.len());
    assert("ins"@.len() != "pgdn"@.len());
}

proof fn lemma_names_of_f1(name: Seq<char>)
    ensures
        spec_key_named(name) == Some(Key::F1) <==> (name == "f1"@),
{
    reveal_strlit("f1");
    reveal_strlit("enter");
    reveal_strlit("return");
    reveal_strlit("cr");
    reveal_strlit("tab");
    reveal_strlit("escape");
    reveal_strlit("esc");
    reveal_strlit("space");
    reveal_strlit("backspace");
    reveal_strlit("bs");
    reveal_strlit("delete");
    reveal_strlit("del");
    reveal_strlit("up");
    reveal_strlit("down");
    reveal_strlit("left");
    reveal_strlit("right");
    reveal_strlit("home");
    reveal_strlit("end");
    reveal_strlit("pageup");
    reveal_strlit("pgup");
    reveal_strlit("pagedown");
    reveal_strlit("pgdn");
    reveal_strlit("insert");
    reveal_strlit("ins");
    assert("f1"@.len() != "enter"@.len());
    assert("f1"@.len() != "return"@.len());
    assert("f1"@[0] != "cr"@[0]);
    assert("f1"@.len() != "tab"@.len());
    assert("f1"@.len() != "escape"@.len());
    assert("f1"@.len() != "esc"@.len());
    assert("f1"@.len() != "space"@.len());
    assert("f1"@.len() != "backspace"@.len());
    assert("f1"@[0] != "bs"@[0]);
    assert("f1"@.len() != "delete"@.len());
    assert("f1"@.len() != "del"@.len());
    assert("f1"@[0] != "up"@[0]);
    assert("f1"@.len() != "down"@.len());
    assert("f1"@.len() != "left"@.len());
    assert("f1"@.len() != "right"@.len());
    assert("f1"@.len() != "home"@.len());
    assert("f1"@.len() != "end"@.len());
    assert("f1"@.len() != "pageup"@.len());
    assert("f1"@.len() != "pgup"@.len());
    assert("f1"@.len() != "pagedown"@.len());
    assert("f1"@.len() != "pgdn"@.len());
    assert("f1"@.len() != "insert"@.len());
    assert("f1"@.len() != "ins"@.len());
}

proof fn lemma_names_of_f2(name: Seq<char>)
    ensures
        spec_key_named(name) == Some(Key::F2) <==> (name == "f2"@),
{
    reveal_strlit("f2");
    reveal_strlit("enter");
    reveal_strlit("return");
    reveal_strlit("cr");
    reveal_strlit("tab");
    reveal_strlit("escape");
    reveal_strlit("esc");
    reveal_strlit("space");
    reveal_strlit("backspace");
    reveal_strlit("bs");
    reveal_strlit("delete");
    reveal_strlit("del");
    reveal_strlit("up");
    reveal_strlit("down");
    reveal_strlit("left");
    reveal_strlit("right");
    reveal_strlit("home");
    reveal_strlit("end");
    reveal_strlit("pageup");
    reveal_strlit("pgup");
    reveal_strlit("pagedown");
    reveal_strlit("pgdn");
    reveal_strlit("insert");
    reveal_strlit("ins");
    reveal_strlit("f1");
    assert("f2"@.len() != "enter"@.len());
    assert("f2"@.len() != "return"@.len());
    assert("f2"@[0] != "cr"@[0]);
    assert("f2"@.len() != "tab"@.len());
    assert("f2"@.len() != "escape"@.len());
    assert("f2"@.len() != "esc"@.len());
    assert("f2"@.len() != "space"@.len());
    assert("f2"@.len() != "backspace"@.len());
    assert("f2"@[0] != "bs"@[0]);
    assert("f2"@.len() != "delete"@.len());
    assert("f2"@.len() != "del"@.len());
    assert("f2"@[0] != "up"@[0]);
    assert("f2"@.len() != "down"@.len());
    assert("f2"@.len() != "left"@.len());
    assert("f2"@.len() != "right"@.len());
    assert("f2"@.len() != "home"@.len());
    assert("f2"@.len() != "end"@.len());
    assert("f2"@.len() != "pageup"@.len());
    assert("f2"@.len() != "pgup"@.len());
    assert("f2"@.len() != "pagedown"@.len());
    assert("f2"@.len() != "pgdn"@.len());
    assert("f2"@.len() != "insert"@.len());
    assert("f2"@.len() != "ins"@.len());
    assert("f2"@[1] != "f1"@[1]);
}

proof fn lemma_names_of_f3(name: Seq<char>)
    ensures
        spec_key_named(name) == Some(Key::F3) <==> (name == "f3"@),
{
    reveal_strlit("f3");
    reveal_strlit("enter");
    reveal_strlit("return");
    reveal_strlit("cr");
    reveal_strlit("tab");
    reveal_strlit("escape");
    reveal_strlit("esc");
    reveal_strlit("space");
    reveal_strlit("backspace");
    reveal_strlit("bs");
    reveal_strlit("delete");
    reveal_strlit("del");
    reveal_strlit("up");
    reveal_strlit("down");
    reveal_strlit("left");
    reveal_strlit("right");
    reveal_strlit("home");
    reveal_strlit("end");
    reveal_strlit("pageup");
    reveal_strlit("pgup");
    reveal_strlit("pagedown");
    reveal_strlit("pgdn");
    reveal_strlit("insert");
    reveal_strlit("ins");
    reveal_strlit("f1");
    reveal_strlit("f2");
    assert("f3"@.len() != "enter"@.len());
    assert("f3"@.len() != "return"@.len());
    assert("f3"@[0] != "cr"@[0]);
    assert("f3"@.len() != "tab"@.len());
    assert("f3"@.len() != "escape"@.len());
    assert("f3"@.len() != "esc"@.len());
    assert("f3"@.len() != "space"@.len());
    assert("f3"@.len() != "backspace"@.len());
    assert("f3"@[0] != "bs"@[0]);
    assert("f3"@.len() != "delete"@.len());
    assert("f3"@.len() != "del"@.len());
    assert("f3"@[0] != "up"@[0]);
    assert("f3"@.len() != "down"@.len());
    assert("f3"@.len() != "left"@.len());
    assert("f3"@.len() != "right"@.len());
    assert("f3"@.len() != "home"@.len());
    assert("f3"@.len() != "end"@.len());
    assert("f3"@.len() != "pageup"@.len());
    assert("f3"@.len() != "pgup"@.len());
    assert("f3"@.len() != "pagedown"@.len());
    assert("f3"@.len() != "pgdn"@.len());
    assert("f3"@.len() != "insert"@.len());
    assert("f3"@.len() != "ins"@.len());
    assert("f3"@[1] != "f1"@[1]);
    assert("f3"@[1] != "f2"@[1]);
}

proof fn lemma_names_of_f4(name: Seq<char>)
    ensures
        spec_key_named(name) == Some(Key::F4) <==> (name == "f4"@),
{
    reveal_strlit("f4");
    reveal_strlit("enter");
    reveal_strlit("return");
    reveal_strlit("cr");
    reveal_strlit("tab");
    reveal_strlit("escape");
    reveal_strlit("esc");
    reveal_strlit("space");
    reveal_strlit("backspace");
    reveal_strlit("bs");
    reveal_strlit("delete");
    reveal_strlit("del");
    reveal_strlit("up");
    reveal_strlit("down");
    reveal_strlit("left");
    reveal_strlit("right");
    reveal_strlit("home");
    reveal_strlit("end");
    reveal_strlit("pageup");
    reveal_strlit("pgup");
    reveal_strlit("pagedown");
    reveal_strlit("pgdn");
    reveal_strlit("insert");
    reveal_strlit("ins");
    reveal_strlit("f1");
    reveal_strlit("f2");
    reveal_strlit("f3");
    assert("f4"@.len() != "enter"@.len());
    assert("f4"@.len() != "return"@.len());
    assert("f4"@[0] != "cr"@[0]);
    assert("f4"@.len() != "tab"@.len());
    assert("f4"@.len() != "escape"@.len());
    assert("f4"@.len() != "esc"@.len());
    assert("f4"@.len() != "space"@.len());
    assert("f4"@.len() != "backspace"@.len());
    assert("f4"@[0] != "bs"@[0]);
    assert("f4"@.len() != "delete"@.len());
    assert("f4"@.len() != "del"@.len());
    assert("f4"@[0] != "up"@[0]);
    assert("f4"@.len() != "down"@.len());
    assert("f4"@.len() != "left"@.len());
    assert("f4"@.len() != "right"@.len());
    assert("f4"@.len() != "home"@.len());
    assert("f4"@.len() != "end"@.len());
    assert("f4"@.len() != "pageup"@.len());
    assert("f4"@.len() != "pgup"@.len());
    assert("f4"@.len() != "pagedown"@.len());
    assert("f4"@.len() != "pgdn"@.len());
    assert("f4"@.len() != "insert"@.len());
    assert("f4"@.len() != "ins"@.len());
    assert("f4"@[1] != "f1"@[1]);
    assert("f4"@[1] != "f2"@[1]);
    assert("f4"@[1] != "f3"@[1]);
}

proof fn lemma_names_of_f5(name: Seq<char>)
    ensures
        spec_key_named(name) == Some(Key::F5) <==> (name == "f5"@),
{
    reveal_strlit("f5");
    reveal_strlit("enter");
    reveal_strlit("return");
    reveal_strlit("cr");
    reveal_strlit("tab");
    reveal_strlit("escape");
    reveal_strlit("esc");
    reveal_strlit("space");
    reveal_strlit("backspace");
    reveal_strlit("bs");
    reveal_strlit("delete");
    reveal_strlit("del");
    reveal_strlit("up");
    reveal_strlit("down");
    reveal_strlit("left");
    reveal_strlit("right");
    reveal_strlit("home");
    reveal_strlit("end");
    reveal_strlit("pageup");
    reveal_strlit("pgup");
    reveal_strlit("pagedown");
    reveal_strlit("pgdn");
    reveal_strlit("insert");
    reveal_strlit("ins");
    reveal_strlit("f1");
    reveal_strlit("f2");
    reveal_strlit("f3");
    reveal_strlit("f4");
    assert("f5"@.len() != "enter"@.len());
    assert("f5"@.len() != "return"@.len());
    assert("f5"@[0] != "cr"@[0]);
    assert("f5"@.len() != "tab"@.len());
    assert("f5"@.len() != "escape"@.len());
    assert("f5"@.len() != "esc"@.len());
    assert("f5"@.len() != "space"@.len());
    assert("f5"@.len() != "backspace"@.len());
    assert("f5"@[0] != "bs"@[0]);
    assert("f5"@.len() != "delete"@.len());
    assert("f5"@.len() != "del"@.len());
    assert("f5"@[0] != "up"@[0]);
    assert("f5"@.len() != "down"@.len());
    assert("f5"@.len() != "left"@.len());
    assert("f5"@.len() != "right"@.len());
    assert("f5"@.len() != "home"@.len());
    assert("f5"@.len() != "end"@.len());
    assert("f5"@.len() != "pageup"@.len());
    assert("f5"@.len() != "pgup"@.len());
    assert("f5"@.len() != "pagedown"@.len());
    assert("f5"@.len() != "pgdn"@.len());
    assert("f5"@.len() != "insert"@.len());
    assert("f5"@.len() != "ins"@.len());
    assert("f5"@[1] != "f1"@[1]);
    assert("f5"@[1] != "f2"@[1]);
    assert("f5"@[1] != "f3"@[1]);
    assert("f5"@[1] != "f4"@[1]);
}

proof fn lemma_names_of_f6(name: Seq<char>)
    ensures
        spec_key_named(name) == Some(Key::F6) <==> (name == "f6"@),
{
    reveal_strlit("f6");
    reveal_strlit("enter");
    reveal_strlit("return");
    reveal_strlit("cr");
    reveal_strlit("tab");
    reveal_strlit("escape");
    reveal_strlit("esc");
    reveal_strlit("space");
    reveal_strlit("backspace");
    reveal_strlit("bs");
    reveal_strlit("delete");
    reveal_strlit("del");
    reveal_strlit("up");
    reveal_strlit("down");
    reveal_strlit("left");
    reveal_strlit("right");
    reveal_strlit("home");
    reveal_strlit("end");
    reveal_strlit("pageup");
    reveal_strlit("pgup");
    reveal_strlit("pagedown");
    reveal_strlit("pgdn");
    reveal_strlit("insert");
    reveal_strlit("ins");
    reveal_strlit("f1");
    reveal_strlit("f2");
    reveal_strlit("f3");
    reveal_strlit("f4");
    reveal_strlit("f5");
    assert("f6"@.len() != "enter"@.len());
    assert("f6"@.len() != "return"@.len());
    assert("f6"@[0] != "cr"@[0]);
    assert("f6"@.len() != "tab"@.len());
    assert("f6"@.len() != "escape"@.len());
    assert("f6"@.len() != "esc"@.len());
    assert("f6"@.len() != "space"@.len());
    assert("f6"@.len() != "backspace"@.len());
    assert("f6"@[0] != "bs"@[0]);
    assert("f6"@.len() != "delete"@.len());
    assert("f6"@.len() != "del"@.len());
    assert("f6"@[0] != "up"@[0]);
    assert("f6"@.len() != "down"@.len());
    assert("f6"@.len() != "left"@.len());
    assert("f6"@.len() != "right"@.len());
    assert("f6"@.len() != "home"@.len());
    assert("f6"@.len() != "end"@.len());
    assert("f6"@.len() != "pageup"@.len());
    assert("f6"@.len() != "pgup"@.len());
    assert("f6"@.len() != "pagedown"@.len());
    assert("f6"@.len() != "pgdn"@.len());
    assert("f6"@.len() != "insert"@.len());
    assert("f6"@.len() != "ins"@.len());
    assert("f6"@[1] != "f1"@[1]);
    assert("f6"@[1] != "f2"@[1]);
    assert("f6"@[1] != "f3"@[1]);
    assert("f6"@[1] != "f4"@[1]);
    assert("f6"@[1] != "f5"@[1]);
}

proof fn lemma_names_of_f7(name: Seq<char>)
    ensures
        spec_key_named(name) == Some(Key::F7) <==> (name == "f7"@),
{
    reveal_strlit("f7");
    reveal_strlit("enter");
    reveal_strlit("return");
    reveal_strlit("cr");
    reveal_strlit("tab");
    reveal_strlit("escape");
    reveal_strlit("esc");
    reveal_strlit("space");
    reveal_strlit("backspace");
    reveal_strlit("bs");
    reveal_strlit("delete");
    reveal_strlit("del");
    reveal_strlit("up");
    reveal_strlit("down");
    reveal_strlit("left");
    reveal_strlit("right");
    reveal_strlit("home");
    reveal_strlit("end");
    reveal_strlit("pageup");
    reveal_strlit("pgup");
    reveal_strlit("pagedown");
    reveal_strlit("pgdn");
    reveal_strlit("insert");
    reveal_strlit("ins");
    reveal_strlit("f1");
    reveal_strlit("f2");
    reveal_strlit("f3");
    reveal_strlit("f4");
    reveal_strlit("f5");
    reveal_strlit("f6");
    assert("f7"@.len() != "enter"@.len());
    assert("f7"@.len() != "return"@.len());
    assert("f7"@[0] != "cr"@[0]);
    assert("f7"@.len() != "tab"@.len());
    assert("f7"@.len() != "escape"@.len());
    assert("f7"@.len() != "esc"@.len());
    assert("f7"@.len() != "space"@.len());
    assert("f7"@.len() != "backspace"@.len());
    assert("f7"@[0] != "bs"@[0]);
    assert("f7"@.len() != "delete"@.len());
    assert("f7"@.len() != "del"@.len());
    assert("f7"@[0] != "up"@[0]);
    assert("f7"@.len() != "down"@.len());
    assert("f7"@.len() != "left"@.len());
    assert("f7"@.len() != "right"@.len());
    assert("f7"@.len() != "home"@.len());
    assert("f7"@.len() != "end"@.len());
    assert("f7"@.len() != "pageup"@.len());
    assert("f7"@.len() != "pgup"@.len());
    assert("f7"@.len() != "pagedown"@.len());
    assert("f7"@.len() != "pgdn"@.len());
    assert("f7"@.len() != "insert"@.len());
    assert("f7"@.len() != "ins"@.len());
    assert("f7"@[1] != "f1"@[1]);
    assert("f7"@[1] != "f2"@[1]);
    assert("f7"@[1] != "f3"@[1]);
    assert("f7"@[1] != "f4"@[1]);
    assert("f7"@[1] != "f5"@[1]);
    assert("f7"@[1] != "f6"@[1]);
}

proof fn lemma_names_of_f8(name: Seq<char>)
    ensures
        spec_key_named(name) == Some(Key::F8) <==> (name == "f8"@),
{
    reveal_strlit("f8");
    reveal_strlit("enter");
    reveal_strlit("return");
    reveal_strlit("cr");
    reveal_strlit("tab");
    reveal_strlit("escape");
    reveal_strlit("esc");
    reveal_strlit("space");
    reveal_strlit("backspace");
    reveal_strlit("bs");
    reveal_strlit("delete");
    reveal_strlit("del");
    reveal_strlit("up");
    reveal_strlit("down");
    reveal_strlit("left");
    reveal_strlit("right");
    reveal_strlit("home");
    reveal_strlit("end");
    reveal_strlit("pageup");
    reveal_strlit("pgup");
    reveal_strlit("pagedown");
    reveal_strlit("pgdn");
    reveal_strlit("insert");
    reveal_strlit("ins");
    reveal_strlit("f1");
    reveal_strlit("f2");
    reveal_strlit("f3");
    reveal_strlit("f4");
    reveal_strlit("f5");
    reveal_strlit("f6");
    reveal_strlit("f7");
    assert("f8"@.len() != "enter"@.len());
    assert("f8"@.len() != "return"@.len());
    assert("f8"@[0] != "cr"@[0]);
    assert("f8"@.len() != "tab"@.len());
    assert("f8"@.len() != "escape"@.len());
    assert("f8"@.len() != "esc"@.len());
    assert("f8"@.len() != "space"@.len());
    assert("f8"@.len() != "backspace"@.len());
    assert("f8"@[0] != "bs"@[0]);
    assert("f8"@.len() != "delete"@.len());
    assert("f8"@.len() != "del"@.len());
    assert("f8"@[0] != "up"@[0]);
    assert("f8"@.len() != "down"@.len());
    assert("f8"@.len() != "left"@.len());
    assert("f8"@.len() != "right"@.len());
    assert("f8"@.len() != "home"@.len());
    assert("f8"@.len() != "end"@.len());
    assert("f8"@.len() != "pageup"@.len());
    assert("f8"@.len() != "pgup"@.len());
    assert("f8"@.len() != "pagedown"@.len());
    assert("f8"@.len() != "pgdn"@.len());
    assert("f8"@.len() != "insert"@.len());
    assert("f8"@.len() != "ins"@.len());
    assert("f8"@[1] != "f1"@[1]);
    assert("f8"@[1] != "f2"@[1]);
    assert("f8"@[1] != "f3"@[1]);
    assert("f8"@[1] != "f4"@[1]);
    assert("f8"@[1] != "f5"@[1]);
    assert("f8"@[1] != "f6"@[1]);
    assert("f8"@[1] != "f7"@[1]);
}

proof fn lemma_names_of_f9(name: Seq<char>)
    ensures
        spec_key_named(name) == Some(Key::F9) <==> (name == "f9"@),
{
    reveal_strlit("f9");
    reveal_strlit("enter");
    reveal_strlit("return");
    reveal_strlit("cr");
    reveal_strlit("tab");
    reveal_strlit("escape");
    reveal_strlit("esc");
    reveal_strlit("space");
    reveal_strlit("backspace");
    reveal_strlit("bs");
    reveal_strlit("delete");
    reveal_strlit("del");
    reveal_strlit("up");
    reveal_strlit("down");
    reveal_strlit("left");
    reveal_strlit("right");
    reveal_strlit("home");
    reveal_strlit("end");
    reveal_strlit("pageup");
    reveal_strlit("pgup");
    reveal_strlit("pagedown");
    reveal_strlit("pgdn");
    reveal_strlit("insert");
    reveal_strlit("ins");
    reveal_strlit("f1");
    reveal_strlit("f2");
    reveal_strlit("f3");
    reveal_strlit("f4");
    reveal_strlit("f5");
    reveal_strlit("f6");
    reveal_strlit("f7");
    reveal_strlit("f8");
    assert("f9"@.len() != "enter"@.len());
    assert("f9"@.len() != "return"@.len());
    assert("f9"@[0] != "cr"@[0]);
    assert("f9"@.len() != "tab"@.len());
    assert("f9"@.len() != "escape"@.len());
    assert("f9"@.len() != "esc"@.len());
    assert("f9"@.len() != "space"@.len());
    assert("f9"@.len() != "backspace"@.len());
    assert("f9"@[0] != "bs"@[0]);
    assert("f9"@.len() != "delete"@.len());
    assert("f9"@.len() != "del"@.len());
    assert("f9"@[0] != "up"@[0]);
    assert("f9"@.len() != "down"@.len());
    assert("f9"@.len() != "left"@.len());
    assert("f9"@.len() != "right"@.len());
    assert("f9"@.len() != "home"@.len());
    assert("f9"@.len() != "end"@.len());
    assert("f9"@.len() != "pageup"@.len());
    assert("f9"@.len() != "pgup"@.len());
    assert("f9"@.len() != "pagedown"@.len());
    assert("f9"@.len() != "pgdn"@.len());
    assert("f9"@.len() != "insert"@.len());
    assert("f9"@.len() != "ins"@.len());
    assert("f9"@[1] != "f1"@[1]);
    assert("f9"@[1] != "f2"@[1]);
    assert("f9"@[1] != "f3"@[1]);
    assert("f9"@[1] != "f4"@[1]);
    assert("f9"@[1] != "f5"@[1]);
    assert("f9"@[1] != "f6"@[1]);
    assert("f9"@[1] != "f7"@[1]);
    assert("f9"@[1] != "f8"@[1]);
}

proof fn lemma_names_of_f10(name: Seq<char>)
    ensures
        spec_key_named(name) == Some(Key::F10) <==> (name == "f10"@),
{
    reveal_strlit("f10");
    reveal_strlit("enter");
    reveal_strlit("return");
    reveal_strlit("cr");
    reveal_strlit("tab");
    reveal_strlit("escape");
    reveal_strlit("esc");
    reveal_strlit("space");
    reveal_strlit("backspace");
    reveal_strlit("bs");
    reveal_strlit("delete");
    reveal_strlit("del");
    reveal_strlit("up");
    reveal_strlit("down");
    reveal_strlit("left");
    reveal_strlit("right");
    reveal_strlit("home");
    reveal_strlit("end");
    reveal_strlit("pageup");
    reveal_strlit("pgup");
    reveal_strlit("pagedown");
    reveal_strlit("pgdn");
    reveal_strlit("insert");
    reveal_strlit("ins");
    reveal_strlit("f1");
    reveal_strlit("f2");
    reveal_strlit("f3");
    reveal_strlit("f4");
    reveal_strlit("f5");
    reveal_strlit("f6");
    reveal_strlit("f7");
    reveal_strlit("f8");
    reveal_strlit("f9");
    assert("f10"@.len() != "enter"@.len());
    assert("f10"@.len() != "return"@.len());
    assert("f10"@.len() != "cr"@.len());
    assert("f10"@[0] != "tab"@[0]);
    assert("f10"@.len() != "escape"@.len());
    assert("f10"@[0] != "esc"@[0]);
    assert("f10"@.len() != "space"@.len());
    assert("f10"@.len() != "backspace"@.len());
    assert("f10"@.len() != "bs"@.len());
    assert("f10"@.len() != "delete"@.len());
    assert("f10"@[0] != "del"@[0]);
    assert("f10"@.len() != "up"@.len());
    assert("f10"@.len() != "down"@.len());
    assert("f10"@.len() != "left"@.len());
    assert("f10"@.len() != "right"@.len());
    assert("f10"@.len() != "home"@.len());
    assert("f10"@[0] != "end"@[0]);
    assert("f10"@.len() != "pageup"@.len());
    assert("f10"@.len() != "pgup"@.len());
    assert("f10"@.len() != "pagedown"@.len());
    assert("f10"@.len() != "pgdn"@.len());
    assert("f10"@.len() != "insert"@.len());
    assert("f10"@[0] != "ins"@[0]);
    assert("f10"@.len() != "f1"@.len());
    assert("f10"@.len() != "f2"@.len());
    assert("f10"@.len() != "f3"@.len());
    assert("f10"@.len() != "f4"@.len());
    assert("f10"@.len() != "f5"@.len());
    assert("f10"@.len() != "f6"@.len());
    assert("f10"@.len() != "f7"@.len());
    assert("f10"@.len() != "f8"@.len());
    assert("f10"@.len() != "f9"@.len());
}

proof fn lemma_names_of_f11(name: Seq<char>)
    ensures
        spec_key_named(name) == Some(Key::F11) <==> (name == "f11"@),
{
    reveal_strlit("f11");
    reveal_strlit("enter");
    reveal_strlit("return");
    reveal_strlit("cr");
    reveal_strlit("tab");
    reveal_strlit("escape");
    reveal_strlit("esc");
    reveal_strlit("space");
    reveal_strlit("backspace");
    reveal_strlit("bs");
    reveal_strlit("delete");
    reveal_strlit("del");
    reveal_strlit("up");
    reveal_strlit("down");
    reveal_strlit("left");
    reveal_strlit("right");
    reveal_strlit("home");
    reveal_strlit("end");
    reveal_strlit("pageup");
    reveal_strlit("pgup");
    reveal_strlit("pagedown");
    reveal_strlit("pgdn");
    reveal_strlit("insert");
    reveal_strlit("ins");
    reveal_strlit("f1");
    reveal_strlit("f2");
    reveal_strlit("f3");
    reveal_strlit("f4");
    reveal_strlit("f5");
    reveal_strlit("f6");
    reveal_strlit("f7");
    reveal_strlit("f8");
    reveal_strlit("f9");
    reveal_strlit("f10");
    assert("f11"@.len() != "enter"@.len());
    assert("f11"@.len() != "return"@.len());
    assert("f11"@.len() != "cr"@.len());
    assert("f11"@[0] != "tab"@[0]);
    assert("f11"@.len() != "escape"@.len());
    assert("f11"@[0] != "esc"@[0]);
    assert("f11"@.len() != "space"@.len());
    assert("f11"@.len() != "backspace"@.len());
    assert("f11"@.len() != "bs"@.len());
    assert("f11"@.len() != "delete"@.len());
    assert("f11"@[0] != "del"@[0]);
    assert("f11"@.len() != "up"@.len());
    assert("f11"@.len() != "down"@.len());
    assert("f11"@.len() != "left"@.len());
    assert("f11"@.len() != "right"@.len());
    assert("f11"@.len() != "home"@.len());
    assert("f11"@[0] != "end"@[0]);
    assert("f11"@.len() != "pageup"@.len());
    assert("f11"@.len() != "pgup"@.len());
    assert("f11"@.len() != "pagedown"@.len());
    assert("f11"@.len() != "pgdn"@.len());
    assert("f11"@.len() != "insert"@.len());
    assert("f11"@[0] != "ins"@[0]);
    assert("f11"@.len() != "f1"@.len());
    assert("f11"@.len() != "f2"@.len());
    assert("f11"@.len() != "f3"@.len());
    assert("f11"@.len() != "f4"@.len());
    assert("f11"@.len() != "f5"@.len());
    assert("f11"@.len() != "f6"@.len());
    assert("f11"@.len() != "f7"@.len());
    assert("f11"@.len() != "f8"@.len());
    assert("f11"@.len() != "f9"@.len());
    assert("f11"@[2] != "f10"@[2]);
}

proof fn lemma_names_of_f12(name: Seq<char>)
    ensures
        spec_key_named(name) == Some(Key::F12) <==> (name == "f12"@),
{
    reveal_strlit("f12");
    reveal_strlit("enter");
    reveal_strlit("return");
    reveal_strlit("cr");
    reveal_strlit("tab");
    reveal_strlit("escape");
    reveal_strlit("esc");
    reveal_strlit("space");
    reveal_strlit("backspace");
    reveal_strlit("bs");
    reveal_strlit("delete");
    reveal_strlit("del");
    reveal_strlit("up");
    reveal_strlit("down");
    reveal_strlit("left");
    reveal_strlit("right");
    reveal_strlit("home");
    reveal_strlit("end");
    reveal_strlit("pageup");
    reveal_strlit("pgup");
    reveal_strlit("pagedown");
    reveal_strlit("pgdn");
    reveal_strlit("insert");
    reveal_strlit("ins");
    reveal_strlit("f1");
    reveal_strlit("f2");
    reveal_strlit("f3");
    reveal_strlit("f4");
    reveal_strlit("f5");
    reveal_strlit("f6");
    reveal_strlit("f7");
    reveal_strlit("f8");
    reveal_strlit("f9");
    reveal_strlit("f10");
    reveal_strlit("f11");
    assert("f12"@.len() != "enter"@.len());
    assert("f12"@.len() != "return"@.len());
    assert("f12"@.len() != "cr"@.len());
    assert("f12"@[0] != "tab"@[0]);
    assert("f12"@.len() != "escape"@.len());
    assert("f12"@[0] != "esc"@[0]);
    assert("f12"@.len() != "space"@.len());
    assert("f12"@.len() != "backspace"@.len());
    assert("f12"@.len() != "bs"@.len());
    assert("f12"@.len() != "delete"@.len());
    assert("f12"@[0] != "del"@[0]);
    assert("f12"@.len() != "up"@.len());
    assert("f12"@.len() != "down"@.len());
    assert("f12"@.len() != "left"@.len());
    assert("f12"@.len() != "right"@.len());
    assert("f12"@.len() != "home"@.len());
    assert("f12"@[0] != "end"@[0]);
    assert("f12"@.len() != "pageup"@.len());
    assert("f12"@.len() != "pgup"@.len());
    assert("f12"@.len() != "pagedown"@.len());
    assert("f12"@.len() != "pgdn"@.len());
    assert("f12"@.len() != "insert"@.len());
    assert("f12"@[0] != "ins"@[0]);
    assert("f12"@.len() != "f1"@.len());
    assert("f12"@.len() != "f2"@.len());
    assert("f12"@.len() != "f3"@.len());
    assert("f12"@.len() != "f4"@.len());
    assert("f12"@.len() != "f5"@.len());
    assert("f12"@.len() != "f6"@.len());
    assert("f12"@.len() != "f7"@.len());
    assert("f12"@.len() != "f8"@.len());
    assert("f12"@.len() != "f9"@.len());
    assert("f12"@[2] != "f10"@[2]);
    assert("f12"@[2] != "f11"@[2]);
}

/// Which names denote the modifiers, over every (lowercased) name: `ctrl`
/// or `c` for Ctrl; `alt`, `a`, `meta` or `m` for Alt; `shift` or `s` for
/// Shift; `super` for Super; no other name denotes one.
pub proof fn law_modifier_names(name: Seq<char>)
    ensures
        spec_modifier_named(name) == Some(Modifier::Ctrl) <==> (name == "ctrl"@ || name == "c"@),
        spec_modifier_named(name) == Some(Modifier::Alt) <==> (name == "alt"@ || name == "a"@ || name
            == "meta"@ || name == "m"@),
        spec_modifier_named(name) == Some(Modifier::Shift) <==> (name == "shift"@ || name == "s"@),
        spec_modifier_named(name) == Some(Modifier::Super) <==> name == "super"@,
{
    reveal_strlit("ctrl");
    reveal_strlit("c");
    reveal_strlit("alt");
    reveal_strlit("a");
    reveal_strlit("meta");
    reveal_strlit("m");
    reveal_strlit("shift");
    reveal_strlit("s");
    reveal_strlit("super");
    assert("c"@.len() != "ctrl"@.len());
    assert("alt"@.len() != "ctrl"@.len());
    assert("alt"@.len() != "c"@.len());
    assert("a"@.len() != "ctrl"@.len());
    assert("a"@[0] != "c"@[0]);
    assert("a"@.len() != "alt"@.len());
    assert("meta"@[0] != "ctrl"@[0]);
    assert("meta"@.len() != "c"@.len());
    assert("meta"@.len() != "alt"@.len());
    assert("meta"@.len() != "a"@.len());
    assert("m"@.len() != "ctrl"@.len());
    assert("m"@[0] != "c"@[0]);
    assert("m"@.len() != "alt"@.len());
    assert("m"@[0] != "a"@[0]);
    assert("m"@.len() != "meta"@.len());
    assert("shift"@.len() != "ctrl"@.len());
    assert("shift"@.len() != "c"@.len());
    assert("shift"@.len() != "alt"@.len());
    assert("shift"@.len() != "a"@.len());
    assert("shift"@.len() != "meta"@.len());
    assert("shift"@.len() != "m"@.len());
    assert("s"@.len() != "ctrl"@.len());
    assert("s"@[0] != "c"@[0]);
    assert("s"@.len() != "alt"@.len());
    assert("s"@[0] != "a"@[0]);
    assert("s"@.len() != "meta"@.len());
    assert("s"@[0] != "m"@[0]);
    assert("s"@.len() != "shift"@.len());
    assert("super"@.len() != "ctrl"@.len());
    assert("super"@.len() != "c"@.len());
    assert("super"@.len() != "alt"@.len());
    assert("super"@.len() != "a"@.len());
    assert("super"@.len() != "meta"@.len());
    assert("super"@.len() != "m"@.len());
    assert("super"@[1] != "shift"@[1]);
    assert("super"@.len() != "s"@.len());
}

/// Adding a modifier holds it and leaves every other modifier as it was,
/// and adding one twice is adding it once.
pub proof fn law_mods_with(m: Mods, md: Modifier)
    ensures
        m.with(md).ctrl == (m.ctrl || md == Modifier::Ctrl),
        m.with(md).alt == (m.alt || md == Modifier::Alt),
        m.with(md).shift == (m.shift || md == Modifier::Shift),
        m.with(md).super_key == (m.super_key || md == Modifier::Super),
        m.with(md).with(md) == m.with(md),
{
}

/// The keys of single characters: each lowercase letter is its letter key
/// and each digit its digit key; no other character names a key.
pub proof fn law_character_keys(ch: char)
    ensures
        spec_char_to_key('a') == Some(Key::A),
        spec_char_to_key('b') == Some(Key::B),
        spec_char_to_key('c') == Some(Key::C),
        spec_char_to_key('d') == Some(Key::D),
        spec_char_to_key('e') == Some(Key::E),
        spec_char_to_key('f') == Some(Key::F),
        spec_char_to_key('g') == Some(Key::G),
        spec_char_to_key('h') == Some(Key::H),
        spec_char_to_key('i') == Some(Key::I),
        spec_char_to_key('j') == Some(Key::J),
        spec_char_to_key('k') == Some(Key::K),
        spec_char_to_key('l') == Some(Key::L),
        spec_char_to_key('m') == Some(Key::M),
        spec_char_to_key('n') == Some(Key::N),
        spec_char_to_key('o') == Some(Key::O),
        spec_char_to_key('p') == Some(Key::P),
        spec_char_to_key('q') == Some(Key::Q),
        spec_char_to_key('r') == Some(Key::R),
        spec_char_to_key('s') == Some(Key::S),
        spec_char_to_key('t') == Some(Key::T),
        spec_char_to_key('u') == Some(Key::U),
        spec_char_to_key('v') == Some(Key::V),
        spec_char_to_key('w') == Some(Key::W),
        spec_char_to_key('x') == Some(Key::X),
        spec_char_to_key('y') == Some(Key::Y),
        spec_char_to_key('z') == Some(Key::Z),
        spec_char_to_key('0') == Some(Key::Digit0),
        spec_char_to_key('1') == Some(Key::Digit1),
        spec_char_to_key('2') == Some(Key::Digit2),
        spec_char_to_key('3') == Some(Key::Digit3),
        spec_char_to_key('4') == Some(Key::Digit4),
        spec_char_to_key('5') == Some(Key::Digit5),
        spec_char_to_key('6') == Some(Key::Digit6),
        spec_char_to_key('7') == Some(Key::Digit7),
        spec_char_to_key('8') == Some(Key::Digit8),
        spec_char_to_key('9') == Some(Key::Digit9),
        spec_char_to_key(ch) is Some <==> ('a' <= ch <= 'z' || '0' <= ch <= '9'),
{
}

/// The modifier a part of a key spec names, if any.
pub open spec fn part_modifier(part: Seq<char>) -> Option<Modifier> {
    spec_modifier_named(spec_lowercase(part))
}

proof fn lemma_fold_mods_flags(parts: Seq<Seq<char>>, n: int)
    requires
        0 <= n <= parts.len(),
        spec_fold_mods(parts, n) is Ok,
    ensures
        ({
            let m = spec_fold_mods(parts, n)->Ok_0;
            &&& m.ctrl <==> exists|i: int| 0 <= i < n && #[trigger] part_modifier(parts[i]) == Some(Modifier::Ctrl)
            &&& m.alt <==> exists|i: int| 0 <= i < n && #[trigger] part_modifier(parts[i]) == Some(Modifier::Alt)
            &&& m.shift <==> exists|i: int| 0 <= i < n && #[trigger] part_modifier(parts[i]) == Some(Modifier::Shift)
            &&& m.super_key <==> exists|i: int| 0 <= i < n && #[trigger] part_modifier(parts[i]) == Some(Modifier::Super)
            &&& forall|i: int| 0 <= i < n ==> #[trigger] part_modifier(parts[i]) is Some
        }),
    decreases n,
{
    if n > 0 {
        lemma_fold_mods_flags(parts, n - 1);
        let prev = spec_fold_mods(parts, n - 1)->Ok_0;
        let md = part_modifier(parts[n - 1])->Some_0;
        assert(spec_fold_mods(parts, n)->Ok_0 == prev.with(md));
        let m = spec_fold_mods(parts, n)->Ok_0;
        if m.ctrl {
            if !prev.ctrl {
                assert(part_modifier(parts[n - 1]) == Some(Modifier::Ctrl));
            } else {
                let i = choose|i: int| 0 <= i < n - 1 && #[trigger] part_modifier(parts[i]) == Some(Modifier::Ctrl);
                assert(0 <= i < n && part_modifier(parts[i]) == Some(Modifier::Ctrl));
            }
        }
        if m.alt {
            if !prev.alt {
                assert(part_modifier(parts[n - 1]) == Some(Modifier::Alt));
            } else {
                let i = choose|i: int| 0 <= i < n - 1 && #[trigger] part_modifier(parts[i]) == Some(Modifier::Alt);
                assert(0 <= i < n && part_modifier(parts[i]) == Some(Modifier::Alt));
            }
        }
        if m.shift {
            if !prev.shift {
                assert(part_modifier(parts[n - 1]) == Some(Modifier::Shift));
            } else {
                let i = choose|i: int| 0 <= i < n - 1 && #[trigger] part_modifier(parts[i]) == Some(Modifier::Shift);
                assert(0 <= i < n && part_modifier(parts[i]) == Some(Modifier::Shift));
            }
        }
        if m.super_key {
            if !prev.super_key {
                assert(part_modifier(parts[n - 1]) == Some(Modifier::Super));
            } else {
                let i = choose|i: int| 0 <= i < n - 1 && #[trigger] part_modifier(parts[i]) == Some(Modifier::Super);
                assert(0 <= i < n && part_modifier(parts[i]) == Some(Modifier::Super));
            }
        }
    }
}

/// A key spec is its parts separated by `-`: when it parses, the key is the
/// one its last part names, every earlier part names a modifier, and each
/// modifier is held exactly when some earlier part names it (in any order,
/// any number of times).
pub proof fn law_key_spec_parts(spec: Seq<char>)
    ensures
        spec_parse_key_spec(spec) matches Ok((k, m)) ==> {
            let parts = split_on(spec, '-');
            let n = parts.len() - 1;
            &&& Some(k) == spec_key_named(spec_lowercase(parts.last()))
            &&& forall|i: int| 0 <= i < n ==> #[trigger] part_modifier(parts[i]) is Some
            &&& m.ctrl <==> exists|i: int| 0 <= i < n && #[trigger] part_modifier(parts[i]) == Some(Modifier::Ctrl)
            &&& m.alt <==> exists|i: int| 0 <= i < n && #[trigger] part_modifier(parts[i]) == Some(Modifier::Alt)
            &&& m.shift <==> exists|i: int| 0 <= i < n && #[trigger] part_modifier(parts[i]) == Some(Modifier::Shift)
            &&& m.super_key <==> exists|i: int| 0 <= i < n && #[trigger] part_modifier(parts[i]) == Some(Modifier::Super)
        },
{
    let parts = split_on(spec, '-');
    lemma_split_on_nonempty(spec, '-');
    if spec_parse_key_spec(spec) is Ok {
        lemma_fold_mods_flags(parts, parts.len() - 1);
    }
}

/// Looks up a modifier by its lowercased name.
pub fn modifier_named(name: &[char]) -> (r: Option<Modifier>)
    ensures
        r == spec_modifier_named(name@),
{
    if eq_str(name, "ctrl") || eq_str(name, "c") {
        Some(Modifier::Ctrl)
    } else if eq_str(name, "alt") || eq_str(name, "a") || eq_str(name, "meta") || eq_str(name, "m") {
        Some(Modifier::Alt)
    } else if eq_str(name, "shift") || eq_str(name, "s") {
        Some(Modifier::Shift)
    } else if eq_str(name, "super") {
        Some(Modifier::Super)
    } else {
        None
    }
}

/// Looks up a key by its lowercased name.
pub fn key_named(name: &[char]) -> (r: Option<Key>)
    ensures
        r == spec_key_named(name@),
{
    if eq_str(name, "enter") || eq_str(name, "return") || eq_str(name, "cr") {
        Some(Key::Enter)
    } else if eq_str(name, "tab") {
        Some(Key::Tab)
    } else if eq_str(name, "escape") || eq_str(name, "esc") {
        Some(Key::Escape)
    } else if eq_str(name, "space") {
        Some(Key::Space)
    } else if eq_str(name, "backspace") || eq_str(name, "bs") {
        Some(Key::Backspace)
    } else if eq_str(name, "delete") || eq_str(name, "del") {
        Some(Key::Delete)
    } else if eq_str(name, "up") {
        Some(Key::ArrowUp)
    } else if eq_str(name, "down") {
        Some(Key::ArrowDown)
    } else if eq_str(name, "left") {
        Some(Key::ArrowLeft)
    } else if eq_str(name, "right") {
        Some(Key::ArrowRight)
    } else if eq_str(name, "home") {
        Some(Key::Home)
    } else if eq_str(name, "end") {
        Some(Key::End)
    } else if eq_str(name, "pageup") || eq_str(name, "pgup") {
        Some(Key::PageUp)
    } else if eq_str(name, "pagedown") || eq_str(name, "pgdn") {
        Some(Key::PageDown)
    } else if eq_str(name, "insert") || eq_str(name, "ins") {
        Some(Key::Insert)
    } else if eq_str(name, "f1") {
        Some(Key::F1)
    } else if eq_str(name, "f2") {
        Some(Key::F2)
    } else if eq_str(name, "f3") {
        Some(Key::F3)
    } else if eq_str(name, "f4") {
        Some(Key::F4)
    } else if eq_str(name, "f5") {
        Some(Key::F5)
    } else if eq_str(name, "f6") {
        Some(Key::F6)
    } else if eq_str(name, "f7") {
        Some(Key::F7)
    } else if eq_str(name, "f8") {
        Some(Key::F8)
    } else if eq_str(name, "f9") {
        Some(Key::F9)
    } else if eq_str(name, "f10") {
        Some(Key::F10)
    } else if eq_str(name, "f11") {
        Some(Key::F11)
    } else if eq_str(name, "f12") {
        Some(Key::F12)
    } else if name.len() == 1 && (name[0] as u32) < 128 {
        char_to_key(name[0])
    } else {
        None
    }
}

/// Why a key spec was refused.
#[derive(Debug, PartialEq, Eq)]
pub enum KeySpecError {
    /// A modifier part, as written, that names no modifier.
    UnknownModifier(String),
    /// The lowercased key part, which names no key.
    UnknownKey(String),
}

impl KeySpecError {
    /// Whether this error reports a modifier (`true`) or the key (`false`),
    /// and the text it reports.
    pub open spec fn spec_parts(&self) -> (bool, Seq<char>) {
        match self {
            KeySpecError::UnknownModifier(m) => (true, m@),
            KeySpecError::UnknownKey(k) => (false, k@),
        }
    }

    /// The error's message.
    pub fn message(&self) -> (s: String)
        ensures
            s@ == match self {
                KeySpecError::UnknownModifier(m) => "Unknown modifier: "@ + m@,
                KeySpecError::UnknownKey(k) => "Unknown key: "@ + k@,
            },
    {
        match self {
            KeySpecError::UnknownModifier(m) => {
                let mut s = String::from_str("Unknown modifier: ");
                s.append(m.as_str());
                s
            }
            KeySpecError::UnknownKey(k) => {
                let mut s = String::from_str("Unknown key: ");
                s.append(k.as_str());
                s
            }
        }
    }
}

/// The modifiers named by the first `n` parts, or the first part that names
/// none.
pub open spec fn spec_fold_mods(parts: Seq<Seq<char>>, n: int) -> Result<Mods, Seq<char>>
    decreases n,
{
    if n <= 0 {
        Ok(Mods::none())
    } else {
        match spec_fold_mods(parts, n - 1) {
            Err(e) => Err(e),
            Ok(m) => match spec_modifier_named(spec_lowercase(parts[n - 1])) {
                Some(md) => Ok(m.with(md)),
                None => Err(parts[n - 1]),
            },
        }
    }
}

/// Once a part names no modifier, later parts do not change the outcome.
pub proof fn lemma_fold_mods_err_stays(parts: Seq<Seq<char>>, k: int, n: int)
    requires
        k <= n,
        spec_fold_mods(parts, k) is Err,
    ensures
        spec_fold_mods(parts, n) == spec_fold_mods(parts, k),
    decreases n - k,
{
    if k < n {
        lemma_fold_mods_err_stays(parts, k, n - 1);
    }
}

/// What a key spec such as `ctrl-shift-f1` denotes: the parts before the last
/// `-` are modifiers, the last part is the key; names are matched after
/// lowercasing. An error is `(true, part)` for an unknown modifier part as
/// written, or `(false, lowered)` for an unknown key.
pub open spec fn spec_parse_key_spec(spec: Seq<char>) -> Result<(Key, Mods), (bool, Seq<char>)> {
    let parts = split_on(spec, '-');
    let key_part = parts.last();
    match spec_fold_mods(parts, parts.len() - 1) {
        Err(m) => Err((true, m)),
        Ok(mods) => match spec_key_named(spec_lowercase(key_part)) {
            Some(k) => Ok((k, mods)),
            None => Err((false, spec_lowercase(key_part))),
        },
    }
}

/// Parses a key spec (`enter`, `ctrl-c`, `alt-shift-f4`, ...).
pub fn parse_key_spec(spec: &str) -> (r: Result<(Key, Mods), KeySpecError>)
    ensures
        match spec_parse_key_spec(spec@) {
            Ok(km) => r == Ok::<(Key, Mods), KeySpecError>(km),
            Err(e) => r matches Err(err) && err.spec_parts() == e,
        },
{
    let chars = chars_of(spec);
    let parts = split_chars(&chars, '-');
    proof { lemma_split_on_nonempty(spec@, '-'); }
    let ghost sparts = split_on(spec@, '-');
    let n = parts.len() - 1;
    let mut mods = Mods::empty();
    let mut i: usize = 0;
    while i < n
        invariant
            n + 1 == parts@.len(),
            sparts == split_on(spec@, '-'),
            parts@.len() == sparts.len(),
            forall|j: int| 0 <= j < parts@.len() ==> #[trigger] parts@[j]@ == sparts[j],
            i <= n,
            spec_fold_mods(sparts, i as int) == Ok::<Mods, Seq<char>>(mods),
        decreases n - i,
    {
        let part = string_of(parts[i].as_slice());
        let lower = to_lowercase(part.as_str());
        let lower_chars = chars_of(lower.as_str());
        match modifier_named(lower_chars.as_slice()) {
            Some(m) => mods.add(m),
            None => {
                assert(spec_fold_mods(sparts, i + 1) == Err::<Mods, Seq<char>>(sparts[i as int]));
                proof { lemma_fold_mods_err_stays(sparts, i + 1, n as int); }
                return Err(KeySpecError::UnknownModifier(part));
            }
        }
        i = i + 1;
    }
    let key_part = string_of(parts[n].as_slice());
    let lower = to_lowercase(key_part.as_str());
    let lower_chars = chars_of(lower.as_str());
    match key_named(lower_chars.as_slice()) {
        Some(k) => Ok((k, mods)),
        None => Err(KeySpecError::UnknownKey(lower)),
    }
}


/// What a mouse event does.
#[derive(Clone, Copy, Debug, PartialEq, Eq, Structural)]
pub enum MouseAction {
    Press,
    Release,
    Motion,
}

/// Which mouse button an event concerns.
#[derive(Clone, Copy, Debug, PartialEq, Eq, Structural)]
pub enum MouseButton {
    Left,
    Right,
    Middle,
    Four,
    Five,
}

/// A mouse event as a mouse spec's action names it.
#[derive(Clone, Copy, Debug, PartialEq, Eq, Structural)]
pub struct MouseEvent {
    pub action: MouseAction,
    pub button: Option<MouseButton>,
    /// A press that is a click (not a wheel step) is followed by a release.
    pub release_after: bool,
}

/// Why a mouse spec was refused.
#[derive(Debug, PartialEq, Eq)]
pub enum MouseSpecError {
    /// The spec has no `:`.
    MissingColon,
    /// The part after `:` is not two comma-separated values.
    BadCoordinates,
    /// The action names no mouse action.
    UnknownAction(String),
}

impl MouseSpecError {
    /// The error's message.
    pub fn message(&self) -> (s: String)
        ensures
            s@ == match self {
                MouseSpecError::MissingColon => "Mouse spec must be action:x,y (e.g. click:10,5)"@,
                MouseSpecError::BadCoordinates => "Mouse coordinates must be x,y"@,
                MouseSpecError::UnknownAction(a) => "Unknown mouse action: "@ + a@,
            },
    {
        match self {
            MouseSpecError::MissingColon => String::from_str("Mouse spec must be action:x,y (e.g. click:10,5)"),
            MouseSpecError::BadCoordinates => String::from_str("Mouse coordinates must be x,y"),
            MouseSpecError::UnknownAction(a) => {
                let mut s = String::from_str("Unknown mouse action: ");
                s.append(a.as_str());
                s
            }
        }
    }
}

/// The event that a mouse action name denotes.
pub open spec fn spec_mouse_action(name: Seq<char>) -> Option<(MouseAction, Option<MouseButton>)> {
    if name == "click"@ || name == "left-click"@ {
        Some((MouseAction::Press, Some(MouseButton::Left)))
    } else if name == "right-click"@ {
        Some((MouseAction::Press, Some(MouseButton::Right)))
    } else if name == "middle-click"@ {
        Some((MouseAction::Press, Some(MouseButton::Middle)))
    } else if name == "scroll-up"@ {
        Some((MouseAction::Press, Some(MouseButton::Four)))
    } else if name == "scroll-down"@ {
        Some((MouseAction::Press, Some(MouseButton::Five)))
    } else if name == "move"@ {
        Some((MouseAction::Motion, None))
    } else if name == "release"@ {
        Some((MouseAction::Release, None))
    } else {
        None
    }
}

/// Resolves a mouse action name (`click`, `right-click`, `middle-click`,
/// `scroll-up`, `scroll-down`, `move`, `release`).
pub fn mouse_action(name: &str) -> (r: Result<MouseEvent, MouseSpecError>)
    ensures
        match spec_mouse_action(name@) {
            Some((action, button)) => r matches Ok(ev) && ev.action == action && ev.button == button
                && ev.release_after == (action == MouseAction::Press && name@ != "scroll-up"@
                && name@ != "scroll-down"@),
            None => r matches Err(MouseSpecError::UnknownAction(a)) && a@ == name@,
        },
{
    let v = chars_of(name);
    let n = v.as_slice();
    let (action, button) = if eq_str(n, "click") || eq_str(n, "left-click") {
        (MouseAction::Press, Some(MouseButton::Left))
    } else if eq_str(n, "right-click") {
        (MouseAction::Press, Some(MouseButton::Right))
    } else if eq_str(n, "middle-click") {
        (MouseAction::Press, Some(MouseButton::Middle))
    } else if eq_str(n, "scroll-up") {
        (MouseAction::Press, Some(MouseButton::Four))
    } else if eq_str(n, "scroll-down") {
        (MouseAction::Press, Some(MouseButton::Five))
    } else if eq_str(n, "move") {
        (MouseAction::Motion, None)
    } else if eq_str(n, "release") {
        (MouseAction::Release, None)
    } else {
        return Err(MouseSpecError::UnknownAction(name.to_owned()));
    };
    let is_press = match action {
        MouseAction::Press => true,
        _ => false,
    };
    let release_after = is_press && !eq_str(n, "scroll-up") && !eq_str(n, "scroll-down");
    Ok(MouseEvent { action, button, release_after })
}

/// Splits a mouse spec `action:x,y` into the action and the two coordinate
/// texts, which are numbers still to be parsed.
pub fn split_mouse_spec(spec: &str) -> (r: Result<(String, String, String), MouseSpecError>)
    ensures
        match split_once(spec@, ':') {
            None => r == Err::<(String, String, String), MouseSpecError>(MouseSpecError::MissingColon),
            Some((action, coords)) => if split_on(coords, ',').len() != 2 {
                r == Err::<(String, String, String), MouseSpecError>(MouseSpecError::BadCoordinates)
            } else {
                r matches Ok((a, x, y)) && a@ == action && x@ == split_on(coords, ',')[0]
                    && y@ == split_on(coords, ',')[1]
            },
        },
{
    let v = chars_of(spec);
    match split_once_chars(v.as_slice(), ':') {
        None => Err(MouseSpecError::MissingColon),
        Some((action, coords)) => {
            let parts = split_chars(coords.as_slice(), ',');
            if parts.len() != 2 {
                Err(MouseSpecError::BadCoordinates)
            } else {
                let a = string_of(action.as_slice());
                let x = string_of(parts[0].as_slice());
                let y = string_of(parts[1].as_slice());
                Ok((a, x, y))
            }
        }
    }
}

} // verus!
