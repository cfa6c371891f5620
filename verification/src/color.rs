//! Colors as the screen capture writes them (`#rrggbb`, `palette:N`) and as
//! the viewer and the renderer read them back.

use vstd::prelude::*;
use vstd::string::*;
use crate::text::{
    chars_of, eq_str, hex2, hex_digit_char, law_decimal_round_trip, parse_unsigned,
    parse_unsigned_spec, push_dec, push_hex2, dec, slice_chars,
};

verus! {

/// An RGBA pixel color.
#[derive(Clone, Copy, Debug, PartialEq, Eq, Structural)]
pub struct Rgba {
    pub r: u8,
    pub g: u8,
    pub b: u8,
    pub a: u8,
}

/// An opaque color.
pub open spec fn opaque(r: u8, g: u8, b: u8) -> Rgba {
    Rgba { r, g, b, a: 255 }
}

/// A cell color as the terminal reports it.
#[derive(Clone, Copy, Debug, PartialEq, Eq, Structural)]
pub enum StyleColor {
    /// No explicit color: the terminal default.
    Unset,
    Rgb(u8, u8, u8),
    Palette(u8),
}

/// Value of a hex digit (either case).
pub open spec fn hex_value(c: char) -> Option<nat> {
    if '0' <= c && c <= '9' {
        Some((c as u32 - 48) as nat)
    } else if 'a' <= c && c <= 'f' {
        Some((c as u32 - 87) as nat)
    } else if 'A' <= c && c <= 'F' {
        Some((c as u32 - 55) as nat)
    } else {
        None
    }
}

/// The byte written as two hex digits, high digit first.
pub open spec fn hex_pair(c0: char, c1: char) -> Option<u8> {
    match (hex_value(c0), hex_value(c1)) {
        (Some(h), Some(l)) => Some((h * 16 + l) as u8),
        _ => None,
    }
}

/// The three bytes of `#rrggbb` text: `#` followed by exactly six hex
/// digits (either case); any other text has none.
pub open spec fn spec_hex_triple(s: Seq<char>) -> Option<(u8, u8, u8)> {
    if s.len() == 7 && s[0] == '#' {
        match (hex_pair(s[1], s[2]), hex_pair(s[3], s[4]), hex_pair(s[5], s[6])) {
            (Some(r), Some(g), Some(b)) => Some((r, g, b)),
            _ => None,
        }
    } else {
        None
    }
}

fn hex_value_of(c: char) -> (r: Option<u8>)
    ensures
        match hex_value(c) {
            Some(v) => r == Some(v as u8) && v < 16,
            None => r is None,
        },
{
    if '0' <= c && c <= '9' {
        Some((c as u32 - 48) as u8)
    } else if 'a' <= c && c <= 'f' {
        Some((c as u32 - 87) as u8)
    } else if 'A' <= c && c <= 'F' {
        Some((c as u32 - 55) as u8)
    } else {
        None
    }
}

fn hex_pair_of(c0: char, c1: char) -> (r: Option<u8>)
    ensures
        r == hex_pair(c0, c1),
{
    match (hex_value_of(c0), hex_value_of(c1)) {
        (Some(h), Some(l)) => Some(h * 16 + l),
        _ => None,
    }
}

fn hex_triple_of(s: &str) -> (r: Option<(u8, u8, u8)>)
    ensures
        r == spec_hex_triple(s@),
{
    let v = chars_of(s);
    if v.len() != 7 || v[0] != '#' {
        return None;
    }
    match (hex_pair_of(v[1], v[2]), hex_pair_of(v[3], v[4]), hex_pair_of(v[5], v[6])) {
        (Some(r), Some(g), Some(b)) => Some((r, g, b)),
        _ => None,
    }
}

/// Parses a `#rrggbb` color into its three components.
pub fn parse_hex(s: &str) -> (r: Option<(u8, u8, u8)>)
    ensures
        r == spec_hex_triple(s@),
{
    hex_triple_of(s)
}

/// The 16 standard colors (ANSI and bright variants).
pub open spec fn ansi16(i: u8) -> (u8, u8, u8) {
    match i {
        0 => (0, 0, 0),
        1 => (170, 0, 0),
        2 => (0, 170, 0),
        3 => (170, 85, 0),
        4 => (0, 0, 170),
        5 => (170, 0, 170),
        6 => (0, 170, 170),
        7 => (170, 170, 170),
        8 => (85, 85, 85),
        9 => (255, 85, 85),
        10 => (85, 255, 85),
        11 => (255, 255, 85),
        12 => (85, 85, 255),
        13 => (255, 85, 255),
        14 => (85, 255, 255),
        _ => (255, 255, 255),
    }
}

/// One step of the 6x6x6 color cube.
pub open spec fn cube_level(k: int) -> u8 {
    if k == 0 {
        0
    } else if k == 1 {
        95
    } else if k == 2 {
        135
    } else if k == 3 {
        175
    } else if k == 4 {
        215
    } else {
        255
    }
}

/// The xterm 256-color palette: 16 standard colors, a 6x6x6 cube, then 24
/// grays from 8 in steps of 10.
pub open spec fn spec_palette(idx: u8) -> Rgba {
    if idx < 16 {
        let (r, g, b) = ansi16(idx);
        opaque(r, g, b)
    } else if idx < 232 {
        let n = idx - 16;
        opaque(cube_level(n / 36), cube_level((n / 6) % 6), cube_level(n % 6))
    } else {
        let v = (8 + (idx - 232) * 10) as u8;
        opaque(v, v, v)
    }
}

fn cube_level_of(k: u8) -> (r: u8)
    requires
        k < 6,
    ensures
        r == cube_level(k as int),
{
    if k == 0 {
        0
    } else if k == 1 {
        95
    } else if k == 2 {
        135
    } else if k == 3 {
        175
    } else if k == 4 {
        215
    } else {
        255
    }
}

fn ansi16_of(i: u8) -> (r: (u8, u8, u8))
    ensures
        r == ansi16(i),
{
    match i {
        0 => (0, 0, 0),
        1 => (170, 0, 0),
        2 => (0, 170, 0),
        3 => (170, 85, 0),
        4 => (0, 0, 170),
        5 => (170, 0, 170),
        6 => (0, 170, 170),
        7 => (170, 170, 170),
        8 => (85, 85, 85),
        9 => (255, 85, 85),
        10 => (85, 255, 85),
        11 => (255, 255, 85),
        12 => (85, 85, 255),
        13 => (255, 85, 255),
        14 => (85, 255, 255),
        _ => (255, 255, 255),
    }
}

/// The RGB value of an xterm palette index.
pub fn palette_to_rgb(idx: u8) -> (c: Rgba)
    ensures
        c == spec_palette(idx),
{
    if idx < 16 {
        let (r, g, b) = ansi16_of(idx);
        Rgba { r, g, b, a: 255 }
    } else if idx < 232 {
        let n = idx - 16;
        let r = cube_level_of(n / 36);
        let g = cube_level_of((n / 6) % 6);
        let b = cube_level_of(n % 6);
        Rgba { r, g, b, a: 255 }
    } else {
        let v = 8 + (idx - 232) * 10;
        Rgba { r: v, g: v, b: v, a: 255 }
    }
}

/// The xterm palette as the renderer reads it, entry by entry: the 16
/// standard colors are black (0, 0, 0), red (170, 0, 0), green (0, 170, 0),
/// brown (170, 85, 0), blue (0, 0, 170), magenta (170, 0, 170), cyan
/// (0, 170, 170), light gray (170, 170, 170), then the bright variants:
/// dark gray (85, 85, 85), (255, 85, 85), (85, 255, 85), (255, 255, 85),
/// (85, 85, 255), (255, 85, 255), (85, 255, 255) and white (255, 255, 255).
/// An index from 16 to 231 is `16 + 36r + 6g + b` with each component step
/// `k` of 0 to 5 at level 0 for `k = 0` and `55 + 40k` otherwise; an index
/// from 232 is the gray `8 + 10(i - 232)`. Every entry is opaque.
pub proof fn law_palette_entries(i: u8)
    ensures
        spec_palette(0) == (Rgba { r: 0, g: 0, b: 0, a: 255 }),
        spec_palette(1) == (Rgba { r: 170, g: 0, b: 0, a: 255 }),
        spec_palette(2) == (Rgba { r: 0, g: 170, b: 0, a: 255 }),
        spec_palette(3) == (Rgba { r: 170, g: 85, b: 0, a: 255 }),
        spec_palette(4) == (Rgba { r: 0, g: 0, b: 170, a: 255 }),
        spec_palette(5) == (Rgba { r: 170, g: 0, b: 170, a: 255 }),
        spec_palette(6) == (Rgba { r: 0, g: 170, b: 170, a: 255 }),
        spec_palette(7) == (Rgba { r: 170, g: 170, b: 170, a: 255 }),
        spec_palette(8) == (Rgba { r: 85, g: 85, b: 85, a: 255 }),
        spec_palette(9) == (Rgba { r: 255, g: 85, b: 85, a: 255 }),
        spec_palette(10) == (Rgba { r: 85, g: 255, b: 85, a: 255 }),
        spec_palette(11) == (Rgba { r: 255, g: 255, b: 85, a: 255 }),
        spec_palette(12) == (Rgba { r: 85, g: 85, b: 255, a: 255 }),
        spec_palette(13) == (Rgba { r: 255, g: 85, b: 255, a: 255 }),
        spec_palette(14) == (Rgba { r: 85, g: 255, b: 255, a: 255 }),
        spec_palette(15) == (Rgba { r: 255, g: 255, b: 255, a: 255 }),
        16 <= i < 232 ==> {
            let n = i - 16;
            let level = |k: int| if k == 0 { 0int } else { 55 + 40 * k };
            &&& spec_palette(i).r == level(n / 36)
            &&& spec_palette(i).g == level((n / 6) % 6)
            &&& spec_palette(i).b == level(n % 6)
        },
        232 <= i ==> spec_palette(i).r == 8 + 10 * (i - 232) && spec_palette(i).g == spec_palette(i).r
            && spec_palette(i).b == spec_palette(i).r,
        spec_palette(i).a == 255,
{
}

/// A cell color string read as a pixel color: `#rrggbb`, or `palette:N`
/// with `N` a decimal `u8`.
pub open spec fn spec_parse_color(s: Option<Seq<char>>) -> Option<Rgba> {
    match s {
        None => None,
        Some(t) => if t.len() >= 1 && t[0] == '#' {
            match spec_hex_triple(t) {
                Some((r, g, b)) => Some(opaque(r, g, b)),
                None => None,
            }
        } else if t.len() >= 8 && t.take(8) == "palette:"@ {
            match parse_unsigned_spec(t.skip(8), 255) {
                Ok(i) => Some(spec_palette(i as u8)),
                Err(_) => None,
            }
        } else {
            None
        },
    }
}

/// Reads a cell color string as a pixel color.
pub fn parse_color(s: Option<&str>) -> (r: Option<Rgba>)
    ensures
        r == spec_parse_color(match s {
            Some(t) => Some(t@),
            None => None,
        }),
{
    let t = match s {
        Some(t) => t,
        None => return None,
    };
    let v = chars_of(t);
    if v.len() >= 1 && v[0] == '#' {
        return match hex_triple_of(t) {
            Some((r, g, b)) => Some(Rgba { r, g, b, a: 255 }),
            None => None,
        };
    }
    if v.len() >= 8 {
        let prefix = slice_chars(v.as_slice(), 0, 8);
        if eq_str(prefix.as_slice(), "palette:") {
            let rest = slice_chars(v.as_slice(), 8, v.len());
            assert(prefix@ =~= t@.take(8));
            assert(rest@ =~= t@.skip(8));
            return match parse_unsigned(rest.as_slice(), 255) {
                Ok(i) => Some(palette_to_rgb(i as u8)),
                Err(_) => None,
            };
        }
        assert(prefix@ =~= t@.take(8));
    }
    None
}

/// `#rrggbb` text of a color, lowercase.
pub open spec fn spec_rgb_hex(r: u8, g: u8, b: u8) -> Seq<char> {
    seq!['#'] + hex2(r) + hex2(g) + hex2(b)
}

/// Formats a color as `#rrggbb`.
pub fn rgb_to_hex(r: u8, g: u8, b: u8) -> (s: String)
    ensures
        s@ == spec_rgb_hex(r, g, b),
{
    let mut s = String::new();
    s.push('#');
    push_hex2(&mut s, r);
    push_hex2(&mut s, g);
    push_hex2(&mut s, b);
    assert(s@ =~= spec_rgb_hex(r, g, b));
    s
}

/// The text a cell color is reported as: none, `#rrggbb`, or `palette:N`.
pub open spec fn spec_style_color_text(c: StyleColor) -> Option<Seq<char>> {
    match c {
        StyleColor::Unset => None,
        StyleColor::Rgb(r, g, b) => Some(spec_rgb_hex(r, g, b)),
        StyleColor::Palette(i) => Some("palette:"@ + dec(i as nat)),
    }
}

proof fn lemma_hex_digit(d: nat)
    requires
        d < 16,
    ensures
        hex_value(hex_digit_char(d)) == Some(d),
        '\0' <= hex_digit_char(d) <= '\u{7f}',
{
}

proof fn lemma_hex_pair_of_byte(b: u8)
    ensures
        hex_pair(hex2(b)[0], hex2(b)[1]) == Some(b),
        hex2(b).len() == 2,
        '\0' <= hex2(b)[0] <= '\u{7f}',
        '\0' <= hex2(b)[1] <= '\u{7f}',
{
    lemma_hex_digit((b / 16) as nat);
    lemma_hex_digit((b % 16) as nat);
    assert((b / 16) * 16 + b % 16 == b);
}

/// Reading back a written color: the `#rrggbb` text that `rgb_to_hex`
/// writes for any color is what `parse_hex` reads as that color.
pub proof fn law_hex_round_trip(r: u8, g: u8, b: u8)
    ensures
        spec_hex_triple(spec_rgb_hex(r, g, b)) == Some((r, g, b)),
{
    lemma_hex_pair_of_byte(r);
    lemma_hex_pair_of_byte(g);
    lemma_hex_pair_of_byte(b);
    let s = spec_rgb_hex(r, g, b);
    assert(s.len() == 7);
    assert(s[1] == hex2(r)[0] && s[2] == hex2(r)[1]);
    assert(s[3] == hex2(g)[0] && s[4] == hex2(g)[1]);
    assert(s[5] == hex2(b)[0] && s[6] == hex2(b)[1]);
}

/// What a capture reports of a cell color is read back by the viewer and
/// the renderer as that color: no text for the default color, the same
/// RGB for a truecolor, and the palette's RGB for a palette index.
pub proof fn law_style_color_read_back(c: StyleColor)
    ensures
        spec_parse_color(spec_style_color_text(c)) == match c {
            StyleColor::Unset => None,
            StyleColor::Rgb(r, g, b) => Some(opaque(r, g, b)),
            StyleColor::Palette(i) => Some(spec_palette(i)),
        },
{
    match c {
        StyleColor::Unset => {},
        StyleColor::Rgb(r, g, b) => {
            law_hex_round_trip(r, g, b);
        },
        StyleColor::Palette(i) => {
            reveal_strlit("palette:");
            let t = "palette:"@ + dec(i as nat);
            law_decimal_round_trip(i as nat, 255);
            assert(t.take(8) =~= "palette:"@);
            assert(t.skip(8) =~= dec(i as nat));
            assert(t[0] == 'p');
        },
    }
}

/// Formats a cell color for reports.
pub fn style_color_to_string(c: StyleColor) -> (s: Option<String>)
    ensures
        match s {
            Some(t) => spec_style_color_text(c) == Some(t@),
            None => spec_style_color_text(c) is None,
        },
{
    match c {
        StyleColor::Unset => None,
        StyleColor::Rgb(r, g, b) => Some(rgb_to_hex(r, g, b)),
        StyleColor::Palette(i) => {
            let mut s = String::from_str("palette:");
            push_dec(&mut s, i as u64);
            Some(s)
        }
    }
}

} // verus!
