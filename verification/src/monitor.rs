//! The live viewer: a captured screen redrawn as text with truecolor SGR
//! escapes.

use vstd::prelude::*;
use vstd::string::*;
use vstd::seq_lib::lemma_concat_associative;
use crate::color::{parse_hex, spec_hex_triple};
use crate::exit_codes;
use crate::text::{dec, push_dec};
use crate::types::{CellData, RowContent, ScreenContent};

verus! {

/// A truecolor value.
#[derive(Debug, Clone, Copy, PartialEq, Eq, Structural)]
pub struct Rgb {
    pub r: u8,
    pub g: u8,
    pub b: u8,
}

/// The style the viewer has emitted last.
#[derive(Debug, Clone, Copy, PartialEq, Eq, Structural)]
pub struct Style {
    pub fg: Option<Rgb>,
    pub bg: Option<Rgb>,
    pub bold: bool,
    pub italic: bool,
    pub underline: bool,
    pub strikethrough: bool,
    pub inverse: bool,
    pub faint: bool,
}

/// The style before anything is emitted: default colors, no attributes.
pub open spec fn plain_style() -> Style {
    Style {
        fg: None,
        bg: None,
        bold: false,
        italic: false,
        underline: false,
        strikethrough: false,
        inverse: false,
        faint: false,
    }
}

/// A `#rrggbb` color, when the text is one.
pub open spec fn hex_color(s: Option<String>) -> Option<Rgb> {
    match s {
        Some(t) => match spec_hex_triple(t@) {
            Some((r, g, b)) => Some(Rgb { r, g, b }),
            None => None,
        },
        None => None,
    }
}

/// The style a cell asks for (palette colors are drawn in the default
/// color).
pub open spec fn style_of(c: CellData) -> Style {
    Style {
        fg: hex_color(c.fg),
        bg: hex_color(c.bg),
        bold: c.bold,
        italic: c.italic,
        underline: c.underline,
        strikethrough: c.strikethrough,
        inverse: c.inverse,
        faint: c.faint,
    }
}

/// `ESC [ N ; 2 ; r ; g ; b m` for a truecolor foreground (`N` = 38) or
/// background (`N` = 48).
pub open spec fn truecolor(layer: Seq<char>, c: Rgb) -> Seq<char> {
    "\x1b["@ + layer + ";2;"@ + dec(c.r as nat) + ";"@ + dec(c.g as nat) + ";"@ + dec(c.b as nat)
        + "m"@
}

/// An escape when a flag is on.
pub open spec fn flag(on: bool, code: Seq<char>) -> Seq<char> {
    if on {
        code
    } else {
        Seq::empty()
    }
}

/// A color escape when the color is set.
pub open spec fn color_part(layer: Seq<char>, c: Option<Rgb>) -> Seq<char> {
    match c {
        Some(v) => truecolor(layer, v),
        None => Seq::empty(),
    }
}

/// The attribute escapes of a style, in the order bold, faint, italic,
/// underline, inverse, strikethrough.
pub open spec fn attr_sgr(s: Style) -> Seq<char> {
    flag(s.bold, "\x1b[1m"@) + flag(s.faint, "\x1b[2m"@) + flag(s.italic, "\x1b[3m"@) + flag(
        s.underline,
        "\x1b[4m"@,
    ) + flag(s.inverse, "\x1b[7m"@) + flag(s.strikethrough, "\x1b[9m"@)
}

/// The escapes that switch to a style: a reset, the foreground and
/// background colors that are set, then the attributes that are on.
pub open spec fn sgr(s: Style) -> Seq<char> {
    "\x1b[0m"@ + color_part("38"@, s.fg) + color_part("48"@, s.bg) + attr_sgr(s)
}

/// What a cell shows: its grapheme, or a space when it has none.
pub open spec fn glyph(c: CellData) -> Seq<char> {
    if c.grapheme@.len() == 0 {
        " "@
    } else {
        c.grapheme@
    }
}

/// The output for the first `n` cells and the style in effect after them:
/// escapes only where the style changes, then each cell's glyph.
pub open spec fn render_cells(cells: Seq<CellData>, n: int) -> (Seq<char>, Style)
    decreases n,
{
    if n <= 0 {
        (Seq::empty(), plain_style())
    } else {
        let (out, cur) = render_cells(cells, n - 1);
        let next = style_of(cells[n - 1]);
        let styled = if next != cur {
            out + sgr(next)
        } else {
            out
        };
        (styled + glyph(cells[n - 1]), next)
    }
}

/// A row as the viewer draws it: its cells with their styles, or its plain
/// text when it has no cell data.
pub open spec fn spec_render_row(row: RowContent) -> Seq<char> {
    if row.cells@.len() == 0 {
        row.text@
    } else {
        render_cells(row.cells@, row.cells@.len() as int).0
    }
}

fn color_of(s: &Option<String>) -> (c: Option<Rgb>)
    ensures
        c == hex_color(*s),
{
    match s {
        Some(t) => match parse_hex(t.as_str()) {
            Some((r, g, b)) => Some(Rgb { r, g, b }),
            None => None,
        },
        None => None,
    }
}

fn push_truecolor(buf: &mut String, layer: &str, c: Rgb)
    ensures
        final(buf)@ == old(buf)@ + truecolor(layer@, c),
{
    buf.append("\x1b[");
    buf.append(layer);
    buf.append(";2;");
    push_dec(buf, c.r as u64);
    buf.append(";");
    push_dec(buf, c.g as u64);
    buf.append(";");
    push_dec(buf, c.b as u64);
    buf.append("m");
    assert(final(buf)@ =~= old(buf)@ + truecolor(layer@, c));
}

fn push_color(buf: &mut String, layer: &str, c: Option<Rgb>)
    ensures
        final(buf)@ == old(buf)@ + color_part(layer@, c),
{
    match c {
        Some(v) => push_truecolor(buf, layer, v),
        None => {
            assert(buf@ =~= buf@ + color_part(layer@, c));
        },
    }
}

fn push_flag(buf: &mut String, on: bool, code: &str)
    ensures
        final(buf)@ == old(buf)@ + flag(on, code@),
{
    if on {
        buf.append(code);
    } else {
        assert(buf@ =~= buf@ + flag(on, code@));
    }
}

fn push_attrs(buf: &mut String, s: Style)
    ensures
        final(buf)@ == old(buf)@ + attr_sgr(s),
{
    let ghost start = buf@;
    let ghost f1 = flag(s.bold, "\x1b[1m"@);
    let ghost f2 = flag(s.faint, "\x1b[2m"@);
    let ghost f3 = flag(s.italic, "\x1b[3m"@);
    let ghost f4 = flag(s.underline, "\x1b[4m"@);
    let ghost f5 = flag(s.inverse, "\x1b[7m"@);
    let ghost f6 = flag(s.strikethrough, "\x1b[9m"@);
    push_flag(buf, s.bold, "\x1b[1m");
    push_flag(buf, s.faint, "\x1b[2m");
    proof { lemma_concat_associative(start, f1, f2); }
    push_flag(buf, s.italic, "\x1b[3m");
    proof { lemma_concat_associative(start, f1 + f2, f3); }
    push_flag(buf, s.underline, "\x1b[4m");
    proof { lemma_concat_associative(start, f1 + f2 + f3, f4); }
    push_flag(buf, s.inverse, "\x1b[7m");
    proof { lemma_concat_associative(start, f1 + f2 + f3 + f4, f5); }
    push_flag(buf, s.strikethrough, "\x1b[9m");
    proof { lemma_concat_associative(start, f1 + f2 + f3 + f4 + f5, f6); }
}

/// Appends the escapes that switch to a style.
pub fn push_sgr(buf: &mut String, s: Style)
    ensures
        final(buf)@ == old(buf)@ + sgr(s),
{
    let ghost start = buf@;
    buf.append("\x1b[0m");
    push_color(buf, "38", s.fg);
    push_color(buf, "48", s.bg);
    let ghost mid = buf@;
    assert(mid =~= start + ("\x1b[0m"@ + color_part("38"@, s.fg) + color_part("48"@, s.bg)));
    push_attrs(buf, s);
    assert(buf@ =~= start + sgr(s));
}

fn push_cell(buf: &mut String, cell: &CellData, cur: Style) -> (next: Style)
    ensures
        next == style_of(*cell),
        final(buf)@ == old(buf)@ + (if next != cur {
            sgr(next)
        } else {
            Seq::empty()
        }) + glyph(*cell),
{
    let next = Style {
        fg: color_of(&cell.fg),
        bg: color_of(&cell.bg),
        bold: cell.bold,
        italic: cell.italic,
        underline: cell.underline,
        strikethrough: cell.strikethrough,
        inverse: cell.inverse,
        faint: cell.faint,
    };
    let ghost start = buf@;
    if next != cur {
        push_sgr(buf, next);
    }
    let ghost mid = buf@;
    assert(mid =~= start + (if next != cur {
        sgr(next)
    } else {
        Seq::empty()
    }));
    if cell.grapheme.unicode_len() == 0 {
        buf.append(" ");
    } else {
        buf.append(cell.grapheme.as_str());
    }
    assert(buf@ =~= mid + glyph(*cell));
    next
}

/// Appends one row as the viewer draws it.
pub fn render_row(buf: &mut String, row: &RowContent)
    ensures
        final(buf)@ == old(buf)@ + spec_render_row(*row),
{
    if row.cells.len() == 0 {
        buf.append(row.text.as_str());
        return;
    }
    let ghost start = buf@;
    let mut cur = Style {
        fg: None,
        bg: None,
        bold: false,
        italic: false,
        underline: false,
        strikethrough: false,
        inverse: false,
        faint: false,
    };
    assert(buf@ =~= start + render_cells(row.cells@, 0).0);
    let mut i: usize = 0;
    while i < row.cells.len()
        invariant
            i <= row.cells@.len(),
            buf@ == start + render_cells(row.cells@, i as int).0,
            cur == render_cells(row.cells@, i as int).1,
        decreases row.cells@.len() - i,
    {
        let ghost before = buf@;
        assert(row.cells@[i as int] == row.cells[i as int]);
        let next = push_cell(buf, &row.cells[i], cur);
        cur = next;
        i = i + 1;
        assert(buf@ =~= start + render_cells(row.cells@, i as int).0);
    }
}

/// The rows' drawings, each followed by a reset and a clear to the end of
/// the line, separated by `\r\n`.
pub open spec fn frame_rows(rows: Seq<RowContent>, n: int) -> Seq<char>
    decreases n,
{
    if n <= 0 {
        Seq::empty()
    } else {
        frame_rows(rows, n - 1) + (if n > 1 { "\r\n"@ } else { Seq::empty() }) + spec_render_row(
            rows[n - 1],
        ) + "\x1b[0m\x1b[K"@
    }
}

/// One frame of the viewer: cursor home, the rows, and a clear to the end of
/// the screen.
pub fn render_frame(screen: &ScreenContent) -> (s: String)
    ensures
        s@ == "\x1b[H"@ + frame_rows(screen.screen@, screen.screen@.len() as int) + "\x1b[J"@,
{
    let mut buf = String::from_str("\x1b[H");
    let mut i: usize = 0;
    while i < screen.screen.len()
        invariant
            i <= screen.screen@.len(),
            buf@ == "\x1b[H"@ + frame_rows(screen.screen@, i as int),
        decreases screen.screen@.len() - i,
    {
        if i > 0 {
            buf.append("\r\n");
        }
        render_row(&mut buf, &screen.screen[i]);
        buf.append("\x1b[0m\x1b[K");
        i = i + 1;
        assert(buf@ =~= "\x1b[H"@ + frame_rows(screen.screen@, i as int));
    }
    buf.append("\x1b[J");
    buf
}

/// The pause between frames for a frame rate (at least one frame a
/// second).
pub fn frame_interval_ms(rate: u64) -> (ms: u64)
    ensures
        ms == 1000u64 / (if rate > 1 { rate } else { 1u64 }),
{
    let r = if rate > 1 {
        rate
    } else {
        1
    };
    1000 / r
}

/// Why the viewer stopped when the engine refused a capture: an unknown
/// session is named, anything else gives the engine's message.
pub fn stop_message(session: &str, code: i32, message: &str) -> (s: String)
    ensures
        code == exit_codes::SESSION_NOT_FOUND ==> s@ == "Session '"@ + session@ + "' not found"@,
        code != exit_codes::SESSION_NOT_FOUND ==> s@ == message@,
{
    if code == exit_codes::SESSION_NOT_FOUND {
        let mut s = String::from_str("Session '");
        s.append(session);
        s.append("' not found");
        s
    } else {
        message.to_owned()
    }
}

} // verus!
