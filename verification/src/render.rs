//! The layout of a rendered screenshot: its size in cells and pixels, and
//! the colors and glyph each cell is drawn with. The rasterizing itself is
//! done by the caller.

use vstd::prelude::*;
use crate::color::{parse_color, spec_parse_color, Rgba};
use crate::types::CellData;

verus! {

/// Blank space around the grid, in pixels.
pub const PADDING: u32 = 8;

/// The background drawn where a cell sets none.
pub open spec fn bg_default() -> Rgba {
    Rgba { r: 30, g: 30, b: 30, a: 255 }
}

/// The foreground drawn where a cell sets none.
pub open spec fn fg_default() -> Rgba {
    Rgba { r: 220, g: 220, b: 220, a: 255 }
}

/// The background drawn where a cell sets none.
pub fn background_default() -> (c: Rgba)
    ensures
        c == bg_default(),
{
    Rgba { r: 30, g: 30, b: 30, a: 255 }
}

/// The foreground drawn where a cell sets none.
pub fn foreground_default() -> (c: Rgba)
    ensures
        c == fg_default(),
{
    Rgba { r: 220, g: 220, b: 220, a: 255 }
}

/// `a - b`, or 0 when `b` is larger.
pub open spec fn sat_sub(a: int, b: int) -> int {
    if a >= b {
        a - b
    } else {
        0
    }
}

/// The image's size in cells and the first row it shows: a region's own
/// size (an inverted side counts as one cell), else the whole screen.
pub open spec fn spec_grid(cols: u16, rows: u16, region: Option<(u16, u16, u16, u16)>) -> (u32, u32, u32) {
    match region {
        Some((top, left, bottom, right)) => (
            (sat_sub(right as int, left as int) + 1) as u32,
            (sat_sub(bottom as int, top as int) + 1) as u32,
            top as u32,
        ),
        None => (cols as u32, rows as u32, 0),
    }
}

/// A region whose sides can be counted in a `u16`.
pub open spec fn region_fits(region: Option<(u16, u16, u16, u16)>) -> bool {
    match region {
        Some((top, left, bottom, right)) => sat_sub(right as int, left as int) < 65535
            && sat_sub(bottom as int, top as int) < 65535,
        None => true,
    }
}

/// Whether a region's sides can be counted in a `u16`.
pub fn region_fits_check(region: Option<(u16, u16, u16, u16)>) -> (b: bool)
    ensures
        b == region_fits(region),
{
    match region {
        Some((top, left, bottom, right)) => right.saturating_sub(left) < 65535
            && bottom.saturating_sub(top) < 65535,
        None => true,
    }
}

/// Whether the image's pixel size fits in a `u32`.
pub fn image_fits(grid_cols: u32, grid_rows: u32, cell_w: u32, cell_h: u32) -> (b: bool)
    ensures
        b == (grid_cols * cell_w + 2 * PADDING <= u32::MAX && grid_rows * cell_h + 2 * PADDING
            <= u32::MAX),
{
    let gc: u64 = grid_cols as u64;
    let cw: u64 = cell_w as u64;
    let gr: u64 = grid_rows as u64;
    let ch: u64 = cell_h as u64;
    assert(gc * cw <= 0xffff_ffff * 0xffff_ffff) by (nonlinear_arith)
        requires
            gc <= 0xffff_ffff,
            cw <= 0xffff_ffff,
    ;
    assert(gr * ch <= 0xffff_ffff * 0xffff_ffff) by (nonlinear_arith)
        requires
            gr <= 0xffff_ffff,
            ch <= 0xffff_ffff,
    ;
    let w: u64 = gc * cw;
    let h: u64 = gr * ch;
    w <= 0xffff_ffff - 16 && h <= 0xffff_ffff - 16
}

/// The image's size in cells and the first row it shows.
pub fn output_grid(cols: u16, rows: u16, region: Option<(u16, u16, u16, u16)>) -> (g: (u32, u32, u32))
    requires
        region_fits(region),
    ensures
        g == spec_grid(cols, rows, region),
{
    match region {
        Some((top, left, bottom, right)) => {
            let w: u16 = right.saturating_sub(left) + 1;
            let h: u16 = bottom.saturating_sub(top) + 1;
            (w as u32, h as u32, top as u32)
        },
        None => (cols as u32, rows as u32, 0),
    }
}

/// The image's size in pixels: the grid of cells with padding around it.
pub fn image_size(grid_cols: u32, grid_rows: u32, cell_w: u32, cell_h: u32) -> (s: (u32, u32))
    requires
        grid_cols * cell_w + 2 * PADDING <= u32::MAX,
        grid_rows * cell_h + 2 * PADDING <= u32::MAX,
    ensures
        s.0 == grid_cols * cell_w + 2 * PADDING,
        s.1 == grid_rows * cell_h + 2 * PADDING,
{
    (grid_cols * cell_w + 2 * PADDING, grid_rows * cell_h + 2 * PADDING)
}

/// The row of the image a screen row lands on.
pub fn local_row(row: u16, top_offset: u32) -> (r: u32)
    ensures
        r == sat_sub(row as int, top_offset as int),
{
    (row as u32).saturating_sub(top_offset)
}

/// The colors a cell is drawn with, before dimming: its own colors or the
/// defaults, swapped when the cell is inverse.
pub open spec fn spec_cell_colors(c: CellData) -> (Rgba, Rgba) {
    let fg = match spec_parse_color(
        match c.fg {
            Some(f) => Some(f@),
            None => None,
        },
    ) {
        Some(v) => v,
        None => fg_default(),
    };
    let bg = match spec_parse_color(
        match c.bg {
            Some(b) => Some(b@),
            None => None,
        },
    ) {
        Some(v) => v,
        None => bg_default(),
    };
    if c.inverse {
        (bg, fg)
    } else {
        (fg, bg)
    }
}

/// The foreground and background a cell is drawn with.
pub fn cell_colors(c: &CellData) -> (r: (Rgba, Rgba))
    ensures
        r == spec_cell_colors(*c),
{
    let fg = match parse_color(
        match &c.fg {
            Some(f) => Some(f.as_str()),
            None => None,
        },
    ) {
        Some(v) => v,
        None => foreground_default(),
    };
    let bg = match parse_color(
        match &c.bg {
            Some(b) => Some(b.as_str()),
            None => None,
        },
    ) {
        Some(v) => v,
        None => background_default(),
    };
    if c.inverse {
        (bg, fg)
    } else {
        (fg, bg)
    }
}

/// The glyph drawn for a cell: its first character, unless that is a space
/// or NUL or there is none.
pub fn cell_glyph(c: &CellData) -> (g: Option<char>)
    ensures
        c.grapheme@.len() == 0 ==> g is None,
        c.grapheme@.len() > 0 ==> g == (if c.grapheme@[0] == ' ' || c.grapheme@[0] == '\0' {
            None
        } else {
            Some(c.grapheme@[0])
        }),
{
    if c.grapheme.unicode_len() == 0 {
        return None;
    }
    let ch = c.grapheme.as_str().get_char(0);
    if ch == ' ' || ch == '\0' {
        None
    } else {
        Some(ch)
    }
}

} // verus!
