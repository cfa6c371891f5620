//! Turning what the terminal emulator holds (cells of the active screen and
//! of the scrollback) into captures, screen text and process output.

use vstd::prelude::*;
use vstd::string::*;
use crate::color::{
    law_hex_round_trip, rgb_to_hex, spec_hex_triple, spec_rgb_hex, spec_style_color_text,
    style_color_to_string, StyleColor,
};
use crate::protocol::Region;
use crate::text::{
    chars_of, find_char, index_of, join_strings, join_with, lemma_index_of, lemma_split_on_nonempty,
    slice_chars, split_chars, split_on, string_of, trim, trim_chars, trim_end, trim_end_chars,
};
use crate::types::{CellData, CursorInfo, RowContent, ScreenContent, ScreenFormat};

verus! {

/// What the emulator reports for one cell of the active screen.
#[derive(Debug)]
pub struct CellSnapshot {
    /// The cell's grapheme cluster; empty for a blank cell.
    pub graphemes: Vec<char>,
    pub fg: Option<(u8, u8, u8)>,
    pub bg: Option<(u8, u8, u8)>,
    pub bold: bool,
    pub italic: bool,
    pub underline: bool,
    pub strikethrough: bool,
    pub inverse: bool,
    pub faint: bool,
}

/// The text a cell shows: its graphemes, or a space for a blank cell.
pub open spec fn cell_text(c: CellSnapshot) -> Seq<char> {
    if c.graphemes@.len() == 0 {
        seq![' ']
    } else {
        c.graphemes@
    }
}

/// `#rrggbb` text of an optional color.
pub open spec fn color_text(c: Option<(u8, u8, u8)>) -> Option<Seq<char>> {
    match c {
        Some((r, g, b)) => Some(spec_rgb_hex(r, g, b)),
        None => None,
    }
}

/// The view of an optional string.
pub open spec fn opt_view(s: Option<String>) -> Option<Seq<char>> {
    match s {
        Some(t) => Some(t@),
        None => None,
    }
}

/// Whether `d` reports the cell `c`.
pub open spec fn reports_cell(d: CellData, c: CellSnapshot) -> bool {
    &&& d.grapheme@ == cell_text(c)
    &&& opt_view(d.fg) == color_text(c.fg)
    &&& opt_view(d.bg) == color_text(c.bg)
    &&& d.bold == c.bold
    &&& d.italic == c.italic
    &&& d.underline == c.underline
    &&& d.strikethrough == c.strikethrough
    &&& d.inverse == c.inverse
    &&& d.faint == c.faint
}

/// The indices `lo..=hi` clipped to `0..n`, as a half-open range.
pub open spec fn clip(lo: int, hi: int, n: int) -> (int, int) {
    let end = if hi + 1 < n { hi + 1 } else { n };
    if lo < end {
        (lo, end)
    } else {
        (end, end)
    }
}

/// The rows that a capture of `n` rows keeps.
pub open spec fn row_span(region: Option<Region>, n: int) -> (int, int) {
    match region {
        None => (0, n),
        Some((top, _, bottom, _)) => clip(top as int, bottom as int, n),
    }
}

/// The columns of a row of `n` cells that a capture keeps.
pub open spec fn col_span(region: Option<Region>, n: int) -> (int, int) {
    match region {
        None => (0, n),
        Some((_, left, _, right)) => clip(left as int, right as int, n),
    }
}

/// The text of cells `lo..hi` of a row.
pub open spec fn cells_text(row: Seq<CellSnapshot>, lo: int, hi: int) -> Seq<char>
    decreases hi - lo,
{
    if hi <= lo {
        Seq::empty()
    } else {
        cells_text(row, lo, hi - 1) + cell_text(row[hi - 1])
    }
}

/// The text a capture shows for a row.
pub open spec fn captured_row_text(row: Seq<CellSnapshot>, region: Option<Region>) -> Seq<char> {
    let (lo, hi) = col_span(region, row.len() as int);
    cells_text(row, lo, hi)
}

/// Whether `cells` reports the kept cells of `row` (JSON captures), or is
/// empty (other formats).
pub open spec fn reports_row_cells(cells: Seq<CellData>, row: Seq<CellSnapshot>, region: Option<Region>, format: ScreenFormat) -> bool {
    let (lo, hi) = col_span(region, row.len() as int);
    if format == ScreenFormat::Json {
        &&& cells.len() == hi - lo
        &&& forall|j: int| 0 <= j < cells.len() ==> reports_cell(#[trigger] cells[j], row[lo + j])
    } else {
        cells.len() == 0
    }
}

/// A JSON capture reports each kept cell as it is: every attribute flag of
/// the captured cell is the same-named flag of the emulator cell (underline
/// from underline, strikethrough from strikethrough, and so on), its text is
/// the cell's graphemes (a space for a blank cell), and its colors are
/// written so that reading them back gives the cell's own colors. Without a
/// region, the `j`-th captured cell is the row's `j`-th cell.
pub proof fn law_captured_cells_keep_attributes(
    cells: Seq<CellData>,
    row: Seq<CellSnapshot>,
    region: Option<Region>,
    j: int,
)
    requires
        reports_row_cells(cells, row, region, ScreenFormat::Json),
        0 <= j < cells.len(),
    ensures
        ({
            let c = row[col_span(region, row.len() as int).0 + j];
            let d = cells[j];
            &&& d.bold == c.bold
            &&& d.italic == c.italic
            &&& d.underline == c.underline
            &&& d.strikethrough == c.strikethrough
            &&& d.inverse == c.inverse
            &&& d.faint == c.faint
            &&& c.graphemes@.len() > 0 ==> d.grapheme@ == c.graphemes@
            &&& c.graphemes@.len() == 0 ==> d.grapheme@ == seq![' ']
            &&& (d.fg is Some <==> c.fg is Some)
            &&& (d.bg is Some <==> c.bg is Some)
            &&& (d.fg matches Some(t) ==> c.fg == spec_hex_triple(t@))
            &&& (d.bg matches Some(t) ==> c.bg == spec_hex_triple(t@))
        }),
        region is None ==> cells.len() == row.len() && col_span(region, row.len() as int).0 == 0,
{
    let lo = col_span(region, row.len() as int).0;
    let c = row[lo + j];
    let d = cells[j];
    assert(reports_cell(d, c));
    match c.fg {
        Some((r, g, b)) => {
            law_hex_round_trip(r, g, b);
        },
        None => {},
    }
    match c.bg {
        Some((r, g, b)) => {
            law_hex_round_trip(r, g, b);
        },
        None => {},
    }
}

fn clip_exec(lo: u16, hi: u16, n: usize) -> (r: (usize, usize))
    ensures
        r.0 as int == clip(lo as int, hi as int, n as int).0,
        r.1 as int == clip(lo as int, hi as int, n as int).1,
{
    let end: usize = if (hi as usize) + 1 < n { (hi as usize) + 1 } else { n };
    if (lo as usize) < end {
        (lo as usize, end)
    } else {
        (end, end)
    }
}

/// Reports one cell.
pub fn cell_data_of(c: &CellSnapshot) -> (d: CellData)
    ensures
        reports_cell(d, *c),
{
    let grapheme = if c.graphemes.len() == 0 {
        let mut s = String::new();
        s.push(' ');
        s
    } else {
        string_of(c.graphemes.as_slice())
    };
    assert(grapheme@ =~= cell_text(*c));
    let fg = match c.fg {
        Some((r, g, b)) => Some(rgb_to_hex(r, g, b)),
        None => None,
    };
    let bg = match c.bg {
        Some((r, g, b)) => Some(rgb_to_hex(r, g, b)),
        None => None,
    };
    CellData {
        grapheme,
        fg,
        bg,
        bold: c.bold,
        italic: c.italic,
        underline: c.underline,
        strikethrough: c.strikethrough,
        inverse: c.inverse,
        faint: c.faint,
    }
}

/// Captures one row.
fn capture_row(row: &Vec<CellSnapshot>, index: u16, region: Option<Region>, format: ScreenFormat) -> (r: RowContent)
    ensures
        r.row == index,
        r.text@ == captured_row_text(row@, region),
        reports_row_cells(r.cells@, row@, region, format),
{
    let (lo, hi) = match region {
        None => (0, row.len()),
        Some((_, left, _, right)) => clip_exec(left, right, row.len()),
    };
    let mut text = String::new();
    let mut cells: Vec<CellData> = Vec::new();
    let mut j: usize = lo;
    while j < hi
        invariant
            lo <= j <= hi,
            hi <= row@.len(),
            (lo as int, hi as int) == col_span(region, row@.len() as int),
            text@ == cells_text(row@, lo as int, j as int),
            format == ScreenFormat::Json ==> cells@.len() == j - lo,
            format != ScreenFormat::Json ==> cells@.len() == 0,
            format == ScreenFormat::Json ==> forall|k: int| 0 <= k < cells@.len() ==> reports_cell(#[trigger] cells@[k], row@[lo + k]),
        decreases hi - j,
    {
        let c = &row[j];
        if c.graphemes.len() == 0 {
            text.push(' ');
        } else {
            let g = string_of(c.graphemes.as_slice());
            text.append(g.as_str());
        }
        assert(text@ =~= cells_text(row@, lo as int, j + 1));
        match format {
            ScreenFormat::Json => {
                cells.push(cell_data_of(c));
            }
            _ => {}
        }
        j = j + 1;
    }
    RowContent { row: index, text, cells }
}

/// Assembles a capture from the cells of the active screen: the rows (and
/// columns) within `region`, each with its text, and for JSON captures each
/// kept cell's data.
pub fn build_screen(
    grid: &Vec<Vec<CellSnapshot>>,
    format: ScreenFormat,
    region: Option<Region>,
    cursor: CursorInfo,
    title: Option<String>,
    cols: u16,
    rows: u16,
) -> (r: ScreenContent)
    requires
        grid@.len() < 65536,
    ensures
        r.cols == cols,
        r.rows == rows,
        r.cursor == cursor,
        r.title == title,
        ({
            let (lo, hi) = row_span(region, grid@.len() as int);
            &&& r.screen@.len() == hi - lo
            &&& forall|k: int| 0 <= k < r.screen@.len() ==> {
                &&& (#[trigger] r.screen@[k]).row == lo + k
                &&& r.screen@[k].text@ == captured_row_text(grid@[lo + k]@, region)
                &&& reports_row_cells(r.screen@[k].cells@, grid@[lo + k]@, region, format)
            }
        }),
{
    let (lo, hi) = match region {
        None => (0, grid.len()),
        Some((top, _, bottom, _)) => clip_exec(top, bottom, grid.len()),
    };
    let mut out: Vec<RowContent> = Vec::new();
    let mut i: usize = lo;
    while i < hi
        invariant
            lo <= i <= hi,
            hi <= grid@.len() < 65536,
            (lo as int, hi as int) == row_span(region, grid@.len() as int),
            out@.len() == i - lo,
            forall|k: int| 0 <= k < out@.len() ==> {
                &&& (#[trigger] out@[k]).row == lo + k
                &&& out@[k].text@ == captured_row_text(grid@[lo + k]@, region)
                &&& reports_row_cells(out@[k].cells@, grid@[lo + k]@, region, format)
            },
        decreases hi - i,
    {
        let row = capture_row(&grid[i], i as u16, region, format);
        out.push(row);
        i = i + 1;
    }
    ScreenContent { cols, rows, cursor, title, screen: out }
}

/// One row as the screen-text reader sees it: `None` when its cells could not
/// be walked; otherwise each cell's graphemes, `None` where they could not be
/// read.
pub type TextRow = Option<Vec<Option<Vec<char>>>>;

/// What one cell adds to the screen text.
pub open spec fn cell_chunk(c: Option<Vec<char>>) -> Seq<char> {
    match c {
        None => Seq::empty(),
        Some(g) => if g@.len() == 0 {
            seq![' ']
        } else {
            g@
        },
    }
}

/// What cells `0..n` of a row add to the screen text.
pub open spec fn cells_chunk(cells: Seq<Option<Vec<char>>>, n: int) -> Seq<char>
    decreases n,
{
    if n <= 0 {
        Seq::empty()
    } else {
        cells_chunk(cells, n - 1) + cell_chunk(cells[n - 1])
    }
}

/// What a row adds to the screen text.
pub open spec fn row_chunk(row: TextRow) -> Seq<char> {
    match row {
        None => Seq::empty(),
        Some(cells) => cells_chunk(cells@, cells@.len() as int),
    }
}

/// The screen text of rows `0..n`: each row's text, preceded by a newline
/// when text has already been written.
pub open spec fn screen_text_spec(rows: Seq<TextRow>, n: int) -> Seq<char>
    decreases n,
{
    if n <= 0 {
        Seq::empty()
    } else {
        let t = screen_text_spec(rows, n - 1);
        let sep: Seq<char> = if t.len() > 0 { seq!['\n'] } else { Seq::empty() };
        t + sep + row_chunk(rows[n - 1])
    }
}

/// The plain text of the active screen.
pub fn screen_text(rows: &Vec<TextRow>) -> (r: String)
    ensures
        r@ == screen_text_spec(rows@, rows@.len() as int),
{
    let mut text = String::new();
    let mut i: usize = 0;
    while i < rows.len()
        invariant
            i <= rows@.len(),
            text@ == screen_text_spec(rows@, i as int),
        decreases rows@.len() - i,
    {
        let ghost t0 = text@;
        if text.unicode_len() > 0 {
            text.push('\n');
        }
        let ghost t1 = text@;
        match &rows[i] {
            None => {}
            Some(cells) => {
                let mut j: usize = 0;
                while j < cells.len()
                    invariant
                        j <= cells@.len(),
                        text@ == t1 + cells_chunk(cells@, j as int),
                    decreases cells@.len() - j,
                {
                    match &cells[j] {
                        None => {}
                        Some(g) => {
                            if g.len() == 0 {
                                text.push(' ');
                            } else {
                                let s = string_of(g.as_slice());
                                text.append(s.as_str());
                            }
                        }
                    }
                    j = j + 1;
                    assert(text@ =~= t1 + cells_chunk(cells@, j as int));
                }
            }
        }
        i = i + 1;
        assert(text@ =~= screen_text_spec(rows@, i as int));
    }
    text
}


/// A line as `str::lines` yields it when a newline followed it: one trailing
/// carriage return is dropped.
pub open spec fn strip_cr(l: Seq<char>) -> Seq<char> {
    if l.len() > 0 && l.last() == '\r' {
        l.drop_last()
    } else {
        l
    }
}

/// `str::lines`: the text split at `\n` (with a `\r` before it dropped);
/// a final empty piece after the last newline is not a line.
pub open spec fn lines_of(s: Seq<char>) -> Seq<Seq<char>> {
    let p = split_on(s, '\n');
    let body = Seq::new((p.len() - 1) as nat, |i: int| strip_cr(p[i]));
    if p.last().len() == 0 {
        body
    } else {
        body.push(p.last())
    }
}

/// The lines without the blank (whitespace-only) lines at the end.
pub open spec fn drop_blank_tail(ls: Seq<Seq<char>>) -> Seq<Seq<char>>
    decreases ls.len(),
{
    if ls.len() > 0 && trim(ls.last()).len() == 0 {
        drop_blank_tail(ls.drop_last())
    } else {
        ls
    }
}

/// Process output: the screen text's lines up to the last non-blank one,
/// joined by newlines.
pub open spec fn output_spec(text: Seq<char>) -> Seq<char> {
    join_with(drop_blank_tail(lines_of(text)), "\n"@)
}

/// The lines of a text, as `str::lines` yields them.
pub fn lines_vec(text: &str) -> (ls: Vec<String>)
    ensures
        ls@.map_values(|x: String| x@) == lines_of(text@),
{
    let v = chars_of(text);
    let pieces = split_chars(v.as_slice(), '\n');
    proof { lemma_split_on_nonempty(text@, '\n'); }
    let ghost p = split_on(text@, '\n');
    let n = pieces.len() - 1;
    let mut ls: Vec<String> = Vec::new();
    let mut i: usize = 0;
    while i < n
        invariant
            n + 1 == pieces@.len() == p.len(),
            p == split_on(text@, '\n'),
            forall|j: int| 0 <= j < pieces@.len() ==> #[trigger] pieces@[j]@ == p[j],
            i <= n,
            ls@.map_values(|x: String| x@) == Seq::new(i as nat, |j: int| strip_cr(p[j])),
        decreases n - i,
    {
        let piece = &pieces[i];
        let l = if piece.len() > 0 && piece[piece.len() - 1] == '\r' {
            slice_chars(piece.as_slice(), 0, piece.len() - 1)
        } else {
            slice_chars(piece.as_slice(), 0, piece.len())
        };
        assert(l@ =~= strip_cr(p[i as int]));
        let ghost before = ls@.map_values(|x: String| x@);
        let ls_new = string_of(l.as_slice());
        ls.push(ls_new);
        assert(ls@.map_values(|x: String| x@) =~= before.push(l@));
        assert(ls@.map_values(|x: String| x@) =~= Seq::new((i + 1) as nat, |j: int| strip_cr(p[j])));
        i = i + 1;
    }
    let ghost before = ls@.map_values(|x: String| x@);
    if pieces[n].len() > 0 {
        let last = string_of(pieces[n].as_slice());
        ls.push(last);
        assert(ls@.map_values(|x: String| x@) =~= before.push(p[n as int]));
    }
    assert(ls@.map_values(|x: String| x@) =~= lines_of(text@));
    ls
}

/// Whether a line holds only whitespace.
fn is_blank(s: &str) -> (b: bool)
    ensures
        b == (trim(s@).len() == 0),
{
    let c = chars_of(s);
    trim_chars(c.as_slice()).len() == 0
}

/// How many leading lines remain once blank lines at the end are dropped.
fn kept_line_count(ls: &Vec<String>) -> (k: usize)
    ensures
        k <= ls@.len(),
        drop_blank_tail(ls@.map_values(|x: String| x@)) == ls@.map_values(|x: String| x@).take(k as int),
{
    let ghost lines = ls@.map_values(|x: String| x@);
    let mut k: usize = ls.len();
    assert(lines.take(k as int) =~= lines);
    while k > 0 && is_blank(ls[k - 1].as_str())
        invariant
            k <= ls@.len(),
            lines == ls@.map_values(|x: String| x@),
            drop_blank_tail(lines) == drop_blank_tail(lines.take(k as int)),
        decreases k,
    {
        assert(lines.take(k as int).drop_last() =~= lines.take(k - 1));
        k = k - 1;
    }
    proof {
        let t = lines.take(k as int);
        if k > 0 {
            assert(t.last() == lines[k - 1]);
        }
    }
    k
}

/// The process output that a screen text holds: trailing blank lines removed.
pub fn output_text(text: &str) -> (r: String)
    ensures
        r@ == output_spec(text@),
{
    let ls = lines_vec(text);
    let ghost lines = lines_of(text@);
    let k = kept_line_count(&ls);
    let mut kept: Vec<String> = Vec::new();
    let mut j: usize = 0;
    while j < k
        invariant
            j <= k <= ls@.len(),
            ls@.map_values(|x: String| x@) == lines,
            kept@.map_values(|x: String| x@) == lines.take(j as int),
        decreases k - j,
    {
        let ghost before = kept@.map_values(|x: String| x@);
        let line = ls[j].as_str().to_owned();
        kept.push(line);
        assert(kept@.map_values(|x: String| x@) =~= before.push(lines[j as int]));
        j = j + 1;
        assert(kept@.map_values(|x: String| x@) =~= lines.take(j as int));
    }
    join_strings(&kept, "\n")
}

/// Text up to the first NUL.
pub open spec fn until_nul(buf: Seq<char>) -> Seq<char> {
    match index_of(buf, '\0') {
        Some(i) => buf.take(i),
        None => buf,
    }
}

/// Characters of a grapheme buffer up to the first NUL.
pub fn chars_until_nul(buf: &[char]) -> (r: Vec<char>)
    ensures
        r@ == until_nul(buf@),
{
    proof { lemma_index_of(buf@, '\0'); }
    match find_char(buf, '\0') {
        Some(i) => slice_chars(buf, 0, i),
        None => {
            let r = slice_chars(buf, 0, buf.len());
            assert(r@ =~= buf@);
            r
        }
    }
}

/// Style attributes of a cell.
#[derive(Debug, Clone, Copy, PartialEq, Eq, Structural)]
pub struct CellAttrs {
    pub bold: bool,
    pub italic: bool,
    pub underline: bool,
    pub strikethrough: bool,
    pub inverse: bool,
    pub faint: bool,
}

/// Reports one cell looked up by position: its grapheme buffer read up to the
/// first NUL (a space when empty), its colors and attributes.
pub fn cell_report(buf: &[char], fg: StyleColor, bg: StyleColor, attrs: CellAttrs) -> (d: CellData)
    ensures
        d.grapheme@ == (if until_nul(buf@).len() == 0 {
            seq![' ']
        } else {
            until_nul(buf@)
        }),
        opt_view(d.fg) == spec_style_color_text(fg),
        opt_view(d.bg) == spec_style_color_text(bg),
        d.bold == attrs.bold,
        d.italic == attrs.italic,
        d.underline == attrs.underline,
        d.strikethrough == attrs.strikethrough,
        d.inverse == attrs.inverse,
        d.faint == attrs.faint,
{
    let g = chars_until_nul(buf);
    let grapheme = if g.len() == 0 {
        let mut s = String::new();
        s.push(' ');
        s
    } else {
        string_of(g.as_slice())
    };
    assert(grapheme@ =~= (if until_nul(buf@).len() == 0 {
        seq![' ']
    } else {
        until_nul(buf@)
    }));
    CellData {
        grapheme,
        fg: style_color_to_string(fg),
        bg: style_color_to_string(bg),
        bold: attrs.bold,
        italic: attrs.italic,
        underline: attrs.underline,
        strikethrough: attrs.strikethrough,
        inverse: attrs.inverse,
        faint: attrs.faint,
    }
}

/// The history rows to read: those above the viewport, or only the last
/// `max_lines` of them.
pub fn scrollback_rows(total: usize, viewport: usize, max_lines: Option<u32>) -> (r: (usize, usize))
    ensures
        r.1 == (if total > viewport { total - viewport } else { 0 }),
        r.0 == match max_lines {
            Some(n) => if r.1 > n { r.1 - n } else { 0 },
            None => 0,
        },
{
    let scrollback = if total > viewport { total - viewport } else { 0 };
    let start = match max_lines {
        Some(n) => if scrollback > n as usize { scrollback - n as usize } else { 0 },
        None => 0,
    };
    (start, scrollback)
}

/// What the history cells `0..n` of a row hold, in order: each readable
/// cell's grapheme buffer up to its first NUL.
pub open spec fn history_chars(cells: Seq<Option<Vec<char>>>, n: int) -> Seq<char>
    decreases n,
{
    if n <= 0 {
        Seq::empty()
    } else {
        history_chars(cells, n - 1) + match cells[n - 1] {
            Some(b) => until_nul(b@),
            None => Seq::empty(),
        }
    }
}

/// A history row's text, trailing whitespace removed.
pub fn history_line(cells: &Vec<Option<Vec<char>>>) -> (r: String)
    ensures
        r@ == trim_end(history_chars(cells@, cells@.len() as int)),
{
    let mut line: Vec<char> = Vec::new();
    let mut j: usize = 0;
    while j < cells.len()
        invariant
            j <= cells@.len(),
            line@ == history_chars(cells@, j as int),
        decreases cells@.len() - j,
    {
        match &cells[j] {
            Some(b) => {
                let g = chars_until_nul(b.as_slice());
                let mut k: usize = 0;
                let ghost l0 = line@;
                while k < g.len()
                    invariant
                        k <= g@.len(),
                        line@ == l0 + g@.take(k as int),
                    decreases g@.len() - k,
                {
                    line.push(g[k]);
                    k = k + 1;
                    assert(line@ =~= l0 + g@.take(k as int));
                }
                assert(g@.take(g@.len() as int) =~= g@);
            }
            None => {}
        }
        j = j + 1;
        assert(line@ =~= history_chars(cells@, j as int));
    }
    let t = trim_end_chars(line.as_slice());
    string_of(t.as_slice())
}

} // verus!
