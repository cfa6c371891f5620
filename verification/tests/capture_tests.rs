use phantom::capture::{
    build_screen, cell_data_of, cell_report, history_line, lines_vec, output_text,
    screen_text, scrollback_rows, CellAttrs, CellSnapshot,
};
use phantom::color::StyleColor;
use phantom::screen::Screen;
use phantom::types::{CursorInfo, CursorStyle, ScreenContent, RowContent, ScreenFormat};

fn cell(s: &str) -> CellSnapshot {
    CellSnapshot {
        graphemes: s.chars().collect(),
        fg: None,
        bg: None,
        bold: false,
        italic: false,
        underline: false,
        strikethrough: false,
        inverse: false,
        faint: false,
    }
}

fn row(s: &str) -> Vec<CellSnapshot> {
    s.chars().map(|c| if c == '_' { cell("") } else { cell(&c.to_string()) }).collect()
}

fn cursor() -> CursorInfo {
    CursorInfo { x: 1, y: 2, visible: true, style: CursorStyle::Block }
}

#[test]
fn full_text_capture() {
    let grid = vec![row("ab_c"), row("de_f")];
    let s = build_screen(&grid, ScreenFormat::Text, None, cursor(), None, 4, 2);
    assert_eq!(s.screen.len(), 2);
    assert_eq!(s.screen[0].text, "ab c");
    assert_eq!(s.screen[1].row, 1);
    assert!(s.screen[0].cells.is_empty());
    assert_eq!((s.cols, s.rows), (4, 2));
}

#[test]
fn region_json_capture() {
    let mut grid = vec![row("abcd"), row("efgh"), row("ijkl")];
    grid[1][2].fg = Some((255, 0, 1));
    grid[1][2].bold = true;
    let s = build_screen(&grid, ScreenFormat::Json, Some((1, 1, 5, 2)), cursor(), Some("t".into()), 4, 3);
    assert_eq!(s.screen.len(), 2);
    assert_eq!(s.screen[0].row, 1);
    assert_eq!(s.screen[0].text, "fg");
    assert_eq!(s.screen[1].text, "jk");
    assert_eq!(s.screen[0].cells.len(), 2);
    assert_eq!(s.screen[0].cells[1].grapheme, "g");
    assert_eq!(s.screen[0].cells[1].fg, Some("#ff0001".to_string()));
    assert!(s.screen[0].cells[1].bold);
    assert_eq!(s.title, Some("t".to_string()));
}

#[test]
fn cell_reports() {
    let d = cell_data_of(&cell(""));
    assert_eq!(d.grapheme, " ");
    let d = cell_report(
        &['x', '\u{301}', '\0', 'y'],
        StyleColor::Palette(3),
        StyleColor::Unset,
        CellAttrs { bold: false, italic: true, underline: false, strikethrough: false, inverse: false, faint: true },
    );
    assert_eq!(d.grapheme, "x\u{301}");
    assert_eq!(d.fg, Some("palette:3".to_string()));
    assert_eq!(d.bg, None);
    assert!(d.italic && d.faint && !d.bold);
    let d = cell_report(&['\0'; 8], StyleColor::Unset, StyleColor::Rgb(0, 0, 0), CellAttrs { bold: true, italic: false, underline: false, strikethrough: false, inverse: false, faint: false });
    assert_eq!(d.grapheme, " ");
    assert_eq!(d.bg, Some("#000000".to_string()));
}

#[test]
fn screen_text_of_rows() {
    let rows = vec![
        Some(vec![Some(vec!['a']), None, Some(vec![]), Some(vec!['b'])]),
        None,
        Some(vec![Some(vec!['c'])]),
    ];
    assert_eq!(screen_text(&rows), "a b\n\nc");
}

#[test]
fn process_output_drops_blank_tail() {
    assert_eq!(output_text("one\ntwo\n   \n\n"), "one\ntwo");
    assert_eq!(output_text("  \n \n"), "");
    assert_eq!(output_text("a\r\nb"), "a\nb");
    assert_eq!(lines_vec("x\ny\n"), vec!["x".to_string(), "y".to_string()]);
    assert_eq!(lines_vec(""), Vec::<String>::new());
}

#[test]
fn scrollback_window() {
    assert_eq!(scrollback_rows(30, 24, None), (0, 6));
    assert_eq!(scrollback_rows(30, 24, Some(4)), (2, 6));
    assert_eq!(scrollback_rows(30, 24, Some(10)), (0, 6));
    assert_eq!(scrollback_rows(10, 24, None), (0, 0));
    let line = history_line(&vec![Some(vec!['h', '\0', 'z']), None, Some(vec!['i']), Some(vec![' ', '\0'])]);
    assert_eq!(line, "hi");
}

#[test]
fn screen_wrapper() {
    let content = ScreenContent {
        cols: 5,
        rows: 2,
        cursor: cursor(),
        title: Some("vim".to_string()),
        screen: vec![
            RowContent { row: 0, text: "hello".into(), cells: vec![] },
            RowContent { row: 1, text: "world".into(), cells: vec![] },
        ],
    };
    let s = Screen::new(content);
    assert_eq!(s.text(), "hello\nworld");
    assert!(s.contains("lo\nwo"));
    assert!(!s.contains("xyz"));
    assert_eq!(s.row_text(1), Some("world"));
    assert_eq!(s.row_text(7), None);
    assert_eq!(s.size(), (5, 2));
    assert_eq!(s.title(), Some("vim"));
    assert_eq!(s.cursor().y, 2);
    assert_eq!(s.raw().screen.len(), 2);
}
