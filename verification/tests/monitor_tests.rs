use phantom::render::{image_fits, region_fits_check};
use phantom::monitor::{frame_interval_ms, render_frame, render_row, stop_message};
use phantom::render::{cell_colors, cell_glyph, image_size, local_row, output_grid};
use phantom::color::Rgba;
use phantom::types::{CellData, CursorInfo, CursorStyle, RowContent, ScreenContent};

fn cell(g: &str, fg: Option<&str>, bold: bool) -> CellData {
    CellData {
        grapheme: g.to_string(),
        fg: fg.map(|s| s.to_string()),
        bg: None,
        bold,
        italic: false,
        underline: false,
        strikethrough: false,
        inverse: false,
        faint: false,
    }
}

#[test]
fn rows_emit_escapes_only_on_change() {
    let row = RowContent {
        row: 0,
        text: "ignored".into(),
        cells: vec![
            cell("a", None, false),
            cell("b", Some("#010203"), true),
            cell("", Some("#010203"), true),
            cell("c", Some("palette:3"), false),
        ],
    };
    let mut buf = String::new();
    render_row(&mut buf, &row);
    assert_eq!(buf, "a\x1b[0m\x1b[38;2;1;2;3m\x1b[1mb \x1b[0mc");
    let plain = RowContent { row: 1, text: "plain".into(), cells: vec![] };
    let mut buf = String::from(">");
    render_row(&mut buf, &plain);
    assert_eq!(buf, ">plain");
}

#[test]
fn frames() {
    let screen = ScreenContent {
        cols: 2,
        rows: 2,
        cursor: CursorInfo { x: 0, y: 0, visible: true, style: CursorStyle::Unknown },
        title: None,
        screen: vec![
            RowContent { row: 0, text: "ab".into(), cells: vec![] },
            RowContent { row: 1, text: "cd".into(), cells: vec![] },
        ],
    };
    assert_eq!(render_frame(&screen), "\x1b[Hab\x1b[0m\x1b[K\r\ncd\x1b[0m\x1b[K\x1b[J");
    assert_eq!(frame_interval_ms(30), 33);
    assert_eq!(frame_interval_ms(0), 1000);
    assert_eq!(stop_message("s", 2, "x"), "Session 's' not found");
    assert_eq!(stop_message("s", 1, "boom"), "boom");
}

#[test]
fn render_layout() {
    assert_eq!(output_grid(80, 24, None), (80, 24, 0));
    assert_eq!(output_grid(80, 24, Some((5, 10, 10, 20))), (11, 6, 5));
    assert_eq!(output_grid(80, 24, Some((5, 10, 3, 2))), (1, 1, 5));
    assert_eq!(image_size(11, 6, 10, 20), (126, 136));
    assert_eq!(local_row(7, 5), 2);
    assert_eq!(local_row(3, 5), 0);
    let mut c = cell("x", Some("#ff0000"), false);
    c.bg = Some("palette:4".into());
    assert_eq!(cell_colors(&c), (Rgba { r: 255, g: 0, b: 0, a: 255 }, Rgba { r: 0, g: 0, b: 170, a: 255 }));
    c.inverse = true;
    assert_eq!(cell_colors(&c), (Rgba { r: 0, g: 0, b: 170, a: 255 }, Rgba { r: 255, g: 0, b: 0, a: 255 }));
    let d = cell("", None, false);
    assert_eq!(cell_colors(&d), (Rgba { r: 220, g: 220, b: 220, a: 255 }, Rgba { r: 30, g: 30, b: 30, a: 255 }));
    assert_eq!(cell_glyph(&cell("xy", None, false)), Some('x'));
    assert_eq!(cell_glyph(&cell(" ", None, false)), None);
    assert_eq!(cell_glyph(&cell("", None, false)), None);
}

#[test]
fn render_size_checks() {
    assert!(region_fits_check(None));
    assert!(region_fits_check(Some((0, 0, 10, 10))));
    assert!(!region_fits_check(Some((0, 0, 65535, 10))));
    assert!(image_fits(80, 24, 10, 20));
    assert!(!image_fits(u32::MAX, 1, 2, 1));
}
