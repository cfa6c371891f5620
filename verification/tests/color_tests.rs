use phantom::color::{
    palette_to_rgb, parse_color, parse_hex, rgb_to_hex, style_color_to_string,
    Rgba, StyleColor,
};

fn rgba(r: u8, g: u8, b: u8, a: u8) -> Rgba {
    Rgba { r, g, b, a }
}

#[test]
fn parse_hex_color() {
    assert_eq!(parse_color(Some("#ff0000")), Some(rgba(255, 0, 0, 255)));
    assert_eq!(parse_color(Some("#00ff00")), Some(rgba(0, 255, 0, 255)));
    assert_eq!(parse_color(Some("#1e2c3d")), Some(rgba(0x1e, 0x2c, 0x3d, 255)));
}

#[test]
fn parse_palette_color_ansi_16() {
    assert_eq!(parse_color(Some("palette:0")), Some(rgba(0, 0, 0, 255)));
    assert_eq!(parse_color(Some("palette:1")), Some(rgba(170, 0, 0, 255)));
    assert_eq!(parse_color(Some("palette:15")), Some(rgba(255, 255, 255, 255)));
}

#[test]
fn parse_palette_color_cube() {
    assert_eq!(parse_color(Some("palette:16")), Some(rgba(0, 0, 0, 255)));
    assert_eq!(parse_color(Some("palette:231")), Some(rgba(255, 255, 255, 255)));
}

#[test]
fn parse_palette_color_grayscale() {
    assert_eq!(parse_color(Some("palette:232")), Some(rgba(8, 8, 8, 255)));
    assert_eq!(parse_color(Some("palette:255")), Some(rgba(238, 238, 238, 255)));
}

#[test]
fn parse_invalid_color() {
    assert_eq!(parse_color(None), None);
    assert_eq!(parse_color(Some("not-a-color")), None);
    assert_eq!(parse_color(Some("#fff")), None);
    assert_eq!(parse_color(Some("palette:foo")), None);
}

#[test]
fn palette_cube_middle_and_overflow() {
    // 16 + 36*1 + 6*2 + 3 = 67 -> levels (95, 135, 175)
    assert_eq!(palette_to_rgb(67), rgba(95, 135, 175, 255));
    assert_eq!(parse_color(Some("palette:256")), None);
    assert_eq!(parse_color(Some("palette:")), None);
}

#[test]
fn hex_parse_and_format() {
    assert_eq!(parse_hex("#0a0B0c"), Some((10, 11, 12)));
    assert_eq!(parse_hex("0a0b0c0"), None);
    assert_eq!(parse_hex("#0a0b0g"), None);
    assert_eq!(rgb_to_hex(10, 11, 255), "#0a0bff");
    assert_eq!(parse_hex(&rgb_to_hex(1, 2, 3)), Some((1, 2, 3)));
}

#[test]
fn style_colors_as_text() {
    assert_eq!(style_color_to_string(StyleColor::Unset), None);
    assert_eq!(style_color_to_string(StyleColor::Rgb(255, 0, 16)), Some("#ff0010".to_string()));
    assert_eq!(style_color_to_string(StyleColor::Palette(42)), Some("palette:42".to_string()));
    let text = style_color_to_string(StyleColor::Palette(9)).unwrap();
    assert_eq!(parse_color(Some(&text)), Some(rgba(255, 85, 85, 255)));
}

#[test]
fn hex_needs_six_hex_digits() {
    assert_eq!(parse_hex("#FFa010"), Some((255, 160, 16)));
    assert_eq!(parse_hex("#+f+f+f"), None);
    assert_eq!(parse_hex("#-f0000"), None);
    assert_eq!(parse_hex("#ff00"), None);
    assert_eq!(parse_hex("#ff00000"), None);
    assert_eq!(parse_hex("ff00000"), None);
    assert_eq!(parse_hex("#\u{e9}\u{e9}\u{e9}"), None);
    assert_eq!(parse_hex("#a\u{e9}\u{e9}b"), None);
    assert_eq!(parse_color(Some("#a\u{e9}\u{e9}b")), None);
    for (r, g, b) in [(0u8, 0u8, 0u8), (255, 255, 255), (1, 171, 254)] {
        assert_eq!(parse_hex(&rgb_to_hex(r, g, b)), Some((r, g, b)));
    }
}
