use phantom::input::key_text;
use phantom::keys::{
    char_to_key, key_to_char, mouse_action, parse_key_spec, split_mouse_spec, Key, KeySpecError,
    Mods, MouseAction, MouseButton, MouseSpecError,
};

fn mods(ctrl: bool, alt: bool, shift: bool, super_key: bool) -> Mods {
    Mods { ctrl, alt, shift, super_key }
}

#[test]
fn key_spec_named_keys() {
    assert_eq!(parse_key_spec("enter"), Ok((Key::Enter, Mods::empty())));
    assert_eq!(parse_key_spec("Return"), Ok((Key::Enter, Mods::empty())));
    assert_eq!(parse_key_spec("esc"), Ok((Key::Escape, Mods::empty())));
    assert_eq!(parse_key_spec("PgDn"), Ok((Key::PageDown, Mods::empty())));
    assert_eq!(parse_key_spec("f12"), Ok((Key::F12, Mods::empty())));
    assert_eq!(parse_key_spec("q"), Ok((Key::Q, Mods::empty())));
    assert_eq!(parse_key_spec("7"), Ok((Key::Digit7, Mods::empty())));
}

#[test]
fn key_spec_with_modifiers() {
    assert_eq!(parse_key_spec("ctrl-c"), Ok((Key::C, mods(true, false, false, false))));
    assert_eq!(parse_key_spec("C-a"), Ok((Key::A, mods(true, false, false, false))));
    assert_eq!(parse_key_spec("alt-shift-tab"), Ok((Key::Tab, mods(false, true, true, false))));
    assert_eq!(parse_key_spec("meta-x"), Ok((Key::X, mods(false, true, false, false))));
    assert_eq!(parse_key_spec("super-up"), Ok((Key::ArrowUp, mods(false, false, false, true))));
}

#[test]
fn key_spec_errors() {
    assert_eq!(
        parse_key_spec("hyper-c"),
        Err(KeySpecError::UnknownModifier("hyper".to_string()))
    );
    assert_eq!(parse_key_spec("ctrl-nope"), Err(KeySpecError::UnknownKey("nope".to_string())));
    assert_eq!(parse_key_spec("!"), Err(KeySpecError::UnknownKey("!".to_string())));
    assert_eq!(parse_key_spec("ctrl-"), Err(KeySpecError::UnknownKey("".to_string())));
    assert_eq!(
        KeySpecError::UnknownKey("nope".to_string()).message(),
        "Unknown key: nope"
    );
    assert_eq!(
        KeySpecError::UnknownModifier("Hyper".to_string()).message(),
        "Unknown modifier: Hyper"
    );
}

#[test]
fn keys_and_chars_round_trip() {
    for c in 'a'..='z' {
        let k = char_to_key(c).unwrap();
        assert_eq!(key_to_char(k), Some(c));
    }
    assert_eq!(char_to_key('5'), Some(Key::Digit5));
    assert_eq!(key_to_char(Key::Digit5), None);
    assert_eq!(key_to_char(Key::Enter), Some('\r'));
    assert_eq!(key_to_char(Key::Space), Some(' '));
    assert_eq!(char_to_key('A'), None);
}

#[test]
fn key_press_text_only_without_modifiers() {
    assert_eq!(key_text(Key::A, Mods::empty()), Some('a'));
    assert_eq!(key_text(Key::A, mods(true, false, false, false)), None);
    assert_eq!(key_text(Key::F1, Mods::empty()), None);
}

#[test]
fn mouse_specs() {
    let ev = mouse_action("click").unwrap();
    assert_eq!(ev.action, MouseAction::Press);
    assert_eq!(ev.button, Some(MouseButton::Left));
    assert!(ev.release_after);
    let ev = mouse_action("scroll-down").unwrap();
    assert_eq!(ev.button, Some(MouseButton::Five));
    assert!(!ev.release_after);
    let ev = mouse_action("move").unwrap();
    assert_eq!(ev.action, MouseAction::Motion);
    assert_eq!(ev.button, None);
    assert!(!ev.release_after);
    assert_eq!(
        mouse_action("double-click"),
        Err(MouseSpecError::UnknownAction("double-click".to_string()))
    );
    assert_eq!(
        split_mouse_spec("click:10,5"),
        Ok(("click".to_string(), "10".to_string(), "5".to_string()))
    );
    assert_eq!(split_mouse_spec("click10,5"), Err(MouseSpecError::MissingColon));
    assert_eq!(split_mouse_spec("click:10"), Err(MouseSpecError::BadCoordinates));
    assert_eq!(
        MouseSpecError::MissingColon.message(),
        "Mouse spec must be action:x,y (e.g. click:10,5)"
    );
    assert_eq!(MouseSpecError::BadCoordinates.message(), "Mouse coordinates must be x,y");
}
