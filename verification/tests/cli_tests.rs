use phantom::cli::{
    default_session_name, parse_cursor_position, parse_region, parse_screenshot_format,
    parse_scrollback_format, send_action, session_env, split_command, wait_conditions, ArgError,
    OutputMode, WaitFlags,
};
use phantom::types::{InputAction, ScreenFormat, WaitCondition};

fn no_flags() -> WaitFlags {
    WaitFlags {
        text: None,
        regex: None,
        stable: false,
        stable_duration: 500,
        cursor: None,
        cursor_visible: false,
        cursor_hidden: false,
        process_exit: false,
        exit_code: None,
        text_disappear: None,
        changed: false,
    }
}

#[test]
fn output_mode_detection() {
    assert!(OutputMode::detect(true, true, true).is_json());
    assert!(!OutputMode::detect(false, true, false).is_json());
    assert!(!OutputMode::detect(false, false, true).is_json());
    assert!(OutputMode::detect(false, false, false).is_json());
}

#[test]
fn format_values() {
    assert_eq!(parse_screenshot_format("html"), Ok(ScreenFormat::Html));
    assert_eq!(
        parse_screenshot_format("png"),
        Err("Invalid format: png. Use text, json, or html".to_string())
    );
    assert_eq!(parse_scrollback_format("json"), Ok(ScreenFormat::Json));
    assert_eq!(
        parse_scrollback_format("html"),
        Err("Invalid format: html. Use text or json".to_string())
    );
}

#[test]
fn region_values() {
    assert_eq!(parse_region("1,2,3,4"), Ok((1, 2, 3, 4)));
    assert_eq!(
        parse_region("1,2,3").unwrap_err().message(),
        "Region must be top,left,bottom,right"
    );
    assert_eq!(
        parse_region("1,x,3").unwrap_err().message(),
        "invalid digit found in string"
    );
    assert_eq!(
        parse_region("1,2,3,70000").unwrap_err().message(),
        "number too large to fit in target type"
    );
    assert_eq!(
        parse_region("1,,3,4").unwrap_err().message(),
        "cannot parse integer from empty string"
    );
}

#[test]
fn cursor_values() {
    assert_eq!(parse_cursor_position("10,5"), Ok((10, 5)));
    assert_eq!(
        parse_cursor_position("10").unwrap_err().message(),
        "Cursor position must be x,y"
    );
    assert!(matches!(parse_cursor_position("a,5"), Err(ArgError::Number(_))));
}

#[test]
fn wait_flags_in_order() {
    let mut f = no_flags();
    f.changed = true;
    f.text = Some("ready".to_string());
    f.stable = true;
    f.cursor = Some("3,4".to_string());
    f.process_exit = true;
    f.exit_code = Some(2);
    let conds = wait_conditions(f).unwrap();
    assert_eq!(conds.len(), 5);
    assert!(matches!(&conds[0], WaitCondition::TextPresent(t) if t == "ready"));
    assert!(matches!(conds[1], WaitCondition::ScreenStable { duration_ms: 500 }));
    assert!(matches!(conds[2], WaitCondition::CursorAt { x: 3, y: 4 }));
    assert!(matches!(conds[3], WaitCondition::ProcessExited { exit_code: Some(2) }));
    assert!(matches!(conds[4], WaitCondition::ScreenChanged));
}

#[test]
fn wait_flag_errors() {
    assert_eq!(
        wait_conditions(no_flags()).unwrap_err().message(),
        "Specify at least one wait condition"
    );
    let mut f = no_flags();
    f.cursor = Some("3".to_string());
    assert_eq!(wait_conditions(f).unwrap_err().message(), "Cursor position must be x,y");
    let mut f = no_flags();
    f.regex = Some("(unclosed".to_string());
    f.cursor = Some("3".to_string());
    let e = wait_conditions(f).unwrap_err();
    assert!(matches!(e, ArgError::Invalid(ref m) if m.contains("unclosed")));
    let mut f = no_flags();
    f.regex = Some("^\\$ $".to_string());
    f.cursor_hidden = true;
    let conds = wait_conditions(f).unwrap();
    assert_eq!(conds.len(), 2);
    assert!(matches!(&conds[0], WaitCondition::Regex(p) if p.as_str() == "^\\$ $"));
    assert!(matches!(conds[1], WaitCondition::CursorVisible(false)));
}

#[test]
fn send_flags_pick_one_action() {
    let a = send_action(Some("hi".to_string()), vec!["enter".to_string()], None, None, 0).unwrap();
    assert!(matches!(a, InputAction::Type { ref text, delay_ms: None } if text == "hi"));
    let a = send_action(Some("hi".to_string()), vec![], None, None, 30).unwrap();
    assert!(matches!(a, InputAction::Type { delay_ms: Some(30), .. }));
    let a = send_action(None, vec!["ctrl-c".to_string()], Some("p".to_string()), None, 0).unwrap();
    assert!(matches!(a, InputAction::Key { ref keys } if keys == &vec!["ctrl-c".to_string()]));
    let a = send_action(None, vec![], Some("p".to_string()), Some("click:1,1".to_string()), 0).unwrap();
    assert!(matches!(a, InputAction::Paste { ref text } if text == "p"));
    let a = send_action(None, vec![], None, Some("click:1,1".to_string()), 0).unwrap();
    assert!(matches!(a, InputAction::Mouse { ref spec } if spec == "click:1,1"));
    assert_eq!(
        send_action(None, vec![], None, None, 0).unwrap_err(),
        "Specify --type, --key, --paste, or --mouse"
    );
}

#[test]
fn run_arguments() {
    let env = session_env(&vec![
        "A=1".to_string(),
        "junk".to_string(),
        "B=x=y".to_string(),
        "=v".to_string(),
    ]);
    assert_eq!(
        env,
        vec![
            ("A".to_string(), "1".to_string()),
            ("B".to_string(), "x=y".to_string()),
            ("".to_string(), "v".to_string()),
        ]
    );
    assert_eq!(
        split_command(vec!["vim".to_string(), "-u".to_string(), "NONE".to_string()]),
        Ok(("vim".to_string(), vec!["-u".to_string(), "NONE".to_string()]))
    );
    assert_eq!(split_command(vec![]), Err("No command specified".to_string()));
    assert_eq!(default_session_name(4242), "s4242");
    assert_eq!(default_session_name(0), "s0");
}

#[test]
fn numbers_read_back() {
    for n in [0u16, 7, 10, 99, 65535] {
        let text = format!("{n},{n},{n},{n}");
        assert_eq!(parse_region(&text), Ok((n, n, n, n)));
    }
    assert_eq!(parse_region("+1,2,3,4"), Ok((1, 2, 3, 4)));
}
