use phantom::error::PhantomError;
use phantom::mcp::{
    cursor_text, default_cols, default_rows, default_screenshot_format, default_timeout_ms,
    kill_message, no_observer_error, no_session_error, png_content, resize_message, run_message,
    run_spec, screenshot_plan, send_input, to_mcp_err, viewer_error, wait_spec, CursorPos,
    Region, RunArgs, ScreenshotArgs, ShotFormat, ToolErrorKind, WaitArgs,
};
use phantom::types::{CursorInfo, CursorStyle, InputAction, WaitCondition};

fn wait_args() -> WaitArgs {
    WaitArgs {
        session: "s".into(),
        text: None,
        text_absent: None,
        regex: None,
        stable_ms: None,
        process_exit: None,
        exit_code: None,
        cursor_at: None,
        cursor_visible: None,
        screen_changed: None,
        timeout_ms: 1_000,
    }
}

#[test]
fn defaults() {
    assert_eq!(default_cols(), 80);
    assert_eq!(default_rows(), 24);
    assert_eq!(default_timeout_ms(), 10_000);
    assert_eq!(default_screenshot_format(), "text");
}

#[test]
fn wait_invalid_regex_returns_clean_error() {
    let mut a = wait_args();
    a.regex = Some("(unclosed".into());
    let err = wait_spec(&a).unwrap_err();
    assert_eq!(err.kind, ToolErrorKind::InvalidParams);
    assert!(err.message.contains("invalid regex"));
}

#[test]
fn unknown_session_returns_error() {
    let err = no_session_error("no-such-session");
    assert!(err.message.contains("no session named"));
    assert_eq!(err.message, "no session named 'no-such-session'");
}

#[test]
fn cursor_at_unused_field_compiles() {
    let _ = CursorPos { x: 0, y: 0 };
}

#[test]
fn wait_requires_a_condition() {
    let err = wait_spec(&wait_args()).unwrap_err();
    assert_eq!(err.kind, ToolErrorKind::Internal);
    assert!(err.message.starts_with("internal: phantom_wait requires at least one condition"));
    let mut a = wait_args();
    a.process_exit = Some(false);
    a.screen_changed = Some(false);
    assert!(wait_spec(&a).is_err());
}

#[test]
fn wait_conditions_in_tool_order() {
    let mut a = wait_args();
    a.screen_changed = Some(true);
    a.cursor_visible = Some(false);
    a.cursor_at = Some(CursorPos { x: 1, y: 2 });
    a.process_exit = Some(true);
    a.exit_code = Some(3);
    a.stable_ms = Some(300);
    a.regex = Some("ab+".into());
    a.text_absent = Some("err".into());
    a.text = Some("ok".into());
    let w = wait_spec(&a).unwrap();
    assert_eq!(w.timeout_ms, 1_000);
    assert_eq!(w.poll_ms, 50);
    let c = &w.conditions;
    assert_eq!(c.len(), 8);
    assert!(matches!(&c[0], WaitCondition::TextPresent(t) if t == "ok"));
    assert!(matches!(&c[1], WaitCondition::TextAbsent(t) if t == "err"));
    assert!(matches!(&c[2], WaitCondition::Regex(p) if p.as_str() == "ab+"));
    assert!(matches!(c[3], WaitCondition::ScreenStable { duration_ms: 300 }));
    assert!(matches!(c[4], WaitCondition::ProcessExited { exit_code: Some(3) }));
    assert!(matches!(c[5], WaitCondition::CursorAt { x: 1, y: 2 }));
    assert!(matches!(c[6], WaitCondition::CursorVisible(false)));
    assert!(matches!(c[7], WaitCondition::ScreenChanged));
    let mut b = wait_args();
    b.process_exit = Some(true);
    let w = wait_spec(&b).unwrap();
    assert!(matches!(w.conditions[0], WaitCondition::ProcessExited { exit_code: None }));
}

#[test]
fn send_kinds() {
    assert!(matches!(send_input("text", "hi").unwrap(), InputAction::Type { ref text, delay_ms: None } if text == "hi"));
    assert!(matches!(send_input("key", "enter").unwrap(), InputAction::Key { ref keys } if keys == &vec!["enter".to_string()]));
    assert!(matches!(send_input("paste", "x").unwrap(), InputAction::Paste { ref text } if text == "x"));
    assert!(matches!(send_input("mouse", "click:1,2").unwrap(), InputAction::Mouse { ref spec } if spec == "click:1,2"));
    let e = send_input("shout", "x").unwrap_err();
    assert_eq!(e.message, "unknown send kind 'shout' (expected text/key/paste/mouse)");
}

#[test]
fn screenshot_plans() {
    let p = screenshot_plan(&ScreenshotArgs { session: "s".into(), format: "image".into(), region: None }).unwrap();
    assert_eq!(p.format, ShotFormat::Image);
    let r = Region { top: 1, left: 2, bottom: 3, right: 4 };
    let p = screenshot_plan(&ScreenshotArgs { session: "s".into(), format: "text".into(), region: Some(r) }).unwrap();
    assert_eq!(p.region, Some(r));
    let bad = Region { top: 5, left: 2, bottom: 3, right: 4 };
    let e = screenshot_plan(&ScreenshotArgs { session: "s".into(), format: "svg".into(), region: Some(bad) }).unwrap_err();
    assert_eq!(e.message, "invalid region: top=5 left=2 bottom=3 right=4 (top<=bottom and left<=right required)");
    let e = screenshot_plan(&ScreenshotArgs { session: "s".into(), format: "svg".into(), region: None }).unwrap_err();
    assert_eq!(e.message, "unknown screenshot format 'svg' (expected text or image)");
}

#[test]
fn tool_texts() {
    assert_eq!(run_message("s1", 100, 30), "session 's1' started (100x30)");
    let c = CursorInfo { x: 4, y: 0, visible: true, style: CursorStyle::Unknown };
    assert_eq!(cursor_text(&c), "(4, 0) visible");
    assert_eq!(kill_message("s1"), "killed 's1'");
    assert_eq!(resize_message(120, 40), "resized to 120x40");
    assert_eq!(no_observer_error().kind, ToolErrorKind::Internal);
    assert_eq!(viewer_error("boom").message, "failed to open viewer: boom");
    assert_eq!(png_content(&vec![0x89, b'P', b'N', b'G']), "iVBORw==");
    assert_eq!(png_content(&vec![]), "");
    assert_eq!(png_content(&vec![0x89, b'P']), "iVA=");
    assert_eq!(png_content(&b"Man".to_vec()), "TWFu");
    assert_eq!(png_content(&vec![0xfb, 0xff, 0xbf]), "+/+/");
}

#[test]
fn library_errors_for_agents() {
    let e = to_mcp_err(PhantomError::SessionNotFound("x".into()));
    assert_eq!((e.kind, e.message.as_str()), (ToolErrorKind::InvalidParams, "session 'x' not found"));
    let e = to_mcp_err(PhantomError::ProcessExited);
    assert_eq!(e.message, "process has already exited");
    let e = to_mcp_err(PhantomError::Engine { code: 7, message: "bad".into() });
    assert_eq!(e.message, "engine error (7): bad");
    let e = to_mcp_err(PhantomError::EngineTimeout);
    assert_eq!((e.kind, e.message.as_str()), (ToolErrorKind::Internal, "engine did not respond"));
    let e = to_mcp_err(PhantomError::Internal("oops".into()));
    assert_eq!(e.message, "internal: oops");
}

#[test]
fn run_session_spec() {
    let args = RunArgs {
        command: "bash".into(),
        args: vec!["--norc".into()],
        name: Some("b".into()),
        cols: 100,
        rows: 30,
        cwd: None,
        env: vec!["X=1".into(), "broken".into()],
    };
    let s = run_spec(&args);
    assert_eq!(s.command, "bash");
    assert_eq!(s.args, vec!["--norc"]);
    assert_eq!(s.name, Some("b".to_string()));
    assert_eq!((s.cols, s.rows, s.scrollback), (100, 30, 1000));
    assert_eq!(
        s.env,
        vec![
            ("LANG".to_string(), "C".to_string()),
            ("LC_ALL".to_string(), "C".to_string()),
            ("X".to_string(), "1".to_string())
        ]
    );
}
