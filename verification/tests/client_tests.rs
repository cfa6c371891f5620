use phantom::client::{
    key_action, keys_action, mouse_action, next_session_name, paste_action, type_text_action,
    type_text_slow_action, SessionSpec, WaitSpec,
};
use phantom::engine::EngineOp;
use phantom::error::{response_to_result, PhantomError};
use phantom::exit_codes;
use phantom::protocol::{Response, ResponseData};
use phantom::types::{InputAction, WaitCondition};

#[test]
fn session_spec_builder() {
    let s = SessionSpec::new("vim")
        .args(&vec!["-u".to_string(), "NONE".to_string()])
        .size(100, 40)
        .scrollback(50)
        .env("TERM", "xterm")
        .cwd("/tmp");
    assert_eq!(s.args, vec!["-u", "NONE"]);
    assert_eq!((s.cols, s.rows, s.scrollback), (100, 40, 50));
    assert_eq!(s.env.len(), 3);
    assert_eq!(s.env[2], ("TERM".to_string(), "xterm".to_string()));
    match s.create_op(next_session_name(7)) {
        EngineOp::CreateSession { name, command, cwd, .. } => {
            assert_eq!(name, "session-7");
            assert_eq!(command, "vim");
            assert_eq!(cwd, Some("/tmp".to_string()));
        }
        other => panic!("unexpected {other:?}"),
    }
    let named = SessionSpec::new("ls").name("mine").cols(10).rows(5);
    assert_eq!((named.cols, named.rows), (10, 5));
    match named.create_op("fallback".to_string()) {
        EngineOp::CreateSession { name, .. } => assert_eq!(name, "mine"),
        other => panic!("unexpected {other:?}"),
    }
}

#[test]
fn input_actions() {
    assert!(matches!(type_text_action("a"), InputAction::Type { delay_ms: None, .. }));
    assert!(matches!(type_text_slow_action("a", 5), InputAction::Type { delay_ms: Some(5), .. }));
    assert!(matches!(key_action("f1"), InputAction::Key { ref keys } if keys == &vec!["f1".to_string()]));
    assert!(matches!(keys_action(&vec!["a".into(), "b".into()]), InputAction::Key { ref keys } if keys.len() == 2));
    assert!(matches!(paste_action("p"), InputAction::Paste { .. }));
    assert!(matches!(mouse_action("move:1,1"), InputAction::Mouse { .. }));
}

#[test]
fn wait_spec_builder() {
    let w = WaitSpec::new(10_000)
        .text("a")
        .text_absent("b")
        .regex("c+")
        .stable(300)
        .exit_code(1)
        .process_exit()
        .cursor_at(1, 2)
        .cursor_visible()
        .cursor_hidden()
        .screen_changed()
        .timeout_ms(500)
        .poll_ms(20);
    assert_eq!(w.conditions.len(), 10);
    assert!(matches!(w.conditions[4], WaitCondition::ProcessExited { exit_code: Some(1) }));
    assert!(matches!(w.conditions[8], WaitCondition::CursorVisible(false)));
    match w.until_op("s".to_string()) {
        EngineOp::Wait { session, timeout_ms, poll_ms, conditions } => {
            assert_eq!((session.as_str(), timeout_ms, poll_ms, conditions.len()), ("s", 500, 20, 10));
        }
        other => panic!("unexpected {other:?}"),
    }
}

#[test]
fn responses_become_results() {
    assert!(matches!(
        response_to_result(Response::ok_with(ResponseData::Text("t".into()))),
        Ok(Some(ResponseData::Text(_)))
    ));
    assert!(matches!(
        response_to_result(Response::session_not_found("x")),
        Err(PhantomError::SessionNotFound(ref m)) if m == "No session named 'x'"
    ));
    assert!(matches!(
        response_to_result(Response::error(exit_codes::WAIT_TIMEOUT, "t".into())),
        Err(PhantomError::WaitTimeout)
    ));
    assert!(matches!(
        response_to_result(Response::error(exit_codes::PROCESS_EXITED, "t".into())),
        Err(PhantomError::ProcessExited)
    ));
    assert!(matches!(
        response_to_result(Response::error(exit_codes::SESSION_COLLISION, "dup".into())),
        Err(PhantomError::SessionCollision(ref m)) if m == "dup"
    ));
    assert!(matches!(
        response_to_result(Response::error(42, "other".into())),
        Err(PhantomError::Engine { code: 42, ref message }) if message == "other"
    ));
    assert_eq!(PhantomError::Engine { code: -3, message: "m".into() }.message(), "engine error (-3): m");
    assert_eq!(PhantomError::SessionCollision("a".into()).message(), "session 'a' already exists");
    assert_eq!(PhantomError::EngineStartFailed("x".into()).message(), "engine failed to start: x");
}
