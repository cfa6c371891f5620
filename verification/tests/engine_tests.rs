use phantom::engine::{child_environment, exit_code_of, ChildStatus};
use phantom::engine::{
    chosen_signal, collision_response, created_session_info, cursor_info, dispatch_request,
    engine_timeout_response, failure_response, invalid_request_response, kill_signal,
    scrollback_response, session_info, Dispatch, EngineOp, OpFailure, Registry, SIGTERM,
};
use phantom::exit_codes;
use phantom::protocol::{Request, Response, ResponseData};
use phantom::types::{CursorStyle, ScreenFormat, SessionStatus};

fn error_of(r: Response) -> (i32, String) {
    match r {
        Response::Error { code, message } => (code, message),
        other => panic!("expected an error, got {other:?}"),
    }
}

#[test]
fn requests_become_operations() {
    match dispatch_request(Request::GetScrollback {
        session: "s".to_string(),
        lines: Some(3),
        format: ScreenFormat::Json,
    }) {
        Dispatch::Forward(EngineOp::GetScrollback { session, lines }) => {
            assert_eq!(session, "s");
            assert_eq!(lines, Some(3));
        }
        other => panic!("unexpected {other:?}"),
    }
    match dispatch_request(Request::Screenshot {
        session: "s".to_string(),
        format: ScreenFormat::Text,
        region: Some((1, 2, 3, 4)),
    }) {
        Dispatch::Forward(EngineOp::Screenshot { region, .. }) => assert_eq!(region, Some((1, 2, 3, 4))),
        other => panic!("unexpected {other:?}"),
    }
    assert!(matches!(dispatch_request(Request::Shutdown), Dispatch::Shutdown));
    assert!(matches!(
        dispatch_request(Request::ListSessions),
        Dispatch::Forward(EngineOp::ListSessions)
    ));
}

#[test]
fn registry_finds_sessions_by_name_and_token() {
    let mut reg: Registry<u32> = Registry::new();
    assert_eq!(reg.next_token(), 1000);
    let t1 = reg.insert("a".to_string(), 10);
    let t2 = reg.insert("b".to_string(), 20);
    assert_eq!((t1, t2), (1000, 1001));
    assert_eq!(reg.len(), 2);
    assert_eq!(reg.find("b"), Some(1));
    assert_eq!(reg.find("c"), None);
    assert!(reg.contains("a"));
    assert!(!reg.contains("A"));
    assert_eq!(reg.name_for_token(1001), Some("b"));
    assert_eq!(reg.name_for_token(5), None);
    *reg.get_mut(0) = 11;
    assert_eq!(*reg.get(0), 11);
    assert_eq!(*reg.get(1), 20);
    assert!(reg.refuse_new("c").is_none());
    assert_eq!(
        error_of(reg.refuse_new("a").unwrap()),
        (exit_codes::SESSION_COLLISION, "Session 'a' already exists".to_string())
    );
}

#[test]
fn engine_answers() {
    assert_eq!(
        error_of(collision_response("x")),
        (exit_codes::SESSION_COLLISION, "Session 'x' already exists".to_string())
    );
    assert_eq!(error_of(engine_timeout_response()), (exit_codes::ERROR, "Engine timeout".to_string()));
    assert_eq!(
        error_of(invalid_request_response("bad json")),
        (exit_codes::ERROR, "Invalid request: bad json".to_string())
    );
    assert_eq!(
        error_of(failure_response(OpFailure::Input, "Unknown key: x")),
        (exit_codes::ERROR, "Input error: Unknown key: x".to_string())
    );
    assert_eq!(
        error_of(failure_response(OpFailure::Create, "no such file")).1,
        "Failed to create session: no such file"
    );
    match scrollback_response(&vec!["one".to_string(), "two".to_string()]) {
        Response::Success { data: Some(ResponseData::Text(t)) } => assert_eq!(t, "one\ntwo"),
        other => panic!("unexpected {other:?}"),
    }
}

#[test]
fn session_reports() {
    let info = created_session_info("s".to_string(), 99, 80, 24);
    assert_eq!(info.status, SessionStatus::Running);
    assert_eq!(info.title, None);
    let info = session_info("s".to_string(), 99, 80, 24, Some("t".to_string()), None, Some(3));
    assert_eq!(info.status, SessionStatus::Exited { code: Some(3) });
    assert_eq!(info.title, Some("t".to_string()));
    let c = cursor_info(None, Some(4), None);
    assert_eq!((c.x, c.y, c.visible), (0, 4, true));
    assert_eq!(c.style, CursorStyle::Unknown);
}

#[test]
fn kill_signals() {
    assert_eq!(kill_signal(None), SIGTERM);
    assert_eq!(kill_signal(Some(9)), 9);
    assert_eq!(kill_signal(Some(-4)), SIGTERM);
    assert_eq!(chosen_signal(Some(2), true), 2);
    assert_eq!(chosen_signal(Some(2), false), SIGTERM);
}

#[test]
fn child_process_details() {
    assert_eq!(exit_code_of(ChildStatus::Running), None);
    assert_eq!(exit_code_of(ChildStatus::Exited(3)), Some(3));
    assert_eq!(exit_code_of(ChildStatus::Signaled(9)), Some(137));
    let env = child_environment(&vec![("LANG".to_string(), "C".to_string())]);
    assert_eq!(
        env,
        vec![
            ("TERM".to_string(), "xterm-256color".to_string()),
            ("LANG".to_string(), "C".to_string())
        ]
    );
}
