use phantom::report::{
    cell_lines, cursor_line, session_list_lines, session_started_line, status_exit_code,
    status_lines,
};
use phantom::types::{CellData, CursorInfo, CursorStyle, SessionInfo, SessionStatus};

fn info(name: &str, status: SessionStatus) -> SessionInfo {
    SessionInfo {
        name: name.to_string(),
        pid: 123,
        cols: 80,
        rows: 24,
        title: None,
        pwd: None,
        status,
    }
}

#[test]
fn session_lines() {
    assert_eq!(
        session_started_line(&info("s", SessionStatus::Running)),
        "Session 's' started (PID 123, 80x24)"
    );
    let mut i = info("s", SessionStatus::Exited { code: Some(1) });
    i.title = Some("vim".to_string());
    i.pwd = Some("/tmp".to_string());
    assert_eq!(
        status_lines(&i),
        vec!["s: exited (code 1) (PID 123, 80x24)", "  title: vim", "  pwd: /tmp"]
    );
    assert_eq!(status_exit_code(&i), Some(5));
    let i = info("t", SessionStatus::Exited { code: None });
    assert_eq!(status_lines(&i), vec!["t: exited (PID 123, 80x24)"]);
    assert_eq!(status_exit_code(&info("r", SessionStatus::Running)), None);
    assert_eq!(session_list_lines(&vec![]), vec!["No active sessions"]);
    assert_eq!(
        session_list_lines(&vec![info("a", SessionStatus::Running), info("b", SessionStatus::Exited { code: Some(0) })]),
        vec!["  a (PID 123, 80x24, running)", "  b (PID 123, 80x24, exited)"]
    );
}

#[test]
fn cursor_and_cell_lines() {
    let c = CursorInfo { x: 3, y: 9, visible: false, style: CursorStyle::Bar };
    assert_eq!(cursor_line(&c), "cursor: (3, 9) hidden Bar");
    let cell = CellData {
        grapheme: "\"a".to_string(),
        fg: Some("#ff0000".to_string()),
        bg: None,
        bold: true,
        italic: false,
        underline: true,
        strikethrough: false,
        inverse: false,
        faint: true,
    };
    assert_eq!(
        cell_lines(1, 2, &cell),
        vec!["(1, 2): \"\\\"a\"", "  fg: #ff0000", "  attrs: bold, underline, faint"]
    );
    let plain = CellData { grapheme: " ".to_string(), fg: None, bg: None, bold: false, italic: false, underline: false, strikethrough: false, inverse: false, faint: false };
    assert_eq!(cell_lines(0, 0, &plain), vec!["(0, 0): \" \""]);
}
