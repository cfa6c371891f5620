use phantom::tmux::{shell_escape, tmux_args, viewer_command, viewer_opened_message, SplitMode};

#[test]
fn shell_escape_simple() {
    assert_eq!(shell_escape("simple"), "simple");
    assert_eq!(shell_escape("/usr/bin/phantom"), "/usr/bin/phantom");
    assert_eq!(shell_escape("session-1"), "session-1");
}

#[test]
fn shell_escape_special_chars() {
    assert_eq!(shell_escape("with space"), "'with space'");
    assert_eq!(shell_escape("a$b"), "'a$b'");
    assert_eq!(shell_escape("a'b"), "'a'\\''b'");
    assert_eq!(shell_escape(""), "''");
}

#[test]
fn split_mode_from_env_default() {
    assert!(matches!(SplitMode::from_setting(""), SplitMode::Horizontal));
}

#[test]
fn split_mode_names() {
    assert!(matches!(SplitMode::from_setting("vertical"), SplitMode::Vertical));
    assert!(matches!(SplitMode::from_setting("V"), SplitMode::Vertical));
    assert!(matches!(SplitMode::from_setting("POPUP"), SplitMode::Popup));
    assert!(matches!(SplitMode::from_setting("p"), SplitMode::Popup));
    assert!(matches!(SplitMode::from_setting("sideways"), SplitMode::Horizontal));
}

#[test]
fn viewer_command_escapes_each_value() {
    assert_eq!(
        viewer_command("/usr/bin/phantom", "my session", "/tmp/x.sock"),
        "/usr/bin/phantom monitor -s 'my session' --socket /tmp/x.sock"
    );
}

#[test]
fn tmux_args_for_each_mode() {
    let (args, desc) = tmux_args(SplitMode::Horizontal, "inner", Some("%3"), "s1");
    assert_eq!(args, vec!["split-window", "-h", "-d", "-t", "%3", "inner"]);
    assert_eq!(desc, "horizontal split pane");
    let (args, desc) = tmux_args(SplitMode::Vertical, "inner", None, "s1");
    assert_eq!(args, vec!["split-window", "-v", "-d", "inner"]);
    assert_eq!(desc, "vertical split pane");
    let (args, desc) = tmux_args(SplitMode::Popup, "inner", None, "s1");
    assert_eq!(
        args,
        vec!["display-popup", "-E", "-w", "90%", "-h", "90%", "-T", "phantom: s1", "inner"]
    );
    assert_eq!(desc, "popup");
    assert_eq!(
        viewer_opened_message("popup", "s1"),
        "opened popup for session 's1'"
    );
}

/// Removes quotes the way a POSIX shell does for one word.
fn unquote(word: &str) -> String {
    let mut out = String::new();
    let mut quoted = false;
    let mut escaped = false;
    for c in word.chars() {
        if escaped {
            out.push(c);
            escaped = false;
        } else if quoted {
            if c == '\'' {
                quoted = false;
            } else {
                out.push(c);
            }
        } else if c == '\'' {
            quoted = true;
        } else if c == '\\' {
            escaped = true;
        } else {
            out.push(c);
        }
    }
    assert!(!quoted && !escaped);
    out
}

#[test]
fn escaped_words_read_back() {
    for s in ["", "plain", "it's", "''", "a b\tc", "$(rm -rf /)", "\\'\\", "ünï"] {
        assert_eq!(unquote(&shell_escape(s)), s);
    }
}
