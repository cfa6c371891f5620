//! What the embedded test library asks of the engine: the session to
//! create, the input to send and the wait to register.

use vstd::prelude::*;
use vstd::string::*;
use crate::engine::EngineOp;
use crate::pattern::{regex_compiles, Pattern};
use crate::text::{dec, push_dec};
use crate::types::{InputAction, WaitCondition};

verus! {

/// How long a wait lasts unless told otherwise, in milliseconds.
pub const DEFAULT_TIMEOUT_MS: u64 = 10_000;

/// How often a wait is checked unless told otherwise, in milliseconds.
pub const DEFAULT_POLL_MS: u64 = 50;

/// The name of the `n`-th session created without a name: `session-n`.
pub fn next_session_name(n: u64) -> (s: String)
    ensures
        s@ == "session-"@ + dec(n as nat),
{
    let mut s = String::from_str("session-");
    push_dec(&mut s, n);
    s
}

/// A session to be created: the command, its arguments and environment,
/// and the terminal's size and scrollback.
#[derive(Debug)]
pub struct SessionSpec {
    pub command: String,
    pub args: Vec<String>,
    pub name: Option<String>,
    pub cols: u16,
    pub rows: u16,
    pub scrollback: u32,
    pub env: Vec<(String, String)>,
    pub cwd: Option<String>,
}

/// The environment every session starts with: the C locale.
pub open spec fn default_env() -> Seq<(Seq<char>, Seq<char>)> {
    seq![("LANG"@, "C"@), ("LC_ALL"@, "C"@)]
}

/// An environment as plain values.
pub open spec fn env_view(env: Seq<(String, String)>) -> Seq<(Seq<char>, Seq<char>)> {
    env.map_values(|p: (String, String)| (p.0@, p.1@))
}

impl SessionSpec {
    /// A session running `command` in an 80x24 terminal with 1000 lines of
    /// scrollback and the C locale, with no arguments, name or directory.
    pub fn new(command: &str) -> (s: SessionSpec)
        ensures
            s.command@ == command@,
            s.args@.len() == 0,
            s.name is None,
            s.cols == 80,
            s.rows == 24,
            s.scrollback == 1000,
            env_view(s.env@) == default_env(),
            s.cwd is None,
    {
        let mut env: Vec<(String, String)> = Vec::new();
        env.push((String::from_str("LANG"), String::from_str("C")));
        env.push((String::from_str("LC_ALL"), String::from_str("C")));
        assert(env_view(env@) =~= default_env());
        SessionSpec {
            command: command.to_owned(),
            args: Vec::new(),
            name: None,
            cols: 80,
            rows: 24,
            scrollback: 1000,
            env,
            cwd: None,
        }
    }

    /// Sets the arguments.
    pub fn args(self, args: &Vec<String>) -> (s: SessionSpec)
        ensures
            s.args@.map_values(|a: String| a@) == args@.map_values(|a: String| a@),
            s.command == self.command,
            s.name == self.name,
            s.cols == self.cols,
            s.rows == self.rows,
            s.scrollback == self.scrollback,
            s.env == self.env,
            s.cwd == self.cwd,
    {
        let mut v: Vec<String> = Vec::new();
        let mut i: usize = 0;
        while i < args.len()
            invariant
                i <= args@.len(),
                v@.map_values(|a: String| a@) == args@.take(i as int).map_values(|a: String| a@),
            decreases args@.len() - i,
        {
            let ghost before = v@.map_values(|a: String| a@);
            v.push(args[i].as_str().to_owned());
            assert(v@.map_values(|a: String| a@) =~= before.push(args@[i as int]@));
            assert(args@.take(i + 1).map_values(|a: String| a@) =~= args@.take(i as int).map_values(
                |a: String| a@,
            ).push(args@[i as int]@));
            i = i + 1;
        }
        assert(args@.take(args@.len() as int) =~= args@);
        SessionSpec { args: v, ..self }
    }

    /// Sets the session name.
    pub fn name(self, name: &str) -> (s: SessionSpec)
        ensures
            s.name matches Some(n) && n@ == name@,
            s.command == self.command,
            s.args == self.args,
            s.cols == self.cols,
            s.rows == self.rows,
            s.scrollback == self.scrollback,
            s.env == self.env,
            s.cwd == self.cwd,
    {
        SessionSpec { name: Some(name.to_owned()), ..self }
    }

    /// Sets the column count.
    pub fn cols(self, cols: u16) -> (s: SessionSpec)
        ensures
            s == (SessionSpec { cols, ..self }),
    {
        SessionSpec { cols, ..self }
    }

    /// Sets the row count.
    pub fn rows(self, rows: u16) -> (s: SessionSpec)
        ensures
            s == (SessionSpec { rows, ..self }),
    {
        SessionSpec { rows, ..self }
    }

    /// Sets both dimensions.
    pub fn size(self, cols: u16, rows: u16) -> (s: SessionSpec)
        ensures
            s == (SessionSpec { cols, rows, ..self }),
    {
        SessionSpec { cols, rows, ..self }
    }

    /// Sets the scrollback length.
    pub fn scrollback(self, lines: u32) -> (s: SessionSpec)
        ensures
            s == (SessionSpec { scrollback: lines, ..self }),
    {
        SessionSpec { scrollback: lines, ..self }
    }

    /// Adds an environment variable after those already set.
    pub fn env(self, key: &str, value: &str) -> (s: SessionSpec)
        ensures
            env_view(s.env@) == env_view(self.env@).push((key@, value@)),
            s.command == self.command,
            s.args == self.args,
            s.name == self.name,
            s.cols == self.cols,
            s.rows == self.rows,
            s.scrollback == self.scrollback,
            s.cwd == self.cwd,
    {
        let mut env = self.env;
        let ghost before = env_view(env@);
        env.push((key.to_owned(), value.to_owned()));
        assert(env_view(env@) =~= before.push((key@, value@)));
        SessionSpec { env, ..self }
    }

    /// Sets the working directory.
    pub fn cwd(self, path: &str) -> (s: SessionSpec)
        ensures
            s.cwd matches Some(c) && c@ == path@,
            s.command == self.command,
            s.args == self.args,
            s.name == self.name,
            s.cols == self.cols,
            s.rows == self.rows,
            s.scrollback == self.scrollback,
            s.env == self.env,
    {
        SessionSpec { cwd: Some(path.to_owned()), ..self }
    }

    /// The name the session gets: the one set, else `fallback`.
    pub open spec fn spec_name_or(self, fallback: String) -> String {
        match self.name {
            Some(n) => n,
            None => fallback,
        }
    }

    /// The creation request, under the name set or else `fallback`.
    pub fn create_op(self, fallback: String) -> (op: EngineOp)
        ensures
            op == (EngineOp::CreateSession {
                name: self.spec_name_or(fallback),
                command: self.command,
                args: self.args,
                env: self.env,
                cwd: self.cwd,
                cols: self.cols,
                rows: self.rows,
                scrollback: self.scrollback,
            }),
    {
        let name = match self.name {
            Some(n) => n,
            None => fallback,
        };
        EngineOp::CreateSession {
            name,
            command: self.command,
            args: self.args,
            env: self.env,
            cwd: self.cwd,
            cols: self.cols,
            rows: self.rows,
            scrollback: self.scrollback,
        }
    }
}

/// Typed text, without a delay.
pub fn type_text_action(text: &str) -> (a: InputAction)
    ensures
        a matches InputAction::Type { text: t, delay_ms } && t@ == text@ && delay_ms is None,
{
    InputAction::Type { text: text.to_owned(), delay_ms: None }
}

/// Typed text with a delay after each character.
pub fn type_text_slow_action(text: &str, delay_ms: u64) -> (a: InputAction)
    ensures
        a matches InputAction::Type { text: t, delay_ms: d } && t@ == text@ && d == Some(delay_ms),
{
    InputAction::Type { text: text.to_owned(), delay_ms: Some(delay_ms) }
}

/// One key.
pub fn key_action(key: &str) -> (a: InputAction)
    ensures
        a matches InputAction::Key { keys } && keys@.len() == 1 && keys@[0]@ == key@,
{
    let mut keys: Vec<String> = Vec::new();
    keys.push(key.to_owned());
    InputAction::Key { keys }
}

/// Several keys, in order.
pub fn keys_action(keys: &Vec<String>) -> (a: InputAction)
    ensures
        a matches InputAction::Key { keys: ks } && ks@.map_values(|k: String| k@)
            == keys@.map_values(|k: String| k@),
{
    let mut ks: Vec<String> = Vec::new();
    let mut i: usize = 0;
    while i < keys.len()
        invariant
            i <= keys@.len(),
            ks@.map_values(|k: String| k@) == keys@.take(i as int).map_values(|k: String| k@),
        decreases keys@.len() - i,
    {
        let ghost before = ks@.map_values(|k: String| k@);
        ks.push(keys[i].as_str().to_owned());
        assert(ks@.map_values(|k: String| k@) =~= before.push(keys@[i as int]@));
        assert(keys@.take(i + 1).map_values(|k: String| k@) =~= keys@.take(i as int).map_values(
            |k: String| k@,
        ).push(keys@[i as int]@));
        i = i + 1;
    }
    assert(keys@.take(keys@.len() as int) =~= keys@);
    InputAction::Key { keys: ks }
}

/// A bracketed paste.
pub fn paste_action(text: &str) -> (a: InputAction)
    ensures
        a matches InputAction::Paste { text: t } && t@ == text@,
{
    InputAction::Paste { text: text.to_owned() }
}

/// A mouse event spec.
pub fn mouse_action(spec: &str) -> (a: InputAction)
    ensures
        a matches InputAction::Mouse { spec: s } && s@ == spec@,
{
    InputAction::Mouse { spec: spec.to_owned() }
}

/// A wait to register: its conditions (all must hold), how long it may
/// last and how often it is checked.
#[derive(Debug)]
pub struct WaitSpec {
    pub conditions: Vec<WaitCondition>,
    pub timeout_ms: u64,
    pub poll_ms: u64,
}

impl WaitSpec {
    /// A wait without conditions yet, with this timeout and the default poll
    /// interval.
    pub fn new(timeout_ms: u64) -> (w: WaitSpec)
        ensures
            w.conditions@.len() == 0,
            w.timeout_ms == timeout_ms,
            w.poll_ms == DEFAULT_POLL_MS,
    {
        WaitSpec { conditions: Vec::new(), timeout_ms, poll_ms: DEFAULT_POLL_MS }
    }

    /// Adds a condition after those already there.
    pub fn with(self, c: WaitCondition) -> (w: WaitSpec)
        ensures
            w.conditions@ == self.conditions@.push(c),
            w.timeout_ms == self.timeout_ms,
            w.poll_ms == self.poll_ms,
    {
        let mut conditions = self.conditions;
        conditions.push(c);
        WaitSpec { conditions, ..self }
    }

    /// Waits for text to appear.
    pub fn text(self, text: &str) -> (w: WaitSpec)
        ensures
            w.conditions@.len() == self.conditions@.len() + 1,
            w.conditions@.drop_last() == self.conditions@,
            w.conditions@.last() matches WaitCondition::TextPresent(t) && t@ == text@,
            w.timeout_ms == self.timeout_ms,
            w.poll_ms == self.poll_ms,
    {
        let w = self.with(WaitCondition::TextPresent(text.to_owned()));
        assert(w.conditions@.drop_last() =~= self.conditions@);
        w
    }

    /// Waits for text to disappear.
    pub fn text_absent(self, text: &str) -> (w: WaitSpec)
        ensures
            w.conditions@.len() == self.conditions@.len() + 1,
            w.conditions@.drop_last() == self.conditions@,
            w.conditions@.last() matches WaitCondition::TextAbsent(t) && t@ == text@,
            w.timeout_ms == self.timeout_ms,
            w.poll_ms == self.poll_ms,
    {
        let w = self.with(WaitCondition::TextAbsent(text.to_owned()));
        assert(w.conditions@.drop_last() =~= self.conditions@);
        w
    }

    /// Waits for a pattern to match; the pattern must compile.
    pub fn regex(self, pattern: &str) -> (w: WaitSpec)
        requires
            regex_compiles(pattern@),
        ensures
            w.conditions@.len() == self.conditions@.len() + 1,
            w.conditions@.drop_last() == self.conditions@,
            w.conditions@.last() matches WaitCondition::Regex(p) && p.source() == pattern@,
            w.timeout_ms == self.timeout_ms,
            w.poll_ms == self.poll_ms,
    {
        match Pattern::new(pattern) {
            Ok(p) => {
                let w = self.with(WaitCondition::Regex(p));
                assert(w.conditions@.drop_last() =~= self.conditions@);
                w
            },
            Err(_) => {
                assert(false);
                self
            },
        }
    }

    /// Waits for the screen to stay unchanged this long.
    pub fn stable(self, duration_ms: u64) -> (w: WaitSpec)
        ensures
            w.conditions@ == self.conditions@.push(WaitCondition::ScreenStable { duration_ms }),
            w.timeout_ms == self.timeout_ms,
            w.poll_ms == self.poll_ms,
    {
        self.with(WaitCondition::ScreenStable { duration_ms })
    }

    /// Waits for the process to exit, with any code.
    pub fn process_exit(self) -> (w: WaitSpec)
        ensures
            w.conditions@ == self.conditions@.push(WaitCondition::ProcessExited { exit_code: None }),
            w.timeout_ms == self.timeout_ms,
            w.poll_ms == self.poll_ms,
    {
        self.with(WaitCondition::ProcessExited { exit_code: None })
    }

    /// Waits for the process to exit with this code.
    pub fn exit_code(self, code: i32) -> (w: WaitSpec)
        ensures
            w.conditions@ == self.conditions@.push(
                WaitCondition::ProcessExited { exit_code: Some(code) },
            ),
            w.timeout_ms == self.timeout_ms,
            w.poll_ms == self.poll_ms,
    {
        self.with(WaitCondition::ProcessExited { exit_code: Some(code) })
    }

    /// Waits for the cursor to reach a position.
    pub fn cursor_at(self, x: u16, y: u16) -> (w: WaitSpec)
        ensures
            w.conditions@ == self.conditions@.push(WaitCondition::CursorAt { x, y }),
            w.timeout_ms == self.timeout_ms,
            w.poll_ms == self.poll_ms,
    {
        self.with(WaitCondition::CursorAt { x, y })
    }

    /// Waits for the cursor to show.
    pub fn cursor_visible(self) -> (w: WaitSpec)
        ensures
            w.conditions@ == self.conditions@.push(WaitCondition::CursorVisible(true)),
            w.timeout_ms == self.timeout_ms,
            w.poll_ms == self.poll_ms,
    {
        self.with(WaitCondition::CursorVisible(true))
    }

    /// Waits for the cursor to hide.
    pub fn cursor_hidden(self) -> (w: WaitSpec)
        ensures
            w.conditions@ == self.conditions@.push(WaitCondition::CursorVisible(false)),
            w.timeout_ms == self.timeout_ms,
            w.poll_ms == self.poll_ms,
    {
        self.with(WaitCondition::CursorVisible(false))
    }

    /// Waits for the screen to change.
    pub fn screen_changed(self) -> (w: WaitSpec)
        ensures
            w.conditions@ == self.conditions@.push(WaitCondition::ScreenChanged),
            w.timeout_ms == self.timeout_ms,
            w.poll_ms == self.poll_ms,
    {
        self.with(WaitCondition::ScreenChanged)
    }

    /// Sets the timeout.
    pub fn timeout_ms(self, ms: u64) -> (w: WaitSpec)
        ensures
            w.conditions == self.conditions,
            w.timeout_ms == ms,
            w.poll_ms == self.poll_ms,
    {
        WaitSpec { timeout_ms: ms, ..self }
    }

    /// Sets the poll interval.
    pub fn poll_ms(self, ms: u64) -> (w: WaitSpec)
        ensures
            w.conditions == self.conditions,
            w.timeout_ms == self.timeout_ms,
            w.poll_ms == ms,
    {
        WaitSpec { poll_ms: ms, ..self }
    }

    /// The wait request for a session; a wait needs at least one condition.
    pub fn until_op(self, session: String) -> (op: EngineOp)
        requires
            self.conditions@.len() > 0,
        ensures
            op == (EngineOp::Wait {
                session,
                conditions: self.conditions,
                timeout_ms: self.timeout_ms,
                poll_ms: self.poll_ms,
            }),
    {
        EngineOp::Wait {
            session,
            conditions: self.conditions,
            timeout_ms: self.timeout_ms,
            poll_ms: self.poll_ms,
        }
    }
}

} // verus!
