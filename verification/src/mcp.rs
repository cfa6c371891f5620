//! The agent-facing tools: their arguments, the requests they make and the
//! texts and errors they answer with.

use vstd::prelude::*;
use vstd::string::*;
use crate::client::{
    key_action, mouse_action, paste_action, type_text_action, SessionSpec, WaitSpec,
};
use crate::error::PhantomError;
use crate::pattern::{regex_compiles, regex_error_text, Pattern};
use crate::text::{chars_of, dec, dec_int, eq_str, push_dec, push_dec_i32, split_once_chars, string_of};
use crate::types::{CursorInfo, InputAction, WaitCondition};

verus! {

/// The default terminal width.
pub fn default_cols() -> (c: u16)
    ensures
        c == 80,
{
    80
}

/// The default terminal height.
pub fn default_rows() -> (r: u16)
    ensures
        r == 24,
{
    24
}

/// The default wait timeout, in milliseconds.
pub fn default_timeout_ms() -> (t: u64)
    ensures
        t == 10_000,
{
    10_000
}

/// The default screenshot format.
pub fn default_screenshot_format() -> (s: String)
    ensures
        s@ == "text"@,
{
    String::from_str("text")
}

/// Arguments of `phantom_run`.
#[derive(Debug)]
pub struct RunArgs {
    /// The command to run.
    pub command: String,
    /// Its arguments.
    pub args: Vec<String>,
    /// The session name; generated when absent.
    pub name: Option<String>,
    /// Terminal column count.
    pub cols: u16,
    /// Terminal row count.
    pub rows: u16,
    /// Working directory.
    pub cwd: Option<String>,
    /// Environment variables as `KEY=VALUE`.
    pub env: Vec<String>,
}

/// Arguments naming a session.
#[derive(Debug)]
pub struct SessionArgs {
    pub session: String,
}

/// Arguments of `phantom_send`.
#[derive(Debug)]
pub struct SendArgs {
    pub session: String,
    /// One of `text`, `key`, `paste`, `mouse`.
    pub kind: String,
    /// The text, key spec or mouse spec.
    pub value: String,
}

/// A cursor position.
#[derive(Debug, Clone, Copy, PartialEq, Eq, Structural)]
pub struct CursorPos {
    pub x: u16,
    pub y: u16,
}

/// Arguments of `phantom_wait`.
#[derive(Debug)]
pub struct WaitArgs {
    pub session: String,
    pub text: Option<String>,
    pub text_absent: Option<String>,
    pub regex: Option<String>,
    pub stable_ms: Option<u64>,
    pub process_exit: Option<bool>,
    pub exit_code: Option<i32>,
    pub cursor_at: Option<CursorPos>,
    pub cursor_visible: Option<bool>,
    pub screen_changed: Option<bool>,
    pub timeout_ms: u64,
}

/// A screen rectangle, 0-indexed and inclusive.
#[derive(Debug, Clone, Copy, PartialEq, Eq, Structural)]
pub struct Region {
    pub top: u16,
    pub left: u16,
    pub bottom: u16,
    pub right: u16,
}

/// Arguments of `phantom_screenshot`.
#[derive(Debug)]
pub struct ScreenshotArgs {
    pub session: String,
    /// `text` or `image`.
    pub format: String,
    pub region: Option<Region>,
}

/// Arguments of `phantom_cell`.
#[derive(Debug)]
pub struct CellArgs {
    pub session: String,
    pub x: u16,
    pub y: u16,
}

/// Arguments of `phantom_resize`.
#[derive(Debug)]
pub struct ResizeArgs {
    pub session: String,
    pub cols: u16,
    pub rows: u16,
}

/// Arguments of `phantom_show`.
#[derive(Debug)]
pub struct ShowArgs {
    pub session: String,
}

/// Whom a tool error blames.
#[derive(Debug, Clone, Copy, PartialEq, Eq, Structural)]
pub enum ToolErrorKind {
    /// The arguments (or the state they refer to) are wrong.
    InvalidParams,
    /// Something failed inside the server.
    Internal,
}

/// An error a tool answers with.
#[derive(Debug)]
pub struct ToolError {
    pub kind: ToolErrorKind,
    pub message: String,
}

/// The error for a session name the server does not know.
pub fn no_session_error(name: &str) -> (e: ToolError)
    ensures
        e.kind == ToolErrorKind::InvalidParams,
        e.message@ == "no session named '"@ + name@ + "'"@,
{
    let mut m = String::from_str("no session named '");
    m.append(name);
    m.append("'");
    ToolError { kind: ToolErrorKind::InvalidParams, message: m }
}

/// The tool error for a library error, with its kind and message.
pub open spec fn spec_tool_error(e: PhantomError) -> (ToolErrorKind, Seq<char>) {
    match e {
        PhantomError::SessionNotFound(name) => (
            ToolErrorKind::InvalidParams,
            "session '"@ + name@ + "' not found"@,
        ),
        PhantomError::SessionCollision(name) => (
            ToolErrorKind::InvalidParams,
            "session '"@ + name@ + "' already exists"@,
        ),
        PhantomError::WaitTimeout => (ToolErrorKind::InvalidParams, "wait condition timed out"@),
        PhantomError::ProcessExited => (ToolErrorKind::InvalidParams, "process has already exited"@),
        PhantomError::Engine { code, message } => (
            ToolErrorKind::InvalidParams,
            "engine error ("@ + dec_int(code as int) + "): "@ + message@,
        ),
        PhantomError::EngineStartFailed(msg) => (
            ToolErrorKind::Internal,
            "engine start failed: "@ + msg@,
        ),
        PhantomError::EngineTimeout => (ToolErrorKind::Internal, "engine did not respond"@),
        PhantomError::Internal(m) => (ToolErrorKind::Internal, "internal: "@ + m@),
    }
}

/// Turns a library error into the tool error an agent sees.
pub fn to_mcp_err(e: PhantomError) -> (t: ToolError)
    ensures
        (t.kind, t.message@) == spec_tool_error(e),
{
    match e {
        PhantomError::SessionNotFound(name) => {
            let mut m = String::from_str("session '");
            m.append(name.as_str());
            m.append("' not found");
            ToolError { kind: ToolErrorKind::InvalidParams, message: m }
        },
        PhantomError::SessionCollision(name) => {
            let mut m = String::from_str("session '");
            m.append(name.as_str());
            m.append("' already exists");
            ToolError { kind: ToolErrorKind::InvalidParams, message: m }
        },
        PhantomError::WaitTimeout => ToolError {
            kind: ToolErrorKind::InvalidParams,
            message: String::from_str("wait condition timed out"),
        },
        PhantomError::ProcessExited => ToolError {
            kind: ToolErrorKind::InvalidParams,
            message: String::from_str("process has already exited"),
        },
        PhantomError::Engine { code, message } => {
            let mut m = String::from_str("engine error (");
            push_dec_i32(&mut m, code);
            m.append("): ");
            m.append(message.as_str());
            ToolError { kind: ToolErrorKind::InvalidParams, message: m }
        },
        PhantomError::EngineStartFailed(msg) => {
            let mut m = String::from_str("engine start failed: ");
            m.append(msg.as_str());
            ToolError { kind: ToolErrorKind::Internal, message: m }
        },
        PhantomError::EngineTimeout => ToolError {
            kind: ToolErrorKind::Internal,
            message: String::from_str("engine did not respond"),
        },
        PhantomError::Internal(msg) => {
            let mut m = String::from_str("internal: ");
            m.append(msg.as_str());
            ToolError { kind: ToolErrorKind::Internal, message: m }
        },
    }
}

/// The session that `phantom_run` creates: the command and arguments in a
/// terminal of the given size, with the name and directory when given, and
/// each `KEY=VALUE` entry (split at its first `=`) added to the
/// environment; entries without `=` are left out.
pub fn run_spec(args: &RunArgs) -> (s: SessionSpec)
    ensures
        s.command@ == args.command@,
        s.args@.map_values(|a: String| a@) == args.args@.map_values(|a: String| a@),
        s.cols == args.cols,
        s.rows == args.rows,
        s.scrollback == 1000,
        match args.name {
            Some(n) => s.name matches Some(m) && m@ == n@,
            None => s.name is None,
        },
        match args.cwd {
            Some(c) => s.cwd matches Some(d) && d@ == c@,
            None => s.cwd is None,
        },
        crate::client::env_view(s.env@) == crate::client::default_env() + crate::cli::env_pairs(
            args.env@.map_values(|e: String| e@),
        ),
{
    let mut spec = SessionSpec::new(args.command.as_str()).args(&args.args).size(args.cols, args.rows);
    match &args.name {
        Some(n) => {
            spec = spec.name(n.as_str());
        },
        None => {},
    }
    match &args.cwd {
        Some(c) => {
            spec = spec.cwd(c.as_str());
        },
        None => {},
    }
    let ghost views = args.env@.map_values(|e: String| e@);
    let mut i: usize = 0;
    assert(crate::cli::env_pairs(views.take(0)) =~= Seq::<(Seq<char>, Seq<char>)>::empty());
    assert(crate::client::default_env() + Seq::<(Seq<char>, Seq<char>)>::empty() =~= crate::client::default_env());
    while i < args.env.len()
        invariant
            i <= args.env@.len(),
            views == args.env@.map_values(|e: String| e@),
            spec.command@ == args.command@,
            spec.args@.map_values(|a: String| a@) == args.args@.map_values(|a: String| a@),
            spec.cols == args.cols,
            spec.rows == args.rows,
            spec.scrollback == 1000,
            match args.name {
                Some(n) => spec.name matches Some(m) && m@ == n@,
                None => spec.name is None,
            },
            match args.cwd {
                Some(c) => spec.cwd matches Some(d) && d@ == c@,
                None => spec.cwd is None,
            },
            crate::client::env_view(spec.env@) == crate::client::default_env()
                + crate::cli::env_pairs(views.take(i as int)),
        decreases args.env@.len() - i,
    {
        assert(views.take(i + 1).drop_last() =~= views.take(i as int));
        assert(views.take(i + 1).last() == args.env@[i as int]@);
        let cs = chars_of(args.env[i].as_str());
        match split_once_chars(cs.as_slice(), '=') {
            Some((k, v)) => {
                let ks = string_of(k.as_slice());
                let vs = string_of(v.as_slice());
                let ghost before = crate::client::env_view(spec.env@);
                spec = spec.env(ks.as_str(), vs.as_str());
                assert(crate::client::default_env() + crate::cli::env_pairs(views.take(i + 1))
                    =~= (crate::client::default_env() + crate::cli::env_pairs(views.take(i as int))).push((k@, v@)));
            },
            None => {},
        }
        i = i + 1;
    }
    assert(views.take(args.env@.len() as int) =~= views);
    spec
}

/// `session 'name' started (CxR)`.
pub fn run_message(name: &str, cols: u16, rows: u16) -> (s: String)
    ensures
        s@ == "session '"@ + name@ + "' started ("@ + dec(cols as nat) + "x"@ + dec(rows as nat)
            + ")"@,
{
    let mut s = String::from_str("session '");
    s.append(name);
    s.append("' started (");
    push_dec(&mut s, cols as u64);
    s.append("x");
    push_dec(&mut s, rows as u64);
    s.append(")");
    s
}

/// The input a `phantom_send` kind asks for.
pub fn send_input(kind: &str, value: &str) -> (r: Result<InputAction, ToolError>)
    ensures
        kind@ == "text"@ ==> (r matches Ok(InputAction::Type { text, delay_ms }) && text@ == value@
            && delay_ms is None),
        kind@ == "key"@ ==> (r matches Ok(InputAction::Key { keys }) && keys@.len() == 1
            && keys@[0]@ == value@),
        kind@ == "paste"@ ==> (r matches Ok(InputAction::Paste { text }) && text@ == value@),
        kind@ == "mouse"@ ==> (r matches Ok(InputAction::Mouse { spec }) && spec@ == value@),
        kind@ != "text"@ && kind@ != "key"@ && kind@ != "paste"@ && kind@ != "mouse"@ ==> (
        r matches Err(e) && e.kind == ToolErrorKind::InvalidParams && e.message@
            == "unknown send kind '"@ + kind@ + "' (expected text/key/paste/mouse)"@),
{
    let k = chars_of(kind);
    proof {
        reveal_strlit("text");
        reveal_strlit("key");
        reveal_strlit("paste");
        reveal_strlit("mouse");
    }
    assert("text"@.len() == 4 && "key"@.len() == 3 && "paste"@.len() == 5 && "mouse"@.len() == 5);
    assert("paste"@[0] == 'p' && "mouse"@[0] == 'm');
    if eq_str(k.as_slice(), "text") {
        Ok(type_text_action(value))
    } else if eq_str(k.as_slice(), "key") {
        Ok(key_action(value))
    } else if eq_str(k.as_slice(), "paste") {
        Ok(paste_action(value))
    } else if eq_str(k.as_slice(), "mouse") {
        Ok(mouse_action(value))
    } else {
        let mut m = String::from_str("unknown send kind '");
        m.append(kind);
        m.append("' (expected text/key/paste/mouse)");
        Err(ToolError { kind: ToolErrorKind::InvalidParams, message: m })
    }
}

/// A condition argument of `phantom_wait`.
#[derive(Debug, Clone, Copy, PartialEq, Eq, Structural)]
pub enum WaitArg {
    Text,
    TextAbsent,
    Regex,
    Stable,
    Exit,
    CursorAt,
    CursorVisible,
    Changed,
}

/// The condition arguments that are given, in the order the tool adds them:
/// text, text absent, regex, stable, exit (an exit code, or else a
/// `process_exit` of true), cursor position, cursor visibility, screen
/// changed (when true).
pub open spec fn wait_args_set(a: WaitArgs) -> Seq<WaitArg> {
    let s0 = Seq::<WaitArg>::empty();
    let s1 = if a.text is Some { s0.push(WaitArg::Text) } else { s0 };
    let s2 = if a.text_absent is Some { s1.push(WaitArg::TextAbsent) } else { s1 };
    let s3 = if a.regex is Some { s2.push(WaitArg::Regex) } else { s2 };
    let s4 = if a.stable_ms is Some { s3.push(WaitArg::Stable) } else { s3 };
    let s5 = if a.exit_code is Some || a.process_exit == Some(true) {
        s4.push(WaitArg::Exit)
    } else {
        s4
    };
    let s6 = if a.cursor_at is Some { s5.push(WaitArg::CursorAt) } else { s5 };
    let s7 = if a.cursor_visible is Some { s6.push(WaitArg::CursorVisible) } else { s6 };
    if a.screen_changed == Some(true) { s7.push(WaitArg::Changed) } else { s7 }
}

/// `c` is the condition that argument `k` of `a` asks for.
pub open spec fn condition_for_arg(c: WaitCondition, k: WaitArg, a: WaitArgs) -> bool {
    match k {
        WaitArg::Text => a.text matches Some(t) && c matches WaitCondition::TextPresent(x) && x@
            == t@,
        WaitArg::TextAbsent => a.text_absent matches Some(t) && c matches WaitCondition::TextAbsent(
            x,
        ) && x@ == t@,
        WaitArg::Regex => a.regex matches Some(p) && c matches WaitCondition::Regex(x)
            && x.source() == p@,
        WaitArg::Stable => a.stable_ms matches Some(ms) && c == WaitCondition::ScreenStable {
            duration_ms: ms,
        },
        WaitArg::Exit => c == WaitCondition::ProcessExited { exit_code: a.exit_code },
        WaitArg::CursorAt => a.cursor_at matches Some(p) && c == WaitCondition::CursorAt {
            x: p.x,
            y: p.y,
        },
        WaitArg::CursorVisible => a.cursor_visible matches Some(v) && c
            == WaitCondition::CursorVisible(v),
        WaitArg::Changed => c == WaitCondition::ScreenChanged,
    }
}

/// The conditions are, one for one and in order, those the arguments ask
/// for.
pub open spec fn conditions_for_args(conds: Seq<WaitCondition>, ks: Seq<WaitArg>, a: WaitArgs) -> bool {
    &&& conds.len() == ks.len()
    &&& forall|i: int| 0 <= i < conds.len() ==> #[trigger] condition_for_arg(conds[i], ks[i], a)
}

/// The message when `phantom_wait` gets no condition.
pub open spec fn no_condition_message() -> Seq<char> {
    "internal: phantom_wait requires at least one condition (text, text_absent, regex, stable_ms, process_exit, exit_code, cursor_at, cursor_visible, screen_changed)"@
}

proof fn lemma_args_push(conds: Seq<WaitCondition>, ks: Seq<WaitArg>, a: WaitArgs, c: WaitCondition, k: WaitArg)
    requires
        conditions_for_args(conds, ks, a),
        condition_for_arg(c, k, a),
    ensures
        conditions_for_args(conds.push(c), ks.push(k), a),
{
    assert forall|i: int| 0 <= i < conds.len() + 1 implies #[trigger] condition_for_arg(
        conds.push(c)[i],
        ks.push(k)[i],
        a,
    ) by {
        if i < conds.len() {
            assert(conds.push(c)[i] == conds[i]);
            assert(ks.push(k)[i] == ks[i]);
        }
    }
}

fn add_arg_condition(
    w: WaitSpec,
    Ghost(ks): Ghost<Seq<WaitArg>>,
    Ghost(a): Ghost<WaitArgs>,
    c: WaitCondition,
    Ghost(k): Ghost<WaitArg>,
) -> (r: WaitSpec)
    requires
        conditions_for_args(w.conditions@, ks, a),
        condition_for_arg(c, k, a),
    ensures
        conditions_for_args(r.conditions@, ks.push(k), a),
        r.timeout_ms == w.timeout_ms,
        r.poll_ms == w.poll_ms,
{
    proof { lemma_args_push(w.conditions@, ks, a, c, k); }
    w.with(c)
}

/// The wait `phantom_wait` registers: a regex that does not compile is
/// refused first; then the conditions the arguments ask for, in the tool's
/// order, with the given timeout and the default poll interval; no
/// condition at all is an internal error.
pub fn wait_spec(a: &WaitArgs) -> (r: Result<WaitSpec, ToolError>)
    ensures
        match a.regex {
            Some(p) if !regex_compiles(p@) => r matches Err(e) && e.kind
                == ToolErrorKind::InvalidParams && e.message@ == "invalid regex: "@
                + regex_error_text(p@),
            _ => if wait_args_set(*a).len() == 0 {
                r matches Err(e) && e.kind == ToolErrorKind::Internal && e.message@
                    == no_condition_message()
            } else {
                r matches Ok(w) && conditions_for_args(w.conditions@, wait_args_set(*a), *a)
                    && w.timeout_ms == a.timeout_ms && w.poll_ms == crate::client::DEFAULT_POLL_MS
            },
        },
{
    let mut w = WaitSpec::new(a.timeout_ms);
    let ghost mut ks: Seq<WaitArg> = Seq::empty();
    match &a.text {
        Some(t) => {
            w = add_arg_condition(w, Ghost(ks), Ghost(*a), WaitCondition::TextPresent(t.as_str().to_owned()), Ghost(WaitArg::Text));
            proof { ks = ks.push(WaitArg::Text); }
        },
        None => {},
    }
    match &a.text_absent {
        Some(t) => {
            w = add_arg_condition(w, Ghost(ks), Ghost(*a), WaitCondition::TextAbsent(t.as_str().to_owned()), Ghost(WaitArg::TextAbsent));
            proof { ks = ks.push(WaitArg::TextAbsent); }
        },
        None => {},
    }
    match &a.regex {
        Some(p) => match Pattern::new(p.as_str()) {
            Ok(_) => {
                let ghost before = w.conditions@;
                w = w.regex(p.as_str());
                proof {
                    assert(w.conditions@ =~= before.push(w.conditions@.last()));
                    lemma_args_push(before, ks, *a, w.conditions@.last(), WaitArg::Regex);
                    ks = ks.push(WaitArg::Regex);
                }
            },
            Err(e) => {
                let mut m = String::from_str("invalid regex: ");
                m.append(e.as_str());
                return Err(ToolError { kind: ToolErrorKind::InvalidParams, message: m });
            },
        },
        None => {},
    }
    match a.stable_ms {
        Some(ms) => {
            w = add_arg_condition(w, Ghost(ks), Ghost(*a), WaitCondition::ScreenStable { duration_ms: ms }, Ghost(WaitArg::Stable));
            proof { ks = ks.push(WaitArg::Stable); }
        },
        None => {},
    }
    let wants_exit = match a.exit_code {
        Some(_) => true,
        None => match a.process_exit {
            Some(b) => b,
            None => false,
        },
    };
    if wants_exit {
        w = add_arg_condition(w, Ghost(ks), Ghost(*a), WaitCondition::ProcessExited { exit_code: a.exit_code }, Ghost(WaitArg::Exit));
        proof { ks = ks.push(WaitArg::Exit); }
    }
    match a.cursor_at {
        Some(p) => {
            w = add_arg_condition(w, Ghost(ks), Ghost(*a), WaitCondition::CursorAt { x: p.x, y: p.y }, Ghost(WaitArg::CursorAt));
            proof { ks = ks.push(WaitArg::CursorAt); }
        },
        None => {},
    }
    match a.cursor_visible {
        Some(v) => {
            w = add_arg_condition(w, Ghost(ks), Ghost(*a), WaitCondition::CursorVisible(v), Ghost(WaitArg::CursorVisible));
            proof { ks = ks.push(WaitArg::CursorVisible); }
        },
        None => {},
    }
    let changed = match a.screen_changed {
        Some(b) => b,
        None => false,
    };
    if changed {
        w = add_arg_condition(w, Ghost(ks), Ghost(*a), WaitCondition::ScreenChanged, Ghost(WaitArg::Changed));
        proof { ks = ks.push(WaitArg::Changed); }
    }
    assert(ks == wait_args_set(*a));
    if w.conditions.len() == 0 {
        let m = String::from_str("internal: phantom_wait requires at least one condition (text, text_absent, regex, stable_ms, process_exit, exit_code, cursor_at, cursor_visible, screen_changed)");
        return Err(ToolError { kind: ToolErrorKind::Internal, message: m });
    }
    Ok(w)
}

/// How `phantom_screenshot` answers.
#[derive(Debug, Clone, Copy, PartialEq, Eq, Structural)]
pub enum ShotFormat {
    /// Plain text rows.
    Text,
    /// A PNG rendering.
    Image,
}

/// What a screenshot call captures: its format and region.
#[derive(Debug, Clone, Copy, PartialEq, Eq, Structural)]
pub struct ShotPlan {
    pub format: ShotFormat,
    pub region: Option<Region>,
}

/// The capture `phantom_screenshot` asks for: a region with top below
/// bottom or left right of right is refused first, then a format other
/// than `text` or `image`.
pub fn screenshot_plan(args: &ScreenshotArgs) -> (r: Result<ShotPlan, ToolError>)
    ensures
        match args.region {
            Some(g) if g.top > g.bottom || g.left > g.right => r matches Err(e) && e.kind
                == ToolErrorKind::InvalidParams && e.message@ == "invalid region: top="@ + dec(
                g.top as nat,
            ) + " left="@ + dec(g.left as nat) + " bottom="@ + dec(g.bottom as nat) + " right="@
                + dec(g.right as nat) + " (top<=bottom and left<=right required)"@,
            _ => {
                let region = args.region;
                if args.format@ == "text"@ {
                    r == Ok::<ShotPlan, ToolError>(ShotPlan { format: ShotFormat::Text, region })
                } else if args.format@ == "image"@ {
                    r == Ok::<ShotPlan, ToolError>(ShotPlan { format: ShotFormat::Image, region })
                } else {
                    r matches Err(e) && e.kind == ToolErrorKind::InvalidParams && e.message@
                        == "unknown screenshot format '"@ + args.format@
                        + "' (expected text or image)"@
                }
            },
        },
{
    match args.region {
        Some(g) => if g.top > g.bottom || g.left > g.right {
            let mut m = String::from_str("invalid region: top=");
            push_dec(&mut m, g.top as u64);
            m.append(" left=");
            push_dec(&mut m, g.left as u64);
            m.append(" bottom=");
            push_dec(&mut m, g.bottom as u64);
            m.append(" right=");
            push_dec(&mut m, g.right as u64);
            m.append(" (top<=bottom and left<=right required)");
            return Err(ToolError { kind: ToolErrorKind::InvalidParams, message: m });
        },
        None => {},
    }
    let region = args.region;
    let f = chars_of(args.format.as_str());
    if eq_str(f.as_slice(), "text") {
        Ok(ShotPlan { format: ShotFormat::Text, region })
    } else if eq_str(f.as_slice(), "image") {
        Ok(ShotPlan { format: ShotFormat::Image, region })
    } else {
        let mut m = String::from_str("unknown screenshot format '");
        m.append(args.format.as_str());
        m.append("' (expected text or image)");
        Err(ToolError { kind: ToolErrorKind::InvalidParams, message: m })
    }
}

/// `(x, y) visible|hidden`.
pub fn cursor_text(c: &CursorInfo) -> (s: String)
    ensures
        s@ == "("@ + dec(c.x as nat) + ", "@ + dec(c.y as nat) + ") "@ + (if c.visible {
            "visible"@
        } else {
            "hidden"@
        }),
{
    let mut s = String::from_str("(");
    push_dec(&mut s, c.x as u64);
    s.append(", ");
    push_dec(&mut s, c.y as u64);
    s.append(") ");
    if c.visible {
        s.append("visible");
    } else {
        s.append("hidden");
    }
    s
}

/// `killed 'name'`.
pub fn kill_message(name: &str) -> (s: String)
    ensures
        s@ == "killed '"@ + name@ + "'"@,
{
    let mut s = String::from_str("killed '");
    s.append(name);
    s.append("'");
    s
}

/// `resized to CxR`.
pub fn resize_message(cols: u16, rows: u16) -> (s: String)
    ensures
        s@ == "resized to "@ + dec(cols as nat) + "x"@ + dec(rows as nat),
{
    let mut s = String::from_str("resized to ");
    push_dec(&mut s, cols as u64);
    s.append("x");
    push_dec(&mut s, rows as u64);
    s
}

/// The answer of `phantom_show` outside tmux.
pub fn not_in_tmux_message() -> (s: String)
    ensures
        s@ == "skipped: not running inside tmux. The user can still see what you're doing by calling phantom_screenshot — text screenshots render inline in chat."@,
{
    String::from_str(
        "skipped: not running inside tmux. The user can still see what you're doing by calling phantom_screenshot — text screenshots render inline in chat.",
    )
}

/// The error of `phantom_show` when no observer socket is bound.
pub fn no_observer_error() -> (e: ToolError)
    ensures
        e.kind == ToolErrorKind::Internal,
        e.message@ == "no observer socket configured (phantom-mcp was started without one)"@,
{
    ToolError {
        kind: ToolErrorKind::Internal,
        message: String::from_str("no observer socket configured (phantom-mcp was started without one)"),
    }
}

/// The error of `phantom_show` when the viewer does not open.
pub fn viewer_error(detail: &str) -> (e: ToolError)
    ensures
        e.kind == ToolErrorKind::Internal,
        e.message@ == "failed to open viewer: "@ + detail@,
{
    let mut m = String::from_str("failed to open viewer: ");
    m.append(detail);
    ToolError { kind: ToolErrorKind::Internal, message: m }
}

/// The character of a six-bit value in the standard base64 alphabet
/// (`A`-`Z`, `a`-`z`, `0`-`9`, `+`, `/`).
pub open spec fn base64_char(v: int) -> char {
    if v < 26 {
        (65 + v) as char
    } else if v < 52 {
        (97 + v - 26) as char
    } else if v < 62 {
        (48 + v - 52) as char
    } else if v == 62 {
        '+'
    } else {
        '/'
    }
}

/// Standard base64 with padding: each three bytes become four characters of
/// six bits each, high bits first; a last group of one or two bytes is
/// filled with zero bits and padded with `=` to four characters.
pub open spec fn spec_base64(b: Seq<u8>) -> Seq<char>
    decreases b.len(),
{
    let x: int = if b.len() > 0 { b[0] as int } else { 0 };
    let y: int = if b.len() > 1 { b[1] as int } else { 0 };
    let z: int = if b.len() > 2 { b[2] as int } else { 0 };
    if b.len() == 0 {
        Seq::empty()
    } else if b.len() == 1 {
        seq![base64_char(x / 4), base64_char((x % 4) * 16), '=', '=']
    } else if b.len() == 2 {
        seq![base64_char(x / 4), base64_char((x % 4) * 16 + y / 16), base64_char((y % 16) * 4), '=']
    } else {
        seq![
            base64_char(x / 4),
            base64_char((x % 4) * 16 + y / 16),
            base64_char((y % 16) * 4 + z / 64),
            base64_char(z % 64),
        ] + spec_base64(b.skip(3))
    }
}

/// Calls `base64::engine::general_purpose::STANDARD.encode`. Claims: the
/// result is the standard, padded base64 text of the bytes.
#[verifier::external_body]
pub(crate) fn encode_base64(bytes: &[u8]) -> (s: String)
    ensures
        s@ == spec_base64(bytes@),
{
    base64::Engine::encode(&base64::engine::general_purpose::STANDARD, bytes)
}

/// The image content of a screenshot: the PNG bytes in standard base64.
pub fn png_content(png: &Vec<u8>) -> (s: String)
    ensures
        s@ == spec_base64(png@),
{
    encode_base64(png.as_slice())
}

} // verus!
