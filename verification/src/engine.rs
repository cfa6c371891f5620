//! The engine's decisions: which operation a request asks for, the table of
//! sessions by name and poll token, and the responses that operations give.
//! The terminal and process work itself is done by the caller.

use vstd::prelude::*;
use vstd::string::*;
use crate::exit_codes;
use crate::protocol::{Region, Request, Response, ResponseData};
use crate::text::{chars_of, eq_str, join_strings, join_with};
use crate::types::{
    CursorInfo, CursorStyle, InputAction, ScreenFormat, SessionInfo, SessionStatus, WaitCondition,
};

verus! {

/// The first poll token handed to a session (lower tokens are the engine's
/// own).
pub const PTY_TOKEN_BASE: usize = 1000;

/// `SIGTERM`, sent when a kill names no signal the system knows.
pub const SIGTERM: i32 = 15;

/// An operation for the engine thread: a request without its reply channel.
#[derive(Debug)]
pub enum EngineOp {
    CreateSession {
        name: String,
        command: String,
        args: Vec<String>,
        env: Vec<(String, String)>,
        cwd: Option<String>,
        cols: u16,
        rows: u16,
        scrollback: u32,
    },
    SendInput { session: String, action: InputAction },
    Screenshot { session: String, format: ScreenFormat, region: Option<Region> },
    Wait { session: String, conditions: Vec<WaitCondition>, timeout_ms: u64, poll_ms: u64 },
    GetCursor { session: String },
    GetScrollback { session: String, lines: Option<u32> },
    Resize { session: String, cols: u16, rows: u16 },
    GetStatus { session: String },
    ListSessions,
    GetOutput { session: String },
    GetCell { session: String, x: u16, y: u16 },
    KillSession { session: String, signal: Option<i32> },
}

/// What a connection handler does with a request: forward an operation and
/// wait for its reply, or stop the engine and answer at once.
#[derive(Debug)]
pub enum Dispatch {
    Forward(EngineOp),
    Shutdown,
}

/// The operation a request asks for, field for field. A scrollback request
/// drops its format; a shutdown request is not forwarded.
pub open spec fn spec_dispatch(request: Request) -> Dispatch {
    match request {
        Request::CreateSession { name, command, args, env, cwd, cols, rows, scrollback } =>
            Dispatch::Forward(
            EngineOp::CreateSession { name, command, args, env, cwd, cols, rows, scrollback },
        ),
        Request::SendInput { session, action } => Dispatch::Forward(
            EngineOp::SendInput { session, action },
        ),
        Request::Screenshot { session, format, region } => Dispatch::Forward(
            EngineOp::Screenshot { session, format, region },
        ),
        Request::Wait { session, conditions, timeout_ms, poll_ms } => Dispatch::Forward(
            EngineOp::Wait { session, conditions, timeout_ms, poll_ms },
        ),
        Request::GetCursor { session } => Dispatch::Forward(EngineOp::GetCursor { session }),
        Request::GetScrollback { session, lines, format } => Dispatch::Forward(
            EngineOp::GetScrollback { session, lines },
        ),
        Request::Resize { session, cols, rows } => Dispatch::Forward(
            EngineOp::Resize { session, cols, rows },
        ),
        Request::GetStatus { session } => Dispatch::Forward(EngineOp::GetStatus { session }),
        Request::ListSessions => Dispatch::Forward(EngineOp::ListSessions),
        Request::GetOutput { session } => Dispatch::Forward(EngineOp::GetOutput { session }),
        Request::GetCell { session, x, y } => Dispatch::Forward(
            EngineOp::GetCell { session, x, y },
        ),
        Request::KillSession { session, signal } => Dispatch::Forward(
            EngineOp::KillSession { session, signal },
        ),
        Request::Shutdown => Dispatch::Shutdown,
    }
}

/// Turns a request into the engine operation it asks for.
pub fn dispatch_request(request: Request) -> (d: Dispatch)
    ensures
        d == spec_dispatch(request),
{
    match request {
        Request::CreateSession { name, command, args, env, cwd, cols, rows, scrollback } =>
            Dispatch::Forward(
            EngineOp::CreateSession { name, command, args, env, cwd, cols, rows, scrollback },
        ),
        Request::SendInput { session, action } => Dispatch::Forward(
            EngineOp::SendInput { session, action },
        ),
        Request::Screenshot { session, format, region } => Dispatch::Forward(
            EngineOp::Screenshot { session, format, region },
        ),
        Request::Wait { session, conditions, timeout_ms, poll_ms } => Dispatch::Forward(
            EngineOp::Wait { session, conditions, timeout_ms, poll_ms },
        ),
        Request::GetCursor { session } => Dispatch::Forward(EngineOp::GetCursor { session }),
        Request::GetScrollback { session, lines, format: _ } => Dispatch::Forward(
            EngineOp::GetScrollback { session, lines },
        ),
        Request::Resize { session, cols, rows } => Dispatch::Forward(
            EngineOp::Resize { session, cols, rows },
        ),
        Request::GetStatus { session } => Dispatch::Forward(EngineOp::GetStatus { session }),
        Request::ListSessions => Dispatch::Forward(EngineOp::ListSessions),
        Request::GetOutput { session } => Dispatch::Forward(EngineOp::GetOutput { session }),
        Request::GetCell { session, x, y } => Dispatch::Forward(
            EngineOp::GetCell { session, x, y },
        ),
        Request::KillSession { session, signal } => Dispatch::Forward(
            EngineOp::KillSession { session, signal },
        ),
        Request::Shutdown => Dispatch::Shutdown,
    }
}

/// A request is forwarded field for field: every request but a shutdown
/// becomes the operation of the same name, each field carried into the
/// same-named field (a resize's columns stay columns and its rows stay
/// rows, a cell's `x` stays `x`, a wait's timeout stays its timeout), with
/// nothing added; a scrollback request keeps its line count and drops its
/// format; only a shutdown is answered without the engine.
pub proof fn law_dispatch_keeps_fields(req: Request)
    ensures
        req matches Request::CreateSession { name, command, args, env, cwd, cols, rows, scrollback }
            ==> (spec_dispatch(req) matches Dispatch::Forward(
            EngineOp::CreateSession {
                name: n2,
                command: c2,
                args: a2,
                env: e2,
                cwd: w2,
                cols: cols2,
                rows: rows2,
                scrollback: sb2,
            },
        ) && n2 == name && c2 == command && a2 == args && e2 == env && w2 == cwd && cols2 == cols
            && rows2 == rows && sb2 == scrollback),
        req matches Request::SendInput { session, action } ==> (spec_dispatch(req) matches Dispatch::Forward(
            EngineOp::SendInput { session: s2, action: a2 },
        ) && s2 == session && a2 == action),
        req matches Request::Screenshot { session, format, region } ==> (spec_dispatch(req) matches Dispatch::Forward(
            EngineOp::Screenshot { session: s2, format: f2, region: r2 },
        ) && s2 == session && f2 == format && r2 == region),
        req matches Request::Wait { session, conditions, timeout_ms, poll_ms } ==> (spec_dispatch(req) matches Dispatch::Forward(
            EngineOp::Wait { session: s2, conditions: c2, timeout_ms: t2, poll_ms: p2 },
        ) && s2 == session && c2 == conditions && t2 == timeout_ms && p2 == poll_ms),
        req matches Request::GetCursor { session } ==> (spec_dispatch(req) matches Dispatch::Forward(
            EngineOp::GetCursor { session: s2 },
        ) && s2 == session),
        req matches Request::GetScrollback { session, lines, format } ==> (spec_dispatch(req) matches Dispatch::Forward(
            EngineOp::GetScrollback { session: s2, lines: l2 },
        ) && s2 == session && l2 == lines),
        req matches Request::Resize { session, cols, rows } ==> (spec_dispatch(req) matches Dispatch::Forward(
            EngineOp::Resize { session: s2, cols: c2, rows: r2 },
        ) && s2 == session && c2 == cols && r2 == rows),
        req matches Request::GetStatus { session } ==> (spec_dispatch(req) matches Dispatch::Forward(
            EngineOp::GetStatus { session: s2 },
        ) && s2 == session),
        req matches Request::ListSessions ==> spec_dispatch(req) matches Dispatch::Forward(EngineOp::ListSessions),
        req matches Request::GetOutput { session } ==> (spec_dispatch(req) matches Dispatch::Forward(
            EngineOp::GetOutput { session: s2 },
        ) && s2 == session),
        req matches Request::GetCell { session, x, y } ==> (spec_dispatch(req) matches Dispatch::Forward(
            EngineOp::GetCell { session: s2, x: x2, y: y2 },
        ) && s2 == session && x2 == x && y2 == y),
        req matches Request::KillSession { session, signal } ==> (spec_dispatch(req) matches Dispatch::Forward(
            EngineOp::KillSession { session: s2, signal: g2 },
        ) && s2 == session && g2 == signal),
        (spec_dispatch(req) is Shutdown) <==> (req is Shutdown),
{
}

/// The answer when the engine does not reply in time.
pub fn engine_timeout_response() -> (r: Response)
    ensures
        r matches Response::Error { code, message } && code == exit_codes::ERROR
            && message@ == "Engine timeout"@,
{
    Response::error(exit_codes::ERROR, String::from_str("Engine timeout"))
}

/// The answer to a line that is not a request; `detail` is the parser's
/// message.
pub fn invalid_request_response(detail: &str) -> (r: Response)
    ensures
        r matches Response::Error { code, message } && code == exit_codes::ERROR
            && message@ == "Invalid request: "@ + detail@,
{
    let mut m = String::from_str("Invalid request: ");
    m.append(detail);
    Response::error(exit_codes::ERROR, m)
}

/// A session in the table: its name, its poll token and the caller's session
/// state.
#[derive(Debug)]
pub struct Entry<S> {
    pub name: String,
    pub token: usize,
    pub session: S,
}

/// The engine's sessions, found by name or by poll token. Names are
/// distinct, and so are tokens, each below the next one to be handed out.
#[derive(Debug)]
pub struct Registry<S> {
    entries: Vec<Entry<S>>,
    next_token: usize,
}

impl<S> Registry<S> {
    /// The session names, in the order the sessions were added.
    pub closed spec fn names(&self) -> Seq<Seq<char>> {
        self.entries@.map_values(|e: Entry<S>| e.name@)
    }

    /// The poll tokens, in the same order.
    pub closed spec fn tokens(&self) -> Seq<usize> {
        self.entries@.map_values(|e: Entry<S>| e.token)
    }

    /// The session states, in the same order.
    pub closed spec fn sessions(&self) -> Seq<S> {
        self.entries@.map_values(|e: Entry<S>| e.session)
    }

    /// The token the next session gets.
    pub closed spec fn spec_next_token(&self) -> usize {
        self.next_token
    }

    /// Names and tokens are distinct, and tokens lie from the first session
    /// token up to, not including, the next one.
    pub closed spec fn wf(&self) -> bool {
        &&& PTY_TOKEN_BASE <= self.next_token
        &&& forall|i: int, j: int|
            0 <= i < j < self.entries@.len() ==> #[trigger] self.entries@[i].name@
                != #[trigger] self.entries@[j].name@
        &&& forall|i: int, j: int|
            0 <= i < j < self.entries@.len() ==> #[trigger] self.entries@[i].token
                != #[trigger] self.entries@[j].token
        &&& forall|i: int|
            0 <= i < self.entries@.len() ==> PTY_TOKEN_BASE <= #[trigger] self.entries@[i].token
                < self.next_token
    }

    /// The table's invariant, in terms of its views.
    pub proof fn lemma_wf(&self)
        requires
            self.wf(),
        ensures
            PTY_TOKEN_BASE <= self.spec_next_token(),
            self.names().len() == self.tokens().len() == self.sessions().len(),
            forall|i: int, j: int|
                0 <= i < j < self.names().len() ==> self.names()[i] != self.names()[j],
            forall|i: int, j: int|
                0 <= i < j < self.tokens().len() ==> self.tokens()[i] != self.tokens()[j],
            forall|i: int|
                0 <= i < self.tokens().len() ==> PTY_TOKEN_BASE <= #[trigger] self.tokens()[i]
                    < self.spec_next_token(),
    {
        assert forall|i: int, j: int| 0 <= i < j < self.names().len() implies self.names()[i]
            != self.names()[j] by {
            assert(self.names()[i] == self.entries@[i].name@);
            assert(self.names()[j] == self.entries@[j].name@);
        }
        assert forall|i: int, j: int| 0 <= i < j < self.tokens().len() implies self.tokens()[i]
            != self.tokens()[j] by {
            assert(self.tokens()[i] == self.entries@[i].token);
            assert(self.tokens()[j] == self.entries@[j].token);
        }
        assert forall|i: int| 0 <= i < self.tokens().len() implies PTY_TOKEN_BASE
            <= #[trigger] self.tokens()[i] < self.spec_next_token() by {
            assert(self.tokens()[i] == self.entries@[i].token);
        }
    }

    /// An empty table; the first session gets the first session token.
    pub fn new() -> (r: Registry<S>)
        ensures
            r.wf(),
            r.names() == Seq::<Seq<char>>::empty(),
            r.spec_next_token() == PTY_TOKEN_BASE,
    {
        let r = Registry { entries: Vec::new(), next_token: PTY_TOKEN_BASE };
        assert(r.names() =~= Seq::<Seq<char>>::empty());
        assert(r.tokens() =~= Seq::<usize>::empty());
        assert(r.sessions() =~= Seq::<S>::empty());
        r
    }

    /// The number of sessions.
    pub fn len(&self) -> (n: usize)
        ensures
            n == self.names().len(),
    {
        self.entries.len()
    }

    /// The token the next session gets.
    pub fn next_token(&self) -> (t: usize)
        ensures
            t == self.spec_next_token(),
    {
        self.next_token
    }

    /// The position of the session with this name.
    pub fn find(&self, name: &str) -> (r: Option<usize>)
        requires
            self.wf(),
        ensures
            match r {
                Some(i) => i < self.names().len() && self.names()[i as int] == name@,
                None => !self.names().contains(name@),
            },
    {
        let key = chars_of(name);
        let mut i: usize = 0;
        while i < self.entries.len()
            invariant
                key@ == name@,
                i <= self.entries@.len(),
                self.names().len() == self.entries@.len(),
                forall|j: int| 0 <= j < self.entries@.len() ==> #[trigger] self.names()[j]
                    == self.entries@[j].name@,
                forall|j: int| 0 <= j < i ==> self.names()[j] != name@,
            decreases self.entries@.len() - i,
        {
            if eq_str(key.as_slice(), self.entries[i].name.as_str()) {
                return Some(i);
            }
            i = i + 1;
        }
        proof {
            if self.names().contains(name@) {
                let j = self.names().index_of(name@);
                assert(self.names()[j] == name@);
            }
        }
        None
    }

    /// Whether a session has this name.
    pub fn contains(&self, name: &str) -> (b: bool)
        requires
            self.wf(),
        ensures
            b == self.names().contains(name@),
    {
        match self.find(name) {
            Some(i) => {
                assert(self.names()[i as int] == name@);
                true
            },
            None => false,
        }
    }

    /// Adds a session under a name no other session has, with the next
    /// token, which is returned.
    pub fn insert(&mut self, name: String, session: S) -> (token: usize)
        requires
            old(self).wf(),
            !old(self).names().contains(name@),
            old(self).spec_next_token() < usize::MAX,
        ensures
            final(self).wf(),
            token == old(self).spec_next_token(),
            final(self).spec_next_token() == token + 1,
            final(self).names() == old(self).names().push(name@),
            final(self).tokens() == old(self).tokens().push(token),
            final(self).sessions() == old(self).sessions().push(session),
    {
        let token = self.next_token;
        let ghost n0 = self.names();
        let ghost t0 = self.tokens();
        let ghost s0 = self.sessions();
        let ghost nm = name@;
        self.entries.push(Entry { name, token, session });
        self.next_token = token + 1;
        assert(self.names() =~= n0.push(nm));
        assert(self.tokens() =~= t0.push(token));
        assert(self.sessions() =~= s0.push(session));
        assert forall|i: int, j: int| 0 <= i < j < self.entries@.len() implies #[trigger] self.entries@[i].name@
            != #[trigger] self.entries@[j].name@ by {
            if j == n0.len() {
                assert(n0[i] == self.names()[i]);
                assert(self.names()[i] == self.entries@[i].name@);
                assert(n0.contains(n0[i]));
            }
        }
        token
    }

    /// Why a session cannot be added under this name, if it cannot: the
    /// name is taken, or no poll token is left. When there is no reason,
    /// `insert` may add it.
    pub fn refuse_new(&self, name: &str) -> (r: Option<Response>)
        requires
            self.wf(),
        ensures
            self.names().contains(name@) ==> (r matches Some(Response::Error { code, message })
                && code == exit_codes::SESSION_COLLISION && message@ == "Session '"@ + name@
                + "' already exists"@),
            !self.names().contains(name@) && self.spec_next_token() == usize::MAX ==> (r matches Some(
                Response::Error { code, message },
            ) && code == exit_codes::ERROR && message@ == failure_prefix(OpFailure::Create)
                + "no poll tokens left"@),
            r is None <==> (!self.names().contains(name@) && self.spec_next_token() < usize::MAX),
    {
        if self.contains(name) {
            Some(collision_response(name))
        } else if self.next_token == usize::MAX {
            Some(failure_response(OpFailure::Create, "no poll tokens left"))
        } else {
            None
        }
    }

    /// The name of the session that holds a poll token.
    pub fn name_for_token(&self, token: usize) -> (r: Option<&str>)
        requires
            self.wf(),
        ensures
            match r {
                Some(n) => exists|i: int|
                    0 <= i < self.tokens().len() && self.tokens()[i] == token && self.names()[i]
                        == n@,
                None => !self.tokens().contains(token),
            },
    {
        let mut i: usize = 0;
        while i < self.entries.len()
            invariant
                i <= self.entries@.len(),
                self.tokens().len() == self.entries@.len(),
                self.names().len() == self.entries@.len(),
                forall|j: int| 0 <= j < self.entries@.len() ==> #[trigger] self.tokens()[j]
                    == self.entries@[j].token,
                forall|j: int| 0 <= j < self.entries@.len() ==> #[trigger] self.names()[j]
                    == self.entries@[j].name@,
                forall|j: int| 0 <= j < i ==> self.tokens()[j] != token,
            decreases self.entries@.len() - i,
        {
            if self.entries[i].token == token {
                let n = self.entries[i].name.as_str();
                assert(self.tokens()[i as int] == token && self.names()[i as int] == n@);
                return Some(n);
            }
            i = i + 1;
        }
        proof {
            if self.tokens().contains(token) {
                let j = self.tokens().index_of(token);
                assert(self.tokens()[j] == token);
            }
        }
        None
    }

    /// The session state at a position.
    pub fn get(&self, i: usize) -> (s: &S)
        requires
            i < self.sessions().len(),
        ensures
            *s == self.sessions()[i as int],
    {
        &self.entries[i].session
    }

    /// The session state at a position, to be changed.
    pub fn get_mut(&mut self, i: usize) -> (s: &mut S)
        requires
            old(self).wf(),
            i < old(self).sessions().len(),
        ensures
            *s == old(self).sessions()[i as int],
            final(self).names() == old(self).names(),
            final(self).tokens() == old(self).tokens(),
            final(self).spec_next_token() == old(self).spec_next_token(),
            final(self).sessions() == old(self).sessions().update(i as int, *final(s)),
            final(self).wf(),
    {
        &mut self.entries[i].session
    }
}

/// A session added under a name is the one found by that name afterwards:
/// in the table after the insertion, the only position that holds the name
/// is the new last one.
pub proof fn law_inserted_name_found<S>(
    before: Registry<S>,
    after: Registry<S>,
    name: Seq<char>,
    i: int,
)
    requires
        after.wf(),
        after.names() == before.names().push(name),
        0 <= i < after.names().len(),
        after.names()[i] == name,
    ensures
        i == before.names().len(),
{
    after.lemma_wf();
    let last = before.names().len() as int;
    assert(after.names()[last] == name);
}

/// The failure for creating a session under a name already taken.
pub fn collision_response(name: &str) -> (r: Response)
    ensures
        r matches Response::Error { code, message } && code == exit_codes::SESSION_COLLISION
            && message@ == "Session '"@ + name@ + "' already exists"@,
{
    let mut m = String::from_str("Session '");
    m.append(name);
    m.append("' already exists");
    Response::error(exit_codes::SESSION_COLLISION, m)
}

/// What a just-created session reports: running, no title or directory yet.
pub fn created_session_info(name: String, pid: u32, cols: u16, rows: u16) -> (info: SessionInfo)
    ensures
        info == (SessionInfo {
            name,
            pid,
            cols,
            rows,
            title: None,
            pwd: None,
            status: SessionStatus::Running,
        }),
{
    SessionInfo { name, pid, cols, rows, title: None, pwd: None, status: SessionStatus::Running }
}

/// What a session reports: running until an exit code is known, then exited
/// with that code.
pub fn session_info(
    name: String,
    pid: u32,
    cols: u16,
    rows: u16,
    title: Option<String>,
    pwd: Option<String>,
    exit_code: Option<i32>,
) -> (info: SessionInfo)
    ensures
        info == (SessionInfo {
            name,
            pid,
            cols,
            rows,
            title,
            pwd,
            status: match exit_code {
                Some(c) => SessionStatus::Exited { code: Some(c) },
                None => SessionStatus::Running,
            },
        }),
{
    let status = match exit_code {
        Some(c) => SessionStatus::Exited { code: Some(c) },
        None => SessionStatus::Running,
    };
    SessionInfo { name, pid, cols, rows, title, pwd, status }
}

/// The cursor as reported: a position the terminal cannot give reads as 0,
/// an unknown visibility as visible; the shape is not tracked.
pub fn cursor_info(x: Option<u16>, y: Option<u16>, visible: Option<bool>) -> (c: CursorInfo)
    ensures
        c.x == (match x {
            Some(v) => v,
            None => 0u16,
        }),
        c.y == (match y {
            Some(v) => v,
            None => 0u16,
        }),
        c.visible == (match visible {
            Some(v) => v,
            None => true,
        }),
        c.style == CursorStyle::Unknown,
{
    CursorInfo {
        x: match x {
            Some(v) => v,
            None => 0,
        },
        y: match y {
            Some(v) => v,
            None => 0,
        },
        visible: match visible {
            Some(v) => v,
            None => true,
        },
        style: CursorStyle::Unknown,
    }
}

/// Which operation failed inside the engine.
#[derive(Debug, Clone, Copy, PartialEq, Eq, Structural)]
pub enum OpFailure {
    Create,
    Input,
    Capture,
    Resize,
    Scrollback,
    Kill,
    Output,
    Cell,
}

/// The prefix of an operation failure's message.
pub open spec fn failure_prefix(f: OpFailure) -> Seq<char> {
    match f {
        OpFailure::Create => "Failed to create session: "@,
        OpFailure::Input => "Input error: "@,
        OpFailure::Capture => "Capture error: "@,
        OpFailure::Resize => "Resize error: "@,
        OpFailure::Scrollback => "Scrollback error: "@,
        OpFailure::Kill => "Kill error: "@,
        OpFailure::Output => "Output error: "@,
        OpFailure::Cell => "Cell error: "@,
    }
}

/// The failure response for an operation, with the cause's message.
pub fn failure_response(f: OpFailure, detail: &str) -> (r: Response)
    ensures
        r matches Response::Error { code, message } && code == exit_codes::ERROR && message@
            == failure_prefix(f) + detail@,
{
    let mut m = match f {
        OpFailure::Create => String::from_str("Failed to create session: "),
        OpFailure::Input => String::from_str("Input error: "),
        OpFailure::Capture => String::from_str("Capture error: "),
        OpFailure::Resize => String::from_str("Resize error: "),
        OpFailure::Scrollback => String::from_str("Scrollback error: "),
        OpFailure::Kill => String::from_str("Kill error: "),
        OpFailure::Output => String::from_str("Output error: "),
        OpFailure::Cell => String::from_str("Cell error: "),
    };
    m.append(detail);
    Response::error(exit_codes::ERROR, m)
}

/// The scrollback answer: its lines joined by newlines.
pub fn scrollback_response(lines: &Vec<String>) -> (r: Response)
    ensures
        r matches Response::Success { data: Some(ResponseData::Text(t)) } && t@ == join_with(
            lines@.map_values(|l: String| l@),
            "\n"@,
        ),
{
    Response::ok_with(ResponseData::Text(join_strings(lines, "\n")))
}

/// How a child process stands when it is polled.
#[derive(Debug, Clone, Copy, PartialEq, Eq, Structural)]
pub enum ChildStatus {
    /// Still running (or stopped, or not yet reaped).
    Running,
    /// Exited with this code.
    Exited(i32),
    /// Killed by this signal number.
    Signaled(i32),
}

/// The exit code a session reports: the process's own code, or 128 plus
/// the number of the signal that killed it.
pub fn exit_code_of(status: ChildStatus) -> (c: Option<i32>)
    requires
        status matches ChildStatus::Signaled(sig) ==> sig <= i32::MAX - 128,
    ensures
        c == (match status {
            ChildStatus::Running => None,
            ChildStatus::Exited(code) => Some(code),
            ChildStatus::Signaled(sig) => Some((128 + sig) as i32),
        }),
{
    match status {
        ChildStatus::Running => None,
        ChildStatus::Exited(code) => Some(code),
        ChildStatus::Signaled(sig) => Some(128 + sig),
    }
}

/// The environment a session's program starts with, in the order it is
/// set: `TERM=xterm-256color`, then the requested variables (a later
/// setting of the same name wins).
pub fn child_environment(env: &Vec<(String, String)>) -> (r: Vec<(String, String)>)
    ensures
        r@.len() == env@.len() + 1,
        r@[0].0@ == "TERM"@,
        r@[0].1@ == "xterm-256color"@,
        forall|i: int| 0 <= i < env@.len() ==> #[trigger] r@[i + 1].0@ == env@[i].0@ && r@[i
            + 1].1@ == env@[i].1@,
{
    let mut r: Vec<(String, String)> = Vec::new();
    r.push((String::from_str("TERM"), String::from_str("xterm-256color")));
    let mut i: usize = 0;
    while i < env.len()
        invariant
            i <= env@.len(),
            r@.len() == i + 1,
            r@[0].0@ == "TERM"@,
            r@[0].1@ == "xterm-256color"@,
            forall|j: int| 0 <= j < i ==> #[trigger] r@[j + 1].0@ == env@[j].0@ && r@[j + 1].1@
                == env@[j].1@,
        decreases env@.len() - i,
    {
        let k = env[i].0.as_str().to_owned();
        let v = env[i].1.as_str().to_owned();
        r.push((k, v));
        i = i + 1;
    }
    r
}

/// Calls `nix::sys::signal::Signal::try_from` on a signal number. Claims:
/// a signal it accepts has that number. Which numbers it accepts depends on
/// the platform and is left unsaid.
#[verifier::external_body]
fn known_signal(s: i32) -> (r: Option<i32>)
    ensures
        r matches Some(v) ==> v == s,
{
    match nix::sys::signal::Signal::try_from(s) {
        Ok(sig) => Some(sig as i32),
        Err(_) => None,
    }
}

/// The signal a kill sends: the requested one if the system knows it, else
/// `SIGTERM`.
pub fn kill_signal(requested: Option<i32>) -> (s: i32)
    ensures
        requested is None ==> s == SIGTERM,
        requested matches Some(r) ==> (s == r || s == SIGTERM),
{
    let known = match requested {
        Some(r) => known_signal(r).is_some(),
        None => false,
    };
    chosen_signal(requested, known)
}

/// The signal a kill sends, given whether the system knows the requested
/// one.
pub fn chosen_signal(requested: Option<i32>, known: bool) -> (s: i32)
    ensures
        s == (match requested {
            Some(r) => if known {
                r
            } else {
                SIGTERM
            },
            None => SIGTERM,
        }),
{
    match requested {
        Some(r) => if known {
            r
        } else {
            SIGTERM
        },
        None => SIGTERM,
    }
}

} // verus!
