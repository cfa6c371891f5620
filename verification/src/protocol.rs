//! Requests to the engine and its responses.

use vstd::prelude::*;
use vstd::string::*;
use crate::exit_codes;
use crate::types::{
    CellData, CursorInfo, InputAction, ScreenContent, ScreenFormat, SessionInfo, WaitCondition,
};

verus! {

/// A screen region: top, left, bottom, right (0-indexed, inclusive).
pub type Region = (u16, u16, u16, u16);

/// A request to the engine.
#[derive(Debug)]
pub enum Request {
    CreateSession {
        name: String,
        command: String,
        args: Vec<String>,
        env: Vec<(String, String)>,
        cwd: Option<String>,
        cols: u16,
        rows: u16,
        scrollback: u32,
    },
    SendInput { session: String, action: InputAction },
    Screenshot { session: String, format: ScreenFormat, region: Option<Region> },
    Wait { session: String, conditions: Vec<WaitCondition>, timeout_ms: u64, poll_ms: u64 },
    GetCursor { session: String },
    GetScrollback { session: String, lines: Option<u32>, format: ScreenFormat },
    Resize { session: String, cols: u16, rows: u16 },
    GetStatus { session: String },
    ListSessions,
    GetOutput { session: String },
    GetCell { session: String, x: u16, y: u16 },
    KillSession { session: String, signal: Option<i32> },
    Shutdown,
}

/// The engine's answer to a request.
#[derive(Debug)]
pub enum Response {
    Success { data: Option<ResponseData> },
    Error { code: i32, message: String },
}

/// What a successful response carries.
#[derive(Debug)]
pub enum ResponseData {
    Session(SessionInfo),
    Sessions(Vec<SessionInfo>),
    Screen(ScreenContent),
    Cursor(CursorInfo),
    Cell(CellData),
    Text(String),
}

impl Response {
    /// Success without data.
    pub fn ok() -> (r: Response)
        ensures
            r == (Response::Success { data: None }),
    {
        Response::Success { data: None }
    }

    /// Success with data.
    pub fn ok_with(data: ResponseData) -> (r: Response)
        ensures
            r == (Response::Success { data: Some(data) }),
    {
        Response::Success { data: Some(data) }
    }

    /// A failure with a code and a message.
    pub fn error(code: i32, message: String) -> (r: Response)
        ensures
            r == (Response::Error { code, message }),
    {
        Response::Error { code, message }
    }

    /// The failure for an unknown session name.
    pub fn session_not_found(name: &str) -> (r: Response)
        ensures
            r matches Response::Error { code, message } && code == exit_codes::SESSION_NOT_FOUND
                && message@ == "No session named '"@ + name@ + "'"@,
    {
        let mut message = String::from_str("No session named '");
        message.append(name);
        message.append("'");
        Response::error(exit_codes::SESSION_NOT_FOUND, message)
    }
}

} // verus!
