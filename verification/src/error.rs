//! Errors of the test library and how engine responses map to them.

use vstd::prelude::*;
use vstd::string::*;
use crate::exit_codes;
use crate::protocol::{Response, ResponseData};
use crate::text::{dec_int, push_dec_i32};

verus! {

/// What can go wrong when driving a session.
#[derive(Debug)]
pub enum PhantomError {
    /// Engine failed to start.
    EngineStartFailed(String),
    /// Engine did not respond within timeout.
    EngineTimeout,
    /// Wait condition timed out.
    WaitTimeout,
    /// Session not found.
    SessionNotFound(String),
    /// Session name already exists.
    SessionCollision(String),
    /// Process has exited.
    ProcessExited,
    /// Engine returned an error.
    Engine { code: i32, message: String },
    /// Internal error, with its message.
    Internal(String),
}

/// The text an error reads as.
pub open spec fn spec_error_message(e: PhantomError) -> Seq<char> {
    match e {
        PhantomError::EngineStartFailed(msg) => "engine failed to start: "@ + msg@,
        PhantomError::EngineTimeout => "engine did not respond"@,
        PhantomError::WaitTimeout => "wait condition timed out"@,
        PhantomError::SessionNotFound(name) => "session '"@ + name@ + "' not found"@,
        PhantomError::SessionCollision(name) => "session '"@ + name@ + "' already exists"@,
        PhantomError::ProcessExited => "process has exited"@,
        PhantomError::Engine { code, message } => "engine error ("@ + dec_int(code as int)
            + "): "@ + message@,
        PhantomError::Internal(e) => "internal error: "@ + e@,
    }
}

impl PhantomError {
    /// The error's message.
    pub fn message(&self) -> (s: String)
        ensures
            s@ == spec_error_message(*self),
    {
        match self {
            PhantomError::EngineStartFailed(msg) => {
                let mut s = String::from_str("engine failed to start: ");
                s.append(msg.as_str());
                s
            }
            PhantomError::EngineTimeout => String::from_str("engine did not respond"),
            PhantomError::WaitTimeout => String::from_str("wait condition timed out"),
            PhantomError::SessionNotFound(name) => {
                let mut s = String::from_str("session '");
                s.append(name.as_str());
                s.append("' not found");
                s
            }
            PhantomError::SessionCollision(name) => {
                let mut s = String::from_str("session '");
                s.append(name.as_str());
                s.append("' already exists");
                s
            }
            PhantomError::ProcessExited => String::from_str("process has exited"),
            PhantomError::Engine { code, message } => {
                let mut s = String::from_str("engine error (");
                push_dec_i32(&mut s, *code);
                s.append("): ");
                s.append(message.as_str());
                s
            }
            PhantomError::Internal(e) => {
                let mut s = String::from_str("internal error: ");
                s.append(e.as_str());
                s
            }
        }
    }
}

/// The error that an engine failure with `code` and `message` stands for.
pub open spec fn spec_error_for(code: i32, message: String) -> PhantomError {
    if code == exit_codes::SESSION_NOT_FOUND {
        PhantomError::SessionNotFound(message)
    } else if code == exit_codes::SESSION_COLLISION {
        PhantomError::SessionCollision(message)
    } else if code == exit_codes::WAIT_TIMEOUT {
        PhantomError::WaitTimeout
    } else if code == exit_codes::PROCESS_EXITED {
        PhantomError::ProcessExited
    } else {
        PhantomError::Engine { code, message }
    }
}

/// Success becomes its data; a failure becomes the error its code stands for.
pub fn response_to_result(resp: Response) -> (r: Result<Option<ResponseData>, PhantomError>)
    ensures
        match resp {
            Response::Success { data } => r == Ok::<Option<ResponseData>, PhantomError>(data),
            Response::Error { code, message } => r == Err::<Option<ResponseData>, PhantomError>(
                spec_error_for(code, message),
            ),
        },
{
    match resp {
        Response::Success { data } => Ok(data),
        Response::Error { code, message } => Err(
            if code == exit_codes::SESSION_NOT_FOUND {
                PhantomError::SessionNotFound(message)
            } else if code == exit_codes::SESSION_COLLISION {
                PhantomError::SessionCollision(message)
            } else if code == exit_codes::WAIT_TIMEOUT {
                PhantomError::WaitTimeout
            } else if code == exit_codes::PROCESS_EXITED {
                PhantomError::ProcessExited
            } else {
                PhantomError::Engine { code, message }
            },
        ),
    }
}

} // verus!
