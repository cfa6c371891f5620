//! Exit codes of the command-line tools, also used as error codes in
//! responses.

use vstd::prelude::*;

verus! {

/// A general failure.
pub const ERROR: i32 = 1;

/// No session has the given name.
pub const SESSION_NOT_FOUND: i32 = 2;

/// A session with the given name already exists.
pub const SESSION_COLLISION: i32 = 3;

/// A wait ended before its conditions held.
pub const WAIT_TIMEOUT: i32 = 4;

/// The session's process has exited.
pub const PROCESS_EXITED: i32 = 5;

} // verus!
