//! Data exchanged between clients and the engine: sessions, cursors,
//! screens, cells, wait conditions and input actions.

use vstd::prelude::*;
use crate::pattern::Pattern;

verus! {

/// A session's identity, size and state.
#[derive(Debug)]
pub struct SessionInfo {
    pub name: String,
    pub pid: u32,
    pub cols: u16,
    pub rows: u16,
    pub title: Option<String>,
    pub pwd: Option<String>,
    pub status: SessionStatus,
}

/// Whether a session's process still runs.
#[derive(Debug, Clone, Copy, PartialEq, Eq, Structural)]
pub enum SessionStatus {
    Running,
    Exited { code: Option<i32> },
}

/// Cursor position (0-indexed), visibility and shape.
#[derive(Debug, Clone, Copy, PartialEq, Eq, Structural)]
pub struct CursorInfo {
    pub x: u16,
    pub y: u16,
    pub visible: bool,
    pub style: CursorStyle,
}

/// Cursor shape.
#[derive(Debug, Clone, Copy, PartialEq, Eq, Structural)]
pub enum CursorStyle {
    Block,
    Bar,
    Underline,
    Unknown,
}

/// A captured screen.
#[derive(Debug)]
pub struct ScreenContent {
    pub cols: u16,
    pub rows: u16,
    pub cursor: CursorInfo,
    pub title: Option<String>,
    pub screen: Vec<RowContent>,
}

/// One captured row: its index, its text and (for JSON captures) its cells.
#[derive(Debug)]
pub struct RowContent {
    pub row: u16,
    pub text: String,
    pub cells: Vec<CellData>,
}

/// One cell: its grapheme, colors and attributes.
#[derive(Debug)]
pub struct CellData {
    pub grapheme: String,
    pub fg: Option<String>,
    pub bg: Option<String>,
    pub bold: bool,
    pub italic: bool,
    pub underline: bool,
    pub strikethrough: bool,
    pub inverse: bool,
    pub faint: bool,
}

/// A condition that a wait holds out for. All conditions of a wait must hold
/// together.
#[derive(Debug)]
pub enum WaitCondition {
    /// The screen shows this text.
    TextPresent(String),
    /// The screen does not show this text.
    TextAbsent(String),
    /// The pattern matches the screen text.
    Regex(Pattern),
    /// The screen has not changed for this long.
    ScreenStable { duration_ms: u64 },
    /// The cursor is at this position.
    CursorAt { x: u16, y: u16 },
    /// The cursor is visible (`true`) or hidden (`false`).
    CursorVisible(bool),
    /// The process has exited, with this code if one is given.
    ProcessExited { exit_code: Option<i32> },
    /// The screen differs from the screen as it was when the wait was
    /// registered.
    ScreenChanged,
}

/// How a screen is captured.
#[derive(Debug, Clone, Copy, PartialEq, Eq, Structural)]
pub enum ScreenFormat {
    Text,
    Json,
    Html,
}

/// Input sent to a session.
#[derive(Debug)]
pub enum InputAction {
    /// Typed text, character by character, with an optional delay.
    Type { text: String, delay_ms: Option<u64> },
    /// Key specs sent in order.
    Key { keys: Vec<String> },
    /// Bracketed paste.
    Paste { text: String },
    /// A mouse spec such as `click:10,5`.
    Mouse { spec: String },
}

} // verus!
