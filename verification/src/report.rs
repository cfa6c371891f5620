//! The human-readable lines that the command-line tool prints.

use vstd::prelude::*;
use vstd::string::*;
use crate::exit_codes;
use crate::text::{dec, dec_int, join_strings, join_with, push_dec, push_dec_i32};
use crate::types::{CellData, CursorInfo, CursorStyle, SessionInfo, SessionStatus};

verus! {

/// ` (PID p, CxR`, the start of a session's details.
pub open spec fn pid_size(info: SessionInfo) -> Seq<char> {
    " (PID "@ + dec(info.pid as nat) + ", "@ + dec(info.cols as nat) + "x"@ + dec(info.rows as nat)
}

fn push_pid_size(s: &mut String, info: &SessionInfo)
    ensures
        final(s)@ == old(s)@ + pid_size(*info),
{
    s.append(" (PID ");
    push_dec(s, info.pid as u64);
    s.append(", ");
    push_dec(s, info.cols as u64);
    s.append("x");
    push_dec(s, info.rows as u64);
    assert(final(s)@ =~= old(s)@ + pid_size(*info));
}

/// `Session 'name' started (PID p, CxR)`.
pub fn session_started_line(info: &SessionInfo) -> (s: String)
    ensures
        s@ == "Session '"@ + info.name@ + "' started"@ + pid_size(*info) + ")"@,
{
    let mut s = String::from_str("Session '");
    s.append(info.name.as_str());
    s.append("' started");
    push_pid_size(&mut s, info);
    s.append(")");
    s
}

/// How a status reads: `running`, `exited (code c)` or `exited`.
pub open spec fn status_text(st: SessionStatus) -> Seq<char> {
    match st {
        SessionStatus::Running => "running"@,
        SessionStatus::Exited { code } => match code {
            Some(c) => "exited (code "@ + dec_int(c as int) + ")"@,
            None => "exited"@,
        },
    }
}

/// The lines of `phantom status`: `name: status (PID p, CxR)`, then the
/// title and the working directory where known.
pub fn status_lines(info: &SessionInfo) -> (ls: Vec<String>)
    ensures
        ls@.len() >= 1,
        ls@[0]@ == info.name@ + ": "@ + status_text(info.status) + pid_size(*info) + ")"@,
        ls@.map_values(|l: String| l@).drop_first() == (match info.title {
            Some(t) => seq!["  title: "@ + t@],
            None => Seq::<Seq<char>>::empty(),
        }) + (match info.pwd {
            Some(p) => seq!["  pwd: "@ + p@],
            None => Seq::<Seq<char>>::empty(),
        }),
{
    let mut first = String::new();
    first.append(info.name.as_str());
    first.append(": ");
    match info.status {
        SessionStatus::Running => first.append("running"),
        SessionStatus::Exited { code } => match code {
            Some(c) => {
                first.append("exited (code ");
                push_dec_i32(&mut first, c);
                first.append(")");
            },
            None => first.append("exited"),
        },
    }
    push_pid_size(&mut first, info);
    first.append(")");
    assert(first@ =~= info.name@ + ": "@ + status_text(info.status) + pid_size(*info) + ")"@);
    let mut ls: Vec<String> = Vec::new();
    ls.push(first);
    let ghost l0 = ls@.map_values(|l: String| l@);
    match &info.title {
        Some(t) => {
            let mut l = String::from_str("  title: ");
            l.append(t.as_str());
            ls.push(l);
        },
        None => {},
    }
    match &info.pwd {
        Some(p) => {
            let mut l = String::from_str("  pwd: ");
            l.append(p.as_str());
            ls.push(l);
        },
        None => {},
    }
    assert(ls@.map_values(|l: String| l@).drop_first() =~= (match info.title {
        Some(t) => seq!["  title: "@ + t@],
        None => Seq::<Seq<char>>::empty(),
    }) + (match info.pwd {
        Some(p) => seq!["  pwd: "@ + p@],
        None => Seq::<Seq<char>>::empty(),
    }));
    ls
}

/// The exit code of `phantom status`: the process-exited code once the
/// session's process has exited.
pub fn status_exit_code(info: &SessionInfo) -> (c: Option<i32>)
    ensures
        c == (match info.status {
            SessionStatus::Exited { .. } => Some(exit_codes::PROCESS_EXITED),
            SessionStatus::Running => None,
        }),
{
    match info.status {
        SessionStatus::Exited { .. } => Some(exit_codes::PROCESS_EXITED),
        SessionStatus::Running => None,
    }
}

/// One line of `phantom list`: `  name (PID p, CxR, running|exited)`.
pub open spec fn list_line(info: SessionInfo) -> Seq<char> {
    "  "@ + info.name@ + pid_size(info) + ", "@ + (match info.status {
        SessionStatus::Running => "running"@,
        SessionStatus::Exited { .. } => "exited"@,
    }) + ")"@
}

/// The lines of `phantom list`.
pub fn session_list_lines(sessions: &Vec<SessionInfo>) -> (ls: Vec<String>)
    ensures
        sessions@.len() == 0 ==> ls@.map_values(|l: String| l@) == seq!["No active sessions"@],
        sessions@.len() > 0 ==> ls@.map_values(|l: String| l@) == sessions@.map_values(
            |i: SessionInfo| list_line(i),
        ),
{
    let mut ls: Vec<String> = Vec::new();
    if sessions.len() == 0 {
        ls.push(String::from_str("No active sessions"));
        assert(ls@.map_values(|l: String| l@) =~= seq!["No active sessions"@]);
        return ls;
    }
    let mut i: usize = 0;
    while i < sessions.len()
        invariant
            i <= sessions@.len(),
            ls@.map_values(|l: String| l@) == sessions@.take(i as int).map_values(
                |x: SessionInfo| list_line(x),
            ),
        decreases sessions@.len() - i,
    {
        let info = &sessions[i];
        let mut l = String::from_str("  ");
        l.append(info.name.as_str());
        push_pid_size(&mut l, info);
        l.append(", ");
        match info.status {
            SessionStatus::Running => l.append("running"),
            SessionStatus::Exited { .. } => l.append("exited"),
        }
        l.append(")");
        let ghost before = ls@.map_values(|l: String| l@);
        assert(l@ =~= list_line(*info));
        ls.push(l);
        assert(ls@.map_values(|l: String| l@) =~= before.push(list_line(*info)));
        assert(sessions@.take(i + 1).map_values(|x: SessionInfo| list_line(x)) =~= sessions@.take(
            i as int,
        ).map_values(|x: SessionInfo| list_line(x)).push(list_line(sessions@[i as int])));
        i = i + 1;
    }
    assert(sessions@.take(sessions@.len() as int) =~= sessions@);
    ls
}

/// A cursor shape's name, as `{:?}` prints it.
pub open spec fn style_name(s: CursorStyle) -> Seq<char> {
    match s {
        CursorStyle::Block => "Block"@,
        CursorStyle::Bar => "Bar"@,
        CursorStyle::Underline => "Underline"@,
        CursorStyle::Unknown => "Unknown"@,
    }
}

/// `cursor: (x, y) visible|hidden Style`.
pub fn cursor_line(c: &CursorInfo) -> (s: String)
    ensures
        s@ == "cursor: ("@ + dec(c.x as nat) + ", "@ + dec(c.y as nat) + ") "@ + (if c.visible {
            "visible"@
        } else {
            "hidden"@
        }) + " "@ + style_name(c.style),
{
    let mut s = String::from_str("cursor: (");
    push_dec(&mut s, c.x as u64);
    s.append(", ");
    push_dec(&mut s, c.y as u64);
    s.append(") ");
    if c.visible {
        s.append("visible");
    } else {
        s.append("hidden");
    }
    s.append(" ");
    match c.style {
        CursorStyle::Block => s.append("Block"),
        CursorStyle::Bar => s.append("Bar"),
        CursorStyle::Underline => s.append("Underline"),
        CursorStyle::Unknown => s.append("Unknown"),
    }
    s
}

/// The names of a cell's attributes that are on, in the order bold, italic,
/// underline, strikethrough, inverse, faint.
pub open spec fn attr_names(c: CellData) -> Seq<Seq<char>> {
    let a0 = Seq::<Seq<char>>::empty();
    let a1 = if c.bold { a0.push("bold"@) } else { a0 };
    let a2 = if c.italic { a1.push("italic"@) } else { a1 };
    let a3 = if c.underline { a2.push("underline"@) } else { a2 };
    let a4 = if c.strikethrough { a3.push("strikethrough"@) } else { a3 };
    let a5 = if c.inverse { a4.push("inverse"@) } else { a4 };
    if c.faint { a5.push("faint"@) } else { a5 }
}

/// The result of `{:?}` on a string, as std's `Debug` for `str` writes it.
pub uninterp spec fn debug_text(s: Seq<char>) -> Seq<char>;

/// Calls std's `Debug` formatting of a `str` (`format!("{:?}", s)`).
/// Claims: the result depends on the text alone.
#[verifier::external_body]
fn debug_quoted(s: &str) -> (r: String)
    ensures
        r@ == debug_text(s@),
{
    format!("{:?}", s)
}

/// The color lines of a cell: `  fg: ...` and `  bg: ...` where set.
pub open spec fn color_lines(cell: CellData) -> Seq<Seq<char>> {
    (match cell.fg {
        Some(f) => seq!["  fg: "@ + f@],
        None => Seq::<Seq<char>>::empty(),
    }) + (match cell.bg {
        Some(b) => seq!["  bg: "@ + b@],
        None => Seq::<Seq<char>>::empty(),
    })
}

/// The attribute line of a cell, when any attribute is on.
pub open spec fn attr_lines(cell: CellData) -> Seq<Seq<char>> {
    if attr_names(cell).len() > 0 {
        seq!["  attrs: "@ + join_with(attr_names(cell), ", "@)]
    } else {
        Seq::<Seq<char>>::empty()
    }
}

fn push_line(ls: &mut Vec<String>, l: String)
    ensures
        final(ls)@.map_values(|x: String| x@) == old(ls)@.map_values(|x: String| x@).push(l@),
{
    ls.push(l);
    assert(ls@.map_values(|x: String| x@) =~= old(ls)@.map_values(|x: String| x@).push(l@));
}

fn push_color_lines(ls: &mut Vec<String>, cell: &CellData)
    ensures
        final(ls)@.map_values(|x: String| x@) == old(ls)@.map_values(|x: String| x@) + color_lines(
            *cell,
        ),
{
    let ghost start = ls@.map_values(|x: String| x@);
    match &cell.fg {
        Some(f) => {
            let mut l = String::from_str("  fg: ");
            l.append(f.as_str());
            push_line(ls, l);
        },
        None => {},
    }
    let ghost mid = ls@.map_values(|x: String| x@);
    match &cell.bg {
        Some(b) => {
            let mut l = String::from_str("  bg: ");
            l.append(b.as_str());
            push_line(ls, l);
        },
        None => {},
    }
    assert(ls@.map_values(|x: String| x@) =~= start + color_lines(*cell));
}

fn attr_list(cell: &CellData) -> (attrs: Vec<String>)
    ensures
        attrs@.map_values(|a: String| a@) == attr_names(*cell),
{
    let mut attrs: Vec<String> = Vec::new();
    if cell.bold {
        attrs.push(String::from_str("bold"));
    }
    if cell.italic {
        attrs.push(String::from_str("italic"));
    }
    if cell.underline {
        attrs.push(String::from_str("underline"));
    }
    if cell.strikethrough {
        attrs.push(String::from_str("strikethrough"));
    }
    if cell.inverse {
        attrs.push(String::from_str("inverse"));
    }
    if cell.faint {
        attrs.push(String::from_str("faint"));
    }
    assert(attrs@.map_values(|a: String| a@) =~= attr_names(*cell));
    attrs
}

fn push_attr_lines(ls: &mut Vec<String>, cell: &CellData)
    ensures
        final(ls)@.map_values(|x: String| x@) == old(ls)@.map_values(|x: String| x@) + attr_lines(
            *cell,
        ),
{
    let attrs = attr_list(cell);
    if attrs.len() > 0 {
        let mut l = String::from_str("  attrs: ");
        let j = join_strings(&attrs, ", ");
        l.append(j.as_str());
        push_line(ls, l);
    } else {
        assert(ls@.map_values(|x: String| x@) =~= ls@.map_values(|x: String| x@) + attr_lines(*cell));
    }
}

/// The lines of `phantom cell`: `(x, y): "grapheme"`, then the colors
/// where set, then the attributes that are on, comma-separated.
pub fn cell_lines(x: u16, y: u16, cell: &CellData) -> (ls: Vec<String>)
    ensures
        ls@.map_values(|l: String| l@) == seq![
            "("@ + dec(x as nat) + ", "@ + dec(y as nat) + "): "@ + debug_text(cell.grapheme@),
        ] + color_lines(*cell) + attr_lines(*cell),
{
    let mut first = String::from_str("(");
    push_dec(&mut first, x as u64);
    first.append(", ");
    push_dec(&mut first, y as u64);
    first.append("): ");
    let q = debug_quoted(cell.grapheme.as_str());
    first.append(q.as_str());
    let mut ls: Vec<String> = Vec::new();
    let ghost f = first@;
    push_line(&mut ls, first);
    assert(ls@.map_values(|l: String| l@) =~= seq![f]);
    push_color_lines(&mut ls, cell);
    push_attr_lines(&mut ls, cell);
    ls
}

} // verus!
