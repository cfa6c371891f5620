//! Live viewer in a tmux pane: how the `phantom monitor` command line and the
//! tmux invocation that hosts it are put together.

use vstd::prelude::*;
use vstd::string::*;
use crate::text::{ascii_lowercase, ascii_lowercase_chars, chars_of, eq_str, is_ascii_alnum};

verus! {

/// How to display the live viewer inside tmux.
#[derive(Clone, Copy, Debug, PartialEq, Eq, Structural)]
pub enum SplitMode {
    /// `tmux split-window -h`: side-by-side panes.
    Horizontal,
    /// `tmux split-window -v`: stacked panes.
    Vertical,
    /// `tmux display-popup -E`: a floating popup.
    Popup,
}

/// The mode that a `PHANTOM_MCP_SPLIT` setting selects (case-insensitive).
pub open spec fn spec_split_mode(setting: Seq<char>) -> SplitMode {
    let v = ascii_lowercase(setting);
    if v == "vertical"@ || v == "v"@ {
        SplitMode::Vertical
    } else if v == "popup"@ || v == "p"@ {
        SplitMode::Popup
    } else {
        SplitMode::Horizontal
    }
}

impl SplitMode {
    /// Picks the mode from the value of the `PHANTOM_MCP_SPLIT` setting
    /// (empty when unset): `vertical`/`v`, `popup`/`p`, anything else
    /// horizontal.
    pub fn from_setting(setting: &str) -> (m: SplitMode)
        ensures
            m == spec_split_mode(setting@),
    {
        let raw = chars_of(setting);
        let v = ascii_lowercase_chars(raw.as_slice());
        let s = v.as_slice();
        if eq_str(s, "vertical") || eq_str(s, "v") {
            SplitMode::Vertical
        } else if eq_str(s, "popup") || eq_str(s, "p") {
            SplitMode::Popup
        } else {
            SplitMode::Horizontal
        }
    }
}

/// Characters that a shell word may hold unquoted.
pub open spec fn is_shell_safe(c: char) -> bool {
    is_ascii_alnum(c) || c == '/' || c == '.' || c == '_' || c == '-' || c == '+' || c == '='
        || c == ':'
}

/// The body of a single-quoted word for `s`: each `'` becomes `'\''`.
pub open spec fn quote_body(s: Seq<char>) -> Seq<char>
    decreases s.len(),
{
    if s.len() == 0 {
        Seq::empty()
    } else {
        quote_body(s.drop_last()) + if s.last() == '\'' {
            seq!['\'', '\\', '\'', '\'']
        } else {
            seq![s.last()]
        }
    }
}

/// Shell escaping: the empty word is `''`, a word of safe characters stays as
/// it is, anything else is wrapped in single quotes.
pub open spec fn spec_shell_escape(s: Seq<char>) -> Seq<char> {
    if s.len() == 0 {
        seq!['\'', '\'']
    } else if forall|i: int| 0 <= i < s.len() ==> is_shell_safe(#[trigger] s[i]) {
        s
    } else {
        seq!['\''] + quote_body(s) + seq!['\'']
    }
}

/// Where a POSIX shell is while it removes quotes from a word.
#[derive(Clone, Copy, Debug, PartialEq, Eq, Structural)]
pub enum QuoteState {
    /// Outside quotes.
    Plain,
    /// Inside single quotes.
    Quoted,
    /// Right after a backslash outside quotes.
    Escaped,
}

/// Quote removal as a POSIX shell does it for a word without unquoted
/// metacharacters: the word's value so far and where the reading stands.
/// Outside quotes `'` opens a quote and `\` makes the next character
/// literal; inside quotes everything is literal up to the closing `'`.
pub open spec fn shell_read(t: Seq<char>) -> (Seq<char>, QuoteState)
    decreases t.len(),
{
    if t.len() == 0 {
        (Seq::empty(), QuoteState::Plain)
    } else {
        let (v, st) = shell_read(t.drop_last());
        let c = t.last();
        match st {
            QuoteState::Plain => if c == '\'' {
                (v, QuoteState::Quoted)
            } else if c == '\\' {
                (v, QuoteState::Escaped)
            } else {
                (v.push(c), QuoteState::Plain)
            },
            QuoteState::Quoted => if c == '\'' {
                (v, QuoteState::Plain)
            } else {
                (v.push(c), QuoteState::Quoted)
            },
            QuoteState::Escaped => (v.push(c), QuoteState::Plain),
        }
    }
}

proof fn lemma_read_push(t: Seq<char>, c: char)
    ensures
        shell_read(t.push(c)) == ({
            let (v, st) = shell_read(t);
            match st {
                QuoteState::Plain => if c == '\'' {
                    (v, QuoteState::Quoted)
                } else if c == '\\' {
                    (v, QuoteState::Escaped)
                } else {
                    (v.push(c), QuoteState::Plain)
                },
                QuoteState::Quoted => if c == '\'' {
                    (v, QuoteState::Plain)
                } else {
                    (v.push(c), QuoteState::Quoted)
                },
                QuoteState::Escaped => (v.push(c), QuoteState::Plain),
            }
        }),
{
    assert(t.push(c).drop_last() =~= t);
}

proof fn lemma_read_safe(s: Seq<char>)
    requires
        forall|i: int| 0 <= i < s.len() ==> is_shell_safe(#[trigger] s[i]),
    ensures
        shell_read(s) == (s, QuoteState::Plain),
    decreases s.len(),
{
    if s.len() > 0 {
        let p = s.drop_last();
        assert forall|i: int| 0 <= i < p.len() implies is_shell_safe(#[trigger] p[i]) by {
            assert(p[i] == s[i]);
        }
        lemma_read_safe(p);
        assert(is_shell_safe(s[s.len() - 1]));
        lemma_read_push(p, s.last());
        assert(p.push(s.last()) =~= s);
    }
}

proof fn lemma_read_quoted(s: Seq<char>)
    ensures
        shell_read(seq!['\''] + quote_body(s)) == (s, QuoteState::Quoted),
    decreases s.len(),
{
    if s.len() == 0 {
        assert(seq!['\''] + quote_body(s) =~= Seq::<char>::empty().push('\''));
        lemma_read_push(Seq::<char>::empty(), '\'');
    } else {
        let p = s.drop_last();
        let c = s.last();
        lemma_read_quoted(p);
        let q = seq!['\''] + quote_body(p);
        if c == '\'' {
            assert(seq!['\''] + quote_body(s) =~= q.push('\'').push('\\').push('\'').push('\''));
            lemma_read_push(q, '\'');
            lemma_read_push(q.push('\''), '\\');
            lemma_read_push(q.push('\'').push('\\'), '\'');
            lemma_read_push(q.push('\'').push('\\').push('\''), '\'');
        } else {
            assert(seq!['\''] + quote_body(s) =~= q.push(c));
            lemma_read_push(q, c);
        }
        assert(p.push(c) =~= s);
    }
}

/// Escaping is undone by the shell: removing quotes from the escaped word
/// gives back exactly the unescaped text, ending outside any quote.
pub proof fn law_shell_escape_reads_back(s: Seq<char>)
    ensures
        shell_read(spec_shell_escape(s)) == (s, QuoteState::Plain),
{
    if s.len() == 0 {
        assert(seq!['\'', '\''] =~= Seq::<char>::empty().push('\'').push('\''));
        lemma_read_push(Seq::<char>::empty(), '\'');
        lemma_read_push(Seq::<char>::empty().push('\''), '\'');
    } else if forall|i: int| 0 <= i < s.len() ==> is_shell_safe(#[trigger] s[i]) {
        lemma_read_safe(s);
    } else {
        lemma_read_quoted(s);
        let q = seq!['\''] + quote_body(s);
        assert(seq!['\''] + quote_body(s) + seq!['\''] =~= q.push('\''));
        lemma_read_push(q, '\'');
    }
}

fn is_shell_safe_char(c: char) -> (b: bool)
    ensures
        b == is_shell_safe(c),
{
    ('a' <= c && c <= 'z') || ('A' <= c && c <= 'Z') || ('0' <= c && c <= '9') || c == '/' || c
        == '.' || c == '_' || c == '-' || c == '+' || c == '=' || c == ':'
}

/// Escapes `s` for use as one word of a shell command line.
pub fn shell_escape(s: &str) -> (r: String)
    ensures
        r@ == spec_shell_escape(s@),
{
    let v = chars_of(s);
    let mut out = String::new();
    if v.len() == 0 {
        out.push('\'');
        out.push('\'');
        assert(out@ =~= seq!['\'', '\'']);
        return out;
    }
    let mut all_safe = true;
    let mut i: usize = 0;
    while i < v.len()
        invariant
            i <= v@.len(),
            all_safe == forall|j: int| 0 <= j < i ==> is_shell_safe(#[trigger] v@[j]),
        decreases v@.len() - i,
    {
        if !is_shell_safe_char(v[i]) {
            all_safe = false;
        }
        i = i + 1;
    }
    if all_safe {
        return s.to_owned();
    }
    out.push('\'');
    let mut k: usize = 0;
    while k < v.len()
        invariant
            k <= v@.len(),
            out@ == seq!['\''] + quote_body(v@.take(k as int)),
        decreases v@.len() - k,
    {
        assert(v@.take(k + 1).drop_last() =~= v@.take(k as int));
        if v[k] == '\'' {
            out.push('\'');
            out.push('\\');
            out.push('\'');
            out.push('\'');
        } else {
            out.push(v[k]);
        }
        k = k + 1;
        assert(out@ =~= seq!['\''] + quote_body(v@.take(k as int)));
    }
    assert(v@.take(v@.len() as int) =~= v@);
    out.push('\'');
    out
}

/// The command line that runs `phantom monitor` for a session against an
/// observer socket: `<cli> monitor -s <session> --socket <socket>`, each
/// value shell-escaped.
pub open spec fn spec_viewer_command(cli: Seq<char>, session: Seq<char>, socket: Seq<char>) -> Seq<char> {
    spec_shell_escape(cli) + " monitor -s "@ + spec_shell_escape(session) + " --socket "@
        + spec_shell_escape(socket)
}

/// Builds the viewer's command line.
pub fn viewer_command(cli: &str, session: &str, socket: &str) -> (r: String)
    ensures
        r@ == spec_viewer_command(cli@, session@, socket@),
{
    let mut r = shell_escape(cli);
    r.append(" monitor -s ");
    let s = shell_escape(session);
    r.append(s.as_str());
    r.append(" --socket ");
    let k = shell_escape(socket);
    r.append(k.as_str());
    r
}

/// The arguments of the `tmux` invocation that opens the viewer: a split
/// (`-h` or `-v`, detached) or a 90% popup titled `phantom: <session>`,
/// aimed at `target` when it is known, running `inner`.
pub open spec fn spec_tmux_args(mode: SplitMode, inner: Seq<char>, target: Option<Seq<char>>, session: Seq<char>) -> Seq<Seq<char>> {
    let head = match mode {
        SplitMode::Horizontal => seq!["split-window"@, "-h"@, "-d"@],
        SplitMode::Vertical => seq!["split-window"@, "-v"@, "-d"@],
        SplitMode::Popup => seq![
            "display-popup"@,
            "-E"@,
            "-w"@,
            "90%"@,
            "-h"@,
            "90%"@,
            "-T"@,
            "phantom: "@ + session,
        ],
    };
    let aim = match target {
        Some(t) => seq!["-t"@, t],
        None => Seq::empty(),
    };
    head + aim + seq![inner]
}

/// What the viewer that a mode opens is called.
pub open spec fn spec_mode_description(mode: SplitMode) -> Seq<char> {
    match mode {
        SplitMode::Horizontal => "horizontal split pane"@,
        SplitMode::Vertical => "vertical split pane"@,
        SplitMode::Popup => "popup"@,
    }
}

fn push_arg(args: &mut Vec<String>, a: &str)
    ensures
        final(args)@.map_values(|x: String| x@) == old(args)@.map_values(|x: String| x@).push(a@),
{
    args.push(a.to_owned());
    assert(args@.map_values(|x: String| x@) =~= old(args)@.map_values(|x: String| x@).push(a@));
}

/// The `tmux` arguments that open the viewer, and the description of what
/// they open.
pub fn tmux_args(mode: SplitMode, inner: &str, target: Option<&str>, session: &str) -> (r: (Vec<String>, String))
    ensures
        r.0@.map_values(|x: String| x@) == spec_tmux_args(mode, inner@, match target {
            Some(t) => Some(t@),
            None => None,
        }, session@),
        r.1@ == spec_mode_description(mode),
{
    let mut args: Vec<String> = Vec::new();
    assert(args@.map_values(|x: String| x@) =~= Seq::<Seq<char>>::empty());
    let description = match mode {
        SplitMode::Horizontal => {
            push_arg(&mut args, "split-window");
            push_arg(&mut args, "-h");
            push_arg(&mut args, "-d");
            String::from_str("horizontal split pane")
        }
        SplitMode::Vertical => {
            push_arg(&mut args, "split-window");
            push_arg(&mut args, "-v");
            push_arg(&mut args, "-d");
            String::from_str("vertical split pane")
        }
        SplitMode::Popup => {
            push_arg(&mut args, "display-popup");
            push_arg(&mut args, "-E");
            push_arg(&mut args, "-w");
            push_arg(&mut args, "90%");
            push_arg(&mut args, "-h");
            push_arg(&mut args, "90%");
            push_arg(&mut args, "-T");
            let mut title = String::from_str("phantom: ");
            title.append(session);
            push_arg(&mut args, title.as_str());
            String::from_str("popup")
        }
    };
    let ghost head = args@.map_values(|x: String| x@);
    match target {
        Some(t) => {
            push_arg(&mut args, "-t");
            push_arg(&mut args, t);
        }
        None => {}
    }
    push_arg(&mut args, inner);
    proof {
        let tv: Option<Seq<char>> = match target {
            Some(t) => Some(t@),
            None => None,
        };
        assert(args@.map_values(|x: String| x@) =~= spec_tmux_args(mode, inner@, tv, session@));
    }
    (args, description)
}

/// The report of an opened viewer: `opened <description> for session '<name>'`.
pub fn viewer_opened_message(description: &str, session: &str) -> (r: String)
    ensures
        r@ == "opened "@ + description@ + " for session '"@ + session@ + "'"@,
{
    let mut r = String::from_str("opened ");
    r.append(description);
    r.append(" for session '");
    r.append(session);
    r.append("'");
    r
}

} // verus!
