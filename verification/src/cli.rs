//! What the command-line tool decides before it talks to the daemon: output
//! mode, argument parsing, and the requests that flags describe.

use vstd::prelude::*;
use vstd::string::*;
use crate::pattern::{regex_compiles, regex_error_text, Pattern};
use crate::protocol::Region;
use crate::text::{
    chars_of, dec, eq_str, parse_unsigned, parse_unsigned_spec, push_dec, split_chars, split_on,
    split_once, split_once_chars, string_of, IntErrorKind,
};
use crate::types::{InputAction, ScreenFormat, WaitCondition};

verus! {

/// How results are printed.
#[derive(Debug, Clone, Copy, PartialEq, Eq, Structural)]
pub enum OutputMode {
    Human,
    Json,
}

impl OutputMode {
    /// `--json` wins, then `--human`; otherwise human output on a terminal
    /// and JSON when piped.
    pub fn detect(force_json: bool, force_human: bool, stdout_is_terminal: bool) -> (m: OutputMode)
        ensures
            m == (if force_json {
                OutputMode::Json
            } else if force_human {
                OutputMode::Human
            } else if stdout_is_terminal {
                OutputMode::Human
            } else {
                OutputMode::Json
            }),
    {
        if force_json {
            OutputMode::Json
        } else if force_human {
            OutputMode::Human
        } else if stdout_is_terminal {
            OutputMode::Human
        } else {
            OutputMode::Json
        }
    }

    /// Whether results are printed as JSON.
    pub fn is_json(self) -> (b: bool)
        ensures
            b == (self == OutputMode::Json),
    {
        match self {
            OutputMode::Json => true,
            OutputMode::Human => false,
        }
    }
}

/// The screenshot format a `--format` value names.
pub open spec fn spec_screenshot_format(s: Seq<char>) -> Option<ScreenFormat> {
    if s == "text"@ {
        Some(ScreenFormat::Text)
    } else if s == "json"@ {
        Some(ScreenFormat::Json)
    } else if s == "html"@ {
        Some(ScreenFormat::Html)
    } else {
        None
    }
}

/// Reads the screenshot `--format` value.
pub fn parse_screenshot_format(s: &str) -> (r: Result<ScreenFormat, String>)
    ensures
        match spec_screenshot_format(s@) {
            Some(f) => r == Ok::<ScreenFormat, String>(f),
            None => r matches Err(m) && m@ == "Invalid format: "@ + s@ + ". Use text, json, or html"@,
        },
{
    let v = chars_of(s);
    if eq_str(v.as_slice(), "text") {
        Ok(ScreenFormat::Text)
    } else if eq_str(v.as_slice(), "json") {
        Ok(ScreenFormat::Json)
    } else if eq_str(v.as_slice(), "html") {
        Ok(ScreenFormat::Html)
    } else {
        let mut m = String::from_str("Invalid format: ");
        m.append(s);
        m.append(". Use text, json, or html");
        Err(m)
    }
}

/// Reads the scrollback `--format` value (text or json).
pub fn parse_scrollback_format(s: &str) -> (r: Result<ScreenFormat, String>)
    ensures
        if s@ == "text"@ {
            r == Ok::<ScreenFormat, String>(ScreenFormat::Text)
        } else if s@ == "json"@ {
            r == Ok::<ScreenFormat, String>(ScreenFormat::Json)
        } else {
            r matches Err(m) && m@ == "Invalid format: "@ + s@ + ". Use text or json"@
        },
{
    let v = chars_of(s);
    if eq_str(v.as_slice(), "text") {
        Ok(ScreenFormat::Text)
    } else if eq_str(v.as_slice(), "json") {
        Ok(ScreenFormat::Json)
    } else {
        let mut m = String::from_str("Invalid format: ");
        m.append(s);
        m.append(". Use text or json");
        Err(m)
    }
}

/// Why a command-line argument was refused.
#[derive(Debug, PartialEq, Eq)]
pub enum ArgError {
    /// A number did not parse.
    Number(IntErrorKind),
    /// Some other problem, with its message.
    Invalid(String),
}

impl ArgError {
    /// The error's message.
    pub fn message(&self) -> (s: String)
        ensures
            s@ == match self {
                ArgError::Number(k) => match k {
                    IntErrorKind::Empty => "cannot parse integer from empty string"@,
                    IntErrorKind::InvalidDigit => "invalid digit found in string"@,
                    IntErrorKind::PosOverflow => "number too large to fit in target type"@,
                },
                ArgError::Invalid(m) => m@,
            },
    {
        match self {
            ArgError::Number(k) => k.message(),
            ArgError::Invalid(m) => m.as_str().to_owned(),
        }
    }
}

/// A `u16` as `str::parse` reads it.
pub open spec fn spec_parse_u16(s: Seq<char>) -> Result<u16, IntErrorKind> {
    match parse_unsigned_spec(s, 65535) {
        Ok(v) => Ok(v as u16),
        Err(e) => Err(e),
    }
}

fn parse_u16(s: &[char]) -> (r: Result<u16, IntErrorKind>)
    ensures
        r == spec_parse_u16(s@),
{
    match parse_unsigned(s, 65535) {
        Ok(v) => Ok(v as u16),
        Err(e) => Err(e),
    }
}

/// The first error among the first `n` parts read as `u16`, or all values.
pub open spec fn parse_all_u16(parts: Seq<Seq<char>>, n: int) -> Result<Seq<u16>, IntErrorKind>
    decreases n,
{
    if n <= 0 {
        Ok(Seq::empty())
    } else {
        match parse_all_u16(parts, n - 1) {
            Err(e) => Err(e),
            Ok(vs) => match spec_parse_u16(parts[n - 1]) {
                Ok(v) => Ok(vs.push(v)),
                Err(e) => Err(e),
            },
        }
    }
}

/// A `--region top,left,bottom,right` value: every part is read as a
/// number first (the first bad one is the error), then there must be four.
pub open spec fn spec_parse_region(s: Seq<char>) -> Result<Region, Option<IntErrorKind>> {
    let parts = split_on(s, ',');
    match parse_all_u16(parts, parts.len() as int) {
        Err(e) => Err(Some(e)),
        Ok(vs) => if vs.len() != 4 {
            Err(None)
        } else {
            Ok((vs[0], vs[1], vs[2], vs[3]))
        },
    }
}

proof fn lemma_parse_all_err_stays(parts: Seq<Seq<char>>, k: int, n: int)
    requires
        0 <= k <= n,
        parse_all_u16(parts, k) is Err,
    ensures
        parse_all_u16(parts, n) == parse_all_u16(parts, k),
    decreases n - k,
{
    if k < n {
        lemma_parse_all_err_stays(parts, k, n - 1);
    }
}

/// Reads a `--region` value.
pub fn parse_region(s: &str) -> (r: Result<Region, ArgError>)
    ensures
        match spec_parse_region(s@) {
            Ok(reg) => r == Ok::<Region, ArgError>(reg),
            Err(Some(k)) => r == Err::<Region, ArgError>(ArgError::Number(k)),
            Err(None) => r matches Err(ArgError::Invalid(m)) && m@ == "Region must be top,left,bottom,right"@,
        },
{
    let v = chars_of(s);
    let parts = split_chars(v.as_slice(), ',');
    let ghost sp = split_on(s@, ',');
    let mut vals: Vec<u16> = Vec::new();
    let mut i: usize = 0;
    while i < parts.len()
        invariant
            sp == split_on(s@, ','),
            parts@.len() == sp.len(),
            forall|j: int| 0 <= j < parts@.len() ==> #[trigger] parts@[j]@ == sp[j],
            i <= parts@.len(),
            parse_all_u16(sp, i as int) == Ok::<Seq<u16>, IntErrorKind>(vals@),
        decreases parts@.len() - i,
    {
        match parse_u16(parts[i].as_slice()) {
            Ok(x) => vals.push(x),
            Err(e) => {
                proof { lemma_parse_all_err_stays(sp, i + 1, sp.len() as int); }
                return Err(ArgError::Number(e));
            }
        }
        i = i + 1;
    }
    if vals.len() != 4 {
        return Err(ArgError::Invalid(String::from_str("Region must be top,left,bottom,right")));
    }
    Ok((vals[0], vals[1], vals[2], vals[3]))
}

/// A `--cursor x,y` value: two comma-separated parts, then each read as a
/// number.
pub open spec fn spec_parse_cursor(s: Seq<char>) -> Result<(u16, u16), Option<IntErrorKind>> {
    let parts = split_on(s, ',');
    if parts.len() != 2 {
        Err(None)
    } else {
        match (spec_parse_u16(parts[0]), spec_parse_u16(parts[1])) {
            (Err(e), _) => Err(Some(e)),
            (Ok(_), Err(e)) => Err(Some(e)),
            (Ok(x), Ok(y)) => Ok((x, y)),
        }
    }
}

/// Reads a `--cursor` value.
pub fn parse_cursor_position(s: &str) -> (r: Result<(u16, u16), ArgError>)
    ensures
        match spec_parse_cursor(s@) {
            Ok(p) => r == Ok::<(u16, u16), ArgError>(p),
            Err(Some(k)) => r == Err::<(u16, u16), ArgError>(ArgError::Number(k)),
            Err(None) => r matches Err(ArgError::Invalid(m)) && m@ == "Cursor position must be x,y"@,
        },
{
    let v = chars_of(s);
    let parts = split_chars(v.as_slice(), ',');
    if parts.len() != 2 {
        return Err(ArgError::Invalid(String::from_str("Cursor position must be x,y")));
    }
    let x = match parse_u16(parts[0].as_slice()) {
        Ok(x) => x,
        Err(e) => return Err(ArgError::Number(e)),
    };
    let y = match parse_u16(parts[1].as_slice()) {
        Ok(y) => y,
        Err(e) => return Err(ArgError::Number(e)),
    };
    Ok((x, y))
}

/// The flags of `phantom wait`.
#[derive(Debug)]
pub struct WaitFlags {
    pub text: Option<String>,
    pub regex: Option<String>,
    pub stable: bool,
    pub stable_duration: u64,
    pub cursor: Option<String>,
    pub cursor_visible: bool,
    pub cursor_hidden: bool,
    pub process_exit: bool,
    pub exit_code: Option<i32>,
    pub text_disappear: Option<String>,
    pub changed: bool,
}

/// A condition flag of `phantom wait`.
#[derive(Debug, Clone, Copy, PartialEq, Eq, Structural)]
pub enum WaitFlag {
    Text,
    TextGone,
    Regex,
    Stable,
    Cursor,
    CursorVisible,
    CursorHidden,
    ProcessExit,
    Changed,
}

/// The flags that are set, in the order the tool turns them into
/// conditions: text, text gone, regex, stable, cursor position, cursor
/// visible, cursor hidden, process exit, changed.
pub open spec fn flags_set(f: WaitFlags) -> Seq<WaitFlag> {
    let s0 = Seq::<WaitFlag>::empty();
    let s1 = if f.text is Some { s0.push(WaitFlag::Text) } else { s0 };
    let s2 = if f.text_disappear is Some { s1.push(WaitFlag::TextGone) } else { s1 };
    let s3 = if f.regex is Some { s2.push(WaitFlag::Regex) } else { s2 };
    let s4 = if f.stable { s3.push(WaitFlag::Stable) } else { s3 };
    let s5 = if f.cursor is Some { s4.push(WaitFlag::Cursor) } else { s4 };
    let s6 = if f.cursor_visible { s5.push(WaitFlag::CursorVisible) } else { s5 };
    let s7 = if f.cursor_hidden { s6.push(WaitFlag::CursorHidden) } else { s6 };
    let s8 = if f.process_exit { s7.push(WaitFlag::ProcessExit) } else { s7 };
    if f.changed { s8.push(WaitFlag::Changed) } else { s8 }
}

/// `c` is the condition that flag `k` of `f` asks for.
pub open spec fn condition_for(c: WaitCondition, k: WaitFlag, f: WaitFlags) -> bool {
    match k {
        WaitFlag::Text => f.text matches Some(t) && c matches WaitCondition::TextPresent(x)
            && x@ == t@,
        WaitFlag::TextGone => f.text_disappear matches Some(t)
            && c matches WaitCondition::TextAbsent(x) && x@ == t@,
        WaitFlag::Regex => f.regex matches Some(p) && c matches WaitCondition::Regex(x)
            && x.source() == p@,
        WaitFlag::Stable => c == WaitCondition::ScreenStable { duration_ms: f.stable_duration },
        WaitFlag::Cursor => f.cursor matches Some(s) && spec_parse_cursor(s@) matches Ok((x, y))
            && c == WaitCondition::CursorAt { x, y },
        WaitFlag::CursorVisible => c == WaitCondition::CursorVisible(true),
        WaitFlag::CursorHidden => c == WaitCondition::CursorVisible(false),
        WaitFlag::ProcessExit => c == WaitCondition::ProcessExited { exit_code: f.exit_code },
        WaitFlag::Changed => c == WaitCondition::ScreenChanged,
    }
}

/// The conditions are, one for one and in order, those that the given
/// flags ask for.
pub open spec fn conditions_for(conds: Seq<WaitCondition>, ks: Seq<WaitFlag>, f: WaitFlags) -> bool {
    &&& conds.len() == ks.len()
    &&& forall|i: int| 0 <= i < conds.len() ==> #[trigger] condition_for(conds[i], ks[i], f)
}

/// The conditions that the flags describe, in the tool's order.
pub open spec fn conditions_match_flags(conds: Seq<WaitCondition>, f: WaitFlags) -> bool {
    conditions_for(conds, flags_set(f), f)
}

proof fn lemma_conditions_push(
    conds: Seq<WaitCondition>,
    ks: Seq<WaitFlag>,
    f: WaitFlags,
    c: WaitCondition,
    k: WaitFlag,
)
    requires
        conditions_for(conds, ks, f),
        condition_for(c, k, f),
    ensures
        conditions_for(conds.push(c), ks.push(k), f),
{
    assert forall|i: int| 0 <= i < conds.len() + 1 implies #[trigger] condition_for(
        conds.push(c)[i],
        ks.push(k)[i],
        f,
    ) by {
        if i < conds.len() {
            assert(conds.push(c)[i] == conds[i]);
            assert(ks.push(k)[i] == ks[i]);
        }
    }
}

/// A regex is given and does not compile.
pub open spec fn regex_refused(f: WaitFlags) -> bool {
    match f.regex {
        Some(p) => !regex_compiles(p@),
        None => false,
    }
}

/// The error of the cursor position flag, if it is given and bad.
pub open spec fn cursor_error(f: WaitFlags) -> Option<Option<IntErrorKind>> {
    match f.cursor {
        Some(c) => match spec_parse_cursor(c@) {
            Err(e) => Some(e),
            Ok(_) => None,
        },
        None => None,
    }
}

/// Some condition flag is given.
pub open spec fn any_flag(f: WaitFlags) -> bool {
    f.text is Some || f.text_disappear is Some || f.regex is Some || f.stable || f.cursor is Some
        || f.cursor_visible || f.cursor_hidden || f.process_exit || f.changed
}

fn add_condition(
    conds: &mut Vec<WaitCondition>,
    Ghost(ks): Ghost<Seq<WaitFlag>>,
    Ghost(f): Ghost<WaitFlags>,
    c: WaitCondition,
    Ghost(k): Ghost<WaitFlag>,
)
    requires
        conditions_for(old(conds)@, ks, f),
        condition_for(c, k, f),
    ensures
        conditions_for(final(conds)@, ks.push(k), f),
{
    proof { lemma_conditions_push(conds@, ks, f, c, k); }
    conds.push(c);
}

/// The conditions of `phantom wait`, or the first problem: a regex that does
/// not compile, then a bad cursor position, then no condition at all.
pub fn wait_conditions(f: WaitFlags) -> (r: Result<Vec<WaitCondition>, ArgError>)
    ensures
        match r {
            Ok(conds) => conditions_match_flags(conds@, f) && conds@.len() > 0,
            Err(ArgError::Invalid(m)) => {
                ||| (regex_refused(f) && m@ == regex_error_text(f.regex->0@))
                ||| (!regex_refused(f) && cursor_error(f) == Some(None::<IntErrorKind>)
                    && m@ == "Cursor position must be x,y"@)
                ||| (!regex_refused(f) && cursor_error(f) is None && !any_flag(f)
                    && m@ == "Specify at least one wait condition"@)
            },
            Err(ArgError::Number(k)) => !regex_refused(f) && cursor_error(f) == Some(Some(k)),
        },
{
    let mut conds: Vec<WaitCondition> = Vec::new();
    let ghost mut ks: Seq<WaitFlag> = Seq::empty();
    match &f.text {
        Some(t) => {
            let c = WaitCondition::TextPresent(t.as_str().to_owned());
            add_condition(&mut conds, Ghost(ks), Ghost(f), c, Ghost(WaitFlag::Text));
            proof { ks = ks.push(WaitFlag::Text); }
        },
        None => {},
    }
    match &f.text_disappear {
        Some(t) => {
            let c = WaitCondition::TextAbsent(t.as_str().to_owned());
            add_condition(&mut conds, Ghost(ks), Ghost(f), c, Ghost(WaitFlag::TextGone));
            proof { ks = ks.push(WaitFlag::TextGone); }
        },
        None => {},
    }
    match &f.regex {
        Some(p) => match Pattern::new(p.as_str()) {
            Ok(pat) => {
                let c = WaitCondition::Regex(pat);
                add_condition(&mut conds, Ghost(ks), Ghost(f), c, Ghost(WaitFlag::Regex));
                proof { ks = ks.push(WaitFlag::Regex); }
            },
            Err(m) => return Err(ArgError::Invalid(m)),
        },
        None => {},
    }
    if f.stable {
        let c = WaitCondition::ScreenStable { duration_ms: f.stable_duration };
        add_condition(&mut conds, Ghost(ks), Ghost(f), c, Ghost(WaitFlag::Stable));
        proof { ks = ks.push(WaitFlag::Stable); }
    }
    match &f.cursor {
        Some(s) => match parse_cursor_position(s.as_str()) {
            Ok((x, y)) => {
                let c = WaitCondition::CursorAt { x, y };
                add_condition(&mut conds, Ghost(ks), Ghost(f), c, Ghost(WaitFlag::Cursor));
                proof { ks = ks.push(WaitFlag::Cursor); }
            },
            Err(e) => return Err(e),
        },
        None => {},
    }
    if f.cursor_visible {
        let c = WaitCondition::CursorVisible(true);
        add_condition(&mut conds, Ghost(ks), Ghost(f), c, Ghost(WaitFlag::CursorVisible));
        proof { ks = ks.push(WaitFlag::CursorVisible); }
    }
    if f.cursor_hidden {
        let c = WaitCondition::CursorVisible(false);
        add_condition(&mut conds, Ghost(ks), Ghost(f), c, Ghost(WaitFlag::CursorHidden));
        proof { ks = ks.push(WaitFlag::CursorHidden); }
    }
    if f.process_exit {
        let c = WaitCondition::ProcessExited { exit_code: f.exit_code };
        add_condition(&mut conds, Ghost(ks), Ghost(f), c, Ghost(WaitFlag::ProcessExit));
        proof { ks = ks.push(WaitFlag::ProcessExit); }
    }
    if f.changed {
        let c = WaitCondition::ScreenChanged;
        add_condition(&mut conds, Ghost(ks), Ghost(f), c, Ghost(WaitFlag::Changed));
        proof { ks = ks.push(WaitFlag::Changed); }
    }
    assert(ks == flags_set(f));
    if conds.len() == 0 {
        return Err(ArgError::Invalid(String::from_str("Specify at least one wait condition")));
    }
    Ok(conds)
}

/// Builds the input action of `phantom send`.
pub fn send_action(
    type_text: Option<String>,
    keys: Vec<String>,
    paste: Option<String>,
    mouse: Option<String>,
    delay: u64,
) -> (r: Result<InputAction, String>)
    ensures
        match type_text {
            Some(t) => r == Ok::<InputAction, String>(
                InputAction::Type { text: t, delay_ms: if delay > 0 { Some(delay) } else { None } },
            ),
            None => if keys@.len() > 0 {
                r == Ok::<InputAction, String>(InputAction::Key { keys })
            } else {
                match paste {
                    Some(p) => r == Ok::<InputAction, String>(InputAction::Paste { text: p }),
                    None => match mouse {
                        Some(m) => r == Ok::<InputAction, String>(InputAction::Mouse { spec: m }),
                        None => r matches Err(e) && e@
                            == "Specify --type, --key, --paste, or --mouse"@,
                    },
                }
            },
        },
{
    match type_text {
        Some(text) => Ok(InputAction::Type { text, delay_ms: if delay > 0 { Some(delay) } else { None } }),
        None => if keys.len() > 0 {
            Ok(InputAction::Key { keys })
        } else {
            match paste {
                Some(text) => Ok(InputAction::Paste { text }),
                None => match mouse {
                    Some(spec) => Ok(InputAction::Mouse { spec }),
                    None => Err(String::from_str("Specify --type, --key, --paste, or --mouse")),
                },
            }
        },
    }
}

/// The `KEY=VALUE` pairs among the `--env` values, split at the first `=`;
/// values without `=` are left out.
pub open spec fn env_pairs(envs: Seq<Seq<char>>) -> Seq<(Seq<char>, Seq<char>)>
    decreases envs.len(),
{
    if envs.len() == 0 {
        Seq::empty()
    } else {
        let prev = env_pairs(envs.drop_last());
        match split_once(envs.last(), '=') {
            Some(kv) => prev.push(kv),
            None => prev,
        }
    }
}

/// Reads the `--env` values of `phantom run`.
pub fn session_env(envs: &Vec<String>) -> (r: Vec<(String, String)>)
    ensures
        r@.map_values(|p: (String, String)| (p.0@, p.1@)) == env_pairs(
            envs@.map_values(|e: String| e@),
        ),
{
    let ghost views = envs@.map_values(|e: String| e@);
    let mut r: Vec<(String, String)> = Vec::new();
    let mut i: usize = 0;
    while i < envs.len()
        invariant
            i <= envs@.len(),
            views == envs@.map_values(|e: String| e@),
            r@.map_values(|p: (String, String)| (p.0@, p.1@)) == env_pairs(views.take(i as int)),
        decreases envs@.len() - i,
    {
        let ghost before = r@.map_values(|p: (String, String)| (p.0@, p.1@));
        assert(views.take(i + 1).drop_last() =~= views.take(i as int));
        assert(views.take(i + 1).last() == envs@[i as int]@);
        let cs = chars_of(envs[i].as_str());
        match split_once_chars(cs.as_slice(), '=') {
            Some((k, v)) => {
                let pair = (string_of(k.as_slice()), string_of(v.as_slice()));
                r.push(pair);
                assert(r@.map_values(|p: (String, String)| (p.0@, p.1@)) =~= before.push((k@, v@)));
            },
            None => {},
        }
        i = i + 1;
    }
    assert(views.take(envs@.len() as int) =~= views);
    r
}

/// The program and its arguments of `phantom run`.
pub fn split_command(command: Vec<String>) -> (r: Result<(String, Vec<String>), String>)
    ensures
        command@.len() == 0 ==> (r matches Err(e) && e@ == "No command specified"@),
        command@.len() > 0 ==> (r matches Ok((c, args)) && c == command@[0] && args@
            == command@.drop_first()),
{
    let mut command = command;
    if command.len() == 0 {
        return Err(String::from_str("No command specified"));
    }
    let ghost orig = command@;
    let cmd = command.remove(0);
    assert(command@ =~= orig.drop_first());
    Ok((cmd, command))
}

/// The session name used when none is given: `s` and the process id.
pub fn default_session_name(pid: u32) -> (s: String)
    ensures
        s@ == "s"@ + dec(pid as nat),
{
    let mut s = String::from_str("s");
    push_dec(&mut s, pid as u64);
    s
}

} // verus!
