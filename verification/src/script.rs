//! Batch files of commands, and comparing a screen with a saved snapshot.

use vstd::prelude::*;
use vstd::string::*;
use crate::capture::{lines_of, lines_vec};
use crate::text::{chars_of, dec, dec_int, eq_str, push_dec, push_dec_i32, split_words, string_of, trim, trim_chars, words};

verus! {

/// The arguments a batch line runs with: none for a blank or `#` comment
/// line; otherwise its words, without a leading `phantom` or `pt`.
pub open spec fn spec_batch_args(line: Seq<char>) -> Option<Seq<Seq<char>>> {
    let t = trim(line);
    if t.len() == 0 || t[0] == '#' {
        None
    } else {
        let ws = words(t);
        if ws.len() == 0 {
            None
        } else if ws[0] == "phantom"@ || ws[0] == "pt"@ {
            Some(ws.drop_first())
        } else {
            Some(ws)
        }
    }
}

/// One command of a batch file: its line number (from 1), the trimmed line
/// and the arguments it runs with.
#[derive(Debug)]
pub struct BatchCommand {
    pub line_number: usize,
    pub line: String,
    pub args: Vec<String>,
}

/// A batch command as plain values.
pub open spec fn command_view(c: BatchCommand) -> (int, Seq<char>, Seq<Seq<char>>) {
    (c.line_number as int, c.line@, c.args@.map_values(|a: String| a@))
}

/// The commands of the first `n` lines, in order.
pub open spec fn batch_plan(lines: Seq<Seq<char>>, n: int) -> Seq<(int, Seq<char>, Seq<Seq<char>>)>
    decreases n,
{
    if n <= 0 {
        Seq::empty()
    } else {
        let prev = batch_plan(lines, n - 1);
        match spec_batch_args(lines[n - 1]) {
            Some(args) => prev.push((n, trim(lines[n - 1]), args)),
            None => prev,
        }
    }
}

/// The arguments a batch line runs with.
pub fn batch_args(line: &str) -> (r: Option<Vec<String>>)
    ensures
        match spec_batch_args(line@) {
            Some(args) => r matches Some(v) && v@.map_values(|a: String| a@) == args,
            None => r is None,
        },
{
    let cs = chars_of(line);
    let t = trim_chars(cs.as_slice());
    if t.len() == 0 || t[0] == '#' {
        return None;
    }
    let ws = split_words(t.as_slice());
    if ws.len() == 0 {
        return None;
    }
    let skip: usize = if eq_str(ws[0].as_slice(), "phantom") || eq_str(ws[0].as_slice(), "pt") {
        1
    } else {
        0
    };
    let ghost all = words(t@);
    let ghost want = if skip == 1 { all.drop_first() } else { all };
    let mut out: Vec<String> = Vec::new();
    let mut i: usize = skip;
    while i < ws.len()
        invariant
            skip <= i <= ws@.len(),
            skip <= 1,
            ws@.len() == all.len(),
            forall|j: int| 0 <= j < ws@.len() ==> #[trigger] ws@[j]@ == all[j],
            want == all.skip(skip as int),
            out@.map_values(|a: String| a@) == want.take(i - skip),
        decreases ws@.len() - i,
    {
        let ghost before = out@.map_values(|a: String| a@);
        out.push(string_of(ws[i].as_slice()));
        assert(out@.map_values(|a: String| a@) =~= before.push(all[i as int]));
        assert(want.take(i + 1 - skip) =~= want.take(i - skip).push(all[i as int]));
        i = i + 1;
    }
    assert(want.take(ws@.len() - skip) =~= want);
    Some(out)
}

/// The commands of a batch file, line by line.
pub fn batch_commands(content: &str) -> (r: Vec<BatchCommand>)
    ensures
        r@.map_values(|c: BatchCommand| command_view(c)) == batch_plan(
            lines_of(content@),
            lines_of(content@).len() as int,
        ),
{
    let ls = lines_vec(content);
    let ghost lines = lines_of(content@);
    let mut r: Vec<BatchCommand> = Vec::new();
    let mut i: usize = 0;
    while i < ls.len()
        invariant
            i <= ls@.len(),
            ls@.map_values(|x: String| x@) == lines,
            r@.map_values(|c: BatchCommand| command_view(c)) == batch_plan(lines, i as int),
        decreases ls@.len() - i,
    {
        let ghost before = r@.map_values(|c: BatchCommand| command_view(c));
        assert(ls@[i as int]@ == lines[i as int]);
        match batch_args(ls[i].as_str()) {
            Some(args) => {
                let cs = chars_of(ls[i].as_str());
                let t = trim_chars(cs.as_slice());
                let c = BatchCommand { line_number: i + 1, line: string_of(t.as_slice()), args };
                r.push(c);
                assert(r@.map_values(|c: BatchCommand| command_view(c)) =~= before.push(
                    command_view(c),
                ));
            },
            None => {},
        }
        i = i + 1;
    }
    r
}

/// What a command's exit status means for the batch: `None` to go on when
/// it succeeded; otherwise the batch stops with the command's exit code, or
/// 1 when it has none (it was killed by a signal).
pub fn batch_stop(success: bool, code: Option<i32>) -> (r: Option<i32>)
    ensures
        success ==> r is None,
        !success ==> r == Some(match code {
            Some(c) => c,
            None => 1i32,
        }),
{
    if success {
        None
    } else {
        match code {
            Some(c) => Some(c),
            None => Some(1),
        }
    }
}

/// What is printed when a batch command fails.
pub fn batch_failure_message(line_number: usize, code: i32) -> (s: String)
    ensures
        s@ == "Line "@ + dec(line_number as nat) + ": command failed with exit code "@ + dec_int(
            code as int,
        ),
{
    let mut s = String::from_str("Line ");
    push_dec(&mut s, line_number as u64);
    s.append(": command failed with exit code ");
    push_dec_i32(&mut s, code);
    s
}

/// Line `i` of `ls`, or the empty line past the end.
pub open spec fn line_or_empty(ls: Seq<Seq<char>>, i: int) -> Seq<char> {
    if 0 <= i < ls.len() {
        ls[i]
    } else {
        Seq::empty()
    }
}

/// The lines that differ among the first `n`: index, saved line, current
/// line.
pub open spec fn differing_lines(saved: Seq<Seq<char>>, current: Seq<Seq<char>>, n: int) -> Seq<
    (int, Seq<char>, Seq<char>),
>
    decreases n,
{
    if n <= 0 {
        Seq::empty()
    } else {
        let prev = differing_lines(saved, current, n - 1);
        if line_or_empty(saved, n - 1) != line_or_empty(current, n - 1) {
            prev.push((n - 1, line_or_empty(saved, n - 1), line_or_empty(current, n - 1)))
        } else {
            prev
        }
    }
}

/// The larger of two counts.
pub open spec fn max_len(a: nat, b: nat) -> nat {
    if a >= b {
        a
    } else {
        b
    }
}

/// A line where the screen differs from the snapshot.
#[derive(Debug)]
pub struct LineDiff {
    pub index: usize,
    pub expected: String,
    pub actual: String,
}

/// A line difference as plain values.
pub open spec fn diff_view(d: LineDiff) -> (int, Seq<char>, Seq<char>) {
    (d.index as int, d.expected@, d.actual@)
}

fn line_at(ls: &Vec<String>, i: usize) -> (r: String)
    ensures
        r@ == line_or_empty(ls@.map_values(|x: String| x@), i as int),
{
    if i < ls.len() {
        ls[i].as_str().to_owned()
    } else {
        String::new()
    }
}

/// Compares the current screen text with a saved one: `None` when they are
/// the same text, else the lines that differ, comparing line by line up to
/// the longer of the two (a missing line reads as empty).
pub fn snapshot_diff(saved: &str, current: &str) -> (r: Option<Vec<LineDiff>>)
    ensures
        saved@ == current@ ==> r is None,
        saved@ != current@ ==> (r matches Some(ds) && ds@.map_values(|d: LineDiff| diff_view(d))
            == differing_lines(
            lines_of(saved@),
            lines_of(current@),
            max_len(lines_of(saved@).len(), lines_of(current@).len()) as int,
        )),
{
    let sc = chars_of(saved);
    if eq_str(sc.as_slice(), current) {
        return None;
    }
    let sl = lines_vec(saved);
    let cl = lines_vec(current);
    let ghost sv = lines_of(saved@);
    let ghost cv = lines_of(current@);
    let max = if sl.len() >= cl.len() {
        sl.len()
    } else {
        cl.len()
    };
    let mut ds: Vec<LineDiff> = Vec::new();
    let mut i: usize = 0;
    while i < max
        invariant
            i <= max,
            max == max_len(sv.len(), cv.len()),
            sl@.map_values(|x: String| x@) == sv,
            cl@.map_values(|x: String| x@) == cv,
            ds@.map_values(|d: LineDiff| diff_view(d)) == differing_lines(sv, cv, i as int),
        decreases max - i,
    {
        let r = line_at(&sl, i);
        let c = line_at(&cl, i);
        let rc = chars_of(r.as_str());
        if !eq_str(rc.as_slice(), c.as_str()) {
            let ghost before = ds@.map_values(|d: LineDiff| diff_view(d));
            let d = LineDiff { index: i, expected: r, actual: c };
            ds.push(d);
            assert(ds@.map_values(|d: LineDiff| diff_view(d)) =~= before.push(diff_view(d)));
        }
        i = i + 1;
    }
    Some(ds)
}

} // verus!
