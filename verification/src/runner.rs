//! The integration-test runner's bookkeeping: each test's result, the
//! tallies, the monitor's state as events arrive, and the summary.

use vstd::prelude::*;
use vstd::string::*;
use std::time::Duration;
use crate::text::{chars_of, dec, push_dec, string_of};

verus! {

/// `Duration` is `Copy`: a clone is the same duration.
pub assume_specification[ <Duration as Clone>::clone ](d: &Duration) -> (r: Duration)
    ensures
        r == *d,
;

/// Result of a single test execution.
#[derive(Clone, Debug)]
pub enum TestResult {
    Passed(Duration),
    Failed(Duration, String),
}

/// How a test body ended.
#[derive(Debug)]
pub enum TestOutcome {
    /// It returned success.
    Passed,
    /// It returned an error, with the error's message.
    Error(String),
    /// It panicked, with the panic's message.
    Panicked(String),
}

/// The result a test outcome is recorded as; a panic's message is marked.
pub fn outcome_result(outcome: TestOutcome, elapsed: Duration) -> (r: TestResult)
    ensures
        match outcome {
            TestOutcome::Passed => r == TestResult::Passed(elapsed),
            TestOutcome::Error(m) => r == TestResult::Failed(elapsed, m),
            TestOutcome::Panicked(m) => r matches TestResult::Failed(d, t) && d == elapsed && t@
                == "PANIC: "@ + m@,
        },
{
    match outcome {
        TestOutcome::Passed => TestResult::Passed(elapsed),
        TestOutcome::Error(m) => TestResult::Failed(elapsed, m),
        TestOutcome::Panicked(m) => {
            let mut t = String::from_str("PANIC: ");
            t.append(m.as_str());
            TestResult::Failed(elapsed, t)
        },
    }
}

/// The message of a panic: its text when it carried one.
pub fn panic_message(payload: Option<String>) -> (s: String)
    ensures
        match payload {
            Some(p) => s == p,
            None => s@ == "unknown panic"@,
        },
{
    match payload {
        Some(p) => p,
        None => String::from_str("unknown panic"),
    }
}

/// The failure message when a test's engine does not start.
pub fn engine_failed_message(detail: &str) -> (s: String)
    ensures
        s@ == "engine failed: "@ + detail@,
{
    let mut s = String::from_str("engine failed: ");
    s.append(detail);
    s
}

/// How many results are present among the first `n`.
pub open spec fn count_finished(rs: Seq<Option<TestResult>>, n: int) -> nat
    decreases n,
{
    if n <= 0 {
        0
    } else {
        count_finished(rs, n - 1) + if rs[n - 1] is Some { 1nat } else { 0nat }
    }
}

/// How many passes are among the first `n` results.
pub open spec fn count_passed(rs: Seq<Option<TestResult>>, n: int) -> nat
    decreases n,
{
    if n <= 0 {
        0
    } else {
        count_passed(rs, n - 1) + if rs[n - 1] matches Some(TestResult::Passed(_)) {
            1nat
        } else {
            0nat
        }
    }
}

/// How many failures are among the first `n` results.
pub open spec fn count_failed(rs: Seq<Option<TestResult>>, n: int) -> nat
    decreases n,
{
    if n <= 0 {
        0
    } else {
        count_failed(rs, n - 1) + if rs[n - 1] matches Some(TestResult::Failed(_, _)) {
            1nat
        } else {
            0nat
        }
    }
}

proof fn lemma_counts_bounded(rs: Seq<Option<TestResult>>, n: int)
    requires
        0 <= n,
    ensures
        count_passed(rs, n) + count_failed(rs, n) == count_finished(rs, n),
        count_finished(rs, n) <= n,
    decreases n,
{
    if n > 0 {
        lemma_counts_bounded(rs, n - 1);
    }
}

/// Every test result is either a pass or a failure: among any results, the
/// passes and the failures add up to the finished tests, which are no more
/// than the tests.
pub proof fn law_passed_and_failed_are_finished(rs: Seq<Option<TestResult>>)
    ensures
        count_passed(rs, rs.len() as int) + count_failed(rs, rs.len() as int) == count_finished(
            rs,
            rs.len() as int,
        ),
        count_finished(rs, rs.len() as int) <= rs.len(),
{
    lemma_counts_bounded(rs, rs.len() as int);
}

/// What the test thread tells the monitor; `H` is the handle of a
/// session's engine.
#[derive(Debug)]
pub enum RunnerEvent<H> {
    TestStarted(usize),
    TestFinished(usize, TestResult),
    SessionCreated(H, String),
    SessionEnded,
    Done,
}

/// What the monitor shows: the tests and their results, the running test,
/// the session being watched and its screen, and whether the run is over.
#[derive(Debug)]
pub struct RunState<H> {
    pub test_names: Vec<String>,
    pub results: Vec<Option<TestResult>>,
    pub running_idx: Option<usize>,
    pub active: Option<(H, String)>,
    pub screen_lines: Vec<String>,
    pub done: bool,
    pub quit: bool,
    pub scroll_offset: u16,
}

/// `a - b`, or 0 when `b` is larger.
pub open spec fn sat_sub(a: int, b: int) -> int {
    if a >= b {
        a - b
    } else {
        0
    }
}

impl<H> RunState<H> {
    /// The state before any test runs: no results yet.
    pub fn new(names: Vec<String>) -> (s: RunState<H>)
        ensures
            s.test_names == names,
            s.results@.len() == names@.len(),
            forall|i: int| 0 <= i < s.results@.len() ==> s.results@[i] is None,
            s.running_idx is None,
            s.active is None,
            s.screen_lines@.len() == 0,
            !s.done,
            !s.quit,
            s.scroll_offset == 0,
    {
        let mut results: Vec<Option<TestResult>> = Vec::new();
        let mut i: usize = 0;
        while i < names.len()
            invariant
                i <= names@.len(),
                results@.len() == i,
                forall|j: int| 0 <= j < i ==> results@[j] is None,
            decreases names@.len() - i,
        {
            results.push(None);
            i = i + 1;
        }
        RunState {
            test_names: names,
            results,
            running_idx: None,
            active: None,
            screen_lines: Vec::new(),
            done: false,
            quit: false,
            scroll_offset: 0,
        }
    }

    /// Updates the state for an event: a started test becomes the running
    /// one (its screen cleared, no session watched, the list scrolled to two
    /// rows above it); a finished test records its result; a created
    /// session is watched until it ends; the last event marks the run done.
    pub fn process_event(&mut self, ev: RunnerEvent<H>)
        requires
            ev matches RunnerEvent::TestFinished(i, _) ==> i < old(self).results@.len(),
        ensures
            final(self).test_names == old(self).test_names,
            final(self).quit == old(self).quit,
            final(self).results@.len() == old(self).results@.len(),
            match ev {
                RunnerEvent::TestStarted(i) => {
                    &&& final(self).running_idx == Some(i)
                    &&& final(self).screen_lines@.len() == 0
                    &&& final(self).active is None
                    &&& final(self).scroll_offset == sat_sub(i as int, 2) as u16
                    &&& final(self).results == old(self).results
                    &&& final(self).done == old(self).done
                },
                RunnerEvent::TestFinished(i, r) => {
                    &&& final(self).results@ == old(self).results@.update(i as int, Some(r))
                    &&& final(self).running_idx is None
                    &&& final(self).active == old(self).active
                    &&& final(self).screen_lines == old(self).screen_lines
                    &&& final(self).scroll_offset == old(self).scroll_offset
                    &&& final(self).done == old(self).done
                },
                RunnerEvent::SessionCreated(h, name) => {
                    &&& final(self).active == Some((h, name))
                    &&& final(self).results == old(self).results
                    &&& final(self).running_idx == old(self).running_idx
                    &&& final(self).screen_lines == old(self).screen_lines
                    &&& final(self).scroll_offset == old(self).scroll_offset
                    &&& final(self).done == old(self).done
                },
                RunnerEvent::SessionEnded => {
                    &&& final(self).active is None
                    &&& final(self).results == old(self).results
                    &&& final(self).running_idx == old(self).running_idx
                    &&& final(self).screen_lines == old(self).screen_lines
                    &&& final(self).scroll_offset == old(self).scroll_offset
                    &&& final(self).done == old(self).done
                },
                RunnerEvent::Done => {
                    &&& final(self).done
                    &&& final(self).results == old(self).results
                    &&& final(self).running_idx == old(self).running_idx
                    &&& final(self).active == old(self).active
                    &&& final(self).screen_lines == old(self).screen_lines
                    &&& final(self).scroll_offset == old(self).scroll_offset
                },
            },
    {
        match ev {
            RunnerEvent::TestStarted(i) => {
                self.running_idx = Some(i);
                self.screen_lines = Vec::new();
                self.active = None;
                let back: usize = if i >= 2 {
                    i - 2
                } else {
                    0
                };
                self.scroll_offset = back as u16;
            },
            RunnerEvent::TestFinished(i, r) => {
                self.results.set(i, Some(r));
                self.running_idx = None;
            },
            RunnerEvent::SessionCreated(h, name) => {
                self.active = Some((h, name));
            },
            RunnerEvent::SessionEnded => {
                self.active = None;
            },
            RunnerEvent::Done => {
                self.done = true;
            },
        }
    }

    /// How many tests have finished.
    pub fn finished(&self) -> (n: usize)
        ensures
            n == count_finished(self.results@, self.results@.len() as int),
    {
        let mut n: usize = 0;
        let mut i: usize = 0;
        while i < self.results.len()
            invariant
                i <= self.results@.len(),
                n == count_finished(self.results@, i as int),
                n <= i,
            decreases self.results@.len() - i,
        {
            if self.results[i].is_some() {
                n = n + 1;
            }
            i = i + 1;
        }
        n
    }

    /// How many tests have passed.
    pub fn passed(&self) -> (n: usize)
        ensures
            n == count_passed(self.results@, self.results@.len() as int),
    {
        let mut n: usize = 0;
        let mut i: usize = 0;
        while i < self.results.len()
            invariant
                i <= self.results@.len(),
                n == count_passed(self.results@, i as int),
                n <= i,
            decreases self.results@.len() - i,
        {
            match &self.results[i] {
                Some(TestResult::Passed(_)) => {
                    n = n + 1;
                },
                _ => {},
            }
            i = i + 1;
        }
        n
    }

    /// How many tests have failed.
    pub fn failed(&self) -> (n: usize)
        ensures
            n == count_failed(self.results@, self.results@.len() as int),
    {
        let mut n: usize = 0;
        let mut i: usize = 0;
        while i < self.results.len()
            invariant
                i <= self.results@.len(),
                n == count_failed(self.results@, i as int),
                n <= i,
            decreases self.results@.len() - i,
        {
            match &self.results[i] {
                Some(TestResult::Failed(_, _)) => {
                    n = n + 1;
                },
                _ => {},
            }
            i = i + 1;
        }
        n
    }

    /// The exit code of the run: success only when no test failed.
    pub fn exit_code(&self) -> (c: i32)
        ensures
            c == (if count_failed(self.results@, self.results@.len() as int) == 0 {
                0i32
            } else {
                1i32
            }),
    {
        if self.failed() == 0 {
            0
        } else {
            1
        }
    }

    /// A key press in the monitor. `q` or Esc (`quit_key`) ends it at once,
    /// marking the run as quit when its tests have not all finished; once
    /// they have, any key ends it. The result is the exit code to end with,
    /// or `None` to go on.
    pub fn on_key(&mut self, quit_key: bool) -> (r: Option<i32>)
        ensures
            r == (if quit_key || old(self).done {
                Some(
                    if count_failed(old(self).results@, old(self).results@.len() as int) == 0 {
                        0i32
                    } else {
                        1i32
                    },
                )
            } else {
                None::<i32>
            }),
            final(self).quit == (old(self).quit || (quit_key && !old(self).done)),
            final(self).done == old(self).done,
            final(self).results@ == old(self).results@,
            final(self).test_names@ == old(self).test_names@,
            final(self).running_idx == old(self).running_idx,
            final(self).scroll_offset == old(self).scroll_offset,
    {
        if quit_key {
            if !self.done {
                self.quit = true;
            }
            Some(self.exit_code())
        } else if self.done {
            Some(self.exit_code())
        } else {
            None
        }
    }
}

/// `a` or `b`, whichever is smaller.
pub open spec fn min_int(a: int, b: int) -> int {
    if a <= b {
        a
    } else {
        b
    }
}

/// A test's row in the monitor's list: its name cut to `max_name_w`
/// characters, and how many spaces go between it and the elapsed time so
/// that the times line up two columns past the widest name.
pub fn test_row_text(name: &str, max_name_w: usize, elapsed: &str) -> (r: (String, usize))
    requires
        max_name_w < usize::MAX - 1,
    ensures
        r.0@ == name@.take(min_int(max_name_w as int, name@.len() as int)),
        r.1 == sat_sub(sat_sub(max_name_w as int, r.0@.len() as int) + 2, elapsed@.len() as int),
{
    let cs = chars_of(name);
    let n = if cs.len() < max_name_w {
        cs.len()
    } else {
        max_name_w
    };
    let mut t: Vec<char> = Vec::new();
    let mut i: usize = 0;
    while i < n
        invariant
            i <= n <= cs@.len(),
            t@ == cs@.take(i as int),
        decreases n - i,
    {
        t.push(cs[i]);
        i = i + 1;
        assert(t@ =~= cs@.take(i as int));
    }
    let truncated = string_of(t.as_slice());
    let gap: usize = (if max_name_w > n {
        max_name_w - n
    } else {
        0
    }) + 2;
    let e = elapsed.unicode_len();
    let pad: usize = if gap > e {
        gap - e
    } else {
        0
    };
    (truncated, pad)
}

/// The rows of a list of `total` rows that a view of `height` rows
/// scrolled down by `offset` shows, as a half-open range.
pub fn visible_rows(total: usize, offset: usize, height: usize) -> (r: (usize, usize))
    ensures
        r.0 == min_int(offset as int, total as int),
        r.1 == min_int(r.0 + height, total as int),
{
    let start = if offset < total {
        offset
    } else {
        total
    };
    let end = if height < total - start {
        start + height
    } else {
        total
    };
    (start, end)
}

fn count_text(n: usize, what: &str) -> (s: String)
    ensures
        s@ == dec(n as nat) + what@,
{
    let mut s = String::new();
    push_dec(&mut s, n as u64);
    s.append(what);
    s
}

/// The texts of the monitor's status line, in order. When the run is over:
/// all passed, or the passes, the failures and the total. While it runs
/// (after the percentage, which is drawn separately): finished of total,
/// then the passes and the failures.
pub fn footer_texts(done: bool, passed: usize, failed: usize, finished: usize, total: usize) -> (ts: Vec<String>)
    ensures
        done && failed == 0 ==> ts@.map_values(|t: String| t@) == seq![
            "\u{2713} "@,
            "all "@ + dec(total as nat) + " tests passed"@,
        ],
        done && failed > 0 ==> ts@.map_values(|t: String| t@) == seq![
            "\u{2717} "@,
            dec(passed as nat) + " passed"@,
            " \u{b7} "@,
            dec(failed as nat) + " failed"@,
            " / "@ + dec(total as nat),
        ],
        !done ==> ts@.map_values(|t: String| t@) == seq![
            dec(finished as nat) + "/"@ + dec(total as nat),
            "  "@,
            dec(passed as nat) + " passed"@,
            " \u{b7} "@,
            dec(failed as nat) + " failed"@,
        ],
{
    let mut ts: Vec<String> = Vec::new();
    if done {
        if failed == 0 {
            ts.push(String::from_str("\u{2713} "));
            let mut a = String::from_str("all ");
            push_dec(&mut a, total as u64);
            a.append(" tests passed");
            ts.push(a);
            assert(ts@.map_values(|t: String| t@) =~= seq![
                "\u{2713} "@,
                "all "@ + dec(total as nat) + " tests passed"@,
            ]);
        } else {
            ts.push(String::from_str("\u{2717} "));
            ts.push(count_text(passed, " passed"));
            ts.push(String::from_str(" \u{b7} "));
            ts.push(count_text(failed, " failed"));
            let mut t = String::from_str(" / ");
            push_dec(&mut t, total as u64);
            ts.push(t);
            assert(ts@.map_values(|t: String| t@) =~= seq![
                "\u{2717} "@,
                dec(passed as nat) + " passed"@,
                " \u{b7} "@,
                dec(failed as nat) + " failed"@,
                " / "@ + dec(total as nat),
            ]);
        }
    } else {
        let mut f = String::new();
        push_dec(&mut f, finished as u64);
        f.append("/");
        push_dec(&mut f, total as u64);
        ts.push(f);
        ts.push(String::from_str("  "));
        ts.push(count_text(passed, " passed"));
        ts.push(String::from_str(" \u{b7} "));
        ts.push(count_text(failed, " failed"));
        assert(ts@.map_values(|t: String| t@) =~= seq![
            dec(finished as nat) + "/"@ + dec(total as nat),
            "  "@,
            dec(passed as nat) + " passed"@,
            " \u{b7} "@,
            dec(failed as nat) + " failed"@,
        ]);
    }
    ts
}

/// The counts of a run without a monitor, and the failures in order.
#[derive(Debug)]
pub struct Tally {
    pub passed: usize,
    pub failed: usize,
    pub failures: Vec<(String, String)>,
}

impl Tally {
    /// Nothing counted yet.
    pub fn new() -> (t: Tally)
        ensures
            t.passed == 0,
            t.failed == 0,
            t.failures@.len() == 0,
    {
        Tally { passed: 0, failed: 0, failures: Vec::new() }
    }

    /// Counts a test's result; a failure is kept with the test's name.
    pub fn record(&mut self, name: String, result: &TestResult)
        requires
            old(self).passed < usize::MAX,
            old(self).failed < usize::MAX,
        ensures
            match result {
                TestResult::Passed(_) => {
                    &&& final(self).passed == old(self).passed + 1
                    &&& final(self).failed == old(self).failed
                    &&& final(self).failures == old(self).failures
                },
                TestResult::Failed(_, m) => {
                    &&& final(self).passed == old(self).passed
                    &&& final(self).failed == old(self).failed + 1
                    &&& final(self).failures@.len() == old(self).failures@.len() + 1
                    &&& final(self).failures@.drop_last() == old(self).failures@
                    &&& final(self).failures@.last().0 == name
                    &&& final(self).failures@.last().1@ == m@
                },
            },
    {
        match result {
            TestResult::Passed(_) => {
                self.passed = self.passed + 1;
            },
            TestResult::Failed(_, m) => {
                self.failed = self.failed + 1;
                let ghost before = self.failures@;
                self.failures.push((name, m.as_str().to_owned()));
                assert(self.failures@.drop_last() =~= before);
            },
        }
    }

    /// The exit code of the run: success only when no test failed.
    pub fn exit_code(&self) -> (c: i32)
        ensures
            c == (if self.failed == 0 {
                0i32
            } else {
                1i32
            }),
    {
        if self.failed == 0 {
            0
        } else {
            1
        }
    }

    /// The closing lines: all passed; or the counts, an empty line, and each
    /// failure.
    pub fn summary_lines(&self, total: usize) -> (ls: Vec<String>)
        ensures
            self.failed == 0 ==> ls@.len() == 1 && ls@[0]@ == "\x1b[32m\x1b[1m"@ + dec(
                self.passed as nat,
            ) + "/"@ + dec(total as nat) + " passed\x1b[0m"@,
            self.failed > 0 ==> ls@.len() == self.failures@.len() + 2 && ls@[1]@ == Seq::<char>::empty() && ls@[0]@ == "\x1b[32m"@
                + dec(self.passed as nat) + " passed\x1b[0m, \x1b[31m\x1b[1m"@ + dec(
                self.failed as nat,
            ) + " failed\x1b[0m / "@ + dec(total as nat) + " total"@ && (forall|i: int|
                0 <= i < self.failures@.len() ==> #[trigger] ls@[i + 2]@ == "  \x1b[31m- "@
                    + self.failures@[i].0@ + "\x1b[0m: "@ + self.failures@[i].1@),
    {
        let mut ls: Vec<String> = Vec::new();
        if self.failed == 0 {
            let mut l = String::from_str("\x1b[32m\x1b[1m");
            push_dec(&mut l, self.passed as u64);
            l.append("/");
            push_dec(&mut l, total as u64);
            l.append(" passed\x1b[0m");
            ls.push(l);
            return ls;
        }
        let mut l = String::from_str("\x1b[32m");
        push_dec(&mut l, self.passed as u64);
        l.append(" passed\x1b[0m, \x1b[31m\x1b[1m");
        push_dec(&mut l, self.failed as u64);
        l.append(" failed\x1b[0m / ");
        push_dec(&mut l, total as u64);
        l.append(" total");
        ls.push(l);
        ls.push(String::new());
        let mut i: usize = 0;
        while i < self.failures.len()
            invariant
                i <= self.failures@.len(),
                ls@.len() == i + 2,
                ls@[1]@ == Seq::<char>::empty(),
                ls@[0]@ == "\x1b[32m"@ + dec(self.passed as nat) + " passed\x1b[0m, \x1b[31m\x1b[1m"@
                    + dec(self.failed as nat) + " failed\x1b[0m / "@ + dec(total as nat)
                    + " total"@,
                forall|j: int|
                    0 <= j < i ==> #[trigger] ls@[j + 2]@ == "  \x1b[31m- "@ + self.failures@[j].0@
                        + "\x1b[0m: "@ + self.failures@[j].1@,
            decreases self.failures@.len() - i,
        {
            let mut f = String::from_str("  \x1b[31m- ");
            f.append(self.failures[i].0.as_str());
            f.append("\x1b[0m: ");
            f.append(self.failures[i].1.as_str());
            ls.push(f);
            i = i + 1;
        }
        ls
    }
}

} // verus!
