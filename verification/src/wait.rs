//! Evaluating wait conditions against what a session shows, and the
//! bookkeeping of pending waits.

use vstd::prelude::*;
use vstd::string::*;
use vstd::multiset::Multiset;
use crate::exit_codes;
use crate::pattern::regex_matches;
use crate::protocol::Response;
use crate::text::{chars_of, contains_chars, contains_seq, occurs_at};
use crate::types::WaitCondition;

verus! {

/// What a session shows at the moment its wait conditions are checked.
#[derive(Debug)]
pub struct Observation {
    /// The plain text of the active screen.
    pub screen_text: String,
    /// A digest of `screen_text`.
    pub screen_hash: u64,
    /// Cursor position, where the terminal reports it.
    pub cursor_x: Option<u16>,
    pub cursor_y: Option<u16>,
    /// Cursor visibility, where the terminal reports it.
    pub cursor_visible: Option<bool>,
    /// Exit code, once the process has exited.
    pub exit_code: Option<i32>,
    /// The current time, in nanoseconds on the engine's clock.
    pub now_ns: u128,
}

/// What a session remembers between checks to tell whether its screen has
/// settled.
#[derive(Debug, Clone, Copy, PartialEq, Eq, Structural)]
pub struct Stability {
    /// Digest of the screen when it last changed.
    pub last_screen_hash: u64,
    /// When the screen last changed, in nanoseconds on the engine's clock.
    pub stable_since_ns: u128,
}

/// Whether one condition holds, and the stability record afterwards. Only a
/// screen-stable check that sees a new screen updates the record (and
/// fails). `baseline` is the digest of the screen when the wait began: a
/// screen-changed condition holds once the screen differs from it.
pub open spec fn spec_holds(obs: Observation, st: Stability, baseline: u64, cond: WaitCondition) -> (bool, Stability) {
    match cond {
        WaitCondition::TextPresent(t) => (contains_seq(obs.screen_text@, t@), st),
        WaitCondition::TextAbsent(t) => (!contains_seq(obs.screen_text@, t@), st),
        WaitCondition::Regex(p) => (regex_matches(p.source(), obs.screen_text@), st),
        WaitCondition::ScreenStable { duration_ms } => if obs.screen_hash != st.last_screen_hash {
            (false, Stability { last_screen_hash: obs.screen_hash, stable_since_ns: obs.now_ns })
        } else {
            (obs.now_ns >= st.stable_since_ns && obs.now_ns - st.stable_since_ns >= duration_ms
                * 1_000_000, st)
        },
        WaitCondition::CursorAt { x, y } => (obs.cursor_x == Some(x) && obs.cursor_y == Some(y), st),
        WaitCondition::CursorVisible(v) => (obs.cursor_visible == Some(v), st),
        WaitCondition::ProcessExited { exit_code } => (match obs.exit_code {
            Some(actual) => match exit_code {
                Some(expected) => actual == expected,
                None => true,
            },
            None => false,
        }, st),
        WaitCondition::ScreenChanged => (obs.screen_hash != baseline, st),
    }
}

/// Whether all conditions hold, checked in order and stopping at the first
/// that does not, and the stability record afterwards.
pub open spec fn spec_all_hold(obs: Observation, st: Stability, baseline: u64, conds: Seq<WaitCondition>) -> (bool, Stability)
    decreases conds.len(),
{
    if conds.len() == 0 {
        (true, st)
    } else {
        let (b, st2) = spec_holds(obs, st, baseline, conds[0]);
        if !b {
            (false, st2)
        } else {
            spec_all_hold(obs, st2, baseline, conds.drop_first())
        }
    }
}

/// All conditions of a wait must hold together: the check succeeds exactly
/// when each condition holds on its own against the same observation and
/// stability record, and a successful check leaves the record as it was.
pub proof fn law_all_conditions_hold(
    obs: Observation,
    st: Stability,
    baseline: u64,
    conds: Seq<WaitCondition>,
)
    ensures
        spec_all_hold(obs, st, baseline, conds).0 <==> (forall|i: int|
            0 <= i < conds.len() ==> (#[trigger] spec_holds(obs, st, baseline, conds[i])).0),
        spec_all_hold(obs, st, baseline, conds).0 ==> spec_all_hold(obs, st, baseline, conds).1 == st,
    decreases conds.len(),
{
    if conds.len() > 0 {
        let rest = conds.drop_first();
        law_all_conditions_hold(obs, st, baseline, rest);
        let (b, st2) = spec_holds(obs, st, baseline, conds[0]);
        if b {
            assert(st2 == st);
            assert forall|i: int| 0 <= i < rest.len() implies (#[trigger] spec_holds(obs, st, baseline, rest[i])).0
                == spec_holds(obs, st, baseline, conds[i + 1]).0 by {
                assert(rest[i] == conds[i + 1]);
            }
            if forall|i: int| 0 <= i < conds.len() ==> (#[trigger] spec_holds(obs, st, baseline, conds[i])).0 {
                assert forall|i: int| 0 <= i < rest.len() implies (#[trigger] spec_holds(obs, st, baseline, rest[i])).0 by {
                    assert(spec_holds(obs, st, baseline, conds[i + 1]).0);
                }
            }
            if spec_all_hold(obs, st, baseline, conds).0 {
                assert forall|i: int| 0 <= i < conds.len() implies (#[trigger] spec_holds(obs, st, baseline, conds[i])).0 by {
                    if i > 0 {
                        assert(spec_holds(obs, st, baseline, rest[i - 1]).0);
                        assert(rest[i - 1] == conds[i]);
                    }
                }
            }
        } else {
            assert(!(spec_holds(obs, st, baseline, conds[0])).0);
        }
    }
}

/// What each condition asks of what a session shows, over every
/// observation: a cursor condition holds exactly when both reported
/// coordinates are the requested ones (so a differing row or column, or an
/// unreported one, fails it); a visibility condition holds exactly when the
/// reported visibility is the requested one; text absence is the negation
/// of text presence; a process-exit condition without a code holds exactly
/// when an exit code is known, and one with a code holds exactly when the
/// known code is that code (so it implies the one without). None of these
/// touches the stability record. A screen-stable condition fails on a
/// screen other than the recorded one and records it, with the time;
/// on the recorded screen it holds once the duration has passed since that
/// time. A screen-changed condition holds exactly when the screen differs
/// from the baseline.
pub proof fn law_condition_meanings(
    obs: Observation,
    st: Stability,
    baseline: u64,
    x: u16,
    y: u16,
    visible: bool,
    text: String,
    code: i32,
    duration_ms: u64,
)
    ensures
        obs.screen_hash != st.last_screen_hash ==> !spec_holds(obs, st, baseline, WaitCondition::ScreenStable { duration_ms }).0
            && spec_holds(obs, st, baseline, WaitCondition::ScreenStable { duration_ms }).1 == (Stability {
            last_screen_hash: obs.screen_hash,
            stable_since_ns: obs.now_ns,
        }),
        obs.screen_hash == st.last_screen_hash ==> (spec_holds(obs, st, baseline, WaitCondition::ScreenStable { duration_ms }).0
            <==> obs.now_ns >= st.stable_since_ns + duration_ms * 1_000_000)
            && spec_holds(obs, st, baseline, WaitCondition::ScreenStable { duration_ms }).1 == st,
        spec_holds(obs, st, baseline, WaitCondition::ScreenChanged).0 <==> obs.screen_hash != baseline,
        spec_holds(obs, st, baseline, WaitCondition::CursorAt { x, y }).0 <==> (obs.cursor_x
            == Some(x) && obs.cursor_y == Some(y)),
        obs.cursor_y != Some(y) ==> !spec_holds(obs, st, baseline, WaitCondition::CursorAt { x, y }).0,
        obs.cursor_x != Some(x) ==> !spec_holds(obs, st, baseline, WaitCondition::CursorAt { x, y }).0,
        spec_holds(obs, st, baseline, WaitCondition::CursorAt { x, y }).1 == st,
        spec_holds(obs, st, baseline, WaitCondition::CursorVisible(visible)).0 <==> obs.cursor_visible
            == Some(visible),
        spec_holds(obs, st, baseline, WaitCondition::CursorVisible(visible)).1 == st,
        spec_holds(obs, st, baseline, WaitCondition::TextAbsent(text)).0 == !spec_holds(
            obs,
            st,
            baseline,
            WaitCondition::TextPresent(text),
        ).0,
        spec_holds(obs, st, baseline, WaitCondition::TextPresent(text)).0 <==> exists|i: int|
            0 <= i && i + text@.len() <= obs.screen_text@.len() && #[trigger] obs.screen_text@.subrange(
                i,
                i + text@.len(),
            ) == text@,
        spec_holds(obs, st, baseline, WaitCondition::ProcessExited { exit_code: None }).0 <==> obs.exit_code is Some,
        spec_holds(obs, st, baseline, WaitCondition::ProcessExited { exit_code: Some(code) }).0 <==> obs.exit_code
            == Some(code),
        spec_holds(obs, st, baseline, WaitCondition::ProcessExited { exit_code: Some(code) }).0
            ==> spec_holds(obs, st, baseline, WaitCondition::ProcessExited { exit_code: None }).0,
{
    let t = obs.screen_text@;
    let n = text@;
    if contains_seq(t, n) {
        let i = choose|i: int| occurs_at(t, n, i);
        assert(t.subrange(i, i + n.len()) == n);
    }
    if exists|i: int| 0 <= i && i + n.len() <= t.len() && #[trigger] t.subrange(i, i + n.len()) == n {
        let i = choose|i: int| 0 <= i && i + n.len() <= t.len() && #[trigger] t.subrange(i, i + n.len()) == n;
        assert(occurs_at(t, n, i));
    }
}

/// Checks one condition.
pub fn evaluate_one(obs: &Observation, st: &mut Stability, baseline: u64, cond: &WaitCondition) -> (b: bool)
    ensures
        (b, *final(st)) == spec_holds(*obs, *old(st), baseline, *cond),
{
    match cond {
        WaitCondition::TextPresent(t) => {
            let s = chars_of(obs.screen_text.as_str());
            let n = chars_of(t.as_str());
            contains_chars(s.as_slice(), n.as_slice())
        }
        WaitCondition::TextAbsent(t) => {
            let s = chars_of(obs.screen_text.as_str());
            let n = chars_of(t.as_str());
            !contains_chars(s.as_slice(), n.as_slice())
        }
        WaitCondition::Regex(p) => p.is_match(obs.screen_text.as_str()),
        WaitCondition::ScreenStable { duration_ms } => {
            if obs.screen_hash != st.last_screen_hash {
                st.last_screen_hash = obs.screen_hash;
                st.stable_since_ns = obs.now_ns;
                false
            } else {
                let need: u128 = (*duration_ms as u128) * 1_000_000;
                obs.now_ns >= st.stable_since_ns && obs.now_ns - st.stable_since_ns >= need
            }
        }
        WaitCondition::CursorAt { x, y } => {
            let xm = match obs.cursor_x {
                Some(cx) => cx == *x,
                None => false,
            };
            let ym = match obs.cursor_y {
                Some(cy) => cy == *y,
                None => false,
            };
            xm && ym
        }
        WaitCondition::CursorVisible(v) => match obs.cursor_visible {
            Some(cv) => cv == *v,
            None => false,
        },
        WaitCondition::ProcessExited { exit_code } => match obs.exit_code {
            Some(actual) => match exit_code {
                Some(expected) => actual == *expected,
                None => true,
            },
            None => false,
        },
        WaitCondition::ScreenChanged => obs.screen_hash != baseline,
    }
}

/// Checks all conditions in order; true when every one holds.
pub fn evaluate_conditions(
    obs: &Observation,
    st: &mut Stability,
    baseline: u64,
    conds: &Vec<WaitCondition>,
) -> (b: bool)
    ensures
        (b, *final(st)) == spec_all_hold(*obs, *old(st), baseline, conds@),
{
    let ghost st0 = *st;
    let mut i: usize = 0;
    assert(conds@.skip(0) =~= conds@);
    while i < conds.len()
        invariant
            i <= conds@.len(),
            st0 == *old(st),
            spec_all_hold(*obs, st0, baseline, conds@) == spec_all_hold(
                *obs,
                *st,
                baseline,
                conds@.skip(i as int),
            ),
        decreases conds@.len() - i,
    {
        assert(conds@.skip(i as int).drop_first() =~= conds@.skip(i + 1));
        assert(conds@.skip(i as int)[0] == conds@[i as int]);
        let ghost st_i = *st;
        let holds = evaluate_one(obs, st, baseline, &conds[i]);
        if !holds {
            assert(spec_all_hold(*obs, st_i, baseline, conds@.skip(i as int)) == (false, *st));
            return false;
        }
        i = i + 1;
    }
    true
}

/// When a pending wait is due, on the engine's clock (nanoseconds).
#[derive(Debug, Clone, Copy, PartialEq, Eq, Structural)]
pub struct WaitTiming {
    pub deadline_ns: u128,
    pub poll_interval_ns: u128,
    pub last_check_ns: u128,
}

impl WaitTiming {
    /// The deadline has passed.
    pub fn is_expired(&self, now_ns: u128) -> (b: bool)
        ensures
            b == (now_ns >= self.deadline_ns),
    {
        now_ns >= self.deadline_ns
    }

    /// At least one poll interval has passed since the last check.
    pub fn should_poll(&self, now_ns: u128) -> (b: bool)
        ensures
            b == (now_ns >= self.last_check_ns && now_ns - self.last_check_ns
                >= self.poll_interval_ns),
    {
        now_ns >= self.last_check_ns && now_ns - self.last_check_ns >= self.poll_interval_ns
    }
}

/// What a pending wait needs at a poll of the engine loop.
#[derive(Debug, Clone, Copy, PartialEq, Eq, Structural)]
pub enum Due {
    /// The deadline has passed.
    Expired,
    /// The poll interval has not passed since the last check.
    NotYet,
    /// The conditions are to be checked now.
    Check,
}

impl WaitTiming {
    /// The timing of a wait registered at `now_ns`.
    pub fn start(now_ns: u128, timeout_ms: u64, poll_ms: u64) -> (t: WaitTiming)
        requires
            now_ns + timeout_ms * 1_000_000 <= u128::MAX,
        ensures
            t.deadline_ns == now_ns + timeout_ms * 1_000_000,
            t.poll_interval_ns == poll_ms * 1_000_000,
            t.last_check_ns == now_ns,
    {
        let timeout_ns: u128 = (timeout_ms as u128) * 1_000_000;
        let poll_ns: u128 = (poll_ms as u128) * 1_000_000;
        WaitTiming { deadline_ns: now_ns + timeout_ns, poll_interval_ns: poll_ns, last_check_ns: now_ns }
    }

    /// Expired first; otherwise due when a poll interval has passed, which
    /// records `now_ns` as the last check.
    pub fn step(&mut self, now_ns: u128) -> (d: Due)
        ensures
            d == (if now_ns >= old(self).deadline_ns {
                Due::Expired
            } else if now_ns >= old(self).last_check_ns && now_ns - old(self).last_check_ns
                >= old(self).poll_interval_ns {
                Due::Check
            } else {
                Due::NotYet
            }),
            final(self).deadline_ns == old(self).deadline_ns,
            final(self).poll_interval_ns == old(self).poll_interval_ns,
            final(self).last_check_ns == (if d == Due::Check {
                now_ns
            } else {
                old(self).last_check_ns
            }),
    {
        if self.is_expired(now_ns) {
            Due::Expired
        } else if !self.should_poll(now_ns) {
            Due::NotYet
        } else {
            self.last_check_ns = now_ns;
            Due::Check
        }
    }
}

/// How a pending wait ended, or that it goes on.
#[derive(Debug, Clone, Copy, PartialEq, Eq, Structural)]
pub enum WaitOutcome {
    TimedOut,
    Met,
    SessionGone,
    Pending,
}

/// The reply owed for an outcome, if the wait has ended.
pub fn wait_reply(outcome: WaitOutcome, session: &str) -> (r: Option<Response>)
    ensures
        match outcome {
            WaitOutcome::TimedOut => r matches Some(Response::Error { code, message })
                && code == exit_codes::WAIT_TIMEOUT && message@ == "Wait condition timed out"@,
            WaitOutcome::Met => r == Some(Response::Success { data: None }),
            WaitOutcome::SessionGone => r matches Some(Response::Error { code, message })
                && code == exit_codes::SESSION_NOT_FOUND && message@ == "No session named '"@
                + session@ + "'"@,
            WaitOutcome::Pending => r is None,
        },
{
    match outcome {
        WaitOutcome::TimedOut => Some(
            Response::error(exit_codes::WAIT_TIMEOUT, String::from_str("Wait condition timed out")),
        ),
        WaitOutcome::Met => Some(Response::ok()),
        WaitOutcome::SessionGone => Some(Response::session_not_found(session)),
        WaitOutcome::Pending => None,
    }
}

/// The outcome of checking a wait's conditions: the session is gone when
/// there is nothing to observe; otherwise met when all conditions hold.
pub fn check_outcome(
    obs: Option<&Observation>,
    st: &mut Stability,
    baseline: u64,
    conds: &Vec<WaitCondition>,
) -> (o: WaitOutcome)
    ensures
        match obs {
            None => o == WaitOutcome::SessionGone && *final(st) == *old(st),
            Some(ob) => {
                let (b, st2) = spec_all_hold(*ob, *old(st), baseline, conds@);
                &&& o == (if b { WaitOutcome::Met } else { WaitOutcome::Pending })
                &&& *final(st) == st2
            },
        },
{
    match obs {
        None => WaitOutcome::SessionGone,
        Some(ob) => if evaluate_conditions(ob, st, baseline, conds) {
            WaitOutcome::Met
        } else {
            WaitOutcome::Pending
        },
    }
}

/// A wait the engine holds until it is met, times out, or its session
/// goes away; `reply` is where the caller sends the answer.
#[derive(Debug)]
pub struct PendingWait<R> {
    pub session: String,
    pub conditions: Vec<WaitCondition>,
    pub timing: WaitTiming,
    /// Digest of the session's screen when the wait was registered.
    pub baseline_hash: u64,
    pub reply: R,
}

impl<R> PendingWait<R> {
    /// A wait registered on `first`, what its session shows at that moment:
    /// the deadline and the poll interval count from then, and the screen
    /// then is the one a screen change is measured against.
    pub fn register(
        session: String,
        conditions: Vec<WaitCondition>,
        first: &Observation,
        timeout_ms: u64,
        poll_ms: u64,
        reply: R,
    ) -> (w: PendingWait<R>)
        requires
            first.now_ns + timeout_ms * 1_000_000 <= u128::MAX,
        ensures
            w.session == session,
            w.conditions == conditions,
            w.baseline_hash == first.screen_hash,
            w.timing.deadline_ns == first.now_ns + timeout_ms * 1_000_000,
            w.timing.poll_interval_ns == poll_ms * 1_000_000,
            w.timing.last_check_ns == first.now_ns,
            w.reply == reply,
    {
        let timing = WaitTiming::start(first.now_ns, timeout_ms, poll_ms);
        PendingWait { session, conditions, timing, baseline_hash: first.screen_hash, reply }
    }

    /// Checks the wait's conditions on what its session shows now (`None`
    /// when the session is gone), against the wait's own baseline.
    pub fn check(&self, obs: Option<&Observation>, st: &mut Stability) -> (o: WaitOutcome)
        ensures
            match obs {
                None => o == WaitOutcome::SessionGone && *final(st) == *old(st),
                Some(ob) => {
                    let (b, st2) = spec_all_hold(*ob, *old(st), self.baseline_hash, self.conditions@);
                    &&& o == (if b { WaitOutcome::Met } else { WaitOutcome::Pending })
                    &&& *final(st) == st2
                },
            },
    {
        check_outcome(obs, st, self.baseline_hash, &self.conditions)
    }
}

/// What a wait's timing says at `now_ns`: expired first, otherwise due when
/// a poll interval has passed since the last check.
pub open spec fn spec_due(t: WaitTiming, now_ns: u128) -> Due {
    if now_ns >= t.deadline_ns {
        Due::Expired
    } else if now_ns >= t.last_check_ns && now_ns - t.last_check_ns >= t.poll_interval_ns {
        Due::Check
    } else {
        Due::NotYet
    }
}

impl<R> PendingWait<R> {
    /// One poll of the engine loop: the wait has timed out once its deadline
    /// has passed; it goes on when no poll interval has passed since its
    /// last check; otherwise it is checked now on what its session shows
    /// (`None` when the session is gone), which records the check.
    pub fn poll(&mut self, now_ns: u128, obs: Option<&Observation>, st: &mut Stability) -> (o: WaitOutcome)
        ensures
            final(self).session == old(self).session,
            final(self).conditions == old(self).conditions,
            final(self).baseline_hash == old(self).baseline_hash,
            final(self).reply == old(self).reply,
            final(self).timing.deadline_ns == old(self).timing.deadline_ns,
            final(self).timing.poll_interval_ns == old(self).timing.poll_interval_ns,
            final(self).timing.last_check_ns == (if spec_due(old(self).timing, now_ns) == Due::Check {
                now_ns
            } else {
                old(self).timing.last_check_ns
            }),
            match spec_due(old(self).timing, now_ns) {
                Due::Expired => o == WaitOutcome::TimedOut && *final(st) == *old(st),
                Due::NotYet => o == WaitOutcome::Pending && *final(st) == *old(st),
                Due::Check => match obs {
                    None => o == WaitOutcome::SessionGone && *final(st) == *old(st),
                    Some(ob) => {
                        let (b, st2) = spec_all_hold(
                            *ob,
                            *old(st),
                            old(self).baseline_hash,
                            old(self).conditions@,
                        );
                        &&& o == (if b { WaitOutcome::Met } else { WaitOutcome::Pending })
                        &&& *final(st) == st2
                    },
                },
            },
    {
        match self.timing.step(now_ns) {
            Due::Expired => WaitOutcome::TimedOut,
            Due::NotYet => WaitOutcome::Pending,
            Due::Check => self.check(obs, st),
        }
    }
}

/// A screen-changed wait needs a change since it began: a wait registered on
/// `first`, with a screen-changed condition among its conditions, is not met
/// by any later observation whose screen has the digest it had then,
/// whatever the stability record. With that condition alone, it is met by
/// every observation whose digest differs.
pub proof fn law_screen_changed_since_registration<R>(
    w: PendingWait<R>,
    first: Observation,
    obs: Observation,
    st: Stability,
)
    requires
        w.baseline_hash == first.screen_hash,
    ensures
        w.conditions@.contains(WaitCondition::ScreenChanged) && obs.screen_hash
            == first.screen_hash ==> !spec_all_hold(obs, st, w.baseline_hash, w.conditions@).0,
        w.conditions@ == seq![WaitCondition::ScreenChanged] ==> (spec_all_hold(
            obs,
            st,
            w.baseline_hash,
            w.conditions@,
        ).0 <==> obs.screen_hash != first.screen_hash),
{
    law_all_conditions_hold(obs, st, w.baseline_hash, w.conditions@);
    if w.conditions@.contains(WaitCondition::ScreenChanged) {
        let k = w.conditions@.index_of(WaitCondition::ScreenChanged);
        assert(w.conditions@[k] == WaitCondition::ScreenChanged);
        assert(spec_holds(obs, st, w.baseline_hash, w.conditions@[k]).0 == (obs.screen_hash
            != first.screen_hash));
    }
    if w.conditions@ == seq![WaitCondition::ScreenChanged] {
        assert(w.conditions@[0] == WaitCondition::ScreenChanged);
    }
}

/// The positions, in increasing order, of the waits whose outcome ends them
/// (every outcome but `Pending`).
pub fn ended_positions(outcomes: &Vec<WaitOutcome>) -> (idx: Vec<usize>)
    ensures
        increasing_below(idx@, outcomes@.len() as int),
        forall|k: int| 0 <= k < idx@.len() ==> outcomes@[#[trigger] idx@[k] as int] != WaitOutcome::Pending,
        forall|i: int|
            0 <= i < outcomes@.len() && #[trigger] outcomes@[i] != WaitOutcome::Pending
                ==> idx@.contains(i as usize),
{
    let mut idx: Vec<usize> = Vec::new();
    let mut i: usize = 0;
    while i < outcomes.len()
        invariant
            i <= outcomes@.len(),
            forall|k: int| 0 <= k < idx@.len() ==> #[trigger] idx@[k] < i,
            forall|k: int, l: int| 0 <= k < l < idx@.len() ==> idx@[k] < idx@[l],
            forall|k: int| 0 <= k < idx@.len() ==> outcomes@[#[trigger] idx@[k] as int] != WaitOutcome::Pending,
            forall|j: int|
                0 <= j < i && #[trigger] outcomes@[j] != WaitOutcome::Pending ==> idx@.contains(j as usize),
        decreases outcomes@.len() - i,
    {
        if outcomes[i] != WaitOutcome::Pending {
            let ghost old_idx = idx@;
            idx.push(i);
            assert forall|j: int|
                0 <= j < i + 1 && #[trigger] outcomes@[j] != WaitOutcome::Pending implies idx@.contains(j as usize) by {
                if j < i {
                    let k = old_idx.index_of(j as usize);
                    assert(idx@[k] == j as usize);
                } else {
                    assert(idx@[old_idx.len() as int] == i);
                }
            }
        }
        i = i + 1;
    }
    idx
}

/// Whether `idx` lists strictly increasing positions below `n`.
pub open spec fn increasing_below(idx: Seq<usize>, n: int) -> bool {
    &&& forall|i: int| 0 <= i < idx.len() ==> #[trigger] idx[i] < n
    &&& forall|i: int, j: int| 0 <= i < j < idx.len() ==> idx[i] < idx[j]
}

/// The elements at the listed positions.
pub open spec fn picked<T>(v: Seq<T>, idx: Seq<usize>) -> Multiset<T>
    decreases idx.len(),
{
    if idx.len() == 0 {
        Multiset::empty()
    } else {
        picked(v, idx.drop_first()).insert(v[idx[0] as int])
    }
}

/// Removes the elements at the listed positions (each by swapping the last
/// element into its place, from the highest position down), keeping every
/// other element exactly once.
pub fn remove_completed<T>(v: &mut Vec<T>, completed: &Vec<usize>)
    requires
        increasing_below(completed@, old(v)@.len() as int),
    ensures
        final(v)@.len() == old(v)@.len() - completed@.len(),
        final(v)@.to_multiset().add(picked(old(v)@, completed@)) == old(v)@.to_multiset(),
{
    let ghost orig = v@;
    let mut k: usize = completed.len();
    proof {
        assert(completed@.skip(k as int) =~= Seq::<usize>::empty());
        broadcast use vstd::multiset::group_multiset_axioms;
        assert(v@.to_multiset().add(Multiset::empty()) =~= v@.to_multiset());
    }
    while k > 0
        invariant
            k <= completed@.len(),
            increasing_below(completed@, orig.len() as int),
            v@.len() == orig.len() - (completed@.len() - k),
            forall|i: int| 0 <= i < k ==> #[trigger] completed@[i] < v@.len(),
            forall|i: int| 0 <= i < k ==> v@[completed@[i] as int] == orig[completed@[i] as int],
            v@.to_multiset().add(picked(orig, completed@.skip(k as int))) == orig.to_multiset(),
        decreases k,
    {
        k = k - 1;
        let i = completed[k];
        let ghost before = v@;
        let ghost e = before[i as int];
        let _removed = v.swap_remove(i);
        proof {
            lemma_swap_remove_multiset(before, i as int);
            assert forall|j: int| 0 <= j < k implies #[trigger] completed@[j] < v@.len() && v@[completed@[j] as int] == orig[completed@[j] as int] by {
                assert(completed@[j] < completed@[k as int]);
            }
            assert(completed@.skip(k as int).drop_first() =~= completed@.skip(k + 1));
            assert(picked(orig, completed@.skip(k as int)) == picked(orig, completed@.skip(k + 1)).insert(e));
            broadcast use vstd::multiset::group_multiset_axioms;
            assert(v@.to_multiset().add(picked(orig, completed@.skip(k as int))) =~= v@.to_multiset().insert(e).add(picked(orig, completed@.skip(k + 1))));
        }
    }
    proof {
        assert(completed@.skip(0) =~= completed@);
    }
}

proof fn lemma_swap_remove_multiset<T>(s: Seq<T>, i: int)
    requires
        0 <= i < s.len(),
    ensures
        s.update(i, s.last()).drop_last().to_multiset().insert(s[i]) == s.to_multiset(),
{
    broadcast use vstd::seq_lib::group_to_multiset_ensures, vstd::multiset::group_multiset_axioms;
    let l = s.last();
    let u = s.update(i, l);
    let t = u.drop_last();
    assert(u =~= t.push(l));
    assert(u.to_multiset() == s.to_multiset().insert(l).remove(s[i]));
    assert(u.to_multiset() == t.to_multiset().insert(l));
    assert(s.contains(s[i]));
    assert(s.to_multiset().count(s[i]) > 0);
    assert forall|x: T| #[trigger] t.to_multiset().insert(s[i]).count(x) == s.to_multiset().count(x) by {
        assert(t.to_multiset().insert(l).count(x) == s.to_multiset().insert(l).remove(s[i]).count(x));
    }
    assert(t.to_multiset().insert(s[i]) =~= s.to_multiset());
}

} // verus!
