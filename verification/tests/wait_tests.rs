use phantom::exit_codes;
use phantom::pattern::Pattern;
use phantom::protocol::Response;
use phantom::types::WaitCondition;
use phantom::wait::{
    check_outcome, ended_positions, evaluate_conditions, evaluate_one, remove_completed,
    wait_reply, Due, Observation, PendingWait, Stability, WaitOutcome, WaitTiming,
};

fn obs(text: &str, hash: u64, now_ns: u128) -> Observation {
    Observation {
        screen_text: text.to_string(),
        screen_hash: hash,
        cursor_x: Some(3),
        cursor_y: Some(4),
        cursor_visible: Some(false),
        exit_code: None,
        now_ns,
    }
}

#[test]
fn all_conditions_must_hold() {
    let o = obs("$ ready", 7, 0);
    let mut st = Stability { last_screen_hash: 7, stable_since_ns: 0 };
    let both = vec![
        WaitCondition::TextPresent("ready".to_string()),
        WaitCondition::CursorAt { x: 3, y: 4 },
    ];
    assert!(evaluate_conditions(&o, &mut st, 7, &both));
    let partial = vec![
        WaitCondition::TextPresent("ready".to_string()),
        WaitCondition::CursorVisible(true),
    ];
    assert!(!evaluate_conditions(&o, &mut st, 7, &partial));
    assert!(evaluate_conditions(&o, &mut st, 7, &vec![]));
    assert!(evaluate_one(&o, &mut st, 1, &WaitCondition::TextAbsent("error".to_string())));
    assert!(!evaluate_one(&o, &mut st, 1, &WaitCondition::ProcessExited { exit_code: None }));
}

#[test]
fn regex_and_exit_conditions() {
    let mut o = obs("build finished in 12s", 1, 0);
    o.exit_code = Some(2);
    let mut st = Stability { last_screen_hash: 1, stable_since_ns: 0 };
    let re = Pattern::new(r"in \d+s").unwrap();
    assert!(evaluate_one(&o, &mut st, 1, &WaitCondition::Regex(re)));
    let re = Pattern::new(r"^failed").unwrap();
    assert!(!evaluate_one(&o, &mut st, 1, &WaitCondition::Regex(re)));
    assert!(evaluate_one(&o, &mut st, 1, &WaitCondition::ProcessExited { exit_code: Some(2) }));
    assert!(!evaluate_one(&o, &mut st, 1, &WaitCondition::ProcessExited { exit_code: Some(0) }));
    assert!(evaluate_one(&o, &mut st, 1, &WaitCondition::ProcessExited { exit_code: None }));
    assert!(Pattern::new("(unclosed").is_err());
}

#[test]
fn stability_tracks_changes() {
    let stable = WaitCondition::ScreenStable { duration_ms: 100 };
    let mut st = Stability { last_screen_hash: 1, stable_since_ns: 0 };
    // A new screen resets the record and fails.
    assert!(!evaluate_one(&obs("x", 2, 50_000_000), &mut st, 2, &stable));
    assert_eq!(st, Stability { last_screen_hash: 2, stable_since_ns: 50_000_000 });
    // Unchanged, but not long enough.
    assert!(!evaluate_one(&obs("x", 2, 100_000_000), &mut st, 2, &stable));
    // Unchanged for 100 ms.
    assert!(evaluate_one(&obs("x", 2, 150_000_000), &mut st, 2, &stable));
}

#[test]
fn screen_changed_counts_from_registration() {
    let changed = vec![WaitCondition::ScreenChanged];
    // The session's stability record has never seen this screen.
    let mut st = Stability { last_screen_hash: 0, stable_since_ns: 0 };
    let first = obs("$ ", 9, 1_000);
    let w = PendingWait::register("s".to_string(), changed, &first, 100, 10, ());
    assert_eq!(w.baseline_hash, 9);
    assert_eq!(w.timing.deadline_ns, 100_001_000);
    // The screen as it was when the wait began is no change, however often
    // it is checked.
    assert_eq!(w.check(Some(&first), &mut st), WaitOutcome::Pending);
    assert_eq!(w.check(Some(&obs("$ ", 9, 20_000_000)), &mut st), WaitOutcome::Pending);
    assert_eq!(st, Stability { last_screen_hash: 0, stable_since_ns: 0 });
    assert_eq!(w.check(Some(&obs("$ x", 10, 30_000_000)), &mut st), WaitOutcome::Met);
    assert_eq!(w.check(None, &mut st), WaitOutcome::SessionGone);
    assert!(evaluate_one(&obs("y", 3, 0), &mut st, 2, &WaitCondition::ScreenChanged));
    assert!(!evaluate_one(&obs("x", 2, 0), &mut st, 2, &WaitCondition::ScreenChanged));
}

#[test]
fn waits_poll_on_their_timing() {
    let first = obs("$ ", 5, 0);
    let conds = vec![WaitCondition::TextPresent("done".to_string())];
    let mut w = PendingWait::register("s".to_string(), conds, &first, 100, 10, ());
    let mut st = Stability { last_screen_hash: 5, stable_since_ns: 0 };
    // Not yet a poll interval since registration.
    assert_eq!(w.poll(5_000_000, Some(&obs("done", 6, 5_000_000)), &mut st), WaitOutcome::Pending);
    assert_eq!(w.timing.last_check_ns, 0);
    // Due: checked, and the check is recorded.
    assert_eq!(w.poll(10_000_000, Some(&obs("$ ", 5, 10_000_000)), &mut st), WaitOutcome::Pending);
    assert_eq!(w.timing.last_check_ns, 10_000_000);
    assert_eq!(w.poll(20_000_000, None, &mut st), WaitOutcome::SessionGone);
    assert_eq!(w.poll(30_000_000, Some(&obs("done", 6, 30_000_000)), &mut st), WaitOutcome::Met);
    // Past the deadline it times out, whatever the screen shows.
    assert_eq!(w.poll(100_000_000, Some(&obs("done", 6, 100_000_000)), &mut st), WaitOutcome::TimedOut);
}

#[test]
fn ended_waits_are_picked() {
    let o = vec![
        WaitOutcome::Pending,
        WaitOutcome::Met,
        WaitOutcome::Pending,
        WaitOutcome::TimedOut,
        WaitOutcome::SessionGone,
    ];
    assert_eq!(ended_positions(&o), vec![1, 3, 4]);
    assert_eq!(ended_positions(&vec![WaitOutcome::Pending]), Vec::<usize>::new());
    assert_eq!(ended_positions(&vec![]), Vec::<usize>::new());
}

#[test]
fn timing_steps() {
    let mut t = WaitTiming::start(1_000, 1, 2);
    assert_eq!(t.deadline_ns, 1_001_000);
    assert_eq!(t.step(1_500_000), Due::Expired);
    let mut t = WaitTiming::start(0, 10, 2);
    assert_eq!(t.step(1_000_000), Due::NotYet);
    assert_eq!(t.step(2_000_000), Due::Check);
    assert_eq!(t.last_check_ns, 2_000_000);
    assert_eq!(t.step(3_000_000), Due::NotYet);
    assert!(t.is_expired(10_000_000));
    assert!(!t.should_poll(3_999_999));
}

#[test]
fn outcomes_and_replies() {
    let mut st = Stability { last_screen_hash: 0, stable_since_ns: 0 };
    let conds = vec![WaitCondition::TextPresent("ok".to_string())];
    assert_eq!(check_outcome(None, &mut st, 0, &conds), WaitOutcome::SessionGone);
    assert_eq!(check_outcome(Some(&obs("ok", 0, 0)), &mut st, 0, &conds), WaitOutcome::Met);
    assert_eq!(check_outcome(Some(&obs("no", 0, 0)), &mut st, 0, &conds), WaitOutcome::Pending);
    assert!(wait_reply(WaitOutcome::Pending, "s").is_none());
    assert!(matches!(wait_reply(WaitOutcome::Met, "s"), Some(Response::Success { data: None })));
    match wait_reply(WaitOutcome::TimedOut, "s") {
        Some(Response::Error { code, message }) => {
            assert_eq!(code, exit_codes::WAIT_TIMEOUT);
            assert_eq!(message, "Wait condition timed out");
        }
        other => panic!("unexpected {other:?}"),
    }
    match wait_reply(WaitOutcome::SessionGone, "s") {
        Some(Response::Error { code, message }) => {
            assert_eq!(code, exit_codes::SESSION_NOT_FOUND);
            assert_eq!(message, "No session named 's'");
        }
        other => panic!("unexpected {other:?}"),
    }
}

#[test]
fn completed_waits_are_removed() {
    let mut v = vec!['a', 'b', 'c', 'd', 'e'];
    remove_completed(&mut v, &vec![1, 3]);
    let mut sorted = v.clone();
    sorted.sort();
    assert_eq!(sorted, vec!['a', 'c', 'e']);
    let mut w = vec![1, 2];
    remove_completed(&mut w, &vec![0, 1]);
    assert!(w.is_empty());
}
