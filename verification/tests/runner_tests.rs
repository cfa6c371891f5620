use phantom::runner::{footer_texts, test_row_text, visible_rows};
use std::time::Duration;

use phantom::runner::{
    engine_failed_message, outcome_result, panic_message, RunState, RunnerEvent, Tally,
    TestOutcome, TestResult,
};

#[test]
fn outcomes() {
    let d = Duration::from_millis(12);
    assert!(matches!(outcome_result(TestOutcome::Passed, d), TestResult::Passed(x) if x == d));
    assert!(matches!(outcome_result(TestOutcome::Error("bad".into()), d), TestResult::Failed(_, ref m) if m == "bad"));
    assert!(matches!(outcome_result(TestOutcome::Panicked("boom".into()), d), TestResult::Failed(_, ref m) if m == "PANIC: boom"));
    assert_eq!(panic_message(None), "unknown panic");
    assert_eq!(panic_message(Some("p".into())), "p");
    assert_eq!(engine_failed_message("x"), "engine failed: x");
}

#[test]
fn monitor_state_follows_events() {
    let mut s: RunState<u8> = RunState::new(vec!["a".into(), "b".into(), "c".into(), "d".into()]);
    assert_eq!((s.finished(), s.passed(), s.failed()), (0, 0, 0));
    s.process_event(RunnerEvent::TestStarted(3));
    assert_eq!(s.running_idx, Some(3));
    assert_eq!(s.scroll_offset, 1);
    s.process_event(RunnerEvent::SessionCreated(9, "session-0".into()));
    assert_eq!(s.active, Some((9, "session-0".to_string())));
    s.process_event(RunnerEvent::SessionEnded);
    assert_eq!(s.active, None);
    s.process_event(RunnerEvent::TestFinished(3, TestResult::Failed(Duration::ZERO, "x".into())));
    s.process_event(RunnerEvent::TestFinished(0, TestResult::Passed(Duration::ZERO)));
    assert_eq!(s.running_idx, None);
    assert_eq!((s.finished(), s.passed(), s.failed()), (2, 1, 1));
    assert_eq!(s.exit_code(), 1);
    s.process_event(RunnerEvent::Done);
    assert!(s.done);
}

#[test]
fn monitor_keys() {
    let mut s: RunState<u8> = RunState::new(vec!["a".into(), "b".into()]);
    // Before the run is done only q or Esc ends it, marking it quit.
    assert_eq!(s.on_key(false), None);
    assert!(!s.quit);
    assert_eq!(s.on_key(true), Some(0));
    assert!(s.quit);
    let mut s: RunState<u8> = RunState::new(vec!["a".into()]);
    s.process_event(RunnerEvent::TestFinished(0, TestResult::Failed(Duration::ZERO, "x".into())));
    s.process_event(RunnerEvent::Done);
    // Once done, any key ends it, with the run's exit code.
    assert_eq!(s.on_key(false), Some(1));
    assert!(!s.quit);
}

#[test]
fn headless_tally() {
    let mut t = Tally::new();
    t.record("a".into(), &TestResult::Passed(Duration::ZERO));
    assert_eq!(t.exit_code(), 0);
    assert_eq!(t.summary_lines(1), vec!["\x1b[32m\x1b[1m1/1 passed\x1b[0m"]);
    t.record("b".into(), &TestResult::Failed(Duration::ZERO, "nope".into()));
    assert_eq!(t.exit_code(), 1);
    assert_eq!(
        t.summary_lines(2),
        vec![
            "\x1b[32m1 passed\x1b[0m, \x1b[31m\x1b[1m1 failed\x1b[0m / 2 total",
            "",
            "  \x1b[31m- b\x1b[0m: nope"
        ]
    );
}

#[test]
fn monitor_rows_and_footer() {
    assert_eq!(test_row_text("a_long_test_name", 6, "12ms"), ("a_long".to_string(), 0));
    assert_eq!(test_row_text("ab", 6, "1.2s"), ("ab".to_string(), 2));
    assert_eq!(test_row_text("ab", 0, ""), ("".to_string(), 2));
    assert_eq!(visible_rows(10, 3, 4), (3, 7));
    assert_eq!(visible_rows(10, 8, 4), (8, 10));
    assert_eq!(visible_rows(3, 5, 4), (3, 3));
    assert_eq!(footer_texts(true, 4, 0, 4, 4), vec!["\u{2713} ", "all 4 tests passed"]);
    assert_eq!(
        footer_texts(true, 3, 1, 4, 4),
        vec!["\u{2717} ", "3 passed", " \u{b7} ", "1 failed", " / 4"]
    );
    assert_eq!(
        footer_texts(false, 1, 0, 1, 4),
        vec!["1/4", "  ", "1 passed", " \u{b7} ", "0 failed"]
    );
}
