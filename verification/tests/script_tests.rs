use phantom::script::{batch_args, batch_commands, batch_failure_message, batch_stop, snapshot_diff};

#[test]
fn batch_lines() {
    assert_eq!(batch_args("   "), None);
    assert_eq!(batch_args("  # comment"), None);
    assert_eq!(
        batch_args("  phantom send -s a --key enter "),
        Some(vec!["send".to_string(), "-s".to_string(), "a".to_string(), "--key".to_string(), "enter".to_string()])
    );
    assert_eq!(batch_args("pt list"), Some(vec!["list".to_string()]));
    assert_eq!(batch_args("list\t--json"), Some(vec!["list".to_string(), "--json".to_string()]));
    assert_eq!(batch_args("phantom"), Some(vec![]));
}

#[test]
fn batch_file() {
    let cmds = batch_commands("# setup\nphantom run -s a -- bash\n\n  pt wait -s a --stable  \n");
    assert_eq!(cmds.len(), 2);
    assert_eq!(cmds[0].line_number, 2);
    assert_eq!(cmds[0].line, "phantom run -s a -- bash");
    assert_eq!(cmds[0].args, vec!["run", "-s", "a", "--", "bash"]);
    assert_eq!(cmds[1].line_number, 4);
    assert_eq!(cmds[1].line, "pt wait -s a --stable");
    assert_eq!(cmds[1].args, vec!["wait", "-s", "a", "--stable"]);
    assert_eq!(batch_failure_message(4, 2), "Line 4: command failed with exit code 2");
    assert_eq!(batch_failure_message(1, -1), "Line 1: command failed with exit code -1");
    assert_eq!(batch_stop(true, Some(0)), None);
    assert_eq!(batch_stop(false, Some(3)), Some(3));
    assert_eq!(batch_stop(false, None), Some(1));
}

#[test]
fn snapshot_differences() {
    assert!(snapshot_diff("a\nb", "a\nb").is_none());
    let d = snapshot_diff("a\nb\nc", "a\nB").unwrap();
    assert_eq!(d.len(), 2);
    assert_eq!((d[0].index, d[0].expected.as_str(), d[0].actual.as_str()), (1, "b", "B"));
    assert_eq!((d[1].index, d[1].expected.as_str(), d[1].actual.as_str()), (2, "c", ""));
    // Same lines, different text: nothing to list, but not the same.
    let d = snapshot_diff("a\n", "a").unwrap();
    assert!(d.is_empty());
}
