use mycli::status::{finish, not_found, ChildOutcome};

#[test]
fn exit_code_of_tool_is_relayed() {
    for code in [0, 2, 127] {
        let f = finish(ChildOutcome::Exited(code));
        assert_eq!(f.code, code);
        assert!(f.stderr.is_empty());
    }
}

#[test]
fn signal_ends_with_one() {
    let f = finish(ChildOutcome::Signaled);
    assert_eq!(f.code, 1);
    assert!(f.stderr.is_empty());
}

#[test]
fn spawn_failure_reports_system_error() {
    let f = finish(ChildOutcome::SpawnFailed("Permission denied (os error 13)".to_string()));
    assert_eq!(f.code, 1);
    assert_eq!(
        f.stderr,
        vec!["Failed to execute zarf: Permission denied (os error 13)".to_string()]
    );
}

#[test]
fn missing_tool_gives_two_line_diagnostic() {
    let f = not_found();
    assert_eq!(f.code, 1);
    assert_eq!(f.stderr.len(), 2);
    assert!(f.stderr[0].contains("zarf"));
    assert!(f.stderr.iter().all(|line| line.contains("PATH")));
    assert_eq!(f.stderr[0], "Error: 'zarf' command not found in PATH");
}
