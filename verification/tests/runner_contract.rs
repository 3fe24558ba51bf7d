//! Contract tests for the CommandRunner and IdempotentRunner interfaces.

use repro::builder::{CommandRunner, DryRunner, IdempotentRunner, MockRunner};

#[test]
fn c1_1_mock_runner_always_succeeds() {
    let runner = MockRunner::new();
    let cmd: Vec<String> = vec!["test".into(), "arg1".into()];
    assert!(runner.run(&cmd).is_ok());
}

#[test]
fn c1_3_mock_runner_captures_all_args() {
    let runner = MockRunner::new();
    let cmd: Vec<String> = vec!["prog".into(), "--foo".into(), "bar".into(), "baz".into()];
    runner.run(&cmd).unwrap();
    let captured = runner.commands();
    assert_eq!(captured.len(), 1);
    assert_eq!(captured[0], cmd);
}

#[test]
fn c1_3_mock_runner_preserves_order_across_calls() {
    let runner = MockRunner::new();
    let cmd1: Vec<String> = vec!["first".into()];
    let cmd2: Vec<String> = vec!["second".into()];
    runner.run(&cmd1).unwrap();
    runner.run(&cmd2).unwrap();
    let captured = runner.commands();
    assert_eq!(captured.len(), 2);
    assert_eq!(captured[0], cmd1);
    assert_eq!(captured[1], cmd2);
}

#[test]
fn c1_4_mock_runner_no_check_does_not_panic() {
    let runner = MockRunner::new();
    let cmd: Vec<String> = vec!["anything".into()];
    runner.run_no_check(&cmd);
}

#[test]
fn c1_5_mock_runner_no_check_captures_command() {
    let runner = MockRunner::new();
    let cmd: Vec<String> = vec!["setup".into(), "--create".into()];
    runner.run_no_check(&cmd);
    let captured = runner.commands();
    assert_eq!(captured.len(), 1);
    assert_eq!(captured[0], cmd);
}

#[test]
fn c1_1_dry_runner_always_succeeds() {
    let runner = DryRunner;
    let cmd: Vec<String> = vec!["anything".into(), "--flag".into()];
    assert!(runner.run(&cmd).is_ok());
}

#[test]
fn c1_4_dry_runner_no_check_does_not_panic() {
    let runner = DryRunner;
    let cmd: Vec<String> = vec!["nonexistent-binary".into()];
    runner.run_no_check(&cmd);
}

#[test]
fn mock_runner_default_records_nothing() {
    let runner = MockRunner::default();
    assert!(runner.commands().is_empty());
}
