use popen::ChildHandle;
use popen::Popen;
use popen::SpawnError;
use popen::split_tokens;

#[test]
fn tokenize_program_and_arguments() {
    let runner = Popen::new("echo hello world");
    let tokens = runner.tokenize().unwrap();
    assert_eq!(tokens.len(), 3);
    assert_eq!(tokens[0], "echo");
    assert_eq!(tokens[1], "hello");
    assert_eq!(tokens[2], "world");
}

#[test]
fn tokenize_single_program() {
    let runner = Popen::new("true");
    let tokens = runner.tokenize().unwrap();
    assert_eq!(tokens, vec!["true".to_string()]);
}

#[test]
fn tokenize_collapses_whitespace_runs() {
    let tokens = split_tokens("  ls \t -la  \n");
    assert_eq!(tokens, vec!["ls".to_string(), "-la".to_string()]);
}

#[test]
fn tokenize_mixed_whitespace_kinds() {
    let tokens = split_tokens("a\tb\nc\rd");
    assert_eq!(
        tokens,
        vec!["a".to_string(), "b".to_string(), "c".to_string(), "d".to_string()]
    );
}

#[test]
fn tokenize_unicode_whitespace() {
    let tokens = split_tokens("a\u{00a0}b\u{3000}c");
    assert_eq!(tokens, vec!["a".to_string(), "b".to_string(), "c".to_string()]);
}

#[test]
fn tokenize_no_quoting_support() {
    let runner = Popen::new("sh -c 'echo err 1>&2'");
    let tokens = runner.tokenize().unwrap();
    assert_eq!(
        tokens,
        vec![
            "sh".to_string(),
            "-c".to_string(),
            "'echo".to_string(),
            "err".to_string(),
            "1>&2'".to_string()
        ]
    );
}

#[test]
fn tokenize_empty_command_fails() {
    let runner = Popen::new("");
    let result = runner.tokenize();
    assert!(matches!(result, Err(SpawnError::EmptyCommand)));
}

#[test]
fn tokenize_whitespace_only_command_fails() {
    let runner = Popen::new(" \t \n ");
    let result = runner.tokenize();
    assert!(matches!(result, Err(SpawnError::EmptyCommand)));
}

#[test]
fn pid_absent_before_spawn() {
    let mut runner = Popen::new("echo hi");
    assert_eq!(runner.pid(), None);
}

#[test]
fn pid_present_after_recorded_spawn() {
    let mut runner = Popen::new("echo hi");
    runner.record_spawn(1234);
    assert_eq!(runner.pid(), Some(1234));
}

#[test]
fn capture_without_child_fails() {
    let mut runner = Popen::new("echo hi");
    let result = runner.stream_capture();
    assert!(matches!(result, Err(SpawnError::AccessError)));
}

#[test]
fn capture_succeeds_once() {
    let mut runner = Popen::new("echo hi");
    runner.record_spawn(1);
    assert!(runner.stream_capture().is_ok());
}

#[test]
fn capture_twice_fails_on_stdout() {
    let mut runner = Popen::new("echo hi");
    runner.record_spawn(1);
    assert!(runner.stream_capture().is_ok());
    let second = runner.stream_capture();
    assert!(matches!(second, Err(SpawnError::StdoutCaptureError)));
}

#[test]
fn capture_with_stderr_already_taken_fails_on_stderr() {
    let mut runner = Popen {
        command: "echo hi".to_string(),
        child: Some(ChildHandle { pid: 1, stdout_taken: false, stderr_taken: true }),
    };
    let result = runner.stream_capture();
    assert!(matches!(result, Err(SpawnError::StderrCaptureError)));
    // Standard output was reached first, so it now counts as taken too.
    let again = runner.stream_capture();
    assert!(matches!(again, Err(SpawnError::StdoutCaptureError)));
}

#[test]
fn respawn_resets_the_handle() {
    let mut runner = Popen::new("echo hi");
    runner.record_spawn(1);
    assert!(runner.stream_capture().is_ok());
    runner.record_spawn(2);
    assert_eq!(runner.pid(), Some(2));
    assert!(runner.stream_capture().is_ok());
}

#[test]
fn validate_empty_stderr_returns_stdout() {
    let result = Popen::validate_streams("out\n".to_string(), String::new());
    assert_eq!(result.unwrap(), "out\n");
}

#[test]
fn validate_all_empty_returns_empty_stdout() {
    let result = Popen::validate_streams(String::new(), String::new());
    assert_eq!(result.unwrap(), "");
}

#[test]
fn validate_nonempty_stderr_fails_with_its_text() {
    let result = Popen::validate_streams("partial out".to_string(), "err\n".to_string());
    match result {
        Err(SpawnError::StderrNotEmpty(detail)) => assert_eq!(detail, "err\n"),
        _ => panic!("expected StderrNotEmpty"),
    }
}

#[test]
fn message_of_each_failure() {
    assert_eq!(SpawnError::EmptyCommand.message(), "empty command");
    assert_eq!(SpawnError::AccessError.message(), "Error accessing child process");
    assert_eq!(SpawnError::StdoutCaptureError.message(), "Failed to capture stdout");
    assert_eq!(SpawnError::StderrCaptureError.message(), "Failed to capture stderr");
    assert_eq!(
        SpawnError::StderrNotEmpty("err\n".to_string()).message(),
        "err\n"
    );
}
