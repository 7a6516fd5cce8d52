use fterm::runner::RequestLog;
use fterm::logging::filter::log_line;
use fterm::logging::start::{enable_logging, log_header, pipe_command};
use fterm::logging::stop::{footer, gzip_log, FooterKind};
use fterm::runner::{CommandOutput, MockCommandRunner};

fn strings(v: &[&str]) -> Vec<String> {
    v.iter().map(|a| String::from(*a)).collect()
}

#[test]
fn log_line_keeps_final_frame_without_escapes() {
    assert_eq!(log_line("12:00:00", "\x1b[31m0%\r100%\x1b[0m"), "[12:00:00] 100%");
    assert_eq!(log_line("t", "plain"), "[t] plain");
}

#[test]
fn footers_by_kind() {
    let rule = "-".repeat(64);
    assert_eq!(footer(FooterKind::Disconnect, "T"), format!("{rule}\n[T] === Session Disconnected ===\n"));
    assert_eq!(
        footer(FooterKind::Cleanup, "T"),
        format!("{rule}\n[T] Closed by cleanup (previous session abandoned)\n")
    );
}

#[test]
fn header_lists_details_and_keys() {
    assert_eq!(log_header(&[], &[]), "");
    assert_eq!(
        log_header(&strings(&["ProxyJump b"]), &strings(&["SHA256:k"])),
        "=== SSH Config ===\nProxyJump b\n=== Matched Agent Keys ===\nSHA256:k\n\n"
    );
}

#[test]
fn pipe_command_quotes_the_path() {
    assert_eq!(pipe_command("/l/it's.log"), "exec fterm log-filter >> '/l/it'\\''s.log'");
}

#[test]
fn returns_error_on_tmux_failure() {
    // A failing `pipe-pane` fails enabling the log.
    let runner = MockCommandRunner::new().with_run_response(
        "tmux pipe-pane exec fterm log-filter >> '/tmp/x.log'",
        CommandOutput { exit_code: 1, stdout: String::new(), stderr: String::from("no server running") },
    );
    let result = enable_logging(&runner, &mut RequestLog::new(), "/tmp/x.log");
    assert!(result.is_err());
    let err_msg = result.unwrap_err().full_message();
    assert!(err_msg.contains("tmux pipe-pane exited with code 1"), "{}", err_msg);
}

#[test]
fn gzip_failure_is_reported() {
    let runner = MockCommandRunner::new().with_run_response(
        "gzip --force /tmp/x.log",
        CommandOutput { exit_code: 1, stdout: String::new(), stderr: String::from("disk full") },
    );
    let err = gzip_log(&runner, &mut RequestLog::new(), "/tmp/x.log").unwrap_err();
    assert!(err.full_message().contains("gzip exited with code 1: disk full"), "{}", err.full_message());
}
