use fterm::runner::RequestLog;
use fterm::runner::{AgentListResult, CommandOutput, CommandRunner, MockCommandRunner};
use fterm::tmux::session::{build_escaped_command, ensure_tmux, get_pane_pid, get_tmux_identifiers, shell_escape, TmuxAction};

/// The process id standing for this process when tmux gives none.
const OWN_PID: u32 = 4242;

#[test]
fn shell_escape_empty_string() {
        // Arrange / Act
        let result = shell_escape("");

        // Assert
        assert_eq!(result, "''");
    }

#[test]
fn shell_escape_simple_token() {
        // Arrange / Act
        let result = shell_escape("hello");

        // Assert
        assert_eq!(result, "hello");
    }

#[test]
fn shell_escape_token_with_spaces() {
        // Arrange / Act
        let result = shell_escape("hello world");

        // Assert
        assert_eq!(result, "'hello world'");
    }

#[test]
fn shell_escape_token_with_single_quotes() {
        // Arrange / Act
        let result = shell_escape("it's");

        // Assert
        assert_eq!(result, "'it'\\''s'");
    }

#[test]
fn build_escaped_command_basic() {
        // Arrange / Act
        let result = build_escaped_command("fterm", "ssh", &[String::from("host")]);

        // Assert
        assert_eq!(result, "fterm ssh host");
    }

#[test]
fn build_escaped_command_with_special_args() {
        // Arrange / Act
        let result = build_escaped_command("fterm", "ssh", &[String::from("my host")]);

        // Assert
        assert_eq!(result, "fterm ssh 'my host'");
    }

#[test]
fn build_escaped_command_empty_subcommand() {
        // Arrange / Act
        let result = build_escaped_command("fterm", "", &[]);

        // Assert
        assert_eq!(result, "fterm");
    }

#[test]
fn get_tmux_identifiers_returns_trimmed_stdout_on_success() {
        // Arrange
        let runner = MockCommandRunner::new().with_run_response(
            "tmux display-message -p #{session_name}-#{window_index}.#{pane_index}",
            CommandOutput {
                exit_code: 0,
                stdout: String::from("main-2.1\n"),
                stderr: String::new(),
            },
        );

        // Act
        let result = get_tmux_identifiers(&runner, &mut RequestLog::new());

        // Assert
        assert_eq!(result, "main-2.1");
    }

#[test]
fn get_tmux_identifiers_returns_fallback_on_empty_stdout() {
        // Arrange
        let runner = MockCommandRunner::new().with_run_response(
            "tmux display-message -p #{session_name}-#{window_index}.#{pane_index}",
            CommandOutput {
                exit_code: 0,
                stdout: String::new(),
                stderr: String::new(),
            },
        );

        // Act
        let result = get_tmux_identifiers(&runner, &mut RequestLog::new());

        // Assert
        assert_eq!(result, "unknown-0.0");
    }

#[test]
fn get_tmux_identifiers_returns_fallback_on_failure() {
        // Arrange
        let runner = MockCommandRunner::new().with_run_response(
            "tmux display-message -p #{session_name}-#{window_index}.#{pane_index}",
            CommandOutput {
                exit_code: 1,
                stdout: String::new(),
                stderr: String::from("error: no tmux server"),
            },
        );

        // Act
        let result = get_tmux_identifiers(&runner, &mut RequestLog::new());

        // Assert
        assert_eq!(result, "unknown-0.0");
    }

#[test]
fn get_pane_pid_returns_trimmed_pid_on_success() {
        // Arrange
        let runner = MockCommandRunner::new().with_run_response(
            "tmux display-message -p #{pane_pid}",
            CommandOutput {
                exit_code: 0,
                stdout: String::from("8765\n"),
                stderr: String::new(),
            },
        );

        // Act
        let result = get_pane_pid(&runner, &mut RequestLog::new(), OWN_PID);

        // Assert
        assert_eq!(result, "8765");
    }

#[test]
fn get_pane_pid_falls_back_to_process_id_on_empty_stdout() {
        // Arrange
        let runner = MockCommandRunner::new().with_run_response(
            "tmux display-message -p #{pane_pid}",
            CommandOutput {
                exit_code: 0,
                stdout: String::new(),
                stderr: String::new(),
            },
        );

        // Act
        let result = get_pane_pid(&runner, &mut RequestLog::new(), OWN_PID);

        // Assert — fallback is a numeric process ID
        assert!(!result.is_empty(), "fallback should not be empty");
        assert!(
            result.parse::<u32>().is_ok(),
            "fallback should be a number: {result}"
        );
    }

#[test]
fn get_pane_pid_falls_back_to_process_id_on_failure() {
        // Arrange
        let runner = MockCommandRunner::new().with_run_response(
            "tmux display-message -p #{pane_pid}",
            CommandOutput {
                exit_code: 1,
                stdout: String::new(),
                stderr: String::from("error: no tmux server"),
            },
        );

        // Act
        let result = get_pane_pid(&runner, &mut RequestLog::new(), OWN_PID);

        // Assert — fallback is a numeric process ID
        assert!(
            result.parse::<u32>().is_ok(),
            "fallback should be numeric: {result}"
        );
    }

fn tmux_ok(stdout: &str) -> CommandOutput {
    CommandOutput { exit_code: 0, stdout: String::from(stdout), stderr: String::new() }
}

#[test]
fn delegates_when_session_exists() {
    let runner = MockCommandRunner::new()
        .with_run_response("tmux -V", tmux_ok("tmux 3.4"))
        .with_run_response("tmux has-session -t login-session", tmux_ok(""))
        .with_run_response("tmux send-keys -t login-session fterm ssh myhost Enter", tmux_ok(""))
        .with_interactive_response("tmux attach-session -t login-session", 0);
    let result = ensure_tmux(&runner, &mut RequestLog::new(), false, "fterm", "ssh", &[String::from("myhost")]).unwrap();
    assert_eq!(result, TmuxAction::DelegatedToTmux);
}

#[test]
fn creates_session_when_missing() {
    let runner = MockCommandRunner::new()
        .with_run_response("tmux -V", tmux_ok("tmux 3.4"))
        .with_run_response(
            "tmux has-session -t login-session",
            CommandOutput { exit_code: 1, stdout: String::new(), stderr: String::from("can't find session: login-session") },
        )
        .with_run_response("tmux new-session -d -s login-session", tmux_ok(""))
        .with_run_response("tmux send-keys -t login-session fterm Enter", tmux_ok(""))
        .with_interactive_response("tmux attach-session -t login-session", 0);
    let result = ensure_tmux(&runner, &mut RequestLog::new(), false, "fterm", "", &[]).unwrap();
    assert_eq!(result, TmuxAction::DelegatedToTmux);
}

#[test]
fn already_in_tmux_does_nothing() {
    let runner = MockCommandRunner::new();
    let result = ensure_tmux(&runner, &mut RequestLog::new(), true, "fterm", "ssh", &[]).unwrap();
    assert_eq!(result, TmuxAction::AlreadyInTmux);
}

#[test]
fn failed_new_session_is_an_error() {
    let runner = MockCommandRunner::new()
        .with_run_response(
            "tmux has-session -t login-session",
            CommandOutput { exit_code: 1, stdout: String::new(), stderr: String::new() },
        )
        .with_run_response(
            "tmux new-session -d -s login-session",
            CommandOutput { exit_code: 1, stdout: String::new(), stderr: String::from("no server") },
        );
    let result = ensure_tmux(&runner, &mut RequestLog::new(), false, "fterm", "", &[]);
    assert_eq!(result.unwrap_err().full_message(), "tmux new-session exited with code 1: no server");
}

#[test]
fn failed_send_keys_is_an_error() {
    let runner = MockCommandRunner::new().with_run_response(
        "tmux send-keys -t login-session fterm Enter",
        CommandOutput { exit_code: 1, stdout: String::new(), stderr: String::from("can't find pane ") },
    );
    let result = ensure_tmux(&runner, &mut RequestLog::new(), false, "fterm", "", &[]);
    assert_eq!(result.unwrap_err().full_message(), "tmux send-keys exited with code 1: can't find pane");
}

#[test]
fn tmux_identifier_format_separates_window_and_pane() {
    assert_eq!(fterm::tmux::session::TMUX_ID_FORMAT, "#{session_name}-#{window_index}.#{pane_index}");
}
