use fterm::runner::RequestLog;
use fterm::runner::{AgentListResult, CommandOutput, CommandRunner, MockCommandRunner};
use fterm::tmux::window::{decrement_ssh_count, disable_rename, increment_ssh_count, read_ssh_count, set_window_option};

fn mock_with_readback(stdout: &str) -> MockCommandRunner {
    MockCommandRunner::new().with_run_response(
        "tmux show-window-option -v @fterm_ssh_count",
        CommandOutput { exit_code: 0, stdout: String::from(stdout), stderr: String::new() },
    )
}

#[test]
fn increment_from_zero() {
        // Arrange — increment only writes; no read-back needed
        let runner = MockCommandRunner::new();

        // Act
        let result = increment_ssh_count(&runner, &mut RequestLog::new());

        // Assert
        assert!(result.is_ok());
    }

#[test]
fn decrement_to_zero_restores_rename() {
        // Arrange — read-back returns "0" to trigger rename restore
        let runner = mock_with_readback("0");

        // Act
        let result = decrement_ssh_count(&runner, &mut RequestLog::new());

        // Assert
        assert!(result.is_ok());
    }

#[test]
fn decrement_above_zero_keeps_rename_off() {
        // Arrange — read-back returns "2" (still active connections)
        let runner = mock_with_readback("2");

        // Act
        let result = decrement_ssh_count(&runner, &mut RequestLog::new());

        // Assert
        assert!(result.is_ok());
    }

#[test]
fn decrement_from_zero_stays_at_zero() {
        // Arrange — atomic decrement may produce "-1"; clamp to 0
        let runner = mock_with_readback("-1");

        // Act
        let result = decrement_ssh_count(&runner, &mut RequestLog::new());

        // Assert
        assert!(result.is_ok());
    }

#[test]
fn read_ssh_count_clamps_negative() {
        // Arrange — atomic decrement on a zero counter produces "-1"
        let runner = mock_with_readback("-1");

        // Act
        let count = read_ssh_count(&runner, &mut RequestLog::new()).unwrap();

        // Assert
        assert_eq!(count, 0);
    }

#[test]
fn read_ssh_count_default_on_error() {
        // Arrange
        let runner = MockCommandRunner::new().with_run_response(
            "tmux show-window-option -v @fterm_ssh_count",
            CommandOutput {
                exit_code: 1,
                stdout: String::new(),
                stderr: String::from("unknown option"),
            },
        );

        // Act
        let count = read_ssh_count(&runner, &mut RequestLog::new()).unwrap();

        // Assert
        assert_eq!(count, 0);
    }

#[test]
fn read_ssh_count_default_on_empty() {
        // Arrange
        let runner = MockCommandRunner::new().with_run_response(
            "tmux show-window-option -v @fterm_ssh_count",
            CommandOutput {
                exit_code: 0,
                stdout: String::new(),
                stderr: String::new(),
            },
        );

        // Act
        let count = read_ssh_count(&runner, &mut RequestLog::new()).unwrap();

        // Assert
        assert_eq!(count, 0);
    }

#[test]
fn disable_rename_success() {
        // Arrange
        let runner = MockCommandRunner::new();

        // Act
        let result = disable_rename(&runner, &mut RequestLog::new());

        // Assert
        assert!(result.is_ok());
    }

#[test]
fn set_window_option_failure() {
        // Arrange
        let runner = MockCommandRunner::new().with_run_response(
            "tmux set-window-option automatic-rename off",
            CommandOutput {
                exit_code: 1,
                stdout: String::new(),
                stderr: String::from("server not found"),
            },
        );

        // Act
        let result = set_window_option(&runner, &mut RequestLog::new(), "automatic-rename", "off");

        // Assert
        assert!(result.is_err());
    }
