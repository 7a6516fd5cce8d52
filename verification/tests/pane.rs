use fterm::runner::RequestLog;
use fterm::runner::{AgentListResult, CommandOutput, CommandRunner, MockCommandRunner};
use fterm::tmux::pane::{get_title, reset_style, set_ssh_host, set_title, unset_ssh_host};

#[test]
fn get_title_success() {
        // Arrange
        let runner = MockCommandRunner::new().with_run_response(
            "tmux display-message -p #{pane_title}",
            CommandOutput {
                exit_code: 0,
                stdout: String::from("my-original-title\n"),
                stderr: String::new(),
            },
        );

        // Act
        let title = get_title(&runner, &mut RequestLog::new()).unwrap();

        // Assert
        assert_eq!(title, "my-original-title");
    }

#[test]
fn get_title_failure() {
        // Arrange
        let runner = MockCommandRunner::new().with_run_response(
            "tmux display-message -p #{pane_title}",
            CommandOutput {
                exit_code: 1,
                stdout: String::new(),
                stderr: String::from("no server"),
            },
        );

        // Act
        let result = get_title(&runner, &mut RequestLog::new());

        // Assert
        assert!(result.is_err());
    }

#[test]
fn set_title_success() {
        // Arrange
        let runner = MockCommandRunner::new().with_run_response(
            "tmux select-pane -T my-host",
            CommandOutput {
                exit_code: 0,
                stdout: String::new(),
                stderr: String::new(),
            },
        );

        // Act
        let result = set_title(&runner, &mut RequestLog::new(), "my-host");

        // Assert
        assert!(result.is_ok());
    }

#[test]
fn set_title_failure() {
        // Arrange
        let runner = MockCommandRunner::new().with_run_response(
            "tmux select-pane -T my-host",
            CommandOutput {
                exit_code: 1,
                stdout: String::new(),
                stderr: String::from("no current pane"),
            },
        );

        // Act
        let result = set_title(&runner, &mut RequestLog::new(), "my-host");

        // Assert
        assert!(result.is_err());
        let err_msg = result.unwrap_err().full_message();
        assert!(err_msg.contains("exit code 1"));
    }

#[test]
fn reset_style_success() {
        // Arrange
        let runner = MockCommandRunner::new().with_run_response(
            "tmux select-pane -P default",
            CommandOutput {
                exit_code: 0,
                stdout: String::new(),
                stderr: String::new(),
            },
        );

        // Act
        let result = reset_style(&runner, &mut RequestLog::new());

        // Assert
        assert!(result.is_ok());
    }

#[test]
fn reset_style_failure() {
        // Arrange
        let runner = MockCommandRunner::new().with_run_response(
            "tmux select-pane -P default",
            CommandOutput {
                exit_code: 1,
                stdout: String::new(),
                stderr: String::from("error"),
            },
        );

        // Act
        let result = reset_style(&runner, &mut RequestLog::new());

        // Assert
        assert!(result.is_err());
    }

#[test]
fn set_ssh_host_success() {
        // Arrange
        let runner = MockCommandRunner::new().with_run_response(
            "tmux set-option -p @fterm_ssh_host web-server",
            CommandOutput {
                exit_code: 0,
                stdout: String::new(),
                stderr: String::new(),
            },
        );

        // Act
        let result = set_ssh_host(&runner, &mut RequestLog::new(), "web-server");

        // Assert
        assert!(result.is_ok());
    }

#[test]
fn set_ssh_host_failure() {
        // Arrange
        let runner = MockCommandRunner::new().with_run_response(
            "tmux set-option -p @fterm_ssh_host web-server",
            CommandOutput {
                exit_code: 1,
                stdout: String::new(),
                stderr: String::from("not in tmux"),
            },
        );

        // Act
        let result = set_ssh_host(&runner, &mut RequestLog::new(), "web-server");

        // Assert
        assert!(result.is_err());
    }

#[test]
fn unset_ssh_host_success() {
        // Arrange
        let runner = MockCommandRunner::new().with_run_response(
            "tmux set-option -p -u @fterm_ssh_host",
            CommandOutput {
                exit_code: 0,
                stdout: String::new(),
                stderr: String::new(),
            },
        );

        // Act
        let result = unset_ssh_host(&runner, &mut RequestLog::new());

        // Assert
        assert!(result.is_ok());
    }

#[test]
fn unset_ssh_host_failure() {
        // Arrange
        let runner = MockCommandRunner::new().with_run_response(
            "tmux set-option -p -u @fterm_ssh_host",
            CommandOutput {
                exit_code: 1,
                stdout: String::new(),
                stderr: String::from("unknown option"),
            },
        );

        // Act
        let result = unset_ssh_host(&runner, &mut RequestLog::new());

        // Assert
        assert!(result.is_err());
    }
