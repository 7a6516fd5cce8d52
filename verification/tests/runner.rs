use fterm::runner::RequestLog;
use fterm::runner::{AgentListResult, CommandOutput, CommandRunner, MockCommandRunner};

#[test]
fn mock_run_returns_registered_response() {
        // Arrange
        let runner = MockCommandRunner::new().with_run_response(
            "echo hello",
            CommandOutput {
                exit_code: 0,
                stdout: String::from("hello\n"),
                stderr: String::new(),
            },
        );

        // Act
        let out = runner.run(&mut RequestLog::new(), "echo", &["hello"], 5).unwrap();

        // Assert
        assert_eq!(out.exit_code, 0);
        assert_eq!(out.stdout, "hello\n");
    }

#[test]
fn mock_run_returns_default_for_unknown_command() {
        // Arrange
        let runner = MockCommandRunner::new();

        // Act
        let out = runner.run(&mut RequestLog::new(), "unknown", &[], 5).unwrap();

        // Assert
        assert_eq!(out.exit_code, 0);
        assert!(out.stdout.is_empty());
    }

#[test]
fn mock_ssh_resolve_returns_registered_output() {
        // Arrange
        let runner =
            MockCommandRunner::new().with_ssh_resolve("myhost", "hostname myhost\nport 22\n");

        // Act
        let result = runner.ssh_resolve(&mut RequestLog::new(), "myhost", &[]).unwrap();

        // Assert
        assert!(result.contains("hostname myhost"));
    }

#[test]
fn mock_agent_list_returns_registered_result() {
        // Arrange
        let runner = MockCommandRunner::new().with_agent_list(AgentListResult {
            available: true,
            keys: vec![String::from("SHA256:abc123 user@host (RSA)")],
        });

        // Act
        let result = runner.ssh_agent_list(&mut RequestLog::new()).unwrap();

        // Assert
        assert!(result.available);
        assert_eq!(result.keys.len(), 1);
    }

#[test]
fn mock_fingerprint_returns_registered_value() {
        // Arrange
        let runner =
            MockCommandRunner::new().with_fingerprint("/home/user/.ssh/id_rsa", "SHA256:abc123");

        // Act
        let fp = runner
            .ssh_keygen_fingerprint(&mut RequestLog::new(), "/home/user/.ssh/id_rsa")
            .unwrap();

        // Assert
        assert_eq!(fp, "SHA256:abc123");
    }

#[test]
fn mock_run_builds_key_correctly_with_args() {
        // Arrange
        let runner = MockCommandRunner::new().with_run_response(
            "git commit -m msg",
            CommandOutput {
                exit_code: 0,
                stdout: String::from("committed"),
                stderr: String::new(),
            },
        );

        // Act
        let out = runner.run(&mut RequestLog::new(), "git", &["commit", "-m", "msg"], 10).unwrap();

        // Assert
        assert_eq!(out.exit_code, 0);
        assert_eq!(out.stdout, "committed");
    }

#[test]
fn mock_ssh_resolve_returns_empty_for_unknown_host() {
        // Arrange
        let runner = MockCommandRunner::new();

        // Act
        let result = runner.ssh_resolve(&mut RequestLog::new(), "no-such-host", &[]).unwrap();

        // Assert
        assert!(result.is_empty());
    }

#[test]
fn mock_agent_list_returns_unavailable_by_default() {
        // Arrange
        let runner = MockCommandRunner::new();

        // Act
        let result = runner.ssh_agent_list(&mut RequestLog::new()).unwrap();

        // Assert
        assert!(!result.available);
        assert!(result.keys.is_empty());
    }

#[test]
fn mock_fingerprint_returns_empty_for_unknown_path() {
        // Arrange
        let runner = MockCommandRunner::new();

        // Act
        let fp = runner
            .ssh_keygen_fingerprint(&mut RequestLog::new(), "/nonexistent/key")
            .unwrap();

        // Assert
        assert!(fp.is_empty());
    }

#[test]
fn mock_run_returns_default_for_command_with_no_args() {
        // Arrange
        let runner = MockCommandRunner::new().with_run_response(
            "ls -la",
            CommandOutput {
                exit_code: 0,
                stdout: String::from("files"),
                stderr: String::new(),
            },
        );

        // Act
        let out = runner.run(&mut RequestLog::new(), "whoami", &[], 5).unwrap();

        // Assert
        assert_eq!(out.exit_code, 0);
        assert!(out.stdout.is_empty());
        assert!(out.stderr.is_empty());
    }

#[test]
fn mock_ssh_resolve_error_returns_err() {
        // Arrange
        let runner =
            MockCommandRunner::new().with_ssh_resolve_error("badhost", "line 5: bad option");

        // Act
        let result = runner.ssh_resolve(&mut RequestLog::new(), "badhost", &[]);

        // Assert
        assert!(result.is_err());
        let err_msg = result.unwrap_err().full_message();
        assert!(err_msg.contains("bad option"));
    }

#[test]
fn mock_fingerprint_error_returns_err() {
        // Arrange
        let runner = MockCommandRunner::new()
            .with_fingerprint_error("/home/user/.ssh/id_rsa", "invalid key format");

        // Act
        let result = runner.ssh_keygen_fingerprint(&mut RequestLog::new(), "/home/user/.ssh/id_rsa");

        // Assert
        assert!(result.is_err());
        let err_msg = result.unwrap_err().full_message();
        assert!(err_msg.contains("invalid key format"));
    }

#[test]
fn mock_interactive_returns_registered_code() {
        // Arrange
        let runner = MockCommandRunner::new().with_interactive_response("tmux attach", 2);

        // Act
        let code = runner.run_interactive(&mut RequestLog::new(), "tmux", &["attach"]).unwrap();

        // Assert
        assert_eq!(code, 2);
    }

#[test]
fn mock_interactive_returns_default_for_unknown() {
        // Arrange
        let runner = MockCommandRunner::new();

        // Act
        let code = runner.run_interactive(&mut RequestLog::new(), "unknown-cmd", &[]).unwrap();

        // Assert
        assert_eq!(code, 0);
    }

#[test]
fn finished_output_strips_carriage_returns_and_defaults_the_code() {
    let out = fterm::runner::finished_output(None, "line\r\nnext\r", "warn\r\n");
    assert_eq!(out.exit_code, -1);
    assert_eq!(out.stdout, "line\nnext");
    assert_eq!(out.stderr, "warn\n");
    let ok = fterm::runner::finished_output(Some(3), "", "");
    assert_eq!(ok.exit_code, 3);
}
