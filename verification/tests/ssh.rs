use fterm::util::splash::LocalTime;
use fterm::runner::RequestLog;
use fterm::runner::{AgentListResult, CommandOutput, CommandRunner, MockCommandRunner};
use fterm::command::ssh::generate_log_path;
use fterm::config::connection::parse_connection_info;

const LOG_PREFIX: &str = "/var/log/fterm";
const OWN_PID: u32 = 4242;

#[test]
fn generate_log_path_contains_expected_parts() {
        // Arrange
        let runner = MockCommandRunner::new().with_run_response(
            "tmux display-message -p #{pane_pid}",
            CommandOutput {
                exit_code: 0,
                stdout: String::from("12345\n"),
                stderr: String::new(),
            },
        );

        // Act
        let path = generate_log_path(&runner, &mut RequestLog::new(), &fixed_time(), LOG_PREFIX, "deploy", "server1", "ssh", OWN_PID);
        let path_str = path.as_str();

        // Assert
        assert!(path_str.contains("ssh_deploy@server1_12345.log"));
    }

#[test]
fn parse_connection_info_with_valid_info() {
        // Arrange
        let output = "user deploy\nhostname 10.0.0.1\nport 2222\n";

        // Act
        let conn = parse_connection_info(output).unwrap();

        // Assert
        assert_eq!(conn.user, "deploy");
        assert_eq!(conn.hostname, "10.0.0.1");
        assert_eq!(conn.port, "2222");
    }

#[test]
fn parse_connection_info_returns_none_when_fields_missing() {
        // Arrange — empty output means no fields
        let conn = parse_connection_info("");

        // Assert
        assert!(conn.is_none());
    }

#[test]
fn generate_log_path_uses_pane_pid() {
        // Arrange
        let runner = MockCommandRunner::new().with_run_response(
            "tmux display-message -p #{pane_pid}",
            CommandOutput {
                exit_code: 0,
                stdout: String::from("9999\n"),
                stderr: String::new(),
            },
        );

        // Act
        let path = generate_log_path(&runner, &mut RequestLog::new(), &fixed_time(), LOG_PREFIX, "admin", "web01", "ssh", OWN_PID);
        let path_str = path.as_str();

        // Assert — pane_pid is at the end, before .log
        assert!(path_str.contains("ssh_admin@web01_9999.log"));
    }

/// A fixed local time for the library's texts.
fn fixed_time() -> LocalTime {
    LocalTime {
        banner: String::from("2024-01-02 03:04:05"),
        log_date: String::from("2024/01/02"),
        log_stamp: String::from("20240102T030405"),
    }
}
