use fterm::util::splash::LocalTime;
use fterm::runner::RequestLog;
use fterm::runner::{AgentListResult, CommandOutput, CommandRunner, MockCommandRunner};
use chrono::Local;
use fterm::command::scp::{generate_scp_log_path, resolve_all_hosts};

const LOG_PREFIX: &str = "/var/log/fterm";
const OWN_PID: u32 = 4242;

#[test]
fn resolve_all_hosts_uses_ssh_g_user() {
        // Arrange — two hosts, each with a distinct resolved user
        let runner = MockCommandRunner::new()
            .with_ssh_resolve("host1", "hostname 10.0.0.1\nuser alice\nport 22\n")
            .with_ssh_resolve("host2", "hostname 10.0.0.2\nuser bob\nport 22\n");
        let input = vec![(None, String::from("host1")), (None, String::from("host2"))];
        let config_args: Vec<String> = vec![];

        // Act
        let (pairs, first_output) = resolve_all_hosts(&runner, &mut RequestLog::new(), &input, &config_args).unwrap();

        // Assert
        assert_eq!(
            pairs,
            vec![
                (String::from("alice"), String::from("host1")),
                (String::from("bob"), String::from("host2")),
            ]
        );
        assert!(
            first_output.contains("alice"),
            "first_output should be host1 output"
        );
    }

#[test]
fn resolve_all_hosts_prefers_explicit_user() {
        // Arrange — explicit user in arg overrides ssh -G resolved user
        let runner = MockCommandRunner::new()
            .with_ssh_resolve("host1", "hostname 10.0.0.1\nuser config-user\nport 22\n");
        let input = vec![(Some(String::from("explicit")), String::from("host1"))];
        let config_args: Vec<String> = vec![];

        // Act
        let (pairs, _) = resolve_all_hosts(&runner, &mut RequestLog::new(), &input, &config_args).unwrap();

        // Assert — explicit user takes precedence
        assert_eq!(
            pairs,
            vec![(String::from("explicit"), String::from("host1"))]
        );
    }

#[test]
fn resolve_all_hosts_defaults_unknown_on_parse_failure() {
        // Arrange — ssh -G returns empty output (parse fails)
        let runner = MockCommandRunner::new().with_ssh_resolve("host1", "");
        let input = vec![(None, String::from("host1"))];
        let config_args: Vec<String> = vec![];

        // Act
        let (pairs, _) = resolve_all_hosts(&runner, &mut RequestLog::new(), &input, &config_args).unwrap();

        // Assert — falls back to "unknown"
        assert_eq!(
            pairs,
            vec![(String::from("unknown"), String::from("host1"))]
        );
    }

#[test]
fn generate_scp_log_path_contains_expected_parts() {
        // Arrange
        let runner = MockCommandRunner::new().with_run_response(
            "tmux display-message -p #{pane_pid}",
            CommandOutput {
                exit_code: 0,
                stdout: String::from("11111\n"),
                stderr: String::new(),
            },
        );
        let pairs = vec![
            (String::from("deploy"), String::from("host1")),
            (String::from("deploy"), String::from("host2")),
        ];

        // Act
        let path = generate_scp_log_path(&runner, &mut RequestLog::new(), &local_now(), LOG_PREFIX, &pairs, OWN_PID);
        let path_str = path.as_str();

        // Assert — format: scp_{user@host}_{pane_pid}.log
        assert!(path_str.contains("scp_deploy@host1_deploy@host2_11111.log"));
    }

#[test]
fn generate_scp_log_path_single_host() {
        // Arrange
        let runner = MockCommandRunner::new().with_run_response(
            "tmux display-message -p #{pane_pid}",
            CommandOutput {
                exit_code: 0,
                stdout: String::from("22222\n"),
                stderr: String::new(),
            },
        );
        let pairs = vec![(String::from("root"), String::from("web-server"))];

        // Act
        let path = generate_scp_log_path(&runner, &mut RequestLog::new(), &local_now(), LOG_PREFIX, &pairs, OWN_PID);
        let path_str = path.as_str();

        // Assert
        assert!(path_str.contains("scp_root@web-server_22222.log"));
        assert!(path_str.ends_with(".log"));
    }

#[test]
fn generate_scp_log_path_multi_host_different_users() {
        // Arrange
        let runner = MockCommandRunner::new().with_run_response(
            "tmux display-message -p #{pane_pid}",
            CommandOutput {
                exit_code: 0,
                stdout: String::from("33333\n"),
                stderr: String::new(),
            },
        );
        let pairs = vec![
            (String::from("alice"), String::from("host1")),
            (String::from("bob"), String::from("host2")),
        ];

        // Act
        let path = generate_scp_log_path(&runner, &mut RequestLog::new(), &local_now(), LOG_PREFIX, &pairs, OWN_PID);
        let path_str = path.as_str();

        // Assert — each host gets its own user@host segment, followed by pane_pid
        assert!(path_str.contains("scp_alice@host1_bob@host2_33333.log"));
    }

#[test]
fn generate_scp_log_path_contains_date_directory() {
        // Arrange
        let runner = MockCommandRunner::new();
        let now = Local::now();
        let expected_date = now.format("%Y/%m/%d").to_string();
        let pairs = vec![(String::from("user"), String::from("host"))];

        // Act
        let path = generate_scp_log_path(&runner, &mut RequestLog::new(), &local_now(), LOG_PREFIX, &pairs, OWN_PID);
        let path_str = path.as_str();

        // Assert
        assert!(
            path_str.contains(&expected_date),
            "path should contain date directory: {path_str}"
        );
    }

#[test]
fn generate_scp_log_path_contains_timestamp_prefix() {
        // Arrange
        let runner = MockCommandRunner::new();
        let now = Local::now();
        let expected_prefix = now.format("%Y%m%dT%H%M").to_string();
        let pairs = vec![(String::from("admin"), String::from("db-server"))];

        // Act
        let path = generate_scp_log_path(&runner, &mut RequestLog::new(), &local_now(), LOG_PREFIX, &pairs, OWN_PID);
        let path_str = path.as_str();

        // Assert
        assert!(
            path_str.contains(&expected_prefix),
            "path should contain timestamp prefix: {path_str}"
        );
    }

/// The local time now, as the program reads it.
fn local_now() -> LocalTime {
    let now = Local::now();
    LocalTime {
        banner: now.format("%Y-%m-%d %H:%M:%S").to_string(),
        log_date: now.format("%Y/%m/%d").to_string(),
        log_stamp: now.format("%Y%m%dT%H%M%S").to_string(),
    }
}
