use fterm::runner::RequestLog;
use fterm::runner::{AgentListResult, CommandOutput, CommandRunner, MockCommandRunner};
use fterm::config::connection::get_connection_info;

#[test]
fn parses_complete_connection_info() {
        // Arrange
        let runner = MockCommandRunner::new().with_ssh_resolve(
            "myhost",
            "user deploy\nhostname 10.0.0.1\nport 2222\nidentityfile ~/.ssh/id_rsa\n",
        );

        // Act
        let result = get_connection_info(&runner, &mut RequestLog::new(), "myhost", &[]).unwrap();

        // Assert
        let info = result.unwrap();
        assert_eq!(info.user, "deploy");
        assert_eq!(info.hostname, "10.0.0.1");
        assert_eq!(info.port, "2222");
    }

#[test]
fn returns_none_when_field_missing() {
        // Arrange
        let runner =
            MockCommandRunner::new().with_ssh_resolve("myhost", "user deploy\nhostname 10.0.0.1\n");

        // Act
        let result = get_connection_info(&runner, &mut RequestLog::new(), "myhost", &[]).unwrap();

        // Assert
        assert!(result.is_none());
    }

#[test]
fn case_insensitive_keys() {
        // Arrange
        let runner = MockCommandRunner::new()
            .with_ssh_resolve("myhost", "User deploy\nHostName 10.0.0.1\nPort 2222\n");

        // Act
        let result = get_connection_info(&runner, &mut RequestLog::new(), "myhost", &[]).unwrap();

        // Assert
        let info = result.unwrap();
        assert_eq!(info.user, "deploy");
        assert_eq!(info.hostname, "10.0.0.1");
        assert_eq!(info.port, "2222");
    }

#[test]
fn preserves_value_case() {
        // Arrange — values should NOT be lowercased (e.g. user "Deploy")
        let runner = MockCommandRunner::new().with_ssh_resolve(
            "myhost",
            "user Deploy\nhostname MyServer.Example.COM\nport 2222\n",
        );

        // Act
        let result = get_connection_info(&runner, &mut RequestLog::new(), "myhost", &[]).unwrap();

        // Assert
        let info = result.unwrap();
        assert_eq!(info.user, "Deploy");
        assert_eq!(info.hostname, "MyServer.Example.COM");
    }

#[test]
fn extra_fields_ignored() {
        // Arrange
        let runner = MockCommandRunner::new().with_ssh_resolve(
            "myhost",
            "user deploy\nhostname 10.0.0.1\nport 2222\nidentityfile ~/.ssh/id_rsa\nforwardagent yes\n",
        );

        // Act
        let result = get_connection_info(&runner, &mut RequestLog::new(), "myhost", &[]).unwrap();

        // Assert
        let info = result.unwrap();
        assert_eq!(info.user, "deploy");
        assert_eq!(info.hostname, "10.0.0.1");
        assert_eq!(info.port, "2222");
    }

#[test]
fn duplicate_keys_uses_last() {
        // Arrange: same key appears twice, last value wins
        let runner = MockCommandRunner::new().with_ssh_resolve(
            "myhost",
            "user first\nhostname 10.0.0.1\nport 22\nuser second\n",
        );

        // Act
        let result = get_connection_info(&runner, &mut RequestLog::new(), "myhost", &[]).unwrap();

        // Assert
        let info = result.unwrap();
        assert_eq!(info.user, "second");
    }

#[test]
fn handles_empty_output() {
        // Arrange
        let runner = MockCommandRunner::new();

        // Act
        let result = get_connection_info(&runner, &mut RequestLog::new(), "myhost", &[]).unwrap();

        // Assert
        assert!(result.is_none());
    }
