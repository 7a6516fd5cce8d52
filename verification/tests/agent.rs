use fterm::runner::RequestLog;
use fterm::runner::{AgentListResult, CommandOutput, CommandRunner, MockCommandRunner};
use fterm::config::agent::get_matched_agent_keys;

#[test]
fn returns_empty_when_no_identity_files() {
        // Arrange
        let runner = MockCommandRunner::new()
            .with_ssh_resolve("myhost", "user deploy\nhostname example.com\n")
            .with_agent_list(AgentListResult {
                available: true,
                keys: vec![String::from("256 SHA256:abc123 user@host (ED25519)")],
            });

        // Act
        let result = get_matched_agent_keys(&runner, &mut RequestLog::new(), "myhost", &[], "/home/user").unwrap();

        // Assert
        assert!(result.is_empty());
    }

#[test]
fn returns_empty_when_agent_unavailable() {
        // Arrange
        let runner =
            MockCommandRunner::new().with_ssh_resolve("myhost", "identityfile ~/.ssh/id_ed25519\n");

        // Act
        let result = get_matched_agent_keys(&runner, &mut RequestLog::new(), "myhost", &[], "/home/user").unwrap();

        // Assert
        assert!(result.is_empty());
    }

#[test]
fn skips_identity_files_with_no_fingerprint() {
        // Arrange — no fingerprint registered, so ssh-keygen will return empty
        let runner = MockCommandRunner::new()
            .with_ssh_resolve("myhost", "identityfile /nonexistent/key\n")
            .with_agent_list(AgentListResult {
                available: true,
                keys: vec![String::from("256 SHA256:abc123 user@host (ED25519)")],
            });

        // Act
        let result = get_matched_agent_keys(&runner, &mut RequestLog::new(), "myhost", &[], "/home/user").unwrap();

        // Assert
        assert!(result.is_empty());
    }
