use fterm::runner::RequestLog;
use fterm::runner::{AgentListResult, CommandOutput, CommandRunner, MockCommandRunner};
use fterm::check_types::CheckLevel;
use fterm::validate::identity::{check, FileFacts};

const HOME: &str = "/home/user";

/// The files of the test machine: everything but `/nonexistent/...` exists,
/// with mode 0600.
fn identity_probe(path: &str) -> FileFacts {
    FileFacts { exists: !path.starts_with("/nonexistent"), mode: Ok(0o100600) }
}

#[test]
fn no_identity_files_returns_empty() {
        // Arrange
        let runner = MockCommandRunner::new();

        // Act
        let msgs = check(&runner, &mut RequestLog::new(), "hostname example.com\n", "myhost", HOME, &identity_probe).unwrap();

        // Assert
        assert!(msgs.is_empty());
    }

#[test]
fn missing_identity_file_returns_error() {
        // Arrange
        let runner = MockCommandRunner::new();

        // Act
        let msgs = check(&runner, &mut RequestLog::new(), "identityfile /nonexistent/key\n", "myhost", HOME, &identity_probe).unwrap();

        // Assert
        assert!(
            msgs.iter()
                .any(|m| m.level == CheckLevel::Error && m.text.contains("not found"))
        );
    }
