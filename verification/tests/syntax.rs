use fterm::runner::RequestLog;
use fterm::runner::{AgentListResult, CommandOutput, CommandRunner, MockCommandRunner};
use fterm::check_types::CheckLevel;
use fterm::validate::syntax::check;

#[test]
fn syntax_ok_returns_empty() {
        // Arrange
        let runner = MockCommandRunner::new().with_ssh_resolve(
            "syntax.check.dummy.host",
            "hostname syntax.check.dummy.host\n",
        );

        // Act
        let msgs = check(&runner, &mut RequestLog::new(), &[]).unwrap();

        // Assert
        assert!(msgs.is_empty());
    }

#[test]
fn syntax_error_returns_error_messages() {
        // Arrange
        let runner = MockCommandRunner::new().with_ssh_resolve_error(
            "syntax.check.dummy.host",
            "/home/user/.ssh/config: line 5: Bad configuration option: xyz\nunknown keyword",
        );

        // Act
        let msgs = check(&runner, &mut RequestLog::new(), &[]).unwrap();

        // Assert
        assert!(!msgs.is_empty());
        assert!(msgs.iter().all(|m| m.level == CheckLevel::Error));
    }

#[test]
fn syntax_error_with_invalid_keyword() {
        // Arrange
        let runner = MockCommandRunner::new()
            .with_ssh_resolve_error("syntax.check.dummy.host", "line 10: invalid option");

        // Act
        let msgs = check(&runner, &mut RequestLog::new(), &[]).unwrap();

        // Assert
        assert_eq!(msgs.len(), 1);
        assert!(msgs[0].level == CheckLevel::Error);
        assert!(msgs[0].text.contains("invalid"));
    }

#[test]
fn syntax_error_with_multiple_lines() {
        // Arrange
        let runner = MockCommandRunner::new().with_ssh_resolve_error(
            "syntax.check.dummy.host",
            "line 3: Bad option xyz\nline 7: unknown keyword abc",
        );

        // Act
        let msgs = check(&runner, &mut RequestLog::new(), &[]).unwrap();

        // Assert
        assert_eq!(msgs.len(), 2);
        assert!(msgs.iter().all(|m| m.level == CheckLevel::Error));
    }

#[test]
fn syntax_error_with_mixed_lines() {
        // Arrange
        let runner = MockCommandRunner::new().with_ssh_resolve_error(
            "syntax.check.dummy.host",
            "some informational line\nline 5: error in config\nanother line",
        );

        // Act
        let msgs = check(&runner, &mut RequestLog::new(), &[]).unwrap();

        // Assert: only the line containing "error" should be captured
        assert_eq!(msgs.len(), 1);
        assert!(msgs[0].text.contains("error"));
    }

#[test]
fn syntax_error_no_keyword_match_still_reports() {
        // Arrange
        let runner = MockCommandRunner::new()
            .with_ssh_resolve_error("syntax.check.dummy.host", "something went wrong");

        // Act
        let msgs = check(&runner, &mut RequestLog::new(), &[]).unwrap();

        // Assert
        assert_eq!(msgs.len(), 1);
        assert!(msgs[0].text.contains("SSH config syntax error"));
    }
