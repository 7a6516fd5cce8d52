use fterm::check_types::{CheckLevel, CheckMessage};
use fterm::validate::orchestrator::count_levels;

#[test]
fn count_levels_counts_correctly() {
        // Arrange
        let msgs = vec![
            CheckMessage {
                level: CheckLevel::Error,
                text: String::from("e1"),
            },
            CheckMessage {
                level: CheckLevel::Warn,
                text: String::from("w1"),
            },
            CheckMessage {
                level: CheckLevel::Error,
                text: String::from("e2"),
            },
        ];

        // Act
        let (errors, warns) = count_levels(&msgs);

        // Assert
        assert_eq!(errors, 2);
        assert_eq!(warns, 1);
    }

#[test]
fn count_levels_empty_messages_returns_zero() {
        // Arrange
        let msgs: Vec<CheckMessage> = Vec::new();

        // Act
        let (errors, warns) = count_levels(&msgs);

        // Assert
        assert_eq!(errors, 0);
        assert_eq!(warns, 0);
    }
