use fterm::check_types::CheckLevel;
use fterm::validate::basic::check;

#[test]
fn all_fields_valid() {
        // Arrange
        let output = "hostname example.com\nuser admin\nport 22\nidentitiesonly yes\nidentityfile ~/.ssh/id_rsa\n";

        // Act
        let msgs = check(output, "myhost");

        // Assert
        assert!(msgs.is_empty(), "expected no messages, got: {msgs:?}");
    }

#[test]
fn missing_user_returns_error() {
        // Arrange
        let output =
            "hostname example.com\nport 22\nidentitiesonly yes\nidentityfile ~/.ssh/id_rsa\n";

        // Act
        let msgs = check(output, "myhost");

        // Assert
        assert!(
            msgs.iter()
                .any(|m| m.level == CheckLevel::Error && m.text.contains("User"))
        );
    }

#[test]
fn hostname_equals_alias_with_dots_returns_error() {
        // Arrange
        let output = "hostname org.env.host\nuser admin\nport 22\nidentitiesonly yes\nidentityfile ~/.ssh/id_rsa\n";

        // Act
        let msgs = check(output, "org.env.host");

        // Assert
        assert!(
            msgs.iter()
                .any(|m| m.level == CheckLevel::Error && m.text.contains("HostName"))
        );
    }

#[test]
fn identities_only_not_yes_returns_warn() {
        // Arrange
        let output = "hostname example.com\nuser admin\nport 22\nidentitiesonly no\nidentityfile ~/.ssh/id_rsa\n";

        // Act
        let msgs = check(output, "myhost");

        // Assert
        assert!(
            msgs.iter()
                .any(|m| m.level == CheckLevel::Warn && m.text.contains("IdentitiesOnly"))
        );
    }

#[test]
fn empty_hostname_returns_error() {
        // Arrange
        let output =
            "hostname \nuser admin\nport 22\nidentitiesonly yes\nidentityfile ~/.ssh/id_rsa\n";

        // Act
        let msgs = check(output, "myhost");

        // Assert
        assert!(
            msgs.iter()
                .any(|m| m.level == CheckLevel::Error && m.text.contains("HostName"))
        );
    }

#[test]
fn missing_port_returns_error() {
        // Arrange
        let output =
            "hostname example.com\nuser admin\nidentitiesonly yes\nidentityfile ~/.ssh/id_rsa\n";

        // Act
        let msgs = check(output, "myhost");

        // Assert
        assert!(
            msgs.iter()
                .any(|m| m.level == CheckLevel::Error && m.text.contains("Port"))
        );
    }

#[test]
fn hostname_with_two_parts_no_error() {
        // Arrange
        let output = "hostname example.com\nuser admin\nport 22\nidentitiesonly yes\nidentityfile ~/.ssh/id_rsa\n";

        // Act
        let msgs = check(output, "example.com");

        // Assert
        assert!(
            !msgs
                .iter()
                .any(|m| m.level == CheckLevel::Error && m.text.contains("HostName")),
            "expected no HostName error for 2-part hostname, got: {msgs:?}"
        );
    }

#[test]
fn all_fields_missing_returns_multiple_messages() {
        // Act
        let msgs = check("", "myhost");

        // Assert: hostname, user, port, identitiesonly, identityfile => at least 4 messages
        assert!(
            msgs.len() >= 4,
            "expected at least 4 messages for empty output, got {}: {msgs:?}",
            msgs.len()
        );
    }

#[test]
fn no_identity_file_returns_warn() {
        // Arrange
        let output = "hostname example.com\nuser admin\nport 22\nidentitiesonly yes\n";

        // Act
        let msgs = check(output, "myhost");

        // Assert
        assert!(
            msgs.iter()
                .any(|m| m.level == CheckLevel::Warn && m.text.contains("IdentityFile"))
        );
    }
