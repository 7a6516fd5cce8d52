use fterm::ssh_parse::{parse_ssh_g_value, parse_ssh_g_values};

#[test]
fn parse_ssh_g_value_finds_key() {
        // Arrange
        let output = "hostname example.com\nport 22\nuser admin\n";

        // Act
        let hostname = parse_ssh_g_value(output, "hostname");
        let port = parse_ssh_g_value(output, "port");

        // Assert
        assert_eq!(hostname, Some(String::from("example.com")));
        assert_eq!(port, Some(String::from("22")));
    }

#[test]
fn parse_ssh_g_value_case_insensitive() {
        // Arrange
        let output = "HostName example.com\n";

        // Act
        let result = parse_ssh_g_value(output, "hostname");

        // Assert
        assert_eq!(result, Some(String::from("example.com")));
    }

#[test]
fn parse_ssh_g_value_returns_none_for_missing_key() {
        // Arrange
        let output = "hostname example.com\n";

        // Act
        let result = parse_ssh_g_value(output, "user");

        // Assert
        assert!(result.is_none());
    }

#[test]
fn parse_ssh_g_values_collects_all() {
        // Arrange
        let output = "identityfile ~/.ssh/id_rsa\nidentityfile ~/.ssh/id_ed25519\n";

        // Act
        let result = parse_ssh_g_values(output, "identityfile");

        // Assert
        assert_eq!(result.len(), 2);
        assert_eq!(result[0], "~/.ssh/id_rsa");
        assert_eq!(result[1], "~/.ssh/id_ed25519");
    }

#[test]
fn parse_ssh_g_value_empty_output_returns_none() {
        // Arrange
        let output = "";

        // Act
        let result = parse_ssh_g_value(output, "hostname");

        // Assert
        assert!(result.is_none());
    }

#[test]
fn parse_ssh_g_values_empty_output_returns_empty_vec() {
        // Arrange
        let output = "";

        // Act
        let result = parse_ssh_g_values(output, "identityfile");

        // Assert
        assert!(result.is_empty());
    }

#[test]
fn parse_ssh_g_values_no_matching_key_returns_empty_vec() {
        // Arrange
        let output = "hostname example.com\nport 22\nuser admin\n";

        // Act
        let result = parse_ssh_g_values(output, "identityfile");

        // Assert
        assert!(result.is_empty());
    }

#[test]
fn line_value_for_matches_keys_in_any_case() {
    assert_eq!(fterm::ssh_parse::line_value_for("HostName example.com", "hostname"), Some(String::from("example.com")));
    assert_eq!(fterm::ssh_parse::line_value_for("user alice", "hostname"), None);
    assert_eq!(fterm::ssh_parse::line_value_for("hostname", "hostname"), None);
}
