use fterm::check_types::CheckLevel;
use fterm::config::files::ConfigFile;
use fterm::validate::host_prefix::{check, has_host_pattern};

fn write_config(name: &str, content: &str) -> ConfigFile {
    ConfigFile::new(format!("/tmp/ssh/{name}"), String::from(content))
}

#[test]
fn single_part_host_skips() {
        // Arrange / Act
        let msgs = check("myhost", &[]).unwrap();

        // Assert
        assert!(msgs.is_empty());
    }

#[test]
fn matching_prefix_pattern_returns_empty() {
        // Arrange
        let config = write_config("config", "Host org.env.*\n  User admin\n");

        // Act
        let msgs = check("org.env.host", &[config]).unwrap();

        // Assert
        assert!(msgs.is_empty());
    }

#[test]
fn matching_broader_prefix_returns_empty() {
        // Arrange
        let config = write_config("config", "Host org.*\n  User admin\n");

        // Act
        let msgs = check("org.env.host", &[config]).unwrap();

        // Assert
        assert!(msgs.is_empty());
    }

#[test]
fn host_star_fallback_returns_empty() {
        // Arrange
        let config = write_config("config", "Host *\n  User admin\n");

        // Act
        let msgs = check("org.env.host", &[config]).unwrap();

        // Assert
        assert!(msgs.is_empty());
    }

#[test]
fn no_matching_pattern_returns_error() {
        // Arrange
        let config = write_config("config", "Host other.*\n  User admin\n");

        // Act
        let msgs = check("org.env.host", &[config]).unwrap();

        // Assert
        assert_eq!(msgs.len(), 1);
        assert_eq!(msgs[0].level, CheckLevel::Error);
        assert!(msgs[0].text.contains("No wildcard Host pattern"));
    }

#[test]
fn has_host_pattern_finds_pattern() {
        assert!(has_host_pattern("Host org.*\n", "org.*"));
        assert!(has_host_pattern("Host *\n", "*"));
        assert!(!has_host_pattern("Host other.*\n", "org.*"));
    }

#[test]
fn has_host_pattern_multiple_patterns_on_line() {
        assert!(has_host_pattern("Host foo.* org.*\n", "org.*"));
    }
