use fterm::check_types::CheckLevel;
use fterm::config::files::ConfigFile;
use fterm::validate::duplicate::check;

fn write_config(name: &str, content: &str) -> ConfigFile {
    ConfigFile::new(format!("/tmp/ssh/{name}"), String::from(content))
}

#[test]
fn no_duplicates_returns_empty() {
        // Arrange
        let config = write_config("config", "Host alpha\nHost beta\n");

        // Act
        let msgs = check(&[config]).unwrap();

        // Assert
        assert!(msgs.is_empty());
    }

#[test]
fn duplicate_in_same_file_returns_warn() {
        // Arrange
        let config = write_config("config",
            "Host myhost\n  User a\n\nHost myhost\n  User b\n",
        );

        // Act
        let msgs = check(&[config]).unwrap();

        // Assert
        assert_eq!(msgs.len(), 1);
        assert_eq!(msgs[0].level, CheckLevel::Warn);
        assert!(msgs[0].text.contains("myhost"));
    }

#[test]
fn duplicate_across_files_returns_warn() {
        // Arrange
        let c1 = write_config("config1", "Host shared\n  User a\n");
        let c2 = write_config("config2", "Host shared\n  User b\n");

        // Act
        let msgs = check(&[c1, c2]).unwrap();

        // Assert
        assert_eq!(msgs.len(), 1);
        assert!(msgs[0].text.contains("shared"));
    }

#[test]
fn wildcards_are_skipped() {
        // Arrange
        let config = write_config("config", "Host *\n\nHost *\n");

        // Act
        let msgs = check(&[config]).unwrap();

        // Assert
        assert!(msgs.is_empty());
    }

#[test]
fn negation_patterns_skipped() {
        // Arrange
        let config = write_config("config", "Host !excluded\nHost !excluded\n");

        // Act
        let msgs = check(&[config]).unwrap();

        // Assert
        assert!(msgs.is_empty());
    }

#[test]
fn multiple_aliases_on_one_line() {
        // Arrange
        let config = write_config("config", "Host alpha beta\nHost alpha\n");

        // Act
        let msgs = check(&[config]).unwrap();

        // Assert
        assert_eq!(msgs.len(), 1);
        assert!(msgs[0].text.contains("alpha"));
    }
