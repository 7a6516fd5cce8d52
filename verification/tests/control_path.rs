use fterm::check_types::CheckLevel;
use fterm::validate::control_path::{check, DirAccess};

const HOME: &str = "/home/user";

/// The directories of the test machine: everything but `/nonexistent/...`
/// exists and is writable.
fn dir_probe(path: &str) -> DirAccess {
    DirAccess { exists: !path.starts_with("/nonexistent"), writable: true }
}

#[test]
fn control_master_disabled_skips() {
        // Act
        let msgs = check(
            "controlmaster no\ncontrolpath /tmp/ssh-%r@%h:%p\n",
            "myhost", HOME, &dir_probe,
        );

        // Assert
        assert!(msgs.is_empty());
    }

#[test]
fn control_path_none_skips() {
        // Act
        let msgs = check("controlmaster auto\ncontrolpath none\n", "myhost", HOME, &dir_probe);

        // Assert
        assert!(msgs.is_empty());
    }

#[test]
fn missing_directory_returns_warn() {
        // Act
        let msgs = check(
            "controlmaster auto\ncontrolpath /nonexistent/dir/ssh-%r@%h:%p\n",
            "myhost", HOME, &dir_probe,
        );

        // Assert
        assert!(
            msgs.iter()
                .any(|m| m.level == CheckLevel::Warn && m.text.contains("does not exist"))
        );
    }

#[test]
fn control_master_empty_skips() {
        // Act
        let msgs = check("controlmaster \ncontrolpath /tmp/ssh-%r@%h:%p\n", "myhost", HOME, &dir_probe);

        // Assert
        assert!(msgs.is_empty());
    }

#[test]
fn control_path_empty_skips() {
        // Act
        let msgs = check("controlmaster auto\ncontrolpath \n", "myhost", HOME, &dir_probe);

        // Assert
        assert!(msgs.is_empty());
    }

#[test]
fn existing_directory_no_warn() {
    // Arrange: the socket directory exists (and is writable) on the test machine.
    let control_path = format!("{}/ssh-%r@%h:%p", "/tmp/fterm-cm");
    let output = format!("controlmaster auto\ncontrolpath {control_path}\n");

    // Act
    let msgs = check(&output, "myhost", HOME, &dir_probe);

    // Assert
    assert!(msgs.is_empty(), "expected no messages: {msgs:?}");
}
