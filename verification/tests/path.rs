use fterm::util::path::expand_tilde;

#[test]
fn no_tilde_returns_as_is() {
        // Arrange / Act
        let expanded = expand_tilde("/absolute/path", "/home/user");

        // Assert
        assert_eq!(expanded, "/absolute/path");
    }
