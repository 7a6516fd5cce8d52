use fterm::command::completion::{bash_functions, fish_functions};

#[test]
fn bash_functions_contains_fssh_and_flog() {
        // Arrange / Act
        let output = bash_functions();

        // Assert
        assert!(output.contains("fssh()"));
        assert!(output.contains("flog()"));
        assert!(output.contains("history -s"));
        assert!(output.contains("eval"));
    }

#[test]
fn bash_functions_contains_transparent_wrappers() {
        // Arrange / Act
        let output = bash_functions();

        // Assert
        assert!(output.contains("ssh()"));
        assert!(output.contains("scp()"));
        assert!(output.contains("ssh-add()"));
        assert!(output.contains("ssh-keygen()"));
        assert!(output.contains("command fterm ssh"));
        assert!(output.contains("command fterm scp"));
        assert!(output.contains("command fterm ssh-add"));
        assert!(output.contains("command fterm ssh-keygen"));
    }

#[test]
fn fish_functions_contains_fssh_and_flog() {
        // Arrange / Act
        let output = fish_functions();

        // Assert
        assert!(output.contains("function fssh"));
        assert!(output.contains("function flog"));
        assert!(output.contains("commandline $result"));
        assert!(!output.contains("commandline -f execute"));
    }

#[test]
fn fish_functions_contains_transparent_wrappers() {
        // Arrange / Act
        let output = fish_functions();

        // Assert
        assert!(output.contains("function ssh"));
        assert!(output.contains("function scp"));
        assert!(output.contains("function ssh-add"));
        assert!(output.contains("function ssh-keygen"));
    }

#[test]
fn bash_fssh_flog_suppress_stderr() {
        // Arrange / Act
        let output = bash_functions();

        // Assert
        assert!(output.contains("fterm fssh 2>/dev/null"));
        assert!(output.contains("fterm flog 2>/dev/null"));
    }

#[test]
fn bash_ssh_option_completions() {
        // Arrange / Act
        let output = bash_functions();

        // Assert
        assert!(output.contains("ssh_opts="));
        assert!(output.contains("-p"));
        assert!(output.contains("-i"));
        assert!(output.contains("-v"));
    }

#[test]
fn bash_scp_option_completions() {
        // Arrange / Act
        let output = bash_functions();

        // Assert
        assert!(output.contains("scp_opts="));
        assert!(output.contains("-r"));
        assert!(output.contains("-P"));
    }

#[test]
fn bash_scp_host_completion_has_colon_suffix() {
        // Arrange / Act
        let output = bash_functions();

        // Assert
        assert!(output.contains("compgen -S ':'"));
    }

#[test]
fn fish_scp_host_completion_has_colon_suffix() {
        // Arrange / Act
        let output = fish_functions();

        // Assert
        assert!(output.contains("__fish_seen_subcommand_from scp"));
        assert!(output.contains("sed 's/\\$/:/'"));
    }
