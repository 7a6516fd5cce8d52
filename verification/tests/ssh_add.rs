use fterm::command::ssh::resolve_ssh_command;

#[test]
fn resolve_ssh_command_returns_ssh_add() {
        // Arrange / Act
        let cmd = resolve_ssh_command(None, "ssh-add");

        // Assert — on non-MSYS2 it should return the bare name
        assert!(
            cmd.contains("ssh-add"),
            "resolved command should contain ssh-add: {cmd}"
        );
    }
