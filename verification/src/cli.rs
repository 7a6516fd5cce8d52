//! The command line of `fterm`: its subcommands and their arguments.
//!
//! These are the plain values the library works with; the program parses
//! them from the command line.

use vstd::prelude::*;

verus! {

/// SSH/SCP connection management tool with fuzzy finder, tmux integration,
/// and config validation.
#[derive(Debug)]
pub struct Cli {
    /// Subcommand to execute.
    pub command: Commands,
}

/// Available subcommands.
#[derive(Debug)]
pub enum Commands {
    /// Interactive SSH host selection via fzf.
    Fssh,
    /// SSH wrapper with validation, logging, and tmux integration.
    Ssh(SshArgs),
    /// SCP wrapper with validation and logging.
    Scp(ScpArgs),
    /// Log viewer with fzf UI.
    Flog,
    /// SSH config template generator (interactive).
    Fgen,
    /// ANSI filter + timestamp for tmux pipe-pane (internal use).
    LogFilter,
    /// ssh-add wrapper (MSYS2: routes to Windows OpenSSH).
    SshAdd(SshAddArgs),
    /// ssh-keygen wrapper (MSYS2: routes to Windows OpenSSH).
    SshKeygen(SshKeygenArgs),
    /// Generate shell completions and helper functions.
    Completion(CompletionArgs),
}

/// Arguments for shell completion generation.
#[derive(Debug)]
pub struct CompletionArgs {
    /// Target shell.
    pub shell: ShellType,
    /// Print SSH host list for completion (one per line).
    pub list_hosts: bool,
}

/// Supported shells for completion generation.
#[derive(Clone, Copy, Debug, PartialEq, Eq, Structural)]
pub enum ShellType {
    /// Bash shell.
    Bash,
    /// Fish shell.
    Fish,
}

/// Arguments passed through to the ssh command.
#[derive(Debug)]
pub struct SshArgs {
    /// Arguments forwarded to ssh.
    pub args: Vec<String>,
}

/// Arguments passed through to the scp command.
#[derive(Debug)]
pub struct ScpArgs {
    /// Arguments forwarded to scp.
    pub args: Vec<String>,
}

/// Arguments passed through to the ssh-add command.
#[derive(Debug)]
pub struct SshAddArgs {
    /// Arguments forwarded to ssh-add.
    pub args: Vec<String>,
}

/// Arguments passed through to the ssh-keygen command.
#[derive(Debug)]
pub struct SshKeygenArgs {
    /// Arguments forwarded to ssh-keygen.
    pub args: Vec<String>,
}

} // verus!
