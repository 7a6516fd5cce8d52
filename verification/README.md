# fterm

An SSH/SCP connection manager: `ssh` and `scp` wrappers that validate the SSH
configuration, log each session through tmux and mark the tmux pane and
window while a session runs; a log viewer and a config template generator
driven by fzf and prompts; and shell completion.

The library (`src/`) is written in Verus and verified. Every decision the
program makes lives there, with its contract:

- `command/connect.rs`: the whole `ssh`/`scp` wrapper as a state machine
  (`connect_step`), built from the checks and steps of `command/session.rs`,
  `command/ssh.rs` and `command/scp.rs`.
- `command/fgen.rs`: the template generator's dialogue (`fgen_step`).
- `logging/`: starting (`start_step`) and stopping a session log, and the
  log filter's lines.
- `config/`: `ssh -G` output, host blocks, the host list, and the `Include`
  walk (`IncludeWalk`).
- `validate/`: every configuration check and the orchestrator that runs
  them.
- `tmux/`: pane and window bookkeeping, and delegation into a tmux session.
- `runner.rs`: the `CommandRunner` trait through which every external command
  is requested, the `RequestLog` through which contracts state which
  requests a function makes and in what order, and a mock for tests.

The program (`app/`) is ordinary Rust: it parses the command line, reads the
environment, runs processes, touches the file system and the terminal, and
drives the library's state machines by performing each action they ask for.

`tests/` exercises the library on concrete values, including whole runs of
the state machines against the mock runner.
