use fterm::util::splash::LocalTime;
use fterm::runner::RequestLog;
use fterm::command::connect::{connect_step, ConnectAction, ConnectEvent, ConnectInputs, ConnectState};
use fterm::command::scp::{prepare_scp_session, scp_route, ScpRoute};
use fterm::command::session::{
    agent_gate, clear_session_state, run_validation, setup_scp_state, setup_ssh_state, tmux_gate,
    validation_inputs, Tool,
};
use fterm::command::ssh::{prepare_ssh_session, ssh_route, SshRoute};
use fterm::config::files::ConfigFile;
use fterm::error::Error;
use fterm::runner::{AgentListResult, CommandOutput, MockCommandRunner};
use fterm::validate::control_path::DirAccess;
use fterm::validate::identity::FileFacts;

fn strings(v: &[&str]) -> Vec<String> {
    v.iter().map(|a| String::from(*a)).collect()
}

fn agent(available: bool) -> AgentListResult {
    AgentListResult { available, keys: strings(&["256 SHA256:k user (ED25519)"]) }
}

fn out(code: i32, stdout: &str, stderr: &str) -> CommandOutput {
    CommandOutput { exit_code: code, stdout: String::from(stdout), stderr: String::from(stderr) }
}

#[test]
fn ssh_route_without_destination_is_direct() {
    assert!(matches!(ssh_route(&strings(&["-v"])), SshRoute::Direct));
}

#[test]
fn ssh_route_with_info_flag_is_direct() {
    assert!(matches!(ssh_route(&strings(&["-G", "host"])), SshRoute::Direct));
}

#[test]
fn ssh_route_wraps_destination() {
    match ssh_route(&strings(&["-p", "2222", "alice@web.example"])) {
        SshRoute::Wrap { target_host, hostname } => {
            assert_eq!(target_host, "alice@web.example");
            assert_eq!(hostname, "web.example");
        }
        SshRoute::Direct => panic!("expected a wrapped connection"),
    }
}

#[test]
fn scp_route_local_copy_is_direct() {
    assert!(matches!(scp_route(&strings(&["a.txt", "b.txt"])), ScpRoute::Direct));
}

#[test]
fn scp_route_help_is_direct() {
    assert!(matches!(scp_route(&strings(&["-h", "web:/tmp/x", "."])), ScpRoute::Direct));
}

#[test]
fn scp_route_wraps_remote_hosts() {
    match scp_route(&strings(&["bob@web:/tmp/x", "db:/tmp/y", "."])) {
        ScpRoute::Wrap { pairs, hosts } => {
            assert_eq!(hosts, strings(&["web", "db"]));
            assert_eq!(pairs[0].0.as_deref(), Some("bob"));
            assert_eq!(pairs[1].0, None);
        }
        ScpRoute::Direct => panic!("expected a wrapped transfer"),
    }
}

#[test]
fn tmux_gate_inside_tmux_continues() {
    let runner = MockCommandRunner::new();
    assert!(!tmux_gate(&runner, &mut RequestLog::new(), Tool::Ssh, true, &strings(&["host"])).unwrap());
}

#[test]
fn tmux_gate_outside_tmux_delegates() {
    let runner = MockCommandRunner::new();
    assert!(tmux_gate(&runner, &mut RequestLog::new(), Tool::Scp, false, &strings(&["web:/x", "."])).unwrap());
}

#[test]
fn tmux_gate_failed_attach_is_a_pre_connect_error() {
    let runner = MockCommandRunner::new().with_interactive_response("tmux attach-session -t login-session", 2);
    let err = tmux_gate(&runner, &mut RequestLog::new(), Tool::Ssh, false, &strings(&["host"])).unwrap_err();
    assert_eq!(
        err.full_message(),
        "ssh pre-connect checks failed: failed to ensure tmux session: tmux attach-session exited with code 2"
    );
}

#[test]
fn agent_gate_skips_agent_with_identity_file() {
    let runner = MockCommandRunner::new();
    assert_eq!(agent_gate(&runner, &mut RequestLog::new(), Tool::Ssh, &strings(&["-i", "key", "host"])).unwrap(), None);
}

#[test]
fn agent_gate_reports_missing_agent() {
    let runner = MockCommandRunner::new().with_agent_list(agent(false));
    assert_eq!(
        agent_gate(&runner, &mut RequestLog::new(), Tool::Ssh, &strings(&["host"])).unwrap().as_deref(),
        Some("Error: SSH agent is not available. Start ssh-agent or use -i option.")
    );
    assert_eq!(
        agent_gate(&runner, &mut RequestLog::new(), Tool::Scp, &strings(&["-i", "key", "host:/x", "."])).unwrap().as_deref(),
        Some("Error: SSH agent is not available. Start ssh-agent first.")
    );
}

#[test]
fn agent_gate_passes_with_agent() {
    let runner = MockCommandRunner::new().with_agent_list(agent(true));
    assert_eq!(agent_gate(&runner, &mut RequestLog::new(), Tool::Scp, &strings(&["host:/x", "."])).unwrap(), None);
}

#[test]
fn validation_inputs_report_include_failure_first() {
    let files: Result<Vec<ConfigFile>, Error> = Err(Error::msg(String::from("loop")));
    let args: Result<Vec<String>, Error> = Err(Error::msg(String::from("cygpath")));
    let err = validation_inputs(Tool::Scp, files, args).unwrap_err();
    assert_eq!(err.full_message(), "scp pre-connect checks failed: failed to resolve SSH config includes: loop");
}

#[test]
fn validation_inputs_report_config_args_failure() {
    let args: Result<Vec<String>, Error> = Err(Error::msg(String::from("cygpath")));
    let err = validation_inputs(Tool::Ssh, Ok(Vec::new()), args).unwrap_err();
    assert_eq!(err.full_message(), "ssh pre-connect checks failed: cygpath");
}

#[test]
fn run_validation_stops_on_syntax_error() {
    let runner = MockCommandRunner::new()
        .with_ssh_resolve_error("syntax.check.dummy.host", "/home/u/.ssh/config line 3: Bad configuration option: foo");
    let dir_probe = |_: &str| DirAccess { exists: false, writable: false };
    let file_probe = |_: &str| FileFacts { exists: false, mode: Ok(0) };
    let (code, lines) = run_validation(
        &runner,
        &mut RequestLog::new(),
        Tool::Ssh,
        Vec::new(),
        &[],
        &strings(&["web"]),
        &[],
        "/home/u",
        &dir_probe,
        &file_probe,
    )
    .unwrap();
    assert_eq!(code, Some(1));
    assert_eq!(lines[0], "\x1b[31m1 error(s)\x1b[0m");
    assert_eq!(lines.len(), 2);
    assert!(lines[1].starts_with("  "), "{lines:?}");
}

#[test]
fn prepare_ssh_session_uses_resolved_connection() {
    let runner = MockCommandRunner::new()
        .with_ssh_resolve("web", "user alice\nhostname 10.0.0.5\nport 2222\nproxyjump bastion\n")
        .with_run_response("tmux display-message -p #{pane_pid}", out(0, "777\n", ""))
        .with_run_response("tmux display-message -p #{pane_title}", out(0, "zsh\n", ""));
    let s = prepare_ssh_session(&runner, &mut RequestLog::new(), &fixed_time(), "web", &[], "/logs", "/home/u", 1).unwrap();
    assert_eq!(s.conn.user, "alice");
    assert_eq!(s.conn.hostname, "10.0.0.5");
    assert_eq!(s.conn.port, "2222");
    assert!(s.log_path.starts_with("/logs/"), "{}", s.log_path);
    assert!(s.log_path.ends_with("_ssh_alice@10.0.0.5_777.log"), "{}", s.log_path);
    assert_eq!(s.ssh_details, strings(&["ProxyJump bastion"]));
    assert!(s.agent_keys.is_empty());
    assert_eq!(s.original_title, "zsh");
}

#[test]
fn prepare_ssh_session_fails_when_host_does_not_resolve() {
    let runner = MockCommandRunner::new().with_ssh_resolve_error("web", "boom");
    let err = prepare_ssh_session(&runner, &mut RequestLog::new(), &fixed_time(), "web", &[], "/logs", "/home/u", 1).unwrap_err();
    assert_eq!(err.full_message(), "failed to resolve host: web: boom");
}

#[test]
fn prepare_ssh_session_falls_back_to_unknown_user() {
    let runner = MockCommandRunner::new().with_ssh_resolve("web", "");
    let s = prepare_ssh_session(&runner, &mut RequestLog::new(), &fixed_time(), "web", &[], "/logs", "/home/u", 42).unwrap();
    assert_eq!(s.conn.user, "unknown");
    assert_eq!(s.conn.hostname, "web");
    assert_eq!(s.conn.port, "22");
    assert!(s.log_path.ends_with("_ssh_unknown@web_42.log"), "{}", s.log_path);
    assert_eq!(s.original_title, "");
}

#[test]
fn prepare_scp_session_names_every_host() {
    let runner = MockCommandRunner::new()
        .with_ssh_resolve("web", "user deploy\nhostname web\nport 22\n")
        .with_ssh_resolve("db", "user dba\nhostname db\nport 22\n");
    let pairs = vec![(Some(String::from("bob")), String::from("web")), (None, String::from("db"))];
    let s = prepare_scp_session(&runner, &mut RequestLog::new(), &fixed_time(), &pairs, &[], "/logs", "/home/u", 9).unwrap();
    assert_eq!(s.user_at_hosts, strings(&["bob@web", "dba@db"]));
    assert!(s.log_path.ends_with("_scp_bob@web_dba@db_9.log"), "{}", s.log_path);
}

#[test]
fn setup_and_clear_state_succeed_under_tmux() {
    let runner = MockCommandRunner::new();
    let steps = setup_ssh_state(&runner, &mut RequestLog::new(), "alice", "web");
    assert!(steps.title.is_ok() && steps.count.is_ok() && steps.host.is_ok());
    assert!(matches!(steps.rename, Some(Ok(()))));
    let scp_steps = setup_scp_state(&runner, &mut RequestLog::new(), &strings(&["bob@web"]));
    assert!(scp_steps.rename.is_none());
    let cleared = clear_session_state(&runner, &mut RequestLog::new(), "zsh");
    assert!(cleared.style.is_ok() && cleared.title.is_ok() && cleared.host.is_ok() && cleared.count.is_ok());
}

#[test]
fn setup_state_reports_a_failed_title() {
    let runner = MockCommandRunner::new()
        .with_run_response("tmux select-pane -T ssh:alice@web", out(1, "", "no pane"));
    let steps = setup_ssh_state(&runner, &mut RequestLog::new(), "alice", "web");
    assert!(steps.title.is_err());
    assert!(steps.host.is_ok());
}

/// What a run of the whole wrapper did: the outside actions in order and
/// how it ended.
struct FlowRun {
    actions: Vec<String>,
    stderr: String,
    outcome: Result<i32, Error>,
    ran: Option<Vec<String>>,
}

fn drive_flow(runner: &MockCommandRunner, tool: Tool, args: &[&str], in_tmux: bool, tool_code: i32) -> FlowRun {
    drive_flow_with(runner, tool, args, in_tmux, tool_code, None)
}

fn drive_flow_with(
    runner: &MockCommandRunner,
    tool: Tool,
    args: &[&str],
    in_tmux: bool,
    tool_code: i32,
    log_error: Option<&str>,
) -> FlowRun {
    let inputs = ConnectInputs {
        tool,
        args: strings(args),
        in_tmux,
        home: String::from("/home/u"),
        ssh_home: String::from("/home/u/.ssh"),
        log_prefix: String::from("/logs"),
        fallback_pid: 7,
        config_args: Ok(Vec::new()),
    };
    let dir_probe = |_: &str| DirAccess { exists: true, writable: true };
    let file_probe = |_: &str| FileFacts { exists: true, mode: Ok(0o600) };
    let mut run = FlowRun { actions: Vec::new(), stderr: String::new(), outcome: Ok(-1), ran: None };
    let mut state = ConnectState::Begin;
    let mut event = ConnectEvent::Start;
    loop {
        let (next, action) = connect_step(runner, &mut RequestLog::new(), &fixed_time(), &inputs, &dir_probe, &file_probe, state, event);
        state = next;
        event = match action {
            ConnectAction::RunDirect { args } => {
                run.actions.push(String::from("run-direct"));
                run.ran = Some(args);
                run.outcome = Ok(0);
                return run;
            }
            ConnectAction::LoadSshEnv => {
                run.actions.push(String::from("load-env"));
                ConnectEvent::Done
            }
            ConnectAction::LoadConfig => {
                run.actions.push(String::from("load-config"));
                ConnectEvent::Config(Ok(Vec::new()))
            }
            ConnectAction::EnsureCmDir { dir } => {
                run.actions.push(format!("cm-dir {dir}"));
                ConnectEvent::CmDir(fterm::validate::cm_dir::CmDirOutcome::Existed)
            }
            ConnectAction::Show { text } => {
                run.stderr.push_str(&text);
                ConnectEvent::Done
            }
            ConnectAction::StartLog { log_path, .. } => {
                run.actions.push(format!("start-log {log_path}"));
                ConnectEvent::LogStarted(match log_error {
                    Some(m) => Err(Error::msg(String::from(m))),
                    None => Ok(()),
                })
            }
            ConnectAction::RunTool { args } => {
                run.actions.push(String::from("run-tool"));
                run.ran = Some(args);
                ConnectEvent::Exited { code: tool_code, elapsed_secs: 65 }
            }
            ConnectAction::AppendFooter { path } => {
                run.actions.push(format!("footer {path}"));
                ConnectEvent::Footer(Ok(()))
            }
            ConnectAction::Exit(outcome) => {
                run.outcome = outcome;
                return run;
            }
        };
    }
}

fn resolving_runner() -> MockCommandRunner {
    MockCommandRunner::new()
        .with_agent_list(agent(true))
        .with_ssh_resolve("web", "user alice\nhostname 10.0.0.5\nport 22\nidentitiesonly yes\nidentityfile ~/.ssh/id\n")
        .with_run_response("tmux display-message -p #{pane_pid}", out(0, "777\n", ""))
}

#[test]
fn ssh_flow_runs_ssh_between_setup_and_teardown() {
    let runner = resolving_runner();
    let run = drive_flow(&runner, Tool::Ssh, &["alice@web"], true, 0);
    assert_eq!(run.outcome.unwrap(), 0);
    assert_eq!(run.ran, Some(strings(&["alice@web"])));
    assert_eq!(run.actions[0], "load-env");
    assert_eq!(run.actions[1], "load-config");
    assert_eq!(run.actions[2], "cm-dir /home/u/.ssh/conf.d/cm");
    assert!(run.actions[3].starts_with("start-log /logs/"), "{:?}", run.actions);
    assert!(run.actions[3].ends_with("_ssh_alice@10.0.0.5_777.log"), "{:?}", run.actions);
    assert_eq!(run.actions[4], "run-tool");
    assert!(run.actions[5].starts_with("footer /logs/"), "{:?}", run.actions);
    assert!(run.stderr.contains("fterm SSH Connected"), "{}", run.stderr);
    assert!(run.stderr.contains("fterm SSH Disconnected"), "{}", run.stderr);
    assert!(run.stderr.contains("1m5s"), "{}", run.stderr);
    assert!(run.stderr.ends_with("\x1b]0;\x07"), "{:?}", run.stderr);
}

#[test]
fn ssh_flow_without_destination_runs_ssh_directly() {
    let runner = MockCommandRunner::new();
    let run = drive_flow(&runner, Tool::Ssh, &["-V"], true, 0);
    assert_eq!(run.actions, strings(&["run-direct"]));
    assert_eq!(run.ran, Some(strings(&["-V"])));
}

#[test]
fn ssh_flow_stops_when_agent_is_missing() {
    let runner = MockCommandRunner::new().with_agent_list(agent(false));
    let run = drive_flow(&runner, Tool::Ssh, &["web"], true, 0);
    assert_eq!(run.outcome.unwrap(), 1);
    assert_eq!(run.actions, strings(&["load-env"]));
    assert_eq!(run.stderr, "Error: SSH agent is not available. Start ssh-agent or use -i option.\n");
}

#[test]
fn ssh_flow_outside_tmux_delegates_and_ends() {
    let runner = MockCommandRunner::new();
    let run = drive_flow(&runner, Tool::Ssh, &["web"], false, 0);
    assert_eq!(run.outcome.unwrap(), 0);
    assert!(run.actions.is_empty());
}

#[test]
fn ssh_flow_stops_on_validation_errors() {
    let runner = MockCommandRunner::new()
        .with_agent_list(agent(true))
        .with_ssh_resolve("web", "user alice\nport 22\n");
    let run = drive_flow(&runner, Tool::Ssh, &["web"], true, 0);
    assert_eq!(run.outcome.unwrap(), 1);
    assert!(run.stderr.contains("error(s)"), "{}", run.stderr);
    assert!(!run.actions.iter().any(|a| a == "run-tool"));
}

#[test]
fn scp_flow_reports_the_transfer_result() {
    let runner = resolving_runner();
    let run = drive_flow(&runner, Tool::Scp, &["web:/tmp/x", "."], true, 3);
    assert_eq!(run.outcome.unwrap(), 3);
    assert_eq!(run.ran, Some(strings(&["web:/tmp/x", "."])));
    assert!(run.actions[3].ends_with("_scp_alice@web_777.log"), "{:?}", run.actions);
    assert!(run.stderr.contains("fterm SCP Transfer"), "{}", run.stderr);
    assert!(run.stderr.contains("fterm SCP Result"), "{}", run.stderr);
}

#[test]
fn flow_reports_a_log_that_failed_to_start() {
    let runner = resolving_runner();
    let run = drive_flow_with(&runner, Tool::Ssh, &["alice@web"], true, 0, Some("denied"));
    let err = run.outcome.unwrap_err();
    assert_eq!(
        err.full_message(),
        "failed to setup SSH connection to: alice@web: failed to start logging: denied"
    );
    assert!(!run.actions.iter().any(|a| a == "run-tool"));
}

/// A fixed local time for the library's texts.
fn fixed_time() -> LocalTime {
    LocalTime {
        banner: String::from("2024-01-02 03:04:05"),
        log_date: String::from("2024/01/02"),
        log_stamp: String::from("20240102T030405"),
    }
}
