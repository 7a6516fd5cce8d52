use fterm::runner::RequestLog;
use fterm::command::session::{clear_session_state, setup_scp_state, setup_ssh_state};
use fterm::logging::start::{
    detect_stale_log, enable_logging, finish_after_footer, log_header, start_step, StartAction, StartEvent, StartState,
};
use fterm::logging::stop::stop;
use fterm::runner::{CommandOutput, MockCommandRunner};
use fterm::util::splash::{scp_result_banner, ssh_connect_banner, ssh_disconnect_banner, BannerParams};

fn failing(stderr: &str) -> CommandOutput {
    CommandOutput { exit_code: 1, stdout: String::new(), stderr: String::from(stderr) }
}

fn strings(v: &[&str]) -> Vec<String> {
    v.iter().map(|a| String::from(*a)).collect()
}

/// The library's part of tearing down an SCP transfer: banner, pane and
/// window state, then the log.
fn teardown_scp(runner: &MockCommandRunner, log_path: &str, user_at_hosts: &[String], success: bool) -> String {
    let banner = scp_result_banner(BANNER_TIME, user_at_hosts, success, "0s", log_path);
    let _ = clear_session_state(runner, &mut RequestLog::new(), "");
    let _ = stop(runner, &mut RequestLog::new(), log_path);
    banner
}

#[test]
fn set_option_failure_is_non_fatal() {
    let runner = MockCommandRunner::new()
        .with_run_response("tmux set-option -p @fterm_logging /tmp/nonfatal.log", failing("no pane option"));
    let result = enable_logging(&runner, &mut RequestLog::new(), "/tmp/nonfatal.log");
    assert!(result.is_ok(), "set-option failure should be non-fatal: {result:?}");
}

#[test]
fn setup_connection_runs_without_error() {
    let runner = MockCommandRunner::new();
    let details = strings(&["identityfile ~/.ssh/id_ed25519"]);
    let keys = strings(&["SHA256:abc123"]);
    assert_eq!(detect_stale_log(&runner, &mut RequestLog::new()).unwrap(), None);
    assert!(log_header(&details, &keys).contains("SHA256:abc123"));
    assert!(enable_logging(&runner, &mut RequestLog::new(), "/tmp/test.log").is_ok());
    let params = BannerParams { log_path: "/tmp/test.log", ssh_details: &details, agent_keys: &keys };
    let banner = ssh_connect_banner(BANNER_TIME, "server1", "deploy", "server1", "22", &params);
    assert!(banner.contains("deploy@server1"), "{banner}");
    let steps = setup_ssh_state(&runner, &mut RequestLog::new(), "deploy", "server1");
    assert!(steps.title.is_ok() && steps.count.is_ok() && steps.host.is_ok());
}

#[test]
fn teardown_connection_runs_without_error() {
    let runner = MockCommandRunner::new();
    let banner = ssh_disconnect_banner(BANNER_TIME, "deploy", "server1", "0s", "/tmp/test.log");
    assert!(banner.contains("deploy@server1"), "{banner}");
    let cleared = clear_session_state(&runner, &mut RequestLog::new(), "original-title");
    assert!(cleared.style.is_ok() && cleared.title.is_ok() && cleared.host.is_ok() && cleared.count.is_ok());
    assert!(stop(&runner, &mut RequestLog::new(), "/tmp/test.log").is_ok());
}

#[test]
fn teardown_scp_session_does_not_panic() {
    let runner = MockCommandRunner::new();
    let hosts = strings(&["alice@host1", "bob@host2"]);
    teardown_scp(&runner, "/tmp/teardown.log", &hosts, true);
    teardown_scp(&runner, "/tmp/teardown.log", &hosts, false);
}

#[test]
fn teardown_scp_session_single_host_success() {
    let runner = MockCommandRunner::new();
    let banner = teardown_scp(&runner, "/tmp/single.log", &strings(&["deploy@production"]), true);
    assert!(banner.contains("deploy@production"), "{banner}");
}

#[test]
fn teardown_scp_session_failure_does_not_panic() {
    let runner = MockCommandRunner::new();
    teardown_scp(&runner, "/tmp/fail.log", &strings(&["ci@staging"]), false);
}

#[test]
fn teardown_scp_session_handles_runner_errors() {
    let runner = MockCommandRunner::new()
        .with_run_response("tmux select-pane -P default", failing("no server"))
        .with_run_response("tmux select-pane -T ", failing("no server"))
        .with_run_response("tmux set-option -p -u @fterm_ssh_host", failing("no server"));
    let cleared = clear_session_state(&runner, &mut RequestLog::new(), "");
    assert!(cleared.style.is_err() && cleared.title.is_err() && cleared.host.is_err());
    assert!(cleared.count.is_ok());
    teardown_scp(&runner, "/tmp/teardown_err.log", &strings(&["user@host1"]), true);
}

#[test]
fn setup_scp_session_handles_pane_errors() {
    let runner = MockCommandRunner::new()
        .with_run_response("tmux select-pane -T scp:user@errhost", failing("no pane"))
        .with_run_response("tmux set-window-option automatic-rename off", failing("no window"))
        .with_run_response("tmux set-option -p @fterm_ssh_host scp:user@errhost", failing("no pane"));
    assert!(enable_logging(&runner, &mut RequestLog::new(), "/tmp/setup_err.log").is_ok());
    let steps = setup_scp_state(&runner, &mut RequestLog::new(), &strings(&["user@errhost"]));
    assert!(steps.title.is_err());
    assert!(steps.count.is_err());
    assert!(steps.host.is_err());
}

#[test]
fn start_cleans_up_an_abandoned_log_first() {
    let runner = MockCommandRunner::new().with_run_response(
        "tmux show-option -pqv @fterm_logging",
        CommandOutput { exit_code: 0, stdout: String::from("/logs/old.log\n"), stderr: String::new() },
    );
    let (state, action) = start_step(&runner, &mut RequestLog::new(), "/logs/new.log", &[], &[], StartState::Begin, StartEvent::Start);
    match action {
        StartAction::AppendFooter { path, .. } => assert_eq!(path, "/logs/old.log"),
        other => panic!("unexpected action {other:?}"),
    }
    let (state, action) = start_step(&runner, &mut RequestLog::new(), "/logs/new.log", &[], &[], state, StartEvent::Finished(Ok(())));
    match action {
        StartAction::WriteHeader { path, header } => {
            assert_eq!(path, "/logs/new.log");
            assert_eq!(header, "");
        }
        other => panic!("unexpected action {other:?}"),
    }
    let (_, action) = start_step(&runner, &mut RequestLog::new(), "/logs/new.log", &[], &[], state, StartEvent::Finished(Ok(())));
    assert!(matches!(action, StartAction::Exit(Ok(()))));
}

#[test]
fn start_fails_when_the_header_cannot_be_written() {
    let runner = MockCommandRunner::new();
    let (state, _) = start_step(&runner, &mut RequestLog::new(), "/logs/new.log", &[], &[], StartState::Begin, StartEvent::Start);
    let err = fterm::error::Error::msg(String::from("denied")).context(String::from("failed to open log file: /logs/new.log"));
    let (_, action) = start_step(&runner, &mut RequestLog::new(), "/logs/new.log", &[], &[], state, StartEvent::Finished(Err(err)));
    match action {
        StartAction::Exit(Err(e)) => assert_eq!(e.full_message(), "failed to open log file: /logs/new.log: denied"),
        other => panic!("unexpected action {other:?}"),
    }
}

#[test]
fn stop_gives_up_when_the_footer_fails() {
    let runner = MockCommandRunner::new();
    let footer = Err(fterm::error::Error::msg(String::from("disk full")));
    assert_eq!(finish_after_footer(&runner, &mut RequestLog::new(), "/logs/a.log", footer).unwrap_err().full_message(), "disk full");
    assert!(finish_after_footer(&runner, &mut RequestLog::new(), "/logs/a.log", Ok(())).is_ok());
}

/// The time stamped on the banners of these tests.
const BANNER_TIME: &str = "2024-01-02 03:04:05";
