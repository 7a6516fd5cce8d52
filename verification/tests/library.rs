use fterm::runner::RequestLog;
use fterm::check_types::{format_summary, CheckLevel, CheckMessage, ValidationResult, ALL_PASSED};
use fterm::command::fgen::{overwrite_confirmed, prompt_step, prompt_value, PromptStep};
use fterm::command::flog::{log_selection_options, selection_outcome};
use fterm::command::scp::{scp_host_value, scp_log_path_at, scp_pane_title, user_at_host_list};
use fterm::command::ssh::{
    config_prefixed_args, connection_or_default, has_identity_option, log_path_at, ssh_pane_title,
    validation_verdict,
};
use fterm::config::files::ConfigFile;
use fterm::error::Error;
use fterm::runner::{CommandOutput, CommandRunner, MockCommandRunner};
use fterm::tmux::session::shell_escape;
use fterm::tmux::window::read_ssh_count;
use fterm::util::fzf::interpret_result;
use fterm::util::scp_args::extract_user_host_pairs;
use fterm::validate::cm_dir::{check as cm_dir_check, cm_dir_path, CmDirOutcome};
use fterm::validate::orchestrator::{count_levels, run_all_checks};
use fterm::validate::control_path::DirAccess;
use fterm::validate::identity::FileFacts;

fn strings(v: &[&str]) -> Vec<String> {
    v.iter().map(|a| String::from(*a)).collect()
}

fn msg(level: CheckLevel, text: &str) -> CheckMessage {
    CheckMessage { level, text: String::from(text) }
}

/// How a POSIX shell reads one word (quotes and backslashes).
fn shell_read(s: &str) -> String {
    let mut out = String::new();
    let mut quoted = false;
    let mut chars = s.chars();
    while let Some(c) = chars.next() {
        if quoted {
            if c == '\'' {
                quoted = false;
            } else {
                out.push(c);
            }
        } else if c == '\'' {
            quoted = true;
        } else if c == '\\' {
            if let Some(n) = chars.next() {
                out.push(n);
            }
        } else {
            out.push(c);
        }
    }
    out
}

#[test]
fn escaped_tokens_read_back_unchanged() {
    for t in ["", "plain", "with space", "it's", "a'b'c", "$(rm -rf /)", "\\back", "''"] {
        assert_eq!(shell_read(&shell_escape(t)), t, "token {t:?}");
    }
}

#[test]
fn summary_all_passed_only_without_errors_and_warnings() {
    let clean = ValidationResult { messages: Vec::new(), error_count: 0, warn_count: 0 };
    assert_eq!(format_summary(&clean), ALL_PASSED);
    let warn = ValidationResult { messages: Vec::new(), error_count: 0, warn_count: 1 };
    assert_ne!(format_summary(&warn), ALL_PASSED);
    assert_eq!(format_summary(&warn), "\x1b[33m1 warning(s)\x1b[0m");
    let both = ValidationResult { messages: Vec::new(), error_count: 12, warn_count: 3 };
    assert_eq!(format_summary(&both), "\x1b[31m12 error(s)\x1b[0m, \x1b[33m3 warning(s)\x1b[0m");
}

#[test]
fn level_counts_add_up() {
    let msgs = vec![
        msg(CheckLevel::Error, "e"),
        msg(CheckLevel::Info, "i"),
        msg(CheckLevel::Warn, "w"),
        msg(CheckLevel::Info, "i2"),
    ];
    let (e, w) = count_levels(&msgs);
    assert_eq!((e, w), (1, 1));
    assert_eq!(e + w + 2, msgs.len());
}

#[test]
fn scp_pairs_name_each_host_once() {
    let pairs = extract_user_host_pairs(&strings(&["a@h1:/x", "h2:/y", "b@h1:/z", "-P", "h3:/no", "h2:/w"]));
    assert_eq!(pairs, vec![(Some(String::from("a")), String::from("h1")), (None, String::from("h2"))]);
}

#[test]
fn mock_answers_what_it_was_told() {
    let runner = MockCommandRunner::new().with_ssh_resolve("h", "user u\n");
    assert_eq!(runner.ssh_resolve(&mut RequestLog::new(), "h", &strings(&["-F", "/x"])).unwrap(), "user u\n");
}

#[test]
fn written_count_reads_back() {
    let runner = MockCommandRunner::new().with_run_response(
        "tmux show-window-option -v @fterm_ssh_count",
        CommandOutput { exit_code: 0, stdout: String::from("7\n"), stderr: String::new() },
    );
    assert_eq!(read_ssh_count(&runner, &mut RequestLog::new()).unwrap(), 7);
}

#[test]
fn fzf_exit_codes() {
    assert_eq!(interpret_result(0, "  host1 \n").unwrap(), Some(String::from("host1")));
    assert_eq!(interpret_result(0, "\n").unwrap(), None);
    assert_eq!(interpret_result(1, "x").unwrap(), None);
    assert_eq!(interpret_result(130, "").unwrap(), None);
    assert_eq!(interpret_result(2, "").unwrap_err().message(), "fzf exited with unexpected code: 2");
}

#[test]
fn log_viewer_selection() {
    assert_eq!(selection_outcome(None), (1, None));
    assert_eq!(selection_outcome(Some(String::from("   "))), (1, None));
    assert_eq!(
        selection_outcome(Some(String::from("/l/a.log.gz:3:hit\n"))),
        (0, Some(String::from("zcat '/l/a.log.gz' | less")))
    );
    let opts = log_selection_options("/l");
    assert_eq!(opts.bind.len(), 6);
    assert!(opts.bind[2].contains("rg --search-zip"));
    assert!(opts.bind[3].contains("find '/l' -type f"));
}

#[test]
fn fgen_prompt_decisions() {
    assert_eq!(prompt_step(0, "acme"), PromptStep::Accept);
    assert_eq!(prompt_step(0, ""), PromptStep::Retry);
    assert_eq!(prompt_step(1, ""), PromptStep::Retry);
    assert_eq!(prompt_step(2, ""), PromptStep::GiveUp);
    assert!(overwrite_confirmed(" Y\n"));
    assert!(!overwrite_confirmed("yes"));
    assert_eq!(prompt_value("  acme \n"), "acme");
}

#[test]
fn scp_session_names() {
    let pairs = vec![(String::from("alice"), String::from("h1")), (String::from("bob"), String::from("h2"))];
    let list = user_at_host_list(&pairs);
    assert_eq!(list, vec!["alice@h1", "bob@h2"]);
    assert_eq!(scp_pane_title(&list), "scp:alice@h1_bob@h2");
    assert_eq!(scp_host_value(&list), "scp:alice@h1 bob@h2");
    assert_eq!(
        scp_log_path_at("/logs", "2024/01/02", "20240102T030405", &pairs, "77"),
        "/logs/2024/01/02/20240102T030405_scp_alice@h1_bob@h2_77.log"
    );
}

#[test]
fn ssh_session_names_and_args() {
    assert_eq!(ssh_pane_title("deploy", "web"), "ssh:deploy@web");
    assert_eq!(
        log_path_at("/logs", "2024/01/02", "20240102T030405", "ssh", "u", "h", "9"),
        "/logs/2024/01/02/20240102T030405_ssh_u@h_9.log"
    );
    assert_eq!(
        config_prefixed_args(&strings(&["/a", "/b"]), &strings(&["-v", "host"])),
        vec!["-F", "/a", "-F", "/b", "-v", "host"]
    );
    assert!(has_identity_option(&strings(&["-i", "k", "h"])));
    assert!(!has_identity_option(&strings(&["-v", "h"])));
    let info = connection_or_default("", "web");
    assert_eq!((info.user.as_str(), info.hostname.as_str(), info.port.as_str()), ("unknown", "web", "22"));
}

#[test]
fn validation_verdicts() {
    let errors = ValidationResult { messages: vec![msg(CheckLevel::Error, "[h] bad")], error_count: 1, warn_count: 0 };
    let (code, lines) = validation_verdict(&errors);
    assert_eq!(code, Some(1));
    assert_eq!(lines, vec![String::from("\x1b[31m1 error(s)\x1b[0m"), String::from("  [h] bad")]);
    let warns = ValidationResult { messages: vec![msg(CheckLevel::Warn, "w")], error_count: 0, warn_count: 1 };
    let (code, lines) = validation_verdict(&warns);
    assert_eq!(code, None);
    assert_eq!(lines.len(), 1);
}

#[test]
fn cm_dir_messages() {
    let dir = cm_dir_path("/home/u/.ssh");
    assert_eq!(dir, "/home/u/.ssh/conf.d/cm");
    assert!(cm_dir_check(&dir, &CmDirOutcome::Existed).is_empty());
    let m = cm_dir_check(&dir, &CmDirOutcome::Created);
    assert_eq!(m[0].level, CheckLevel::Info);
    assert_eq!(m[0].text, "Created ControlMaster directory: /home/u/.ssh/conf.d/cm");
    let m = cm_dir_check(&dir, &CmDirOutcome::CreateFailed(String::from("denied")));
    assert_eq!(m[0].text, "Failed to create ControlMaster directory /home/u/.ssh/conf.d/cm: denied");
    let m = cm_dir_check(&dir, &CmDirOutcome::PermissionsFailed(String::from("denied")));
    assert_eq!(m[0].level, CheckLevel::Warn);
}

fn all_dirs(_: &str) -> DirAccess {
    DirAccess { exists: true, writable: true }
}

fn key_files(_: &str) -> FileFacts {
    FileFacts { exists: true, mode: Ok(0o100644) }
}

#[test]
fn run_all_checks_stops_at_syntax_errors() {
    let runner = MockCommandRunner::new()
        .with_ssh_resolve_error("syntax.check.dummy.host", "line 5: Bad configuration option: xyz");
    let result = run_all_checks(&runner, &mut RequestLog::new(), Vec::new(), &[], &strings(&["myhost"]), &[], "/home/u", &all_dirs, &key_files)
        .unwrap();
    assert_eq!(result.error_count, 1);
    assert_eq!(result.messages.len(), 1);
    assert_eq!(result.messages[0].text, "[syntax] line 5: Bad configuration option: xyz");
}

#[test]
fn run_all_checks_per_host_messages() {
    let runner = MockCommandRunner::new()
        .with_ssh_resolve("myhost", "hostname 10.0.0.1\nuser admin\nport 22\nidentitiesonly no\nidentityfile /k/id\n")
        .with_agent_list(fterm::runner::AgentListResult { available: true, keys: strings(&["256 SHA256:abc u (ED25519)"]) })
        .with_fingerprint("/k/id", "256 SHA256:abc u (ED25519)");
    let cm = vec![msg(CheckLevel::Info, "Created ControlMaster directory: /x")];
    let files = [ConfigFile::new(String::from("/s/config"), String::from("Host myhost\nHost myhost\n"))];
    let result = run_all_checks(&runner, &mut RequestLog::new(), cm, &files, &strings(&["myhost"]), &[], "/home/u", &all_dirs, &key_files)
        .unwrap();
    let texts: Vec<&str> = result.messages.iter().map(|m| m.text.as_str()).collect();
    assert_eq!(
        texts,
        vec![
            "Created ControlMaster directory: /x",
            "Duplicate Host \"myhost\" defined at: /s/config:1, /s/config:2",
            "[myhost] IdentitiesOnly is not \"yes\" (current: \"no\")",
            "[myhost] IdentityFile permissions are 0644, expected 0600: /k/id",
        ]
    );
    assert_eq!((result.error_count, result.warn_count), (0, 3));
}

#[test]
fn run_all_checks_unreadable_config_fails() {
    let runner = MockCommandRunner::new();
    let files = [ConfigFile::unreadable(String::from("/s/config"), Error::msg(String::from("denied")))];
    let err = run_all_checks(&runner, &mut RequestLog::new(), Vec::new(), &files, &[], &[], "/home/u", &all_dirs, &key_files).unwrap_err();
    assert_eq!(
        err.full_message(),
        "duplicate host check failed: duplicate check: failed to read /s/config: denied"
    );
}

#[test]
fn law_config_flags_come_first_then_user_args() {
    let r = config_prefixed_args(&strings(&["/a/config", "/b/config"]), &strings(&["-v", "host"]));
    assert_eq!(r, strings(&["-F", "/a/config", "-F", "/b/config", "-v", "host"]));
}

#[test]
fn law_collapsing_a_frame_twice_changes_nothing() {
    for line in ["0%\r50%\r100%", "plain", "done\r", "\r\r"] {
        let once = fterm::logging::filter::sanitize_line(line);
        assert!(!once.contains('\r'));
        assert_eq!(fterm::logging::filter::sanitize_line(&once), once);
    }
}

#[test]
fn first_value_is_head_of_all_values() {
    let out = "identityfile ~/.ssh/a\nuser me\nIdentityFile ~/.ssh/b\n";
    let all = fterm::ssh_parse::parse_ssh_g_values(out, "identityfile");
    assert_eq!(all, vec![String::from("~/.ssh/a"), String::from("~/.ssh/b")]);
    assert_eq!(fterm::ssh_parse::parse_ssh_g_value(out, "identityfile"), Some(all[0].clone()));
    assert!(fterm::ssh_parse::parse_ssh_g_values(out, "port").is_empty());
    assert_eq!(fterm::ssh_parse::parse_ssh_g_value(out, "port"), None);
}

#[test]
fn later_connection_line_wins() {
    let out = "user first\nhostname h\nport 22\nuser second\n";
    let info = fterm::config::connection::parse_connection_info(out).unwrap();
    assert_eq!(info.user, "second");
    assert_eq!(info.hostname, "h");
    assert_eq!(info.port, "22");
}
