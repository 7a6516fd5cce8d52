//! The whole `ssh`/`scp` wrapper as a state machine.
//!
//! The library makes every decision and every tmux and ssh request; the
//! program performs the actions that need the outside world (running the
//! tool, loading `SSH_ENV`, reading the config files, creating the socket
//! directory, writing the log, writing to stderr, timing the session) and
//! hands back what came of them.

use vstd::prelude::*;
use crate::runner::RequestLog;


use crate::command::scp::{
    prepare_scp_session, resolve_all_hosts_outcome, scp_route, scp_session_is, ScpRoute, ScpSession,
};
use crate::command::session::{
    agent_gate, agent_gate_outcome, clear_session_state, pre_connect_context, run_validation,
    run_validation_outcome, setup_scp_state, setup_ssh_state, setup_steps_are, tmux_gate, tmux_gate_outcome,
    validation_inputs, ClearSteps, SetupSteps, Tool,
};
use crate::command::ssh::{
    config_prefixed_args, prepare_ssh_session, ssh_route, ssh_session_is, with_config, SshRoute, SshSession,
};
use crate::config::files::ConfigFile;
use crate::error::{full_text, Error};
use crate::logging::start::{finish_after_footer, lines_block, push_lines};
use crate::logging::stop::finalize_logging_outcome;
use crate::runner::{copy_strings, is_err_with, CommandRunner};
use crate::text::{after_last_at, concat2, join, join_strings, owned, push_str, sviews};
use crate::tmux::pane::{reset_style_outcome, set_title_outcome, unset_ssh_host_outcome};
use crate::tmux::window::decrement_ssh_count_outcome;
use crate::util::dry_run::{is_scp_info_flag, is_ssh_info_flag};
use crate::util::duration::{duration_text, format as format_duration};
use crate::util::scp_args::{pair_views, scp_user_hosts, UserHost};
use crate::util::splash::{
    connect_banner_text, disconnect_banner_text, scp_connect_banner, scp_connect_banner_text, scp_result_banner,
    scp_result_banner_text, ssh_connect_banner, ssh_disconnect_banner, BannerParams, LocalTime,
};
use crate::util::ssh_args::ssh_destination;
use crate::validate::cm_dir::{check as cm_dir_check, cm_dir, cm_dir_messages, cm_dir_path, CmDirOutcome};
use crate::validate::control_path::DirAccess;
use crate::validate::identity::FileFacts;

verus! {

/// What the program read from its environment before the flow starts.
#[derive(Debug)]
pub struct ConnectInputs {
    /// The wrapped tool.
    pub tool: Tool,
    /// The tool's arguments as given.
    pub args: Vec<String>,
    /// `TMUX` is set.
    pub in_tmux: bool,
    /// The user's home directory (expands `~`).
    pub home: String,
    /// The SSH directory.
    pub ssh_home: String,
    /// The log directory prefix.
    pub log_prefix: String,
    /// This process's id (the pane id when tmux cannot tell it).
    pub fallback_pid: u32,
    /// The `-F` config arguments, or the error building them gave.
    pub config_args: Result<Vec<String>, Error>,
}

/// What a wrapped command line names.
#[derive(Debug)]
pub enum Target {
    /// An SSH connection to `target_host`, whose host part is `hostname`.
    Ssh { target_host: String, hostname: String },
    /// An SCP transfer with these `(user, host)` pairs and their hosts.
    Scp { pairs: Vec<(Option<String>, String)>, hosts: Vec<String> },
}

/// The hosts that validation checks.
pub open spec fn target_hosts(t: Target) -> Seq<Seq<char>> {
    match t {
        Target::Ssh { hostname, .. } => seq![hostname@],
        Target::Scp { hosts, .. } => sviews(hosts@),
    }
}

/// How the command line is handled: `None` to run the tool as it is,
/// `Some` of what it names to wrap it (see [`ssh_route`], [`scp_route`]).
pub open spec fn routed(tool: Tool, args: Seq<Seq<char>>, r: Option<Target>) -> bool {
    match tool {
        Tool::Ssh => match ssh_destination(args) {
            None => r is None,
            Some(d) => if exists|i: int| 0 <= i < args.len() && is_ssh_info_flag(#[trigger] args[i]) {
                r is None
            } else {
                r matches Some(Target::Ssh { target_host, hostname }) && target_host@ == d && hostname@
                    == after_last_at(d)
            },
        },
        Tool::Scp => if scp_user_hosts(args).len() == 0 || exists|i: int|
            0 <= i < args.len() && is_scp_info_flag(#[trigger] args[i]) {
            r is None
        } else {
            r matches Some(Target::Scp { pairs, hosts }) && pair_views(pairs@) == scp_user_hosts(args) && sviews(
                hosts@,
            ) == scp_user_hosts(args).map_values(|p: UserHost| p.1)
        },
    }
}

fn route(tool: Tool, args: &[String]) -> (r: Option<Target>)
    ensures
        routed(tool, sviews(args@), r),
{
    match tool {
        Tool::Ssh => match ssh_route(args) {
            SshRoute::Direct => None,
            SshRoute::Wrap { target_host, hostname } => Some(Target::Ssh { target_host, hostname }),
        },
        Tool::Scp => match scp_route(args) {
            ScpRoute::Direct => None,
            ScpRoute::Wrap { pairs, hosts } => Some(Target::Scp { pairs, hosts }),
        },
    }
}

/// The config arguments to run the tool as it is with: none when they
/// could not be built.
pub open spec fn direct_config(c: Result<Vec<String>, Error>) -> Seq<Seq<char>> {
    match c {
        Ok(v) => sviews(v@),
        Err(_) => Seq::empty(),
    }
}

fn copy_config(c: &Result<Vec<String>, Error>) -> (r: Result<Vec<String>, Error>)
    ensures
        match *c {
            Ok(v) => r matches Ok(w) && w@ == v@,
            Err(e) => r matches Err(f) && f@ == e@,
        },
{
    match c {
        Ok(v) => Ok(copy_strings(v)),
        Err(e) => Err(e.duplicate()),
    }
}

/// A prepared session: what the connection or transfer knows before the
/// tool runs.
#[derive(Debug)]
pub enum Session {
    /// An SSH connection to `target_host`.
    Ssh { target_host: String, session: SshSession },
    /// An SCP transfer.
    Scp { session: ScpSession },
}

/// The session's log path.
pub open spec fn session_log(s: Session) -> Seq<char> {
    match s {
        Session::Ssh { session, .. } => session.log_path@,
        Session::Scp { session } => session.log_path@,
    }
}

/// The session's configuration details.
pub open spec fn session_details(s: Session) -> Seq<Seq<char>> {
    match s {
        Session::Ssh { session, .. } => sviews(session.ssh_details@),
        Session::Scp { session } => sviews(session.ssh_details@),
    }
}

/// The session's matching agent keys.
pub open spec fn session_keys(s: Session) -> Seq<Seq<char>> {
    match s {
        Session::Ssh { session, .. } => sviews(session.agent_keys@),
        Session::Scp { session } => sviews(session.agent_keys@),
    }
}

/// The pane title to restore after the session.
pub open spec fn session_title(s: Session) -> Seq<char> {
    match s {
        Session::Ssh { session, .. } => session.original_title@,
        Session::Scp { session } => session.original_title@,
    }
}

/// `r` is what preparing the session for `target` may give once the
/// checks passed, with the config arguments `cs` (see
/// [`prepare_ssh_session`] and [`prepare_scp_session`]).
pub open spec fn prepared<R: CommandRunner>(
    runner: &R,
    now: LocalTime,
    inputs: ConnectInputs,
    target: Target,
    cs: Seq<Seq<char>>,
    r: Result<Session, Error>,
) -> bool {
    match target {
        Target::Ssh { target_host, hostname } => exists|o: Result<String, Error>|
            {
                &&& #[trigger] runner.resolve_reply(hostname@, cs, o)
                &&& match o {
                    Err(e) => is_err_with(r, seq!["failed to resolve host: "@ + hostname@] + e@),
                    Ok(out) => r matches Ok(Session::Ssh { target_host: t, session: s }) && t@ == target_host@
                        && ssh_session_is(
                        runner,
                        now,
                        s,
                        out@,
                        hostname@,
                        inputs.log_prefix@,
                        inputs.home@,
                        inputs.fallback_pid,
                    ),
                }
            },
        Target::Scp { pairs, .. } => exists|v: Result<(Vec<(String, String)>, String), Error>|
            {
                &&& #[trigger] resolve_all_hosts_outcome(runner, pairs@, cs, v)
                &&& match v {
                    Err(e) => is_err_with(r, e@),
                    Ok(p) => r matches Ok(Session::Scp { session: s }) && scp_session_is(
                        runner,
                        now,
                        s,
                        p.0@,
                        p.1@,
                        inputs.log_prefix@,
                        inputs.home@,
                        inputs.fallback_pid,
                    ),
                }
            },
    }
}

fn prepare<R: CommandRunner>(
    runner: &R,
    log: &mut RequestLog,
    now: &LocalTime,
    inputs: &ConnectInputs,
    target: &Target,
    cs: &Vec<String>,
) -> (r: Result<Session, Error>)
    ensures
        prepared(runner, *now, *inputs, *target, sviews(cs@), r),
{
    match target {
        Target::Ssh { target_host, hostname } => match prepare_ssh_session(
            runner,
            log,
            now,
            hostname.as_str(),
            cs.as_slice(),
            inputs.log_prefix.as_str(),
            inputs.home.as_str(),
            inputs.fallback_pid,
        ) {
            Ok(session) => Ok(Session::Ssh { target_host: target_host.clone(), session }),
            Err(e) => Err(e),
        },
        Target::Scp { pairs, .. } => match prepare_scp_session(
            runner,
            log,
            now,
            pairs.as_slice(),
            cs.as_slice(),
            inputs.log_prefix.as_str(),
            inputs.home.as_str(),
            inputs.fallback_pid,
        ) {
            Ok(session) => Ok(Session::Scp { session }),
            Err(e) => Err(e),
        },
    }
}

/// The banner shown once logging started: `text` is the connect banner of
/// an SSH session, or the transfer banner (hosts joined by spaces) of an
/// SCP session, stamped with the time `ts`.
pub open spec fn connect_banner_is(s: Session, ts: Seq<char>, text: Seq<char>) -> bool {
    match s {
        Session::Ssh { target_host, session } => text == connect_banner_text(
                ts,
                target_host@,
                session.conn.user@,
                session.conn.hostname@,
                session.conn.port@,
                session.log_path@,
                sviews(session.ssh_details@),
                sviews(session.agent_keys@),
            ),
        Session::Scp { session } => text == scp_connect_banner_text(
                ts,
                join(sviews(session.user_at_hosts@), " "@),
                session.log_path@,
                sviews(session.ssh_details@),
                sviews(session.agent_keys@),
            ),
    }
}

fn connect_banner(s: &Session, now: &LocalTime) -> (r: String)
    ensures
        connect_banner_is(*s, now.banner@, r@),
{
    match s {
        Session::Ssh { target_host, session } => {
            let params = BannerParams {
                log_path: session.log_path.as_str(),
                ssh_details: session.ssh_details.as_slice(),
                agent_keys: session.agent_keys.as_slice(),
            };
            ssh_connect_banner(
                now.banner.as_str(),
                target_host.as_str(),
                session.conn.user.as_str(),
                session.conn.hostname.as_str(),
                session.conn.port.as_str(),
                &params,
            )
        },
        Session::Scp { session } => {
            let params = BannerParams {
                log_path: session.log_path.as_str(),
                ssh_details: session.ssh_details.as_slice(),
                agent_keys: session.agent_keys.as_slice(),
            };
            let hosts = join_strings(session.user_at_hosts.as_slice(), " ");
            scp_connect_banner(now.banner.as_str(), hosts.as_str(), &params)
        },
    }
}

/// The banner shown once the tool exited with `code` after `elapsed`
/// seconds: the disconnect banner of an SSH session, or the result banner
/// of an SCP transfer (success is exit code 0), stamped with the time `ts`.
pub open spec fn closing_banner_is(s: Session, code: i32, elapsed: nat, ts: Seq<char>, text: Seq<char>) -> bool {
    match s {
        Session::Ssh { session, .. } => text == disconnect_banner_text(
                ts,
                session.conn.user@,
                session.conn.hostname@,
                duration_text(elapsed),
                session.log_path@,
            ),
        Session::Scp { session } => {
            let success = code == 0;
            text == scp_result_banner_text(
                    ts,
                    sviews(session.user_at_hosts@),
                    success,
                    duration_text(elapsed),
                    session.log_path@,
                )
        },
    }
}

fn closing_banner(s: &Session, code: i32, elapsed_secs: u64, now: &LocalTime) -> (r: String)
    ensures
        closing_banner_is(*s, code, elapsed_secs as nat, now.banner@, r@),
{
    let duration_str = format_duration(elapsed_secs);
    match s {
        Session::Ssh { session, .. } => ssh_disconnect_banner(
            now.banner.as_str(),
            session.conn.user.as_str(),
            session.conn.hostname.as_str(),
            duration_str.as_str(),
            session.log_path.as_str(),
        ),
        Session::Scp { session } => scp_result_banner(
            now.banner.as_str(),
            session.user_at_hosts.as_slice(),
            code == 0,
            duration_str.as_str(),
            session.log_path.as_str(),
        ),
    }
}

/// `steps` is what marking the pane and window for the session may give
/// (see [`setup_ssh_state`] and [`setup_scp_state`]).
pub open spec fn setup_is<R: CommandRunner>(runner: &R, s: Session, steps: SetupSteps) -> bool {
    match s {
        Session::Ssh { target_host, session } => setup_steps_are(
            runner,
            "ssh:"@ + session.conn.user@ + "@"@ + target_host@,
            true,
            "ssh:"@ + session.conn.user@ + "@"@ + target_host@,
            steps,
        ),
        Session::Scp { session } => setup_steps_are(
            runner,
            "scp:"@ + join(sviews(session.user_at_hosts@), "_"@),
            false,
            "scp:"@ + join(sviews(session.user_at_hosts@), " "@),
            steps,
        ),
    }
}

fn setup_state<R: CommandRunner>(runner: &R, log: &mut RequestLog, s: &Session) -> (r: SetupSteps)
    ensures
        setup_is(runner, *s, r),
{
    match s {
        Session::Ssh { target_host, session } => setup_ssh_state(
            runner,
            log,
            session.conn.user.as_str(),
            target_host.as_str(),
        ),
        Session::Scp { session } => setup_scp_state(runner, log, session.user_at_hosts.as_slice()),
    }
}

/// `c` is what unmarking the pane and window may give, restoring `title`
/// (see [`clear_session_state`]).
pub open spec fn cleared_is<R: CommandRunner>(runner: &R, title: Seq<char>, c: ClearSteps) -> bool {
    &&& reset_style_outcome(runner, c.style)
    &&& set_title_outcome(runner, title, c.title)
    &&& unset_ssh_host_outcome(runner, c.host)
    &&& decrement_ssh_count_outcome(runner, c.count)
}

/// The warning line for a failed step: `failed to <what>: <error>`;
/// nothing for a step that succeeded.
pub open spec fn warning(what: Seq<char>, r: Result<(), Error>) -> Seq<char> {
    match r {
        Ok(()) => Seq::empty(),
        Err(e) => "failed to "@ + what + ": "@ + full_text(e@) + "\n"@,
    }
}

fn warning_text(what: &str, r: &Result<(), Error>) -> (t: String)
    ensures
        t@ == warning(what@, *r),
{
    match r {
        Ok(()) => String::new(),
        Err(e) => {
            let mut t = concat2("failed to ", what);
            push_str(&mut t, ": ");
            let m = e.full_message();
            push_str(&mut t, m.as_str());
            push_str(&mut t, "\n");
            t
        },
    }
}

/// The warnings of marking the session.
pub open spec fn setup_warnings(steps: SetupSteps) -> Seq<char> {
    warning("set pane title"@, steps.title) + warning("increment ssh count"@, steps.count) + match steps.rename {
        Some(x) => warning("disable rename"@, x),
        None => Seq::empty(),
    } + warning("set @fterm_ssh_host"@, steps.host)
}

fn setup_warnings_text(steps: &SetupSteps) -> (t: String)
    ensures
        t@ == setup_warnings(*steps),
{
    let mut t = warning_text("set pane title", &steps.title);
    let a = warning_text("increment ssh count", &steps.count);
    push_str(&mut t, a.as_str());
    match &steps.rename {
        Some(x) => {
            let b = warning_text("disable rename", x);
            push_str(&mut t, b.as_str());
        },
        None => {},
    }
    let c = warning_text("set @fterm_ssh_host", &steps.host);
    push_str(&mut t, c.as_str());
    t
}

/// The warnings of unmarking the session.
pub open spec fn clear_warnings(c: ClearSteps) -> Seq<char> {
    warning("reset pane style"@, c.style) + warning("restore pane title"@, c.title) + warning(
        "unset @fterm_ssh_host"@,
        c.host,
    ) + warning("decrement ssh count"@, c.count)
}

fn clear_warnings_text(c: &ClearSteps) -> (t: String)
    ensures
        t@ == clear_warnings(*c),
{
    let mut t = warning_text("reset pane style", &c.style);
    let a = warning_text("restore pane title", &c.title);
    push_str(&mut t, a.as_str());
    let b = warning_text("unset @fterm_ssh_host", &c.host);
    push_str(&mut t, b.as_str());
    let d = warning_text("decrement ssh count", &c.count);
    push_str(&mut t, d.as_str());
    t
}

/// The error chain of a log that failed to start: under `failed to start
/// logging`, and for SSH also under `failed to setup SSH connection to:
/// <target>`.
pub open spec fn start_failure(s: Session) -> Seq<Seq<char>> {
    match s {
        Session::Ssh { target_host, .. } => seq![
            "failed to setup SSH connection to: "@ + target_host@,
            "failed to start logging"@,
        ],
        Session::Scp { .. } => seq!["failed to start logging"@],
    }
}

fn start_failure_error(s: &Session, e: Error) -> (r: Error)
    ensures
        r@ == start_failure(*s) + e@,
{
    let ghost e0 = e@;
    let e1 = e.context(owned("failed to start logging"));
    match s {
        Session::Ssh { target_host, .. } => {
            let r = e1.context(concat2("failed to setup SSH connection to: ", target_host.as_str()));
            assert(r@ =~= start_failure(*s) + e0);
            r
        },
        Session::Scp { .. } => {
            assert(e1@ =~= start_failure(*s) + e0);
            e1
        },
    }
}

fn log_path_of(s: &Session) -> (r: String)
    ensures
        r@ == session_log(*s),
{
    match s {
        Session::Ssh { session, .. } => session.log_path.clone(),
        Session::Scp { session } => session.log_path.clone(),
    }
}

fn start_log_action(s: &Session) -> (a: ConnectAction)
    ensures
        starts_log(a, *s),
{
    match s {
        Session::Ssh { session, .. } => ConnectAction::StartLog {
            log_path: session.log_path.clone(),
            ssh_details: copy_strings(&session.ssh_details),
            agent_keys: copy_strings(&session.agent_keys),
        },
        Session::Scp { session } => ConnectAction::StartLog {
            log_path: session.log_path.clone(),
            ssh_details: copy_strings(&session.ssh_details),
            agent_keys: copy_strings(&session.agent_keys),
        },
    }
}

fn title_of(s: &Session) -> (r: &String)
    ensures
        r@ == session_title(*s),
{
    match s {
        Session::Ssh { session, .. } => &session.original_title,
        Session::Scp { session } => &session.original_title,
    }
}

/// Where the flow stands, and what answer it awaits.
#[derive(Debug)]
pub enum ConnectState {
    /// Nothing done yet (awaits `Start`).
    Begin,
    /// `SSH_ENV` is loaded (awaits `Done`).
    LoadingEnv { target: Target },
    /// The config files are read (awaits `Config`).
    LoadingConfig { target: Target },
    /// The socket directory is ensured (awaits `CmDir`).
    EnsuringCmDir { target: Target, files: Vec<ConfigFile>, config_args: Vec<String> },
    /// The validation lines are shown; `stop` is the exit code when
    /// validation failed (awaits `Done`).
    Validated { target: Target, config_args: Vec<String>, stop: Option<i32> },
    /// The log is started (awaits `LogStarted`).
    StartingLog { session: Session, config_args: Vec<String> },
    /// The connect banner is shown (awaits `Done`).
    Announced { session: Session, config_args: Vec<String> },
    /// The warnings of marking the session are shown (awaits `Done`).
    Marked { session: Session, config_args: Vec<String> },
    /// The tool runs (awaits `Exited`).
    Running { session: Session },
    /// The closing banner is shown; the tool exited with `code` (awaits
    /// `Done`).
    Closed { session: Session, code: i32 },
    /// The warnings of unmarking the session are shown (awaits `Done`).
    Unmarked { session: Session, code: i32 },
    /// The disconnect footer is appended to the log (awaits `Footer`).
    Footing { log_path: String, code: i32 },
    /// The last text is shown before ending with `code` (awaits `Done`).
    Closing { code: i32 },
    /// The flow is over.
    Ended,
}

/// What the program hands back after doing an action.
#[derive(Debug)]
pub enum ConnectEvent {
    /// The flow starts.
    Start,
    /// The action is done.
    Done,
    /// The config files to validate, or the error reading them gave.
    Config(Result<Vec<ConfigFile>, Error>),
    /// What ensuring the socket directory did.
    CmDir(CmDirOutcome),
    /// How starting the log went (see `crate::logging::start`).
    LogStarted(Result<(), Error>),
    /// The tool exited with `code` after `elapsed_secs` seconds.
    Exited { code: i32, elapsed_secs: u64 },
    /// How appending the disconnect footer went.
    Footer(Result<(), Error>),
}

/// What the program does next.
#[derive(Debug)]
pub enum ConnectAction {
    /// Run the tool as it is with these arguments (config arguments
    /// first); the flow is over and the tool's outcome is the wrapper's.
    RunDirect { args: Vec<String> },
    /// Load the `SSH_ENV` file into the environment; answer `Done`.
    LoadSshEnv,
    /// Read the config files (see `crate::config::includes`); answer
    /// `Config`.
    LoadConfig,
    /// Ensure the socket directory `dir` exists; answer `CmDir`.
    EnsureCmDir { dir: String },
    /// Write `text` to stderr; answer `Done`.
    Show { text: String },
    /// Start the session log (see `crate::logging::start::start_step`);
    /// answer `LogStarted`.
    StartLog { log_path: String, ssh_details: Vec<String>, agent_keys: Vec<String> },
    /// Run the tool with these arguments and inherited stdio, timing it;
    /// answer `Exited`.
    RunTool { args: Vec<String> },
    /// Append the disconnect footer to the log `path`; answer `Footer`.
    AppendFooter { path: String },
    /// The flow is over with this outcome.
    Exit(Result<i32, Error>),
}

/// `action` starts the log of the session `s`.
pub open spec fn starts_log(action: ConnectAction, s: Session) -> bool {
    action matches ConnectAction::StartLog { log_path, ssh_details, agent_keys } && log_path@ == session_log(s)
        && sviews(ssh_details@) == session_details(s) && sviews(agent_keys@) == session_keys(s)
}

/// `action` runs the tool as it is with `args`.
pub open spec fn runs_direct(action: ConnectAction, args: Seq<Seq<char>>) -> bool {
    action matches ConnectAction::RunDirect { args: a } && sviews(a@) == args
}

/// `action` runs the tool with `args`, timing it.
pub open spec fn runs_tool(action: ConnectAction, args: Seq<Seq<char>>) -> bool {
    action matches ConnectAction::RunTool { args: a } && sviews(a@) == args
}

/// `action` writes `text`.
pub open spec fn shows(action: ConnectAction, text: Seq<char>) -> bool {
    action matches ConnectAction::Show { text: t } && t@ == text
}

/// `action` ends the flow with the error chain `chain`.
pub open spec fn exits_with_error(action: ConnectAction, chain: Seq<Seq<char>>) -> bool {
    action matches ConnectAction::Exit(r) && is_err_with(r, chain)
}

/// `action` ends the flow with exit code `code`.
pub open spec fn exits_with_code(action: ConnectAction, code: i32) -> bool {
    action matches ConnectAction::Exit(Ok(c)) && c == code
}

/// After `action`, the next state awaits the answer to that action, and
/// the flow is over exactly when the action is `Exit` or `RunDirect`.
pub open spec fn connect_awaits(state: ConnectState, action: ConnectAction) -> bool {
    match action {
        ConnectAction::RunDirect { .. } | ConnectAction::Exit(_) => state is Ended,
        ConnectAction::LoadSshEnv | ConnectAction::Show { .. } => connect_fits(state, ConnectEvent::Done),
        ConnectAction::LoadConfig => state is LoadingConfig,
        ConnectAction::EnsureCmDir { .. } => state is EnsuringCmDir,
        ConnectAction::StartLog { .. } => state is StartingLog,
        ConnectAction::RunTool { .. } => state is Running,
        ConnectAction::AppendFooter { .. } => state is Footing,
    }
}

/// The states whose step asks the runner for nothing: the rest of the
/// flow around the work that `app/` does, the run of the tool itself, and
/// the end.
pub open spec fn makes_no_request(state: ConnectState) -> bool {
    state is LoadingConfig || state is StartingLog || state is Marked || state is Running || state is Unmarked
        || state is Closing || state is Ended
}

/// `event` is the answer that `state` awaits.
pub open spec fn connect_fits(state: ConnectState, event: ConnectEvent) -> bool {
    match event {
        ConnectEvent::Start => state is Begin,
        ConnectEvent::Done => state is LoadingEnv || state is Validated || state is Announced || state is Marked
            || state is Closed || state is Unmarked || state is Closing,
        ConnectEvent::Config(_) => state is LoadingConfig,
        ConnectEvent::CmDir(_) => state is EnsuringCmDir,
        ConnectEvent::LogStarted(_) => state is StartingLog,
        ConnectEvent::Exited { .. } => state is Running,
        ConnectEvent::Footer(_) => state is Footing,
    }
}

/// The first step: how the command line is handled and, when wrapped,
/// the tmux check (see [`tmux_gate`]).
pub open spec fn begin_is<R: CommandRunner>(
    runner: &R,
    inputs: ConnectInputs,
    next: ConnectState,
    action: ConnectAction,
) -> bool {
    exists|t: Option<Target>|
        {
            &&& #[trigger] routed(inputs.tool, sviews(inputs.args@), t)
            &&& match t {
                None => next is Ended && runs_direct(
                    action,
                    with_config(direct_config(inputs.config_args), sviews(inputs.args@)),
                ),
                Some(target) => exists|g: Result<bool, Error>|
                    {
                        &&& #[trigger] tmux_gate_outcome(runner, inputs.tool, inputs.in_tmux, sviews(inputs.args@), g)
                        &&& match g {
                            Ok(true) => next is Ended && exits_with_code(action, 0),
                            Ok(false) => next == ConnectState::LoadingEnv { target } && action is LoadSshEnv,
                            Err(e) => next is Ended && exits_with_error(action, e@),
                        }
                    },
            }
        }
}

fn begin_step<R: CommandRunner>(runner: &R, log: &mut RequestLog, inputs: &ConnectInputs) -> (r: (ConnectState, ConnectAction))
    ensures
        begin_is(runner, *inputs, r.0, r.1),
        r.1 is RunDirect ==> final(log)@ == old(log)@,
{
    let t = route(inputs.tool, inputs.args.as_slice());
    let ghost tg = t;
    let r = match t {
        None => {
            let cfg: Vec<String> = match &inputs.config_args {
                Ok(v) => copy_strings(v),
                Err(_) => Vec::new(),
            };
            assert(sviews(cfg@) =~= direct_config(inputs.config_args));
            (ConnectState::Ended, ConnectAction::RunDirect { args: config_prefixed_args(cfg.as_slice(), inputs.args.as_slice()) })
        },
        Some(target) => {
            let g = tmux_gate(runner, log, inputs.tool, inputs.in_tmux, inputs.args.as_slice());
            let ghost gg = g;
            let r = match g {
                Ok(true) => (ConnectState::Ended, ConnectAction::Exit(Ok(0))),
                Ok(false) => (ConnectState::LoadingEnv { target }, ConnectAction::LoadSshEnv),
                Err(e) => (ConnectState::Ended, ConnectAction::Exit(Err(e))),
            };
            assert(tmux_gate_outcome(runner, inputs.tool, inputs.in_tmux, sviews(inputs.args@), gg));
            r
        },
    };
    assert(routed(inputs.tool, sviews(inputs.args@), tg));
    r
}

/// Once `SSH_ENV` is loaded: the agent check (see [`agent_gate`]).
pub open spec fn env_is<R: CommandRunner>(
    runner: &R,
    inputs: ConnectInputs,
    target: Target,
    next: ConnectState,
    action: ConnectAction,
) -> bool {
    exists|g: Result<Option<String>, Error>|
        {
            &&& #[trigger] agent_gate_outcome(runner, inputs.tool, sviews(inputs.args@), g)
            &&& match g {
                Err(e) => next is Ended && exits_with_error(action, e@),
                Ok(Some(t)) => next == ConnectState::Closing { code: 1 } && shows(action, t@ + "\n"@),
                Ok(None) => next == ConnectState::LoadingConfig { target } && action is LoadConfig,
            }
        }
}

fn env_step<R: CommandRunner>(runner: &R, log: &mut RequestLog, inputs: &ConnectInputs, target: Target) -> (r: (ConnectState, ConnectAction))
    ensures
        env_is(runner, *inputs, target, r.0, r.1),
{
    let g = agent_gate(runner, log, inputs.tool, inputs.args.as_slice());
    let ghost gg = g;
    let r = match g {
        Err(e) => (ConnectState::Ended, ConnectAction::Exit(Err(e))),
        Ok(Some(t)) => {
            let mut text = t;
            push_str(&mut text, "\n");
            (ConnectState::Closing { code: 1 }, ConnectAction::Show { text })
        },
        Ok(None) => (ConnectState::LoadingConfig { target }, ConnectAction::LoadConfig),
    };
    assert(agent_gate_outcome(runner, inputs.tool, sviews(inputs.args@), gg));
    r
}

/// Once the config files are read: they and the config arguments must be
/// there (see [`validation_inputs`]); then the socket directory is
/// ensured.
pub open spec fn config_is(
    inputs: ConnectInputs,
    target: Target,
    files: Result<Vec<ConfigFile>, Error>,
    next: ConnectState,
    action: ConnectAction,
) -> bool {
    match files {
        Err(e) => next is Ended && exits_with_error(
            action,
            seq![pre_connect_context(inputs.tool), "failed to resolve SSH config includes"@] + e@,
        ),
        Ok(fs) => match inputs.config_args {
            Err(e) => next is Ended && exits_with_error(action, seq![pre_connect_context(inputs.tool)] + e@),
            Ok(cs) => {
                &&& next matches ConnectState::EnsuringCmDir { target: t, files: f, config_args: c } && t == target
                    && f == fs && c@ == cs@
                &&& action matches ConnectAction::EnsureCmDir { dir } && dir@ == cm_dir(inputs.ssh_home@)
            },
        },
    }
}

fn config_step(inputs: &ConnectInputs, target: Target, files: Result<Vec<ConfigFile>, Error>) -> (r: (
    ConnectState,
    ConnectAction,
))
    ensures
        config_is(*inputs, target, files, r.0, r.1),
{
    let cfg = copy_config(&inputs.config_args);
    match validation_inputs(inputs.tool, files, cfg) {
        Err(e) => (ConnectState::Ended, ConnectAction::Exit(Err(e))),
        Ok((fs, cs)) => (
            ConnectState::EnsuringCmDir { target, files: fs, config_args: cs },
            ConnectAction::EnsureCmDir { dir: cm_dir_path(inputs.ssh_home.as_str()) },
        ),
    }
}

/// Once the socket directory is ensured: validation (see
/// [`run_validation`]), whose lines are shown.
pub open spec fn cm_dir_is<R: CommandRunner, D: Fn(&str) -> DirAccess, F: Fn(&str) -> FileFacts>(
    runner: &R,
    dir_probe: D,
    file_probe: F,
    inputs: ConnectInputs,
    target: Target,
    files: Vec<ConfigFile>,
    cs: Vec<String>,
    outcome: CmDirOutcome,
    next: ConnectState,
    action: ConnectAction,
) -> bool {
    exists|v: Result<(Option<i32>, Vec<String>), Error>|
        {
            &&& #[trigger] run_validation_outcome(
                runner,
                inputs.tool,
                dir_probe,
                file_probe,
                cm_dir_messages(cm_dir(inputs.ssh_home@), outcome),
                files@,
                target_hosts(target),
                sviews(cs@),
                inputs.home@,
                v,
            )
            &&& match v {
                Err(e) => next is Ended && exits_with_error(action, e@),
                Ok(p) => next == ConnectState::Validated { target, config_args: cs, stop: p.0 } && shows(
                    action,
                    lines_block(sviews(p.1@)),
                ),
            }
        }
}

fn hosts_of(target: &Target) -> (r: Vec<String>)
    ensures
        sviews(r@) == target_hosts(*target),
{
    match target {
        Target::Ssh { hostname, .. } => {
            let mut v: Vec<String> = Vec::new();
            v.push(hostname.clone());
            assert(sviews(v@) =~= seq![hostname@]);
            v
        },
        Target::Scp { hosts, .. } => copy_strings(hosts),
    }
}

fn cm_dir_step<R: CommandRunner, D: Fn(&str) -> DirAccess, F: Fn(&str) -> FileFacts>(
    runner: &R,
    log: &mut RequestLog,
    dir_probe: &D,
    file_probe: &F,
    inputs: &ConnectInputs,
    target: Target,
    files: Vec<ConfigFile>,
    cs: Vec<String>,
    outcome: CmDirOutcome,
) -> (r: (ConnectState, ConnectAction))
    requires
        forall|s: &str| call_requires(*dir_probe, (s,)),
        forall|s: &str| call_requires(*file_probe, (s,)),
    ensures
        cm_dir_is(runner, *dir_probe, *file_probe, *inputs, target, files, cs, outcome, r.0, r.1),
{
    let dir = cm_dir_path(inputs.ssh_home.as_str());
    let cm_messages = cm_dir_check(dir.as_str(), &outcome);
    let hosts = hosts_of(&target);
    let v = run_validation(
        runner,
        log,
        inputs.tool,
        cm_messages,
        files.as_slice(),
        hosts.as_slice(),
        cs.as_slice(),
        inputs.home.as_str(),
        dir_probe,
        file_probe,
    );
    let ghost vg = v;
    let r = match v {
        Err(e) => (ConnectState::Ended, ConnectAction::Exit(Err(e))),
        Ok((stop, lines)) => {
            let mut text = String::new();
            push_lines(&mut text, lines.as_slice());
            (ConnectState::Validated { target, config_args: cs, stop }, ConnectAction::Show { text })
        },
    };
    assert(run_validation_outcome(
        runner,
        inputs.tool,
        *dir_probe,
        *file_probe,
        cm_dir_messages(cm_dir(inputs.ssh_home@), outcome),
        files@,
        target_hosts(target),
        sviews(cs@),
        inputs.home@,
        vg,
    ));
    r
}

/// Once the validation lines are shown: a failed validation ends the flow
/// with its exit code; otherwise the session is prepared (see
/// [`prepared`]) and its log started.
pub open spec fn validated_is<R: CommandRunner>(
    runner: &R,
    now: LocalTime,
    inputs: ConnectInputs,
    target: Target,
    cs: Vec<String>,
    stop: Option<i32>,
    next: ConnectState,
    action: ConnectAction,
) -> bool {
    match stop {
        Some(c) => next is Ended && exits_with_code(action, c),
        None => exists|p: Result<Session, Error>|
            {
                &&& #[trigger] prepared(runner, now, inputs, target, sviews(cs@), p)
                &&& match p {
                    Err(e) => next is Ended && exits_with_error(action, e@),
                    Ok(session) => next == ConnectState::StartingLog { session, config_args: cs } && starts_log(
                        action,
                        session,
                    ),
                }
            },
    }
}

fn validated_step<R: CommandRunner>(
    runner: &R,
    log: &mut RequestLog,
    now: &LocalTime,
    inputs: &ConnectInputs,
    target: Target,
    cs: Vec<String>,
    stop: Option<i32>,
) -> (r: (ConnectState, ConnectAction))
    ensures
        validated_is(runner, *now, *inputs, target, cs, stop, r.0, r.1),
{
    match stop {
        Some(c) => (ConnectState::Ended, ConnectAction::Exit(Ok(c))),
        None => {
            let p = prepare(runner, log, now, inputs, &target, &cs);
            let ghost pg = p;
            let r = match p {
                Err(e) => (ConnectState::Ended, ConnectAction::Exit(Err(e))),
                Ok(session) => {
                    let action = start_log_action(&session);
                    (ConnectState::StartingLog { session, config_args: cs }, action)
                },
            };
            assert(prepared(runner, *now, *inputs, target, sviews(cs@), pg));
            r
        },
    }
}

/// Once the log is started: a failure ends the flow (see
/// [`start_failure`]); otherwise the connect banner is shown.
pub open spec fn log_started_is(
    now: LocalTime,
    session: Session,
    cs: Vec<String>,
    started: Result<(), Error>,
    next: ConnectState,
    action: ConnectAction,
) -> bool {
    match started {
        Err(e) => next is Ended && exits_with_error(action, start_failure(session) + e@),
        Ok(()) => next == ConnectState::Announced { session, config_args: cs } && exists|text: Seq<char>|
            #[trigger] connect_banner_is(session, now.banner@, text) && shows(action, text),
    }
}

fn log_started_step(now: &LocalTime, session: Session, cs: Vec<String>, started: Result<(), Error>) -> (r: (
    ConnectState,
    ConnectAction,
))
    ensures
        log_started_is(*now, session, cs, started, r.0, r.1),
{
    match started {
        Err(e) => {
            let err = start_failure_error(&session, e);
            (ConnectState::Ended, ConnectAction::Exit(Err(err)))
        },
        Ok(()) => {
            let text = connect_banner(&session, now);
            (ConnectState::Announced { session, config_args: cs }, ConnectAction::Show { text })
        },
    }
}

/// Once the banner is shown: the pane and window are marked (see
/// [`setup_is`]) and the warnings of failed steps shown.
pub open spec fn announced_is<R: CommandRunner>(
    runner: &R,
    session: Session,
    cs: Vec<String>,
    next: ConnectState,
    action: ConnectAction,
) -> bool {
    next == ConnectState::Marked { session, config_args: cs } && exists|steps: SetupSteps|
        #[trigger] setup_is(runner, session, steps) && shows(action, setup_warnings(steps))
}

fn announced_step<R: CommandRunner>(runner: &R, log: &mut RequestLog, session: Session, cs: Vec<String>) -> (r: (
    ConnectState,
    ConnectAction,
))
    ensures
        announced_is(runner, session, cs, r.0, r.1),
{
    let steps = setup_state(runner, log, &session);
    let text = setup_warnings_text(&steps);
    (ConnectState::Marked { session, config_args: cs }, ConnectAction::Show { text })
}

/// Once the session is marked: the tool runs with the config arguments
/// before the user's arguments.
pub open spec fn marked_is(
    inputs: ConnectInputs,
    session: Session,
    cs: Vec<String>,
    next: ConnectState,
    action: ConnectAction,
) -> bool {
    next == ConnectState::Running { session } && runs_tool(action, with_config(sviews(cs@), sviews(inputs.args@)))
}

/// Once the tool exited: the closing banner is shown.
pub open spec fn exited_is(
    now: LocalTime,
    session: Session,
    code: i32,
    elapsed_secs: u64,
    next: ConnectState,
    action: ConnectAction,
) -> bool {
    next == ConnectState::Closed { session, code } && exists|text: Seq<char>|
        #[trigger] closing_banner_is(session, code, elapsed_secs as nat, now.banner@, text) && shows(action, text)
}

/// Once the closing banner is shown: the pane and window are unmarked
/// (see [`cleared_is`]) and the warnings of failed steps shown.
pub open spec fn closed_is<R: CommandRunner>(
    runner: &R,
    session: Session,
    code: i32,
    next: ConnectState,
    action: ConnectAction,
) -> bool {
    next == ConnectState::Unmarked { session, code } && exists|c: ClearSteps|
        #[trigger] cleared_is(runner, session_title(session), c) && shows(action, clear_warnings(c))
}

fn closed_step<R: CommandRunner>(runner: &R, log: &mut RequestLog, session: Session, code: i32) -> (r: (ConnectState, ConnectAction))
    ensures
        closed_is(runner, session, code, r.0, r.1),
{
    let c = clear_session_state(runner, log, title_of(&session).as_str());
    let text = clear_warnings_text(&c);
    assert(cleared_is(runner, session_title(session), c));
    (ConnectState::Unmarked { session, code }, ConnectAction::Show { text })
}

/// Once the session is unmarked: the disconnect footer is appended to its
/// log.
pub open spec fn unmarked_is(session: Session, code: i32, next: ConnectState, action: ConnectAction) -> bool {
    &&& next matches ConnectState::Footing { log_path, code: k } && log_path@ == session_log(session) && k == code
    &&& action matches ConnectAction::AppendFooter { path } && path@ == session_log(session)
}

/// The text that ends a wrapped session on stderr: the warning of a failed
/// stop, then the escape sequence that resets the terminal title.
pub open spec fn final_text(stopped: Result<(), Error>) -> Seq<char> {
    warning("stop logging"@, stopped) + "\x1b]0;\x07"@
}

/// Once the footer is appended: the log is finished (see
/// [`finish_after_footer`]) and the final text shown.
pub open spec fn footer_is<R: CommandRunner>(
    runner: &R,
    log_path: Seq<char>,
    code: i32,
    footer: Result<(), Error>,
    next: ConnectState,
    action: ConnectAction,
) -> bool {
    next == ConnectState::Closing { code } && exists|st: Result<(), Error>|
        {
            &&& match footer {
                Err(e) => is_err_with(st, e@),
                Ok(()) => #[trigger] finalize_logging_outcome(runner, log_path, st),
            }
            &&& shows(action, final_text(st))
        }
}

fn footer_step<R: CommandRunner>(runner: &R, log: &mut RequestLog, log_path: String, code: i32, footer: Result<(), Error>) -> (r: (
    ConnectState,
    ConnectAction,
))
    ensures
        footer_is(runner, log_path@, code, footer, r.0, r.1),
{
    let ghost fg = footer;
    let st = finish_after_footer(runner, log, log_path.as_str(), footer);
    let mut text = warning_text("stop logging", &st);
    push_str(&mut text, "\x1b]0;\x07");
    proof {
        reveal_strlit("\x1b]0;\x07");
    }
    let r = (ConnectState::Closing { code }, ConnectAction::Show { text });
    assert(match fg {
        Err(e) => is_err_with(st, e@),
        Ok(()) => finalize_logging_outcome(runner, log_path@, st),
    });
    r
}

/// One step of the wrapper (see the per-state statements above): from
/// `state`, on the answer `event`, to `next`, doing `action`.
pub open spec fn connect_step_is<R: CommandRunner, D: Fn(&str) -> DirAccess, F: Fn(&str) -> FileFacts>(
    runner: &R,
    now: LocalTime,
    dir_probe: D,
    file_probe: F,
    inputs: ConnectInputs,
    state: ConnectState,
    event: ConnectEvent,
    next: ConnectState,
    action: ConnectAction,
) -> bool {
    match state {
        ConnectState::Begin => begin_is(runner, inputs, next, action),
        ConnectState::LoadingEnv { target } => env_is(runner, inputs, target, next, action),
        ConnectState::LoadingConfig { target } => match event {
            ConnectEvent::Config(files) => config_is(inputs, target, files, next, action),
            _ => false,
        },
        ConnectState::EnsuringCmDir { target, files, config_args } => match event {
            ConnectEvent::CmDir(outcome) => cm_dir_is(
                runner,
                dir_probe,
                file_probe,
                inputs,
                target,
                files,
                config_args,
                outcome,
                next,
                action,
            ),
            _ => false,
        },
        ConnectState::Validated { target, config_args, stop } => validated_is(
            runner,
            now,
            inputs,
            target,
            config_args,
            stop,
            next,
            action,
        ),
        ConnectState::StartingLog { session, config_args } => match event {
            ConnectEvent::LogStarted(started) => log_started_is(now, session, config_args, started, next, action),
            _ => false,
        },
        ConnectState::Announced { session, config_args } => announced_is(runner, session, config_args, next, action),
        ConnectState::Marked { session, config_args } => marked_is(inputs, session, config_args, next, action),
        ConnectState::Running { session } => match event {
            ConnectEvent::Exited { code, elapsed_secs } => exited_is(now, session, code, elapsed_secs, next, action),
            _ => false,
        },
        ConnectState::Closed { session, code } => closed_is(runner, session, code, next, action),
        ConnectState::Unmarked { session, code } => unmarked_is(session, code, next, action),
        ConnectState::Footing { log_path, code } => match event {
            ConnectEvent::Footer(footer) => footer_is(runner, log_path@, code, footer, next, action),
            _ => false,
        },
        ConnectState::Closing { code } => next is Ended && exits_with_code(action, code),
        ConnectState::Ended => false,
    }
}

/// One step of the `ssh` or `scp` wrapper (see [`connect_step_is`]): the
/// program starts from `Begin` with `Start`, does each action and answers
/// it, until the action is `Exit` or `RunDirect`. `now` is the local time
/// at the step (the program reads the clock before each step); it stamps
/// the banners and names the log.
pub fn connect_step<R: CommandRunner, D: Fn(&str) -> DirAccess, F: Fn(&str) -> FileFacts>(
    runner: &R,
    log: &mut RequestLog,
    now: &LocalTime,
    inputs: &ConnectInputs,
    dir_probe: &D,
    file_probe: &F,
    state: ConnectState,
    event: ConnectEvent,
) -> (r: (ConnectState, ConnectAction))
    requires
        connect_fits(state, event),
        forall|s: &str| call_requires(*dir_probe, (s,)),
        forall|s: &str| call_requires(*file_probe, (s,)),
    ensures
        connect_step_is(runner, *now, *dir_probe, *file_probe, *inputs, state, event, r.0, r.1),
        connect_awaits(r.0, r.1),
        r.1 is RunDirect || makes_no_request(state) ==> final(log)@ == old(log)@,
{
    match state {
        ConnectState::Begin => begin_step(runner, log, inputs),
        ConnectState::LoadingEnv { target } => env_step(runner, log, inputs, target),
        ConnectState::LoadingConfig { target } => match event {
            ConnectEvent::Config(files) => config_step(inputs, target, files),
            _ => (ConnectState::Ended, ConnectAction::Exit(Ok(1))),
        },
        ConnectState::EnsuringCmDir { target, files, config_args } => match event {
            ConnectEvent::CmDir(outcome) => cm_dir_step(
                runner,
                log,
                dir_probe,
                file_probe,
                inputs,
                target,
                files,
                config_args,
                outcome,
            ),
            _ => (ConnectState::Ended, ConnectAction::Exit(Ok(1))),
        },
        ConnectState::Validated { target, config_args, stop } => validated_step(
            runner,
            log,
            now,
            inputs,
            target,
            config_args,
            stop,
        ),
        ConnectState::StartingLog { session, config_args } => match event {
            ConnectEvent::LogStarted(started) => log_started_step(now, session, config_args, started),
            _ => (ConnectState::Ended, ConnectAction::Exit(Ok(1))),
        },
        ConnectState::Announced { session, config_args } => announced_step(runner, log, session, config_args),
        ConnectState::Marked { session, config_args } => {
            let args = config_prefixed_args(config_args.as_slice(), inputs.args.as_slice());
            (ConnectState::Running { session }, ConnectAction::RunTool { args })
        },
        ConnectState::Running { session } => match event {
            ConnectEvent::Exited { code, elapsed_secs } => {
                let text = closing_banner(&session, code, elapsed_secs, now);
                (ConnectState::Closed { session, code }, ConnectAction::Show { text })
            },
            _ => (ConnectState::Ended, ConnectAction::Exit(Ok(1))),
        },
        ConnectState::Closed { session, code } => closed_step(runner, log, session, code),
        ConnectState::Unmarked { session, code } => {
            let path = log_path_of(&session);
            let log_path = log_path_of(&session);
            (ConnectState::Footing { log_path, code }, ConnectAction::AppendFooter { path })
        },
        ConnectState::Footing { log_path, code } => match event {
            ConnectEvent::Footer(footer) => footer_step(runner, log, log_path, code, footer),
            _ => (ConnectState::Ended, ConnectAction::Exit(Ok(1))),
        },
        ConnectState::Closing { code } => (ConnectState::Ended, ConnectAction::Exit(Ok(code))),
        ConnectState::Ended => (ConnectState::Ended, ConnectAction::Exit(Ok(1))),
    }
}

} // verus!
