//! The connection flow shared by the `ssh` and `scp` wrappers.
//!
//! The flow alternates tmux and ssh requests, which the library makes
//! through the runner, with outside work that the program does (loading
//! `SSH_ENV`, reading the config files, creating the socket and log
//! directories, writing the log, running the tool, reading the clock). Each
//! stretch between two pieces of outside work is one function here: it
//! makes its requests and says what comes next; the program performs the
//! outside work in between and hands the results to the next stretch.

use vstd::prelude::*;
use crate::runner::RequestLog;

use crate::check_types::{msgs_view, CheckLevel, CheckMessage, ValidationResult};
use crate::command::ssh::{has_identity_option, validation_verdict, verdict_is};
use crate::config::files::ConfigFile;
use crate::error::Error;
use crate::runner::{is_err_with, AgentListResult, CommandRunner};
use crate::text::{owned, sviews};
use crate::tmux::session::{ensure_tmux, ensure_tmux_outcome, TmuxAction};
use crate::validate::control_path::DirAccess;
use crate::validate::identity::FileFacts;
use crate::validate::orchestrator::{run_all_checks, run_outcome};
use crate::command::scp::{scp_host_value, scp_pane_title};
use crate::command::ssh::ssh_pane_title;
use crate::text::join;
use crate::tmux::pane::{
    reset_style, reset_style_outcome, set_ssh_host, set_ssh_host_outcome, set_title, set_title_outcome,
    unset_ssh_host, unset_ssh_host_outcome,
};
use crate::tmux::window::{
    decrement_ssh_count, decrement_ssh_count_outcome, disable_rename, disable_rename_outcome,
    increment_ssh_count, increment_ssh_count_outcome,
};

verus! {

/// The wrapped tool.
#[derive(Debug, Clone, Copy, PartialEq, Eq, Structural)]
pub enum Tool {
    /// `ssh`.
    Ssh,
    /// `scp`.
    Scp,
}

/// The tool's name, which is also its `fterm` subcommand.
pub open spec fn tool_text(tool: Tool) -> Seq<char> {
    match tool {
        Tool::Ssh => "ssh"@,
        Tool::Scp => "scp"@,
    }
}

/// The tool's name.
pub fn tool_name(tool: Tool) -> (r: &'static str)
    ensures
        r@ == tool_text(tool),
{
    match tool {
        Tool::Ssh => "ssh",
        Tool::Scp => "scp",
    }
}

/// The context of every failure of the pre-connect checks.
pub open spec fn pre_connect_context(tool: Tool) -> Seq<char> {
    tool_text(tool) + " pre-connect checks failed"@
}

fn pre_connect_error(tool: Tool, e: Error) -> (r: Error)
    ensures
        r@ == seq![pre_connect_context(tool)] + e@,
{
    proof {
        reveal_strlit("ssh");
        reveal_strlit("scp");
        reveal_strlit(" pre-connect checks failed");
        reveal_strlit("ssh pre-connect checks failed");
        reveal_strlit("scp pre-connect checks failed");
        assert("ssh pre-connect checks failed"@ =~= "ssh"@ + " pre-connect checks failed"@);
        assert("scp pre-connect checks failed"@ =~= "scp"@ + " pre-connect checks failed"@);
    }
    match tool {
        Tool::Ssh => e.context(owned("ssh pre-connect checks failed")),
        Tool::Scp => e.context(owned("scp pre-connect checks failed")),
    }
}

fn wrapped(tool: Tool, e: Error, ctx: &str) -> (r: Error)
    ensures
        r@ == seq![pre_connect_context(tool), ctx@] + e@,
{
    let ghost e0 = e@;
    let r = pre_connect_error(tool, e.context(owned(ctx)));
    assert(r@ =~= seq![pre_connect_context(tool), ctx@] + e0);
    r
}

/// What the tmux check may give: see [`tmux_gate`].
pub open spec fn tmux_gate_outcome<R: CommandRunner>(
    runner: &R,
    tool: Tool,
    in_tmux: bool,
    args: Seq<Seq<char>>,
    r: Result<bool, Error>,
) -> bool {
    exists|a: Result<TmuxAction, Error>|
        {
            &&& #[trigger] ensure_tmux_outcome(runner, in_tmux, "fterm"@, tool_text(tool), args, a)
            &&& match a {
                Ok(TmuxAction::DelegatedToTmux) => r == Ok::<bool, Error>(true),
                Ok(TmuxAction::AlreadyInTmux) => r == Ok::<bool, Error>(false),
                Err(e) => is_err_with(r, seq![pre_connect_context(tool), "failed to ensure tmux session"@] + e@),
            }
        }
}

/// First pre-connect check: outside tmux, the command is handed to the
/// tmux `login-session` (see [`ensure_tmux`]); `Ok(true)` means it was, and
/// the wrapper is done with exit code 0. `in_tmux` says whether `TMUX` is
/// set.
pub fn tmux_gate<R: CommandRunner>(runner: &R, log: &mut RequestLog, tool: Tool, in_tmux: bool, args: &[String]) -> (r: Result<bool, Error>)
    ensures
        tmux_gate_outcome(runner, tool, in_tmux, sviews(args@), r),
{
    let a = ensure_tmux(runner, log, in_tmux, "fterm", tool_name(tool), args);
    let ghost ag = a;
    let r = match a {
        Ok(TmuxAction::DelegatedToTmux) => Ok(true),
        Ok(TmuxAction::AlreadyInTmux) => Ok(false),
        Err(e) => Err(wrapped(tool, e, "failed to ensure tmux session")),
    };
    assert(ensure_tmux_outcome(runner, in_tmux, "fterm"@, tool_text(tool), sviews(args@), ag));
    r
}

/// Whether the tool needs a running SSH agent: `scp` always, `ssh` unless
/// an identity file is given with `-i`.
pub open spec fn needs_agent(tool: Tool, args: Seq<Seq<char>>) -> bool {
    tool == Tool::Scp || !args.contains("-i"@)
}

/// What is shown when the agent is not available.
pub open spec fn agent_unavailable_text(tool: Tool) -> Seq<char> {
    match tool {
        Tool::Ssh => "Error: SSH agent is not available. Start ssh-agent or use -i option."@,
        Tool::Scp => "Error: SSH agent is not available. Start ssh-agent first."@,
    }
}

/// What the agent check may give: see [`agent_gate`].
pub open spec fn agent_gate_outcome<R: CommandRunner>(
    runner: &R,
    tool: Tool,
    args: Seq<Seq<char>>,
    r: Result<Option<String>, Error>,
) -> bool {
    &&& !needs_agent(tool, args) ==> (r matches Ok(None))
    &&& needs_agent(tool, args) ==> exists|a: Result<AgentListResult, Error>|
        {
            &&& #[trigger] runner.agent_list_reply(a)
            &&& match a {
                Err(e) => is_err_with(r, seq![pre_connect_context(tool), "failed to check SSH agent"@] + e@),
                Ok(l) => if l.available {
                    r matches Ok(None)
                } else {
                    r matches Ok(Some(t)) && t@ == agent_unavailable_text(tool)
                },
            }
        }
}

/// Second pre-connect check, once `SSH_ENV` is loaded: the SSH agent must
/// be available when the tool needs it. `Ok(Some(text))` means it is not:
/// the wrapper shows `text` and is done with exit code 1.
pub fn agent_gate<R: CommandRunner>(runner: &R, log: &mut RequestLog, tool: Tool, args: &[String]) -> (r: Result<Option<String>, Error>)
    ensures
        agent_gate_outcome(runner, tool, sviews(args@), r),
{
    if tool == Tool::Ssh && has_identity_option(args) {
        return Ok(None);
    }
    let a = runner.ssh_agent_list(log);
    let ghost ag = a;
    let r = match a {
        Err(e) => Err(wrapped(tool, e, "failed to check SSH agent")),
        Ok(l) => {
            if l.available {
                Ok(None)
            } else {
                match tool {
                    Tool::Ssh => Ok(Some(owned("Error: SSH agent is not available. Start ssh-agent or use -i option."))),
                    Tool::Scp => Ok(Some(owned("Error: SSH agent is not available. Start ssh-agent first."))),
                }
            }
        },
    };
    assert(runner.agent_list_reply(ag));
    r
}

/// The inputs of validation, checked before anything is created: the
/// config files with their includes resolved (none when there is no config
/// file) and the `-F` config arguments.
pub fn validation_inputs(
    tool: Tool,
    config_files: Result<Vec<ConfigFile>, Error>,
    config_args: Result<Vec<String>, Error>,
) -> (r: Result<(Vec<ConfigFile>, Vec<String>), Error>)
    ensures
        match config_files {
            Err(e) => is_err_with(r, seq![pre_connect_context(tool), "failed to resolve SSH config includes"@] + e@),
            Ok(fs) => match config_args {
                Err(e) => is_err_with(r, seq![pre_connect_context(tool)] + e@),
                Ok(cs) => r == Ok::<(Vec<ConfigFile>, Vec<String>), Error>((fs, cs)),
            },
        },
{
    match config_files {
        Err(e) => Err(wrapped(tool, e, "failed to resolve SSH config includes")),
        Ok(fs) => match config_args {
            Err(e) => Err(pre_connect_error(tool, e)),
            Ok(cs) => Ok((fs, cs)),
        },
    }
}

/// What validating may give: see [`run_validation`].
pub open spec fn run_validation_outcome<R: CommandRunner, D: Fn(&str) -> DirAccess, F: Fn(&str) -> FileFacts>(
    runner: &R,
    tool: Tool,
    dir_probe: D,
    file_probe: F,
    cm: Seq<(CheckLevel, Seq<char>)>,
    config_files: Seq<ConfigFile>,
    hosts: Seq<Seq<char>>,
    config_args: Seq<Seq<char>>,
    home: Seq<char>,
    r: Result<(Option<i32>, Vec<String>), Error>,
) -> bool {
    exists|v: Result<ValidationResult, Error>|
        {
            &&& #[trigger] run_outcome(runner, dir_probe, file_probe, cm, config_files, hosts, config_args, home, v)
            &&& match v {
                Err(e) => is_err_with(r, seq![pre_connect_context(tool), "SSH config validation failed"@] + e@),
                Ok(res) => r matches Ok(p) && verdict_is(res, p),
            }
        }
}

/// Last pre-connect check, once the `ControlMaster` socket directory is
/// ensured (`cm_messages`): validate the configuration for `hosts` (see
/// [`run_all_checks`]) and give its verdict (see [`validation_verdict`]):
/// the lines to show, and exit code 1 when there are errors.
pub fn run_validation<R: CommandRunner, D: Fn(&str) -> DirAccess, F: Fn(&str) -> FileFacts>(
    runner: &R,
    log: &mut RequestLog,
    tool: Tool,
    cm_messages: Vec<CheckMessage>,
    config_files: &[ConfigFile],
    hosts: &[String],
    config_args: &[String],
    home: &str,
    dir_probe: &D,
    file_probe: &F,
) -> (r: Result<(Option<i32>, Vec<String>), Error>)
    requires
        forall|s: &str| call_requires(*dir_probe, (s,)),
        forall|s: &str| call_requires(*file_probe, (s,)),
    ensures
        run_validation_outcome(
            runner,
            tool,
            *dir_probe,
            *file_probe,
            msgs_view(cm_messages@),
            config_files@,
            sviews(hosts@),
            sviews(config_args@),
            home@,
            r,
        ),
{
    let ghost cm = msgs_view(cm_messages@);
    let v = run_all_checks(runner, log, cm_messages, config_files, hosts, config_args, home, dir_probe, file_probe);
    let ghost vg = v;
    let r = match v {
        Err(e) => Err(wrapped(tool, e, "SSH config validation failed")),
        Ok(res) => Ok(validation_verdict(&res)),
    };
    assert(run_outcome(runner, *dir_probe, *file_probe, cm, config_files@, sviews(hosts@), sviews(config_args@), home@, vg));
    r
}

/// The outcomes of marking the pane and window as holding a session; a
/// failed step does not stop the others.
#[derive(Debug)]
pub struct SetupSteps {
    /// Setting the pane title.
    pub title: Result<(), Error>,
    /// Incrementing the window's SSH count (which disables renaming).
    pub count: Result<(), Error>,
    /// Disabling renaming once more (`ssh` only).
    pub rename: Option<Result<(), Error>>,
    /// Setting `@fterm_ssh_host`.
    pub host: Result<(), Error>,
}

/// `r` is what marking the session may give: the title set to `title`, the
/// count incremented, renaming disabled again when `rename`, and
/// `@fterm_ssh_host` set to `host_value`, in this order.
pub open spec fn setup_steps_are<R: CommandRunner>(
    runner: &R,
    title: Seq<char>,
    rename: bool,
    host_value: Seq<char>,
    r: SetupSteps,
) -> bool {
    &&& set_title_outcome(runner, title, r.title)
    &&& increment_ssh_count_outcome(runner, r.count)
    &&& match r.rename {
        Some(x) => rename && disable_rename_outcome(runner, x),
        None => !rename,
    }
    &&& set_ssh_host_outcome(runner, host_value, r.host)
}

fn setup_session_state<R: CommandRunner>(runner: &R, log: &mut RequestLog, title: &str, rename: bool, host_value: &str) -> (r: SetupSteps)
    ensures
        setup_steps_are(runner, title@, rename, host_value@, r),
{
    let title_r = set_title(runner, log, title);
    let count = increment_ssh_count(runner, log);
    let rename_r = if rename {
        Some(disable_rename(runner, log))
    } else {
        None
    };
    let host = set_ssh_host(runner, log, host_value);
    SetupSteps { title: title_r, count, rename: rename_r, host }
}

/// Mark the pane and window as holding the SSH connection of `user` to
/// `target_host`, once its banner is shown: pane title and
/// `@fterm_ssh_host` `ssh:<user>@<target>`, the SSH count incremented and
/// renaming disabled.
pub fn setup_ssh_state<R: CommandRunner>(runner: &R, log: &mut RequestLog, user: &str, target_host: &str) -> (r: SetupSteps)
    ensures
        setup_steps_are(runner, "ssh:"@ + user@ + "@"@ + target_host@, true, "ssh:"@ + user@ + "@"@ + target_host@, r),
{
    let title = ssh_pane_title(user, target_host);
    setup_session_state(runner, log, title.as_str(), true, title.as_str())
}

/// Mark the pane and window as holding an SCP transfer with the hosts
/// `user_at_hosts`, once its banner is shown: pane title `scp:` and the
/// hosts joined by `_`, the SSH count incremented, and `@fterm_ssh_host`
/// `scp:` and the hosts joined by spaces.
pub fn setup_scp_state<R: CommandRunner>(runner: &R, log: &mut RequestLog, user_at_hosts: &[String]) -> (r: SetupSteps)
    ensures
        setup_steps_are(
            runner,
            "scp:"@ + join(sviews(user_at_hosts@), "_"@),
            false,
            "scp:"@ + join(sviews(user_at_hosts@), " "@),
            r,
        ),
{
    let title = scp_pane_title(user_at_hosts);
    let host_value = scp_host_value(user_at_hosts);
    setup_session_state(runner, log, title.as_str(), false, host_value.as_str())
}

/// The outcomes of unmarking the pane and window after a session; a failed
/// step does not stop the others.
#[derive(Debug)]
pub struct ClearSteps {
    /// Resetting the pane style.
    pub style: Result<(), Error>,
    /// Restoring the pane title.
    pub title: Result<(), Error>,
    /// Unsetting `@fterm_ssh_host`.
    pub host: Result<(), Error>,
    /// Decrementing the window's SSH count (which restores renaming at 0).
    pub count: Result<(), Error>,
}

/// Unmark the pane and window after a session, once its closing banner is
/// shown: reset the pane style, restore `original_title`, unset
/// `@fterm_ssh_host` and decrement the SSH count, in this order.
pub fn clear_session_state<R: CommandRunner>(runner: &R, log: &mut RequestLog, original_title: &str) -> (r: ClearSteps)
    ensures
        reset_style_outcome(runner, r.style),
        set_title_outcome(runner, original_title@, r.title),
        unset_ssh_host_outcome(runner, r.host),
        decrement_ssh_count_outcome(runner, r.count),
{
    let style = reset_style(runner, log);
    let title = set_title(runner, log, original_title);
    let host = unset_ssh_host(runner, log);
    let count = decrement_ssh_count(runner, log);
    ClearSteps { style, title, host, count }
}

} // verus!
