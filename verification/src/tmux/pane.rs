//! Tmux pane management: titles, styles and the `@fterm_ssh_host` option.

use vstd::prelude::*;
use crate::runner::RequestLog;

use crate::error::Error;
use crate::runner::{checked_outcome, is_err_with, run_checked, CommandOutput, CommandRunner};
use crate::text::{strviews, trim, trim_str};

verus! {

/// The success-or-error outcome of a checked tmux request.
pub open spec fn unit_outcome(r: Result<(), Error>, c: Result<CommandOutput, Seq<Seq<char>>>) -> bool {
    match c {
        Ok(_) => r is Ok,
        Err(chain) => is_err_with(r, chain),
    }
}

/// Arguments of `tmux` that print the pane title.
pub open spec fn get_title_args() -> Seq<Seq<char>> {
    seq!["display-message"@, "-p"@, "#{pane_title}"@]
}

/// Arguments of `tmux` that set the pane title.
pub open spec fn set_title_args(title: Seq<char>) -> Seq<Seq<char>> {
    seq!["select-pane"@, "-T"@, title]
}

/// Arguments of `tmux` that reset the pane style.
pub open spec fn reset_style_args() -> Seq<Seq<char>> {
    seq!["select-pane"@, "-P"@, "default"@]
}

/// Arguments of `tmux` that set `@fterm_ssh_host`.
pub open spec fn set_ssh_host_args(host: Seq<char>) -> Seq<Seq<char>> {
    seq!["set-option"@, "-p"@, "@fterm_ssh_host"@, host]
}

/// Arguments of `tmux` that unset `@fterm_ssh_host`.
pub open spec fn unset_ssh_host_args() -> Seq<Seq<char>> {
    seq!["set-option"@, "-p"@, "-u"@, "@fterm_ssh_host"@]
}

/// What reading the pane title may give: see [`get_title`].
pub open spec fn get_title_outcome<R: CommandRunner>(runner: &R, r: Result<String, Error>) -> bool {
    exists|o: Result<CommandOutput, Error>|
        {
            &&& #[trigger] runner.run_reply("tmux"@, get_title_args(), 5, o)
            &&& match checked_outcome(
                o,
                "failed to get tmux pane title"@,
                "tmux display-message failed with exit code "@,
            ) {
                Ok(out) => r matches Ok(t) && t@ == trim(out.stdout@),
                Err(chain) => is_err_with(r, chain),
            }
        }
}

/// Get the current pane title (`tmux display-message -p '#{pane_title}'`),
/// trimmed.
pub fn get_title<R: CommandRunner>(runner: &R, log: &mut RequestLog) -> (r: Result<String, Error>)
    ensures
        get_title_outcome(runner, r),
{
    let args: [&str; 3] = ["display-message", "-p", "#{pane_title}"];
    let sl: &[&str] = &args;
    assert(strviews(sl@) =~= get_title_args());
    match run_checked(
        runner,
        log,
        "tmux",
        sl,
        5,
        "failed to get tmux pane title",
        "tmux display-message failed with exit code ",
    ) {
        Ok(out) => Ok(trim_str(out.stdout.as_str())),
        Err(e) => Err(e),
    }
}

/// What setting the pane title may give: see [`set_title`].
pub open spec fn set_title_outcome<R: CommandRunner>(runner: &R, title: Seq<char>, r: Result<(), Error>) -> bool {
    exists|o: Result<CommandOutput, Error>|
        {
            &&& #[trigger] runner.run_reply("tmux"@, set_title_args(title), 5, o)
            &&& unit_outcome(
                r,
                checked_outcome(
                    o,
                    "failed to set tmux pane title"@,
                    "tmux select-pane -T failed with exit code "@,
                ),
            )
        }
}

/// Set the title of the current tmux pane (`tmux select-pane -T <title>`).
pub fn set_title<R: CommandRunner>(runner: &R, log: &mut RequestLog, title: &str) -> (r: Result<(), Error>)
    ensures
        set_title_outcome(runner, title@, r),
{
    let args: [&str; 3] = ["select-pane", "-T", title];
    let sl: &[&str] = &args;
    assert(strviews(sl@) =~= set_title_args(title@));
    match run_checked(
        runner,
        log,
        "tmux",
        sl,
        5,
        "failed to set tmux pane title",
        "tmux select-pane -T failed with exit code ",
    ) {
        Ok(_) => Ok(()),
        Err(e) => Err(e),
    }
}

/// What resetting the pane style may give: see [`reset_style`].
pub open spec fn reset_style_outcome<R: CommandRunner>(runner: &R, r: Result<(), Error>) -> bool {
    exists|o: Result<CommandOutput, Error>|
        {
            &&& #[trigger] runner.run_reply("tmux"@, reset_style_args(), 5, o)
            &&& unit_outcome(
                r,
                checked_outcome(
                    o,
                    "failed to reset tmux pane style"@,
                    "tmux select-pane -P failed with exit code "@,
                ),
            )
        }
}

/// Reset the style of the current tmux pane to the default
/// (`tmux select-pane -P default`).
pub fn reset_style<R: CommandRunner>(runner: &R, log: &mut RequestLog) -> (r: Result<(), Error>)
    ensures
        reset_style_outcome(runner, r),
{
    let args: [&str; 3] = ["select-pane", "-P", "default"];
    let sl: &[&str] = &args;
    assert(strviews(sl@) =~= reset_style_args());
    match run_checked(
        runner,
        log,
        "tmux",
        sl,
        5,
        "failed to reset tmux pane style",
        "tmux select-pane -P failed with exit code ",
    ) {
        Ok(_) => Ok(()),
        Err(e) => Err(e),
    }
}

/// What setting `@fterm_ssh_host` may give: see [`set_ssh_host`].
pub open spec fn set_ssh_host_outcome<R: CommandRunner>(runner: &R, host: Seq<char>, r: Result<(), Error>) -> bool {
    exists|o: Result<CommandOutput, Error>|
        {
            &&& #[trigger] runner.run_reply("tmux"@, set_ssh_host_args(host), 5, o)
            &&& unit_outcome(
                r,
                checked_outcome(
                    o,
                    "failed to set @fterm_ssh_host pane option"@,
                    "tmux set-option -p @fterm_ssh_host failed with exit code "@,
                ),
            )
        }
}

/// Set the `@fterm_ssh_host` pane option for the current pane.
pub fn set_ssh_host<R: CommandRunner>(runner: &R, log: &mut RequestLog, host: &str) -> (r: Result<(), Error>)
    ensures
        set_ssh_host_outcome(runner, host@, r),
{
    let args: [&str; 4] = ["set-option", "-p", "@fterm_ssh_host", host];
    let sl: &[&str] = &args;
    assert(strviews(sl@) =~= set_ssh_host_args(host@));
    match run_checked(
        runner,
        log,
        "tmux",
        sl,
        5,
        "failed to set @fterm_ssh_host pane option",
        "tmux set-option -p @fterm_ssh_host failed with exit code ",
    ) {
        Ok(_) => Ok(()),
        Err(e) => Err(e),
    }
}

/// What unsetting `@fterm_ssh_host` may give: see [`unset_ssh_host`].
pub open spec fn unset_ssh_host_outcome<R: CommandRunner>(runner: &R, r: Result<(), Error>) -> bool {
    exists|o: Result<CommandOutput, Error>|
        {
            &&& #[trigger] runner.run_reply("tmux"@, unset_ssh_host_args(), 5, o)
            &&& unit_outcome(
                r,
                checked_outcome(
                    o,
                    "failed to unset @fterm_ssh_host pane option"@,
                    "tmux set-option -p -u @fterm_ssh_host failed with exit code "@,
                ),
            )
        }
}

/// Remove the `@fterm_ssh_host` pane option from the current pane.
pub fn unset_ssh_host<R: CommandRunner>(runner: &R, log: &mut RequestLog) -> (r: Result<(), Error>)
    ensures
        unset_ssh_host_outcome(runner, r),
{
    let args: [&str; 4] = ["set-option", "-p", "-u", "@fterm_ssh_host"];
    let sl: &[&str] = &args;
    assert(strviews(sl@) =~= unset_ssh_host_args());
    match run_checked(
        runner,
        log,
        "tmux",
        sl,
        5,
        "failed to unset @fterm_ssh_host pane option",
        "tmux set-option -p -u @fterm_ssh_host failed with exit code ",
    ) {
        Ok(_) => Ok(()),
        Err(e) => Err(e),
    }
}

} // verus!
