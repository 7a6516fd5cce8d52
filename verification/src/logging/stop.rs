//! Stop session logging and compress the log file.

use vstd::prelude::*;
use crate::runner::RequestLog;

use crate::error::Error;
use crate::runner::{added, checked_outcome, extends, is_err_with, run_checked, run_req, CommandOutput, CommandRunner, Request};
use crate::text::{owned, push_str, strviews};

verus! {

/// Kind of footer to append when finalizing a log session.
#[derive(Debug, Clone, Copy, PartialEq, Eq, Structural)]
pub enum FooterKind {
    /// Normal teardown: the SSH session disconnected cleanly.
    Disconnect,
    /// Cleanup of an abandoned session detected at startup.
    Cleanup,
}

/// Separator line written above the footer.
pub const FOOTER_RULE: &'static str = "----------------------------------------------------------------";

/// `chrono` format of log timestamps.
pub const LOG_TIME_FORMAT: &'static str = "%Y-%m-%dT%H:%M:%S%z";

/// The footer appended to a finished log.
pub open spec fn footer_text(kind: FooterKind, timestamp: Seq<char>) -> Seq<char> {
    FOOTER_RULE@ + "\n["@ + timestamp + match kind {
        FooterKind::Disconnect => "] === Session Disconnected ===\n"@,
        FooterKind::Cleanup => "] Closed by cleanup (previous session abandoned)\n"@,
    }
}

/// The footer line block for `kind` at `timestamp`.
pub fn footer(kind: FooterKind, timestamp: &str) -> (r: String)
    ensures
        r@ == footer_text(kind, timestamp@),
{
    let mut r = owned(FOOTER_RULE);
    push_str(&mut r, "\n[");
    push_str(&mut r, timestamp);
    match kind {
        FooterKind::Disconnect => push_str(&mut r, "] === Session Disconnected ===\n"),
        FooterKind::Cleanup => push_str(&mut r, "] Closed by cleanup (previous session abandoned)\n"),
    }
    r
}

/// Arguments of `tmux` that stop the active pipe.
pub open spec fn stop_pipe_args() -> Seq<Seq<char>> {
    seq!["pipe-pane"@]
}

/// Arguments of `gzip` that compress `path`.
pub open spec fn gzip_args(path: Seq<char>) -> Seq<Seq<char>> {
    seq!["--force"@, path]
}

/// Arguments of `tmux` that unset the `@fterm_logging` pane option.
pub open spec fn unset_logging_args() -> Seq<Seq<char>> {
    seq!["set-option"@, "-p"@, "-u"@, "@fterm_logging"@]
}

/// Stop `tmux pipe-pane` (no arguments stops the active pipe).
pub fn stop_pipe_pane<R: CommandRunner>(runner: &R, log: &mut RequestLog) -> (r: Result<(), Error>)
    ensures
        exists|o: Result<CommandOutput, Error>|
            {
                &&& #[trigger] runner.run_reply("tmux"@, stop_pipe_args(), 5, o)
                &&& match checked_outcome(
                    o,
                    "failed to run tmux pipe-pane (stop)"@,
                    "tmux pipe-pane (stop) exited with code "@,
                ) {
                    Ok(_) => r is Ok,
                    Err(chain) => is_err_with(r, chain),
                }
            },
        final(log)@ == old(log)@.push(run_req("tmux"@, stop_pipe_args(), 5)),
{
    let args: [&str; 1] = ["pipe-pane"];
    let sl: &[&str] = &args;
    assert(strviews(sl@) =~= stop_pipe_args());
    match run_checked(
        runner,
        log,
        "tmux",
        sl,
        5,
        "failed to run tmux pipe-pane (stop)",
        "tmux pipe-pane (stop) exited with code ",
    ) {
        Ok(_) => Ok(()),
        Err(e) => Err(e),
    }
}

/// Compress a log file with `gzip --force`.
pub fn gzip_log<R: CommandRunner>(runner: &R, log: &mut RequestLog, log_path: &str) -> (r: Result<(), Error>)
    ensures
        exists|o: Result<CommandOutput, Error>|
            {
                &&& #[trigger] runner.run_reply("gzip"@, gzip_args(log_path@), 30, o)
                &&& match checked_outcome(
                    o,
                    "failed to run gzip on log file"@,
                    "gzip exited with code "@,
                ) {
                    Ok(_) => r is Ok,
                    Err(chain) => is_err_with(r, chain),
                }
            },
        final(log)@ == old(log)@.push(run_req("gzip"@, gzip_args(log_path@), 30)),
{
    let args: [&str; 2] = ["--force", log_path];
    let sl: &[&str] = &args;
    assert(strviews(sl@) =~= gzip_args(log_path@));
    match run_checked(runner, log, "gzip", sl, 30, "failed to run gzip on log file", "gzip exited with code ") {
        Ok(_) => Ok(()),
        Err(e) => Err(e),
    }
}

/// Unset the `@fterm_logging` pane option; failures are ignored.
pub fn unset_fterm_logging<R: CommandRunner>(runner: &R, log: &mut RequestLog)
    ensures
        exists|o: Result<CommandOutput, Error>| #[trigger] runner.run_reply("tmux"@, unset_logging_args(), 5, o),
        final(log)@ == old(log)@.push(run_req("tmux"@, unset_logging_args(), 5)),
{
    let args: [&str; 4] = ["set-option", "-p", "-u", "@fterm_logging"];
    let sl: &[&str] = &args;
    assert(strviews(sl@) =~= unset_logging_args());
    let _ = runner.run(log, "tmux", sl, 5);
}

/// What finalizing a log may give: see [`finalize_logging`].
pub open spec fn finalize_logging_outcome<R: CommandRunner>(runner: &R, log_path: Seq<char>, r: Result<(), Error>) -> bool {
    exists|o: Result<CommandOutput, Error>|
        {
            &&& #[trigger] runner.run_reply("tmux"@, stop_pipe_args(), 5, o)
            &&& match checked_outcome(
                o,
                "failed to run tmux pipe-pane (stop)"@,
                "tmux pipe-pane (stop) exited with code "@,
            ) {
                Err(chain) => is_err_with(r, chain),
                Ok(_) => {
                    &&& r is Ok
                    &&& exists|g: Result<CommandOutput, Error>|
                        #[trigger] runner.run_reply("gzip"@, gzip_args(log_path), 30, g)
                    &&& exists|u: Result<CommandOutput, Error>|
                        #[trigger] runner.run_reply("tmux"@, unset_logging_args(), 5, u)
                },
            }
        }
}

/// The requests of finalizing a log, with the outcome: stop the pipe; only
/// when that ran and exited with 0, compress the log and then unset
/// `@fterm_logging`.
pub open spec fn finalize_logging_trace<R: CommandRunner>(
    runner: &R,
    log_path: Seq<char>,
    r: Result<(), Error>,
    reqs: Seq<Request>,
) -> bool {
    exists|o: Result<CommandOutput, Error>|
        {
            &&& #[trigger] runner.run_reply("tmux"@, stop_pipe_args(), 5, o)
            &&& match checked_outcome(
                o,
                "failed to run tmux pipe-pane (stop)"@,
                "tmux pipe-pane (stop) exited with code "@,
            ) {
                Err(chain) => is_err_with(r, chain) && reqs == seq![run_req("tmux"@, stop_pipe_args(), 5)],
                Ok(_) => r is Ok && reqs == seq![
                    run_req("tmux"@, stop_pipe_args(), 5),
                    run_req("gzip"@, gzip_args(log_path), 30),
                    run_req("tmux"@, unset_logging_args(), 5),
                ],
            }
        }
}

/// Finalize a logging session once its footer is written: stop the tmux
/// pipe, compress the log (a failure there is not an error), and unset
/// `@fterm_logging` last, so that other processes see the option set until
/// the log is compressed.
///
/// The footer itself is file output and is the caller's part; it comes
/// first, while the log file still exists.
pub fn finalize_logging<R: CommandRunner>(runner: &R, log: &mut RequestLog, log_path: &str) -> (r: Result<(), Error>)
    ensures
        finalize_logging_outcome(runner, log_path@, r),
        extends(old(log)@, final(log)@),
        finalize_logging_trace(runner, log_path@, r, added(old(log)@, final(log)@)),
{
    let ghost l0 = log@;
    let first = stop_pipe_pane(runner, log);
    assert(log@.skip(l0.len() as int) =~= seq![run_req("tmux"@, stop_pipe_args(), 5)]);
    assert(log@.take(l0.len() as int) =~= l0);
    match first {
        Err(e) => Err(e),
        Ok(()) => {
            let _ = gzip_log(runner, log, log_path);
            unset_fterm_logging(runner, log);
            assert(log@.skip(l0.len() as int) =~= seq![
                run_req("tmux"@, stop_pipe_args(), 5),
                run_req("gzip"@, gzip_args(log_path@), 30),
                run_req("tmux"@, unset_logging_args(), 5),
            ]);
            assert(log@.take(l0.len() as int) =~= l0);
            Ok(())
        },
    }
}

/// Stop session logging after the disconnect footer is written: the same
/// steps as [`finalize_logging`].
pub fn stop<R: CommandRunner>(runner: &R, log: &mut RequestLog, log_path: &str) -> (r: Result<(), Error>)
    ensures
        finalize_logging_outcome(runner, log_path@, r),
        extends(old(log)@, final(log)@),
        finalize_logging_trace(runner, log_path@, r, added(old(log)@, final(log)@)),
{
    finalize_logging(runner, log, log_path)
}

} // verus!
