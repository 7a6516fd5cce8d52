//! Start session logging via tmux `pipe-pane`.
//!
//! Creating the log directory and writing the header are file output and
//! are the caller's part; the header text, the pipe command and the tmux
//! requests are made here.

use vstd::prelude::*;
use crate::runner::RequestLog;

use crate::error::Error;
use crate::runner::{added, checked_outcome, extends, is_err_with, run_checked, CommandOutput, CommandRunner};
use crate::text::{chars_of, owned, push_chars, push_str, replace_char, replace_char_of, strviews, sviews, trim, trim_str};
use crate::util::splash::ln;
use crate::logging::stop::{finalize_logging, finalize_logging_outcome, finalize_logging_trace, FooterKind};

verus! {

/// Arguments of `tmux` that read the `@fterm_logging` pane option.
pub open spec fn show_logging_args() -> Seq<Seq<char>> {
    seq!["show-option"@, "-pqv"@, "@fterm_logging"@]
}

/// The stale log left by a previous session, from the `@fterm_logging`
/// query: the trimmed output, when it is not empty.
pub open spec fn stale_log(o: Result<CommandOutput, Error>) -> Result<Option<Seq<char>>, Seq<Seq<char>>> {
    match o {
        Err(e) => Err(seq!["failed to check @fterm_logging pane option"@] + e@),
        Ok(out) => if trim(out.stdout@).len() > 0 {
            Ok(Some(trim(out.stdout@)))
        } else {
            Ok(None)
        },
    }
}

/// What detecting a stale log may give: see [`detect_stale_log`].
pub open spec fn detect_stale_log_outcome<R: CommandRunner>(runner: &R, r: Result<Option<String>, Error>) -> bool {
    exists|o: Result<CommandOutput, Error>|
        {
            &&& #[trigger] runner.run_reply("tmux"@, show_logging_args(), 5, o)
            &&& match stale_log(o) {
                Ok(Some(p)) => r matches Ok(Some(s)) && s@ == p,
                Ok(None) => r matches Ok(None),
                Err(chain) => is_err_with(r, chain),
            }
        }
}

/// Detect a logging session left by a previous abnormal exit (pane kill,
/// crash): `Some(path)` when `@fterm_logging` is still set.
pub fn detect_stale_log<R: CommandRunner>(runner: &R, log: &mut RequestLog) -> (r: Result<Option<String>, Error>)
    ensures
        detect_stale_log_outcome(runner, r),
{
    let args: [&str; 3] = ["show-option", "-pqv", "@fterm_logging"];
    let sl: &[&str] = &args;
    assert(strviews(sl@) =~= show_logging_args());
    match runner.run(log, "tmux", sl, 5) {
        Err(e) => Err(e.context(owned("failed to check @fterm_logging pane option"))),
        Ok(out) => {
            let t = trim_str(out.stdout.as_str());
            if t.as_str().is_empty() {
                Ok(None)
            } else {
                Ok(Some(t))
            }
        },
    }
}

/// One line per item.
pub open spec fn lines_block(items: Seq<Seq<char>>) -> Seq<char>
    decreases items.len(),
{
    if items.len() == 0 {
        Seq::empty()
    } else {
        lines_block(items.drop_last()) + ln(items.last())
    }
}

/// The header written at the top of a session log: the SSH config details
/// and the matched agent keys, each under a title when present, and a blank
/// line after them when either is present.
pub open spec fn header_text(details: Seq<Seq<char>>, keys: Seq<Seq<char>>) -> Seq<char> {
    (if details.len() > 0 {
        ln("=== SSH Config ==="@) + lines_block(details)
    } else {
        Seq::empty()
    }) + (if keys.len() > 0 {
        ln("=== Matched Agent Keys ==="@) + lines_block(keys)
    } else {
        Seq::empty()
    }) + (if details.len() > 0 || keys.len() > 0 {
        seq!['\n']
    } else {
        Seq::empty()
    })
}

pub(crate) fn push_lines(buf: &mut String, items: &[String])
    ensures
        final(buf)@ == old(buf)@ + lines_block(sviews(items@)),
{
    let mut i: usize = 0;
    while i < items.len()
        invariant
            i <= items.len(),
            buf@ == old(buf)@ + lines_block(sviews(items@).take(i as int)),
        decreases items.len() - i,
    {
        let ghost pre = sviews(items@).take(i as int);
        push_str(buf, items[i].as_str());
        push_str(buf, "\n");
        proof {
            reveal_strlit("\n");
            let nxt = sviews(items@).take(i + 1);
            assert(nxt.drop_last() =~= pre);
            assert(buf@ =~= old(buf)@ + lines_block(nxt));
        }
        i = i + 1;
    }
    assert(sviews(items@).take(items.len() as int) =~= sviews(items@));
}

/// The log header for the given SSH details and agent keys.
pub fn log_header(ssh_details: &[String], agent_keys: &[String]) -> (r: String)
    ensures
        r@ == header_text(sviews(ssh_details@), sviews(agent_keys@)),
{
    proof {
        reveal_strlit("\n");
    }
    let mut r = String::new();
    if ssh_details.len() > 0 {
        push_str(&mut r, "=== SSH Config ===\n");
        push_lines(&mut r, ssh_details);
    }
    let ghost mid = r@;
    if agent_keys.len() > 0 {
        push_str(&mut r, "=== Matched Agent Keys ===\n");
        push_lines(&mut r, agent_keys);
    }
    let ghost mid2 = r@;
    if ssh_details.len() > 0 || agent_keys.len() > 0 {
        push_str(&mut r, "\n");
    }
    proof {
        reveal_strlit("=== SSH Config ===\n");
        reveal_strlit("=== Matched Agent Keys ===\n");
        reveal_strlit("=== SSH Config ===");
        reveal_strlit("=== Matched Agent Keys ===");
    }
    assert(r@ =~= header_text(sviews(ssh_details@), sviews(agent_keys@)));
    r
}

/// The shell command that tmux pipes the pane into: the log filter
/// appending to the log file, whose path is single-quoted.
pub open spec fn pipe_command_text(log_path: Seq<char>) -> Seq<char> {
    "exec fterm log-filter >> '"@ + replace_char(log_path, '\'', "'\\''"@) + "'"@
}

/// The `pipe-pane` command for `log_path`.
pub fn pipe_command(log_path: &str) -> (r: String)
    ensures
        r@ == pipe_command_text(log_path@),
{
    let v = chars_of(log_path);
    let rep = chars_of("'\\''");
    let escaped = replace_char_of(v.as_slice(), '\'', rep.as_slice());
    let mut r = owned("exec fterm log-filter >> '");
    push_chars(&mut r, escaped.as_slice());
    push_str(&mut r, "'");
    r
}

/// Arguments of `tmux` that pipe the pane into `cmd`.
pub open spec fn pipe_args(cmd: Seq<char>) -> Seq<Seq<char>> {
    seq!["pipe-pane"@, cmd]
}

/// Arguments of `tmux` that set `@fterm_logging` to `path`.
pub open spec fn set_logging_args(path: Seq<char>) -> Seq<Seq<char>> {
    seq!["set-option"@, "-p"@, "@fterm_logging"@, path]
}

/// What enabling logging may give: see [`enable_logging`].
pub open spec fn enable_logging_outcome<R: CommandRunner>(runner: &R, log_path: Seq<char>, r: Result<(), Error>) -> bool {
    exists|o: Result<CommandOutput, Error>|
        {
            &&& #[trigger] runner.run_reply("tmux"@, pipe_args(pipe_command_text(log_path)), 5, o)
            &&& match checked_outcome(
                o,
                "failed to run tmux pipe-pane"@,
                "tmux pipe-pane exited with code "@,
            ) {
                Err(chain) => is_err_with(r, chain),
                Ok(_) => exists|s: Result<CommandOutput, Error>|
                    {
                        &&& #[trigger] runner.run_reply("tmux"@, set_logging_args(log_path), 5, s)
                        &&& match s {
                            Err(e) => is_err_with(
                                r,
                                seq!["failed to set @fterm_logging pane option"@] + e@,
                            ),
                            Ok(_) => r is Ok,
                        }
                    },
            }
        }
}

/// Enable `tmux pipe-pane` into the log file and mark the pane as logging
/// by setting `@fterm_logging` to the log path. The pipe must succeed; the
/// option may fail to be set (it is informational), but not fail to run.
pub fn enable_logging<R: CommandRunner>(runner: &R, log: &mut RequestLog, log_path: &str) -> (r: Result<(), Error>)
    ensures
        enable_logging_outcome(runner, log_path@, r),
{
    let cmd = pipe_command(log_path);
    let args: [&str; 2] = ["pipe-pane", cmd.as_str()];
    let sl: &[&str] = &args;
    assert(strviews(sl@) =~= pipe_args(pipe_command_text(log_path@)));
    match run_checked(runner, log, "tmux", sl, 5, "failed to run tmux pipe-pane", "tmux pipe-pane exited with code ") {
        Err(e) => Err(e),
        Ok(_) => {
            let sargs: [&str; 4] = ["set-option", "-p", "@fterm_logging", log_path];
            let ssl: &[&str] = &sargs;
            assert(strviews(ssl@) =~= set_logging_args(log_path@));
            match runner.run(log, "tmux", ssl, 5) {
                Err(e) => Err(e.context(owned("failed to set @fterm_logging pane option"))),
                Ok(_) => Ok(()),
            }
        },
    }
}

/// Where starting a session log stands, and what answer it awaits.
#[derive(Debug)]
pub enum StartState {
    /// Nothing done yet (awaits `Start`).
    Begin,
    /// The log `previous`, abandoned by an earlier session, gets its
    /// cleanup footer (awaits `Finished`).
    CleaningUp { previous: String },
    /// The header of the new log is written (awaits `Finished`).
    WritingHeader,
    /// Starting is over.
    Ended,
}

/// What the program hands back after doing an action.
#[derive(Debug)]
pub enum StartEvent {
    /// Starting begins.
    Start,
    /// The file work of the last action finished.
    Finished(Result<(), Error>),
}

/// What the program does next.
#[derive(Debug)]
pub enum StartAction {
    /// Append the footer of `kind` to the log `path` (nothing when the file
    /// is gone); answer `Finished`.
    AppendFooter { path: String, kind: FooterKind },
    /// Create the directory of the log `path` and append `header` to it;
    /// answer `Finished`.
    WriteHeader { path: String, header: String },
    /// Starting is over with this outcome.
    Exit(Result<(), Error>),
}

/// `event` is the answer that `state` awaits.
pub open spec fn start_fits(state: StartState, event: StartEvent) -> bool {
    match event {
        StartEvent::Start => state is Begin,
        StartEvent::Finished(_) => state is CleaningUp || state is WritingHeader,
    }
}

/// `action` ends starting with the error chain `chain`.
pub open spec fn exits_with_error(action: StartAction, chain: Seq<Seq<char>>) -> bool {
    action matches StartAction::Exit(r) && is_err_with(r, chain)
}

/// `next` cleans up the abandoned log `previous`, whose cleanup footer
/// `action` asks for.
pub open spec fn cleans_up(previous: Seq<char>, next: StartState, action: StartAction) -> bool {
    &&& next matches StartState::CleaningUp { previous: p } && p@ == previous
    &&& action matches StartAction::AppendFooter { path, kind } && path@ == previous && kind == FooterKind::Cleanup
}

/// `next` writes the header of the new log, which `action` asks for.
pub open spec fn writes_header(log_path: Seq<char>, header: Seq<char>, next: StartState, action: StartAction) -> bool {
    &&& next is WritingHeader
    &&& action matches StartAction::WriteHeader { path, header: h } && path@ == log_path && h@ == header
}

/// One step of starting the log `log_path` with the given header lines:
/// a log that an earlier session left logging (see [`detect_stale_log`])
/// first gets its cleanup footer and is finalized, whatever that gives;
/// then the header is written, and the pane is piped into the log (see
/// [`enable_logging`]). Any other failure ends starting with it.
pub open spec fn start_step_is<R: CommandRunner>(
    runner: &R,
    log_path: Seq<char>,
    header: Seq<char>,
    state: StartState,
    event: StartEvent,
    next: StartState,
    action: StartAction,
) -> bool {
    match state {
        StartState::Begin => exists|d: Result<Option<String>, Error>|
            {
                &&& #[trigger] detect_stale_log_outcome(runner, d)
                &&& match d {
                    Err(e) => next is Ended && exits_with_error(action, e@),
                    Ok(Some(p)) => cleans_up(p@, next, action),
                    Ok(None) => writes_header(log_path, header, next, action),
                }
            },
        StartState::CleaningUp { previous } => match event {
            StartEvent::Finished(f) => {
                &&& f is Ok ==> exists|c: Result<(), Error>| #[trigger] finalize_logging_outcome(runner, previous@, c)
                &&& writes_header(log_path, header, next, action)
            },
            _ => false,
        },
        StartState::WritingHeader => match event {
            StartEvent::Finished(Err(e)) => next is Ended && exits_with_error(action, e@),
            StartEvent::Finished(Ok(())) => next is Ended && exists|l: Result<(), Error>|
                {
                    &&& #[trigger] enable_logging_outcome(runner, log_path, l)
                    &&& match l {
                        Ok(()) => action matches StartAction::Exit(Ok(())),
                        Err(e) => exits_with_error(action, e@),
                    }
                },
            _ => false,
        },
        StartState::Ended => false,
    }
}

/// One step of starting a session log (see [`start_step_is`]): the
/// program starts from `Begin` with `Start`, does each action and answers
/// it, until the action is `Exit`.
pub fn start_step<R: CommandRunner>(
    runner: &R,
    log: &mut RequestLog,
    log_path: &str,
    ssh_details: &[String],
    agent_keys: &[String],
    state: StartState,
    event: StartEvent,
) -> (r: (StartState, StartAction))
    requires
        start_fits(state, event),
    ensures
        start_step_is(
            runner,
            log_path@,
            header_text(sviews(ssh_details@), sviews(agent_keys@)),
            state,
            event,
            r.0,
            r.1,
        ),
        r.1 is Exit <==> r.0 is Ended,
{
    match state {
        StartState::Begin => {
            let d = detect_stale_log(runner, log);
            let ghost dg = d;
            let r = match d {
                Err(e) => (StartState::Ended, StartAction::Exit(Err(e))),
                Ok(Some(p)) => {
                    let path = p.clone();
                    (StartState::CleaningUp { previous: p }, StartAction::AppendFooter { path, kind: FooterKind::Cleanup })
                },
                Ok(None) => (
                    StartState::WritingHeader,
                    StartAction::WriteHeader { path: owned(log_path), header: log_header(ssh_details, agent_keys) },
                ),
            };
            assert(detect_stale_log_outcome(runner, dg));
            r
        },
        StartState::CleaningUp { previous } => {
            match event {
                StartEvent::Finished(Ok(())) => {
                    let c = finalize_logging(runner, log, previous.as_str());
                    let ghost cg = c;
                    assert(finalize_logging_outcome(runner, previous@, cg));
                },
                _ => {},
            }
            (
                StartState::WritingHeader,
                StartAction::WriteHeader { path: owned(log_path), header: log_header(ssh_details, agent_keys) },
            )
        },
        StartState::WritingHeader => match event {
            StartEvent::Finished(Err(e)) => (StartState::Ended, StartAction::Exit(Err(e))),
            _ => {
                let l = enable_logging(runner, log, log_path);
                let ghost lg = l;
                let r = (StartState::Ended, StartAction::Exit(l));
                assert(enable_logging_outcome(runner, log_path@, lg));
                r
            },
        },
        StartState::Ended => (StartState::Ended, StartAction::Exit(Ok(()))),
    }
}

/// Finish a log once its footer was appended (`footer` is how that went):
/// a failed footer ends it with that error and no request; otherwise it is
/// finalized (see [`finalize_logging`]). The footer thus always comes before
/// the requests that stop, compress and release the log.
pub fn finish_after_footer<R: CommandRunner>(runner: &R, log: &mut RequestLog, log_path: &str, footer: Result<(), Error>) -> (r: Result<
    (),
    Error,
>)
    ensures
        match footer {
            Err(e) => is_err_with(r, e@),
            Ok(()) => finalize_logging_outcome(runner, log_path@, r),
        },
        match footer {
            Err(_) => final(log)@ == old(log)@,
            Ok(()) => extends(old(log)@, final(log)@) && finalize_logging_trace(
                runner,
                log_path@,
                r,
                added(old(log)@, final(log)@),
            ),
        },
{
    match footer {
        Err(e) => Err(e),
        Ok(()) => finalize_logging(runner, log, log_path),
    }
}

} // verus!
