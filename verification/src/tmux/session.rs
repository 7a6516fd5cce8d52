//! Tmux session management: delegating a command into the `login-session`
//! when not already inside tmux, and reading tmux identifiers.

use vstd::prelude::*;
use crate::runner::RequestLog;

use crate::error::Error;
use crate::runner::{checked_outcome, is_err_with, run_checked, CommandOutput, CommandRunner};
use crate::text::{chars_of, int_decimal, is_ascii_alnum, join, owned, push_chars, push_str, replace_char, replace_char_of, strviews, sviews, trim, trim_str, i32_to_string};

verus! {

/// Fallback value when tmux identifiers cannot be retrieved.
pub const UNKNOWN_TMUX_ID: &'static str = "unknown-0.0";

/// Outcome of the [`ensure_tmux`] check.
#[derive(Debug, Clone, PartialEq, Eq, Structural)]
pub enum TmuxAction {
    /// The process is already running inside tmux.
    AlreadyInTmux,
    /// The command was delegated to a tmux session via `send-keys`.
    DelegatedToTmux,
}

/// A character that needs no quoting in a shell word.
pub open spec fn is_shell_safe(c: char) -> bool {
    is_ascii_alnum(c) || c == '-' || c == '_' || c == '.' || c == '/' || c == ':' || c == '='
        || c == '@'
}

/// A token as the shell must be given it: `''` when empty, unchanged when
/// every character is safe, otherwise single-quoted with each embedded `'`
/// written as `'\''`.
pub open spec fn shell_escaped(token: Seq<char>) -> Seq<char> {
    if token.len() == 0 {
        "''"@
    } else if forall|i: int| 0 <= i < token.len() ==> is_shell_safe(#[trigger] token[i]) {
        token
    } else {
        "'"@ + replace_char(token, '\'', "'\\''"@) + "'"@
    }
}

/// The word a POSIX shell reads from `s`: inside single quotes every
/// character stands for itself up to the closing quote; outside, a quote
/// opens a quoted part, a backslash makes the next character literal, and
/// any other character stands for itself.
pub open spec fn shell_word(s: Seq<char>, quoted: bool) -> Seq<char>
    decreases s.len(),
{
    if s.len() == 0 {
        Seq::empty()
    } else if quoted {
        if s[0] == '\'' {
            shell_word(s.drop_first(), false)
        } else {
            seq![s[0]] + shell_word(s.drop_first(), true)
        }
    } else if s[0] == '\'' {
        shell_word(s.drop_first(), true)
    } else if s[0] == '\\' && s.len() > 1 {
        seq![s[1]] + shell_word(s.skip(2), false)
    } else {
        seq![s[0]] + shell_word(s.drop_first(), false)
    }
}

/// Inside a quoted part, the escaped text of `t` and the closing quote are
/// read as `t`, and reading goes on unquoted.
pub proof fn lemma_quoted_part(t: Seq<char>, rest: Seq<char>)
    ensures
        shell_word(replace_char(t, '\'', "'\\''"@) + "'"@ + rest, true) == t + shell_word(rest, false),
    decreases t.len(),
{
    reveal_strlit("'\\''");
    reveal_strlit("'");
    let x = replace_char(t, '\'', "'\\''"@) + "'"@ + rest;
    let w = shell_word(rest, false);
    if t.len() == 0 {
        assert(replace_char(t, '\'', "'\\''"@) =~= Seq::<char>::empty());
        assert(x =~= seq!['\''] + rest);
        assert(x[0] == '\'');
        assert(x.drop_first() =~= rest);
        assert(shell_word(x, true) == shell_word(x.drop_first(), false));
        assert(t + w =~= w);
    } else {
        let t1 = t.drop_first();
        let tail = replace_char(t1, '\'', "'\\''"@) + "'"@ + rest;
        lemma_quoted_part(t1, rest);
        assert(shell_word(tail, true) == t1 + w);
        assert(t =~= seq![t[0]] + t1);
        if t[0] == '\'' {
            assert(replace_char(t, '\'', "'\\''"@) == "'\\''"@ + replace_char(t1, '\'', "'\\''"@));
            assert(x =~= seq!['\'', '\\', '\'', '\''] + tail);
            let x1 = seq!['\\', '\'', '\''] + tail;
            assert(x.drop_first() =~= x1);
            assert(shell_word(x, true) == shell_word(x1, false));
            let x2 = seq!['\''] + tail;
            assert(x1.skip(2) =~= x2);
            assert(x1[1] == '\'');
            assert(shell_word(x1, false) == seq!['\''] + shell_word(x2, false));
            assert(x2.drop_first() =~= tail);
            assert(shell_word(x2, false) == shell_word(tail, true));
            assert(seq!['\''] + (t1 + w) =~= t + w);
        } else {
            assert(replace_char(t, '\'', "'\\''"@) == seq![t[0]] + replace_char(t1, '\'', "'\\''"@));
            assert(x =~= seq![t[0]] + tail);
            assert(x.drop_first() =~= tail);
            assert(shell_word(x, true) == seq![t[0]] + shell_word(tail, true));
            assert(seq![t[0]] + (t1 + w) =~= t + w);
        }
    }
}

/// A word of safe characters reads as itself.
pub proof fn lemma_safe_word(t: Seq<char>)
    requires
        forall|i: int| 0 <= i < t.len() ==> is_shell_safe(#[trigger] t[i]),
    ensures
        shell_word(t, false) == t,
    decreases t.len(),
{
    if t.len() > 0 {
        assert(is_shell_safe(t[0]));
        assert forall|i: int| 0 <= i < t.drop_first().len() implies is_shell_safe(#[trigger] t.drop_first()[i]) by {
            assert(t.drop_first()[i] == t[i + 1]);
        }
        lemma_safe_word(t.drop_first());
        assert(t =~= seq![t[0]] + t.drop_first());
    }
}

/// The shell reads an escaped token back as the token itself, whatever
/// characters it holds: a delegated command line reaches the command
/// unchanged.
pub proof fn law_shell_escape_roundtrip(token: Seq<char>)
    ensures
        shell_word(shell_escaped(token), false) == token,
{
    reveal_strlit("''");
    reveal_strlit("'");
    if token.len() == 0 {
        let q = seq!['\'', '\''];
        assert("''"@ =~= q);
        assert(q.drop_first() =~= seq!['\'']);
        assert(seq!['\''].drop_first() =~= Seq::<char>::empty());
        assert(shell_word(seq!['\''], true) == shell_word(Seq::<char>::empty(), false));
        assert(shell_word(q, false) == shell_word(seq!['\''], true));
        assert(token =~= Seq::<char>::empty());
    } else if forall|i: int| 0 <= i < token.len() ==> is_shell_safe(#[trigger] token[i]) {
        lemma_safe_word(token);
    } else {
        let body = replace_char(token, '\'', "'\\''"@) + "'"@;
        let x = "'"@ + replace_char(token, '\'', "'\\''"@) + "'"@;
        lemma_quoted_part(token, Seq::empty());
        assert(body + Seq::<char>::empty() =~= body);
        assert(x[0] == '\'');
        assert(x.drop_first() =~= body);
        assert(shell_word(x, false) == shell_word(body, true));
        assert(shell_word(Seq::<char>::empty(), false) == Seq::<char>::empty());
        assert(token + Seq::<char>::empty() =~= token);
    }
}

/// Escape a single token for safe shell use.
pub fn shell_escape(token: &str) -> (r: String)
    ensures
        r@ == shell_escaped(token@),
{
    let v = chars_of(token);
    if v.len() == 0 {
        return owned("''");
    }
    let mut safe = true;
    let mut i: usize = 0;
    while i < v.len()
        invariant
            i <= v.len(),
            safe == forall|j: int| 0 <= j < i ==> is_shell_safe(#[trigger] v@[j]),
        decreases v.len() - i,
    {
        let c = v[i];
        let ok = ('0' <= c && c <= '9') || ('a' <= c && c <= 'z') || ('A' <= c && c <= 'Z') || c
            == '-' || c == '_' || c == '.' || c == '/' || c == ':' || c == '=' || c == '@';
        if !ok {
            safe = false;
        }
        i = i + 1;
    }
    if safe {
        return owned(token);
    }
    let rep = chars_of("'\\''");
    let escaped = replace_char_of(v.as_slice(), '\'', rep.as_slice());
    let mut r = owned("'");
    push_chars(&mut r, escaped.as_slice());
    push_str(&mut r, "'");
    r
}

/// The words of the reconstructed command: the command name, the
/// subcommand unless it is empty, and the arguments.
pub open spec fn command_words(command_name: Seq<char>, subcommand: Seq<char>, args: Seq<Seq<char>>) -> Seq<Seq<char>> {
    seq![command_name] + (if subcommand.len() > 0 {
        seq![subcommand]
    } else {
        Seq::empty()
    }) + args
}

/// The reconstructed command line: every word escaped, separated by spaces.
pub open spec fn escaped_command(command_name: Seq<char>, subcommand: Seq<char>, args: Seq<Seq<char>>) -> Seq<char> {
    join(command_words(command_name, subcommand, args).map_values(|w: Seq<char>| shell_escaped(w)), " "@)
}

/// Build a shell-safe command string from the command name, subcommand and
/// arguments; an empty `subcommand` is omitted.
pub fn build_escaped_command(command_name: &str, subcommand: &str, args: &[String]) -> (r: String)
    ensures
        r@ == escaped_command(command_name@, subcommand@, sviews(args@)),
{
    let mut parts: Vec<String> = Vec::new();
    parts.push(shell_escape(command_name));
    if !subcommand.is_empty() {
        parts.push(shell_escape(subcommand));
    }
    let ghost words = command_words(command_name@, subcommand@, sviews(args@));
    let ghost base = parts.len();
    assert(base == if subcommand@.len() > 0 { 2int } else { 1int });
    let mut i: usize = 0;
    while i < args.len()
        invariant
            i <= args.len(),
            words == command_words(command_name@, subcommand@, sviews(args@)),
            base == if subcommand@.len() > 0 { 2int } else { 1int },
            parts.len() == base + i,
            forall|k: int| 0 <= k < base + i ==> #[trigger] parts@[k]@ == shell_escaped(words[k]),
        decreases args.len() - i,
    {
        parts.push(shell_escape(args[i].as_str()));
        i = i + 1;
    }
    assert(sviews(parts@) =~= words.map_values(|w: Seq<char>| shell_escaped(w)));
    crate::text::join_strings(parts.as_slice(), " ")
}

/// The outcome of a request whose failure to run is an error with the given
/// context and whose exit code is not looked at.
pub open spec fn ran(o: Result<CommandOutput, Error>, context: Seq<char>) -> Result<CommandOutput, Seq<Seq<char>>> {
    match o {
        Err(e) => Err(seq![context] + e@),
        Ok(out) => Ok(out),
    }
}

/// Arguments of `tmux` for each step of delegation.
pub open spec fn version_args() -> Seq<Seq<char>> {
    seq!["-V"@]
}

/// Arguments of `tmux` that test for the `login-session` session.
pub open spec fn has_session_args() -> Seq<Seq<char>> {
    seq!["has-session"@, "-t"@, "login-session"@]
}

/// Arguments of `tmux` that create the `login-session` session.
pub open spec fn new_session_args() -> Seq<Seq<char>> {
    seq!["new-session"@, "-d"@, "-s"@, "login-session"@]
}

/// Arguments of `tmux` that type `command` into the `login-session`.
pub open spec fn send_keys_args(command: Seq<char>) -> Seq<Seq<char>> {
    seq!["send-keys"@, "-t"@, "login-session"@, command, "Enter"@]
}

/// Arguments of `tmux` that attach to the `login-session`.
pub open spec fn attach_args() -> Seq<Seq<char>> {
    seq!["attach-session"@, "-t"@, "login-session"@]
}

/// The last steps of delegation: typing the command, then attaching.
pub open spec fn send_and_attach<R: CommandRunner>(runner: &R, command: Seq<char>, r: Result<TmuxAction, Error>) -> bool {
    exists|s: Result<CommandOutput, Error>|
        {
            &&& #[trigger] runner.run_reply("tmux"@, send_keys_args(command), 5, s)
            &&& match checked_outcome(
                s,
                "failed to send keys to tmux session"@,
                "tmux send-keys exited with code "@,
            ) {
                Err(chain) => is_err_with(r, chain),
                Ok(_) => exists|a: Result<i32, Error>|
                    {
                        &&& #[trigger] runner.interactive_reply("tmux"@, attach_args(), a)
                        &&& match a {
                            Err(e) => is_err_with(
                                r,
                                seq!["failed to attach to tmux session 'login-session'"@] + e@,
                            ),
                            Ok(code) => if code != 0 {
                                is_err_with(
                                    r,
                                    seq!["tmux attach-session exited with code "@ + int_decimal(code as int)],
                                )
                            } else {
                                r == Ok::<TmuxAction, Error>(TmuxAction::DelegatedToTmux)
                            },
                        }
                    },
            }
        }
}

fn send_and_attach_exec<R: CommandRunner>(runner: &R, log: &mut RequestLog, command: &str) -> (r: Result<TmuxAction, Error>)
    ensures
        send_and_attach(runner, command@, r),
{
    let sargs: [&str; 5] = ["send-keys", "-t", "login-session", command, "Enter"];
    let ssl: &[&str] = &sargs;
    assert(strviews(ssl@) =~= send_keys_args(command@));
    match run_checked(
        runner,
        log,
        "tmux",
        ssl,
        5,
        "failed to send keys to tmux session",
        "tmux send-keys exited with code ",
    ) {
        Err(e) => Err(e),
        Ok(_) => {
            let aargs: [&str; 3] = ["attach-session", "-t", "login-session"];
            let asl: &[&str] = &aargs;
            assert(strviews(asl@) =~= attach_args());
            match runner.run_interactive(log, "tmux", asl) {
                Err(e) => Err(e.context(owned("failed to attach to tmux session 'login-session'"))),
                Ok(code) => {
                    if code != 0 {
                        let mut m = owned("tmux attach-session exited with code ");
                        let c = i32_to_string(code);
                        push_str(&mut m, c.as_str());
                        Err(Error::msg(m))
                    } else {
                        Ok(TmuxAction::DelegatedToTmux)
                    }
                },
            }
        },
    }
}

/// What ensuring tmux may give: see [`ensure_tmux`].
pub open spec fn ensure_tmux_outcome<R: CommandRunner>(
    runner: &R,
    in_tmux: bool,
    command_name: Seq<char>,
    subcommand: Seq<char>,
    command_args: Seq<Seq<char>>,
    r: Result<TmuxAction, Error>,
) -> bool {
    &&& in_tmux ==> r == Ok::<TmuxAction, Error>(TmuxAction::AlreadyInTmux)
    &&& !in_tmux ==> exists|v: Result<CommandOutput, Error>|
            {
                &&& #[trigger] runner.run_reply("tmux"@, version_args(), 5, v)
                &&& match checked_outcome(
                    v,
                    "tmux is not installed or not in PATH"@,
                    "tmux -V exited with code "@,
                ) {
                    Err(chain) => is_err_with(r, chain),
                    Ok(_) => exists|h: Result<CommandOutput, Error>|
                        {
                            &&& #[trigger] runner.run_reply("tmux"@, has_session_args(), 5, h)
                            &&& match ran(h, "failed to check for existing tmux session"@) {
                                Err(chain) => is_err_with(r, chain),
                                Ok(hs) => if hs.exit_code != 0 {
                                    exists|n: Result<CommandOutput, Error>|
                                        {
                                            &&& #[trigger] runner.run_reply("tmux"@, new_session_args(), 5, n)
                                            &&& match checked_outcome(
                                                n,
                                                "failed to create tmux session 'login-session'"@,
                                                "tmux new-session exited with code "@,
                                            ) {
                                                Err(chain) => is_err_with(r, chain),
                                                Ok(_) => send_and_attach(
                                                    runner,
                                                    escaped_command(
                                                        command_name,
                                                        subcommand,
                                                        command_args,
                                                    ),
                                                    r,
                                                ),
                                            }
                                        }
                                } else {
                                    send_and_attach(
                                        runner,
                                        escaped_command(command_name, subcommand, command_args),
                                        r,
                                    )
                                },
                            }
                        },
                }
            }
}

/// Ensure the command runs inside a tmux session.
///
/// `in_tmux` says whether the `TMUX` environment variable is set (read by
/// the caller). Inside tmux nothing is done. Otherwise tmux is probed, the
/// `login-session` is created when it does not exist, the reconstructed
/// command (`{command_name} {subcommand} {command_args}`) is typed into it
/// with `send-keys`, and the session is attached interactively. Every tmux
/// request but `has-session` (whose exit code only says whether the session
/// exists) must run and exit with 0; the first one that does not ends the
/// call with an error.
pub fn ensure_tmux<R: CommandRunner>(
    runner: &R,
    log: &mut RequestLog,
    in_tmux: bool,
    command_name: &str,
    subcommand: &str,
    command_args: &[String],
) -> (r: Result<TmuxAction, Error>)
    ensures
        ensure_tmux_outcome(runner, in_tmux, command_name@, subcommand@, sviews(command_args@), r),
{
    if in_tmux {
        return Ok(TmuxAction::AlreadyInTmux);
    }
    let vargs: [&str; 1] = ["-V"];
    let vsl: &[&str] = &vargs;
    assert(strviews(vsl@) =~= version_args());
    match run_checked(
        runner,
        log,
        "tmux",
        vsl,
        5,
        "tmux is not installed or not in PATH",
        "tmux -V exited with code ",
    ) {
        Err(e) => {
            return Err(e);
        },
        Ok(_) => {},
    }
    let escaped_command = build_escaped_command(command_name, subcommand, command_args);
    let hargs: [&str; 3] = ["has-session", "-t", "login-session"];
    let hsl: &[&str] = &hargs;
    assert(strviews(hsl@) =~= has_session_args());
    let has_session = match runner.run(log, "tmux", hsl, 5) {
        Err(e) => {
            return Err(e.context(owned("failed to check for existing tmux session")));
        },
        Ok(out) => out,
    };
    if has_session.exit_code != 0 {
        let nargs: [&str; 4] = ["new-session", "-d", "-s", "login-session"];
        let nsl: &[&str] = &nargs;
        assert(strviews(nsl@) =~= new_session_args());
        match run_checked(
            runner,
            log,
            "tmux",
            nsl,
            5,
            "failed to create tmux session 'login-session'",
            "tmux new-session exited with code ",
        ) {
            Err(e) => {
                return Err(e);
            },
            Ok(_) => {},
        }
    }
    send_and_attach_exec(runner, log, escaped_command.as_str())
}

/// Arguments of `tmux` that print `format`.
pub open spec fn display_args(format: Seq<char>) -> Seq<Seq<char>> {
    seq!["display-message"@, "-p"@, format]
}

/// The trimmed output of a `display-message` request, when it ran, exited
/// with 0 and printed something.
pub open spec fn displayed(o: Result<CommandOutput, Error>) -> Option<Seq<char>> {
    match o {
        Ok(out) => if out.exit_code == 0 && trim(out.stdout@).len() > 0 {
            Some(trim(out.stdout@))
        } else {
            None
        },
        Err(_) => None,
    }
}

/// Run `tmux display-message -p <format>` and return the trimmed output;
/// `None` on failure, non-zero exit, or empty output.
pub fn tmux_display_message<R: CommandRunner>(runner: &R, log: &mut RequestLog, format: &str) -> (r: Option<String>)
    ensures
        exists|o: Result<CommandOutput, Error>|
            {
                &&& #[trigger] runner.run_reply("tmux"@, display_args(format@), 5, o)
                &&& match displayed(o) {
                    Some(t) => r matches Some(s) && s@ == t,
                    None => r is None,
                }
            },
{
    let args: [&str; 3] = ["display-message", "-p", format];
    let sl: &[&str] = &args;
    assert(strviews(sl@) =~= display_args(format@));
    match runner.run(log, "tmux", sl, 5) {
        Ok(out) => {
            if out.exit_code == 0 {
                let t = trim_str(out.stdout.as_str());
                if t.as_str().is_empty() {
                    None
                } else {
                    Some(t)
                }
            } else {
                None
            }
        },
        Err(_) => None,
    }
}

/// Format of the tmux identifiers: `session-window.pane`.
pub const TMUX_ID_FORMAT: &'static str = "#{session_name}-#{window_index}.#{pane_index}";

/// Get tmux session, window and pane identifiers as
/// `session-window.pane` (e.g. `"main-2.1"`); `"unknown-0.0"` on any
/// failure.
pub fn get_tmux_identifiers<R: CommandRunner>(runner: &R, log: &mut RequestLog) -> (r: String)
    ensures
        exists|o: Result<CommandOutput, Error>|
            {
                &&& #[trigger] runner.run_reply("tmux"@, display_args(TMUX_ID_FORMAT@), 5, o)
                &&& r@ == match displayed(o) {
                    Some(t) => t,
                    None => UNKNOWN_TMUX_ID@,
                }
            },
{
    match tmux_display_message(runner, log, TMUX_ID_FORMAT) {
        Some(s) => s,
        None => owned(UNKNOWN_TMUX_ID),
    }
}

/// The pane id text for the reply `o` to the `#{pane_pid}` query: what
/// tmux displayed, else `fallback_pid` in decimal.
pub open spec fn pane_pid_text(o: Result<CommandOutput, Error>, fallback_pid: u32) -> Seq<char> {
    match displayed(o) {
        Some(t) => t,
        None => crate::text::nat_decimal(fallback_pid as nat),
    }
}

/// Get the PID of the shell running in the current tmux pane
/// (`#{pane_pid}`); `fallback_pid` (the caller's own process id) when tmux
/// gives none.
pub fn get_pane_pid<R: CommandRunner>(runner: &R, log: &mut RequestLog, fallback_pid: u32) -> (r: String)
    ensures
        exists|o: Result<CommandOutput, Error>|
            {
                &&& #[trigger] runner.run_reply("tmux"@, display_args("#{pane_pid}"@), 5, o)
                &&& r@ == pane_pid_text(o, fallback_pid)
            },
{
    match tmux_display_message(runner, log, "#{pane_pid}") {
        Some(s) => s,
        None => crate::text::u64_to_string(fallback_pid as u64),
    }
}

} // verus!
