//! SSH wrapper: the decisions and names of the connection flow (agent
//! requirement, validation verdict, fallback connection info, log path,
//! pane title) and the argument lists handed to `ssh`/`scp`.

use vstd::prelude::*;
use crate::runner::RequestLog;

use crate::check_types::{format_summary, msgs_view, summary_text, ValidationResult};
use crate::config::connection::{connection_of, info_is, parse_connection_info, Info};
use crate::error::Error;
use crate::runner::{config_flags, is_err_with, CommandOutput, CommandRunner};
use crate::text::{concat2, owned, push_str, str_eq, sviews};
use crate::tmux::session::{display_args, get_pane_pid, pane_pid_text};
use crate::util::path::{join_path, path_join};
use crate::util::splash::LocalTime;
use crate::config::agent::{agent_match_outcome, get_matched_agent_keys_from_output};
use crate::config::details::{details_of, parse as parse_details};
use crate::text::{after_last_at, lines};
use crate::tmux::pane::{get_title, get_title_outcome};
use crate::util::dry_run::{is_ssh, is_ssh_info_flag};
use crate::util::ssh_args::{extract_hostname_from_destination, extract_ssh_host, ssh_destination};

verus! {

/// The arguments hold the identity option `-i` (then the agent is not
/// required).
pub fn has_identity_option(args: &[String]) -> (r: bool)
    ensures
        r == sviews(args@).contains("-i"@),
{
    let mut i: usize = 0;
    while i < args.len()
        invariant
            i <= args.len(),
            forall|k: int| 0 <= k < i ==> sviews(args@)[k] != "-i"@,
        decreases args.len() - i,
    {
        if str_eq(args[i].as_str(), "-i") {
            assert(sviews(args@)[i as int] == "-i"@);
            return true;
        }
        i = i + 1;
    }
    false
}

/// `-F <cfg>` for every config argument, then the user's arguments.
pub open spec fn with_config(config_args: Seq<Seq<char>>, args: Seq<Seq<char>>) -> Seq<Seq<char>>
    decreases config_args.len(),
{
    if config_args.len() == 0 {
        args
    } else {
        seq!["-F"@, config_args[0]] + with_config(config_args.drop_first(), args)
    }
}

proof fn lemma_config_flags_front(c: Seq<Seq<char>>)
    requires
        c.len() > 0,
    ensures
        config_flags(c) == seq!["-F"@, c[0]] + config_flags(c.drop_first()),
    decreases c.len(),
{
    if c.len() == 1 {
        assert(c.drop_last() =~= Seq::<Seq<char>>::empty());
        assert(c.drop_first() =~= Seq::<Seq<char>>::empty());
        assert(config_flags(c) =~= seq!["-F"@, c[0]] + config_flags(c.drop_first()));
    } else {
        lemma_config_flags_front(c.drop_last());
        assert(c.drop_last().drop_first() =~= c.drop_first().drop_last());
        assert(c.drop_first().last() == c.last());
        assert(c.drop_last()[0] == c[0]);
        assert(config_flags(c) =~= seq!["-F"@, c[0]] + config_flags(c.drop_first()));
    }
}

/// An SSH-family command is given the same `-F` flags as the helper
/// requests (`ssh -G`): one `-F <cfg>` pair per config argument, in order,
/// and then the user's arguments, unchanged.
pub proof fn law_config_args_prefix(config_args: Seq<Seq<char>>, args: Seq<Seq<char>>)
    ensures
        with_config(config_args, args) == config_flags(config_args) + args,
    decreases config_args.len(),
{
    if config_args.len() > 0 {
        law_config_args_prefix(config_args.drop_first(), args);
        lemma_config_flags_front(config_args);
        assert(with_config(config_args, args) =~= config_flags(config_args) + args);
    } else {
        assert(with_config(config_args, args) =~= config_flags(config_args) + args);
    }
}

/// The full argument list of an SSH-family command (see [`with_config`]).
pub fn config_prefixed_args(config_args: &[String], args: &[String]) -> (r: Vec<String>)
    ensures
        sviews(r@) == with_config(sviews(config_args@), sviews(args@)),
{
    let mut r: Vec<String> = Vec::new();
    let ghost cs = sviews(config_args@);
    let ghost us = sviews(args@);
    let mut i: usize = 0;
    assert(cs.skip(0) =~= cs);
    while i < config_args.len()
        invariant
            i <= config_args.len(),
            cs == sviews(config_args@),
            us == sviews(args@),
            sviews(r@) + with_config(cs.skip(i as int), us) == with_config(cs, us),
        decreases config_args.len() - i,
    {
        assert(cs.skip(i as int).drop_first() =~= cs.skip(i + 1));
        let ghost before = sviews(r@);
        r.push(owned("-F"));
        r.push(config_args[i].clone());
        assert(sviews(r@) =~= before + seq!["-F"@, cs[i as int]]);
        i = i + 1;
        assert(sviews(r@) + with_config(cs.skip(i as int), us) =~= with_config(cs, us));
    }
    assert(cs.skip(i as int) =~= Seq::<Seq<char>>::empty());
    let mut j: usize = 0;
    let ghost base = sviews(r@);
    while j < args.len()
        invariant
            j <= args.len(),
            us == sviews(args@),
            sviews(r@) == base + us.take(j as int),
        decreases args.len() - j,
    {
        let ghost before = sviews(r@);
        r.push(args[j].clone());
        assert(sviews(r@) =~= before.push(us[j as int]));
        j = j + 1;
        assert(sviews(r@) =~= base + us.take(j as int));
    }
    assert(us.take(args.len() as int) =~= us);
    r
}

/// The command for an SSH tool: the Windows OpenSSH executable found for it
/// (MSYS2), or else its bare name for a `PATH` lookup.
pub fn resolve_ssh_command(windows_command: Option<String>, name: &str) -> (r: String)
    ensures
        match windows_command {
            Some(w) => r@ == w@,
            None => r@ == name@,
        },
{
    match windows_command {
        Some(w) => w,
        None => owned(name),
    }
}

/// The connection info of a host: what `ssh -G` reported, or else user
/// `unknown`, the host name itself and port `22`.
pub fn connection_or_default(ssh_g_output: &str, hostname: &str) -> (r: Info)
    ensures
        match connection_of(ssh_g_output@) {
            Some(t) => info_is(r, t),
            None => info_is(r, ("unknown"@, hostname@, "22"@)),
        },
{
    match parse_connection_info(ssh_g_output) {
        Some(info) => info,
        None => Info { user: owned("unknown"), hostname: owned(hostname), port: owned("22") },
    }
}

/// The verdict for `result`: see [`validation_verdict`].
pub open spec fn verdict_is(result: ValidationResult, r: (Option<i32>, Vec<String>)) -> bool {
    &&& result.error_count > 0 ==> r.0 == Some(1i32) && sviews(r.1@) == seq![
            summary_text(result.error_count as nat, result.warn_count as nat),
        ] + msgs_view(result.messages@).map_values(|m: (crate::check_types::CheckLevel, Seq<char>)| "  "@ + m.1)
    &&& result.error_count == 0 && result.warn_count > 0 ==> r.0 is None && sviews(r.1@) == seq![
            summary_text(result.error_count as nat, result.warn_count as nat),
        ]
    &&& result.error_count == 0 && result.warn_count == 0 ==> r.0 is None && r.1@.len() == 0
}

/// What the validation result means for the connection: the lines to show
/// on stderr and whether to stop with exit code 1. Errors stop, with the
/// summary and every message indented; warnings only show the summary.
pub fn validation_verdict(result: &ValidationResult) -> (r: (Option<i32>, Vec<String>))
    ensures
        verdict_is(*result, r),
{
    let mut lines: Vec<String> = Vec::new();
    if result.error_count > 0 {
        lines.push(format_summary(result));
        let ghost texts = msgs_view(result.messages@).map_values(
            |m: (crate::check_types::CheckLevel, Seq<char>)| "  "@ + m.1,
        );
        let mut i: usize = 0;
        while i < result.messages.len()
            invariant
                i <= result.messages.len(),
                texts == msgs_view(result.messages@).map_values(
                    |m: (crate::check_types::CheckLevel, Seq<char>)| "  "@ + m.1,
                ),
                sviews(lines@) == seq![summary_text(result.error_count as nat, result.warn_count as nat)]
                    + texts.take(i as int),
            decreases result.messages.len() - i,
        {
            let ghost before = sviews(lines@);
            lines.push(concat2("  ", result.messages[i].text.as_str()));
            assert(sviews(lines@) =~= before.push(texts[i as int]));
            i = i + 1;
            assert(sviews(lines@) =~= seq![summary_text(result.error_count as nat, result.warn_count as nat)]
                + texts.take(i as int));
        }
        assert(texts.take(result.messages.len() as int) =~= texts);
        return (Some(1), lines);
    }
    if result.warn_count > 0 {
        lines.push(format_summary(result));
        assert(sviews(lines@) =~= seq![summary_text(result.error_count as nat, result.warn_count as nat)]);
    }
    (None, lines)
}

/// The log path of an SSH session that started at `date_dir`/`timestamp`:
/// `<prefix>/<date_dir>/<timestamp>_<cmd>_<user>@<hostname>_<pane_pid>.log`.
pub open spec fn session_log_path(
    prefix: Seq<char>,
    date_dir: Seq<char>,
    timestamp: Seq<char>,
    cmd_type: Seq<char>,
    user: Seq<char>,
    hostname: Seq<char>,
    pane_pid: Seq<char>,
) -> Seq<char> {
    path_join(
        path_join(prefix, date_dir),
        timestamp + "_"@ + cmd_type + "_"@ + user + "@"@ + hostname + "_"@ + pane_pid + ".log"@,
    )
}

/// The SSH log path for the given start time parts and pane id.
pub fn log_path_at(
    prefix: &str,
    date_dir: &str,
    timestamp: &str,
    cmd_type: &str,
    user: &str,
    hostname: &str,
    pane_pid: &str,
) -> (r: String)
    ensures
        r@ == session_log_path(prefix@, date_dir@, timestamp@, cmd_type@, user@, hostname@, pane_pid@),
{
    let mut name = owned(timestamp);
    push_str(&mut name, "_");
    push_str(&mut name, cmd_type);
    push_str(&mut name, "_");
    push_str(&mut name, user);
    push_str(&mut name, "@");
    push_str(&mut name, hostname);
    push_str(&mut name, "_");
    push_str(&mut name, pane_pid);
    push_str(&mut name, ".log");
    let dir = join_path(prefix, date_dir);
    join_path(dir.as_str(), name.as_str())
}

/// The log paths a session started at `now` may get: see
/// [`generate_log_path`].
pub open spec fn generate_log_path_outcome<R: CommandRunner>(
    runner: &R,
    now: LocalTime,
    prefix: Seq<char>,
    user: Seq<char>,
    hostname: Seq<char>,
    cmd_type: Seq<char>,
    fallback_pid: u32,
    r: Seq<char>,
) -> bool {
    exists|o: Result<CommandOutput, Error>|
        #[trigger] runner.run_reply("tmux"@, display_args("#{pane_pid}"@), 5, o) && r == session_log_path(
            prefix,
            now.log_date@,
            now.log_stamp@,
            cmd_type,
            user,
            hostname,
            pane_pid_text(o, fallback_pid),
        )
}

/// Generate the log file path of a session started at `now`, under the log
/// directory `prefix`; the pane id comes from tmux (or `fallback_pid`).
pub fn generate_log_path<R: CommandRunner>(
    runner: &R,
    log: &mut RequestLog,
    now: &LocalTime,
    prefix: &str,
    user: &str,
    hostname: &str,
    cmd_type: &str,
    fallback_pid: u32,
) -> (r: String)
    ensures
        generate_log_path_outcome(runner, *now, prefix@, user@, hostname@, cmd_type@, fallback_pid, r@),
{
    let pane_pid = get_pane_pid(runner, log, fallback_pid);
    log_path_at(prefix, now.log_date.as_str(), now.log_stamp.as_str(), cmd_type, user, hostname, pane_pid.as_str())
}

/// The pane title (and `@fterm_ssh_host` value) of an SSH session:
/// `ssh:<user>@<target>`.
pub fn ssh_pane_title(user: &str, target_host: &str) -> (r: String)
    ensures
        r@ == "ssh:"@ + user@ + "@"@ + target_host@,
{
    let mut r = owned("ssh:");
    push_str(&mut r, user);
    push_str(&mut r, "@");
    push_str(&mut r, target_host);
    r
}

/// How an `ssh` command line is handled.
#[derive(Debug)]
pub enum SshRoute {
    /// Run `ssh` as it is: there is no destination, or it only prints
    /// information.
    Direct,
    /// Wrap the connection to `target_host` (`[user@]host`), whose host
    /// part is `hostname`.
    Wrap { target_host: String, hostname: String },
}

/// Decide how to handle the `ssh` arguments: wrapped when they name a
/// destination and hold no information flag (`-G`, `-V`, `-Q`, `--help`).
pub fn ssh_route(args: &[String]) -> (r: SshRoute)
    ensures
        match ssh_destination(sviews(args@)) {
            None => r is Direct,
            Some(d) => if exists|i: int| 0 <= i < args@.len() && is_ssh_info_flag(#[trigger] sviews(args@)[i]) {
                r is Direct
            } else {
                r matches SshRoute::Wrap { target_host, hostname } && target_host@ == d && hostname@
                    == after_last_at(d)
            },
        },
{
    match extract_ssh_host(args) {
        None => SshRoute::Direct,
        Some(target_host) => {
            if is_ssh(args) {
                SshRoute::Direct
            } else {
                let hostname = extract_hostname_from_destination(target_host.as_str());
                SshRoute::Wrap { target_host, hostname }
            }
        },
    }
}

/// What a wrapped SSH connection knows before it starts.
#[derive(Debug)]
pub struct SshSession {
    /// User, host name and port of the connection.
    pub conn: Info,
    /// Where the session is logged.
    pub log_path: String,
    /// The configuration details shown and logged.
    pub ssh_details: Vec<String>,
    /// The agent keys that match the host's identity files.
    pub agent_keys: Vec<String>,
    /// The pane title to restore afterwards.
    pub original_title: String,
}

/// `s` is what preparing the connection to `hostname` makes of the
/// `ssh -G` output `out`: the connection info (or its fallback), a log
/// path for it, the details, the matching agent keys (none when they
/// cannot be listed) and the current pane title (empty when unknown).
pub open spec fn ssh_session_is<R: CommandRunner>(
    runner: &R,
    now: LocalTime,
    s: SshSession,
    out: Seq<char>,
    hostname: Seq<char>,
    log_prefix: Seq<char>,
    home: Seq<char>,
    fallback_pid: u32,
) -> bool {
    &&& match connection_of(out) {
        Some(t) => info_is(s.conn, t),
        None => info_is(s.conn, ("unknown"@, hostname, "22"@)),
    }
    &&& generate_log_path_outcome(runner, now, log_prefix, s.conn.user@, s.conn.hostname@, "ssh"@, fallback_pid, s.log_path@)
    &&& sviews(s.ssh_details@) == details_of(lines(out))
    &&& exists|k: Result<Vec<String>, Error>|
        {
            &&& #[trigger] agent_match_outcome(runner, out, home, k)
            &&& sviews(s.agent_keys@) == match k {
                Ok(v) => sviews(v@),
                Err(_) => Seq::empty(),
            }
        }
    &&& exists|t: Result<String, Error>|
        {
            &&& #[trigger] get_title_outcome(runner, t)
            &&& s.original_title@ == match t {
                Ok(x) => x@,
                Err(_) => Seq::empty(),
            }
        }
}

/// Prepare a wrapped connection once the pre-connect checks passed:
/// resolve `hostname` with `ssh -G` (its failure fails the connection),
/// then derive what [`ssh_session_is`] says. `home` expands `~` in
/// identity file paths; the log goes under `log_prefix`.
pub fn prepare_ssh_session<R: CommandRunner>(
    runner: &R,
    log: &mut RequestLog,
    now: &LocalTime,
    hostname: &str,
    config_args: &[String],
    log_prefix: &str,
    home: &str,
    fallback_pid: u32,
) -> (r: Result<SshSession, Error>)
    ensures
        exists|o: Result<String, Error>|
            {
                &&& #[trigger] runner.resolve_reply(hostname@, sviews(config_args@), o)
                &&& match o {
                    Err(e) => is_err_with(r, seq!["failed to resolve host: "@ + hostname@] + e@),
                    Ok(out) => r matches Ok(s) && ssh_session_is(
                        runner,
                        *now,
                        s,
                        out@,
                        hostname@,
                        log_prefix@,
                        home@,
                        fallback_pid,
                    ),
                }
            },
{
    let o = runner.ssh_resolve(log, hostname, config_args);
    let ghost og = o;
    let out = match o {
        Err(e) => {
            let r = Err(e.context(concat2("failed to resolve host: ", hostname)));
            assert(runner.resolve_reply(hostname@, sviews(config_args@), og));
            return r;
        },
        Ok(out) => out,
    };
    let conn = connection_or_default(out.as_str(), hostname);
    let log_path = generate_log_path(
        runner,
        log,
        now,
        log_prefix,
        conn.user.as_str(),
        conn.hostname.as_str(),
        "ssh",
        fallback_pid,
    );
    let ssh_details = parse_details(out.as_str());
    let k = get_matched_agent_keys_from_output(runner, log, out.as_str(), home);
    let ghost kg = k;
    let agent_keys = match k {
        Ok(v) => v,
        Err(_) => Vec::new(),
    };
    let t = get_title(runner, log);
    let ghost tg = t;
    let original_title = match t {
        Ok(x) => x,
        Err(_) => String::new(),
    };
    let s = SshSession { conn, log_path, ssh_details, agent_keys, original_title };
    assert(sviews(s.agent_keys@) =~= match kg {
        Ok(v) => sviews(v@),
        Err(_) => Seq::empty(),
    });
    assert(s.original_title@ =~= match tg {
        Ok(x) => x@,
        Err(_) => Seq::<char>::empty(),
    });
    assert(agent_match_outcome(runner, out@, home@, kg));
    assert(get_title_outcome(runner, tg));
    assert(runner.resolve_reply(hostname@, sviews(config_args@), og));
    Ok(s)
}

} // verus!
