//! SCP wrapper: host resolution and the names used for the session's log
//! file, pane title and tmux host option.

use vstd::prelude::*;
use crate::runner::RequestLog;

use crate::config::connection::{connection_of, parse_connection_info};
use crate::error::Error;
use crate::runner::{is_err_with, CommandOutput, CommandRunner};
use crate::text::{concat2, join, join_strings, owned, push_str, sviews};
use crate::tmux::session::{display_args, get_pane_pid, pane_pid_text};
use crate::util::path::{join_path, path_join};
use crate::util::splash::LocalTime;
use crate::config::agent::{agent_match_outcome, get_matched_agent_keys_from_output};
use crate::config::details::{details_of, parse as parse_details};
use crate::text::lines;
use crate::tmux::pane::{get_title, get_title_outcome};
use crate::util::dry_run::{is_scp, is_scp_info_flag};
use crate::util::scp_args::{extract_user_host_pairs, pair_views, scp_user_hosts, UserHost};

verus! {

/// The date directory format of log paths.
pub const LOG_DATE_FORMAT: &'static str = "%Y/%m/%d";

/// The timestamp format that begins log file names.
pub const LOG_STAMP_FORMAT: &'static str = "%Y%m%dT%H%M%S";

/// The user for a host: the one written in the argument, else the one
/// `ssh -G` reports, else `unknown`.
pub open spec fn user_for(explicit: Option<String>, output: Seq<char>) -> Seq<char> {
    match explicit {
        Some(u) => u@,
        None => match connection_of(output) {
            Some(t) => t.0,
            None => "unknown"@,
        },
    }
}

/// What resolving the remote hosts `input` may give, given the replies
/// `replies` of the `ssh -G` requests made (one per host, in order, up to
/// the first failure).
pub open spec fn resolved_hosts(
    input: Seq<(Option<String>, String)>,
    replies: Seq<Result<String, Error>>,
    r: Result<(Vec<(String, String)>, String), Error>,
) -> bool {
    &&& replies.len() <= input.len()
    &&& forall|i: int| 0 <= i < replies.len() - 1 ==> replies[i] is Ok
    &&& if replies.len() > 0 && replies.last() is Err {
        match replies.last() {
            Err(e) => is_err_with(r, seq!["failed to resolve host: "@ + input[replies.len() - 1].1@] + e@),
            Ok(_) => false,
        }
    } else {
        &&& replies.len() == input.len()
        &&& r matches Ok((pairs, first)) && pairs@.len() == input.len() && (forall|i: int|
            0 <= i < input.len() ==> (#[trigger] pairs@[i]).0@ == user_for(input[i].0, replies[i]->Ok_0@)
                && pairs@[i].1@ == input[i].1@) && first@ == if input.len() > 0 {
            replies[0]->Ok_0@
        } else {
            Seq::empty()
        }
    }
}

/// What resolving the remote hosts may give: see [`resolve_all_hosts`].
pub open spec fn resolve_all_hosts_outcome<R: CommandRunner>(
    runner: &R,
    input: Seq<(Option<String>, String)>,
    config_args: Seq<Seq<char>>,
    r: Result<(Vec<(String, String)>, String), Error>,
) -> bool {
    exists|replies: Seq<Result<String, Error>>|
        {
            &&& forall|i: int|
                0 <= i < replies.len() ==> #[trigger] runner.resolve_reply(input[i].1@, config_args, replies[i])
            &&& resolved_hosts(input, replies, r)
        }
}

/// Resolve the `(user, host)` of every remote host with `ssh -G`, in order.
///
/// An explicit user (`user@host:path`) is kept; otherwise the user that
/// `ssh -G` reports, or `unknown`. Also returns the whole `ssh -G` output of
/// the first host. The first host that fails to resolve fails the call.
pub fn resolve_all_hosts<R: CommandRunner>(
    runner: &R,
    log: &mut RequestLog,
    user_host_input: &[(Option<String>, String)],
    config_args: &[String],
) -> (r: Result<(Vec<(String, String)>, String), Error>)
    ensures
        resolve_all_hosts_outcome(runner, user_host_input@, sviews(config_args@), r),
{
    let mut pairs: Vec<(String, String)> = Vec::new();
    let mut first_output = String::new();
    let ghost mut replies: Seq<Result<String, Error>> = Seq::empty();
    let mut i: usize = 0;
    while i < user_host_input.len()
        invariant
            i <= user_host_input.len(),
            replies.len() == i,
            pairs@.len() == i,
            forall|k: int|
                0 <= k < i ==> #[trigger] runner.resolve_reply(user_host_input@[k].1@, sviews(config_args@), replies[k]),
            forall|k: int| 0 <= k < i ==> replies[k] is Ok,
            forall|k: int|
                0 <= k < i ==> (#[trigger] pairs@[k]).0@ == user_for(user_host_input@[k].0, replies[k]->Ok_0@)
                    && pairs@[k].1@ == user_host_input@[k].1@,
            i > 0 ==> first_output@ == replies[0]->Ok_0@,
            i == 0 ==> first_output@ == Seq::<char>::empty(),
        decreases user_host_input.len() - i,
    {
        let host = &user_host_input[i].1;
        let reply = runner.ssh_resolve(log, host.as_str(), config_args);
        proof {
            replies = replies.push(reply);
        }
        match reply {
            Err(e) => {
                let r: Result<(Vec<(String, String)>, String), Error> = Err(
                    e.context(concat2("failed to resolve host: ", host.as_str())),
                );
                assert(resolved_hosts(user_host_input@, replies, r));
                return r;
            },
            Ok(output) => {
                let user = match &user_host_input[i].0 {
                    Some(u) => u.clone(),
                    None => match parse_connection_info(output.as_str()) {
                        Some(info) => info.user,
                        None => owned("unknown"),
                    },
                };
                assert(user@ == user_for(user_host_input@[i as int].0, output@));
                if i == 0 {
                    first_output = output;
                }
                pairs.push((user, host.clone()));
            },
        }
        i = i + 1;
    }
    let r: Result<(Vec<(String, String)>, String), Error> = Ok((pairs, first_output));
    assert(resolved_hosts(user_host_input@, replies, r));
    r
}

/// `user@host` for each pair.
pub open spec fn user_at_hosts(pairs: Seq<(String, String)>) -> Seq<Seq<char>> {
    pairs.map_values(|p: (String, String)| p.0@ + "@"@ + p.1@)
}

/// `user@host` for each pair, as strings.
pub fn user_at_host_list(pairs: &[(String, String)]) -> (r: Vec<String>)
    ensures
        sviews(r@) == user_at_hosts(pairs@),
{
    let mut r: Vec<String> = Vec::new();
    let mut i: usize = 0;
    while i < pairs.len()
        invariant
            i <= pairs.len(),
            sviews(r@) == user_at_hosts(pairs@).take(i as int),
        decreases pairs.len() - i,
    {
        let ghost before = sviews(r@);
        let mut s = pairs[i].0.clone();
        push_str(&mut s, "@");
        push_str(&mut s, pairs[i].1.as_str());
        r.push(s);
        assert(sviews(r@) =~= before.push(user_at_hosts(pairs@)[i as int]));
        i = i + 1;
        assert(sviews(r@) =~= user_at_hosts(pairs@).take(i as int));
    }
    assert(user_at_hosts(pairs@).take(pairs.len() as int) =~= user_at_hosts(pairs@));
    r
}

/// The log path of an SCP session that started at `date_dir`/`timestamp`:
/// `<prefix>/<date_dir>/<timestamp>_scp_<user@host>_..._<pane_pid>.log`.
pub open spec fn scp_log_path(
    prefix: Seq<char>,
    date_dir: Seq<char>,
    timestamp: Seq<char>,
    pairs: Seq<(String, String)>,
    pane_pid: Seq<char>,
) -> Seq<char> {
    path_join(
        path_join(prefix, date_dir),
        timestamp + "_scp_"@ + join(user_at_hosts(pairs), "_"@) + "_"@ + pane_pid + ".log"@,
    )
}

/// The SCP log path for the given start time parts and pane id.
pub fn scp_log_path_at(
    prefix: &str,
    date_dir: &str,
    timestamp: &str,
    pairs: &[(String, String)],
    pane_pid: &str,
) -> (r: String)
    ensures
        r@ == scp_log_path(prefix@, date_dir@, timestamp@, pairs@, pane_pid@),
{
    let hosts = user_at_host_list(pairs);
    let hosts_part = join_strings(hosts.as_slice(), "_");
    let mut name = owned(timestamp);
    push_str(&mut name, "_scp_");
    push_str(&mut name, hosts_part.as_str());
    push_str(&mut name, "_");
    push_str(&mut name, pane_pid);
    push_str(&mut name, ".log");
    let dir = join_path(prefix, date_dir);
    join_path(dir.as_str(), name.as_str())
}

/// The log paths an SCP session started at `now` may get: see
/// [`generate_scp_log_path`].
pub open spec fn generate_scp_log_path_outcome<R: CommandRunner>(
    runner: &R,
    now: LocalTime,
    prefix: Seq<char>,
    pairs: Seq<(String, String)>,
    fallback_pid: u32,
    r: Seq<char>,
) -> bool {
    exists|o: Result<CommandOutput, Error>|
        #[trigger] runner.run_reply("tmux"@, display_args("#{pane_pid}"@), 5, o) && r == scp_log_path(
            prefix,
            now.log_date@,
            now.log_stamp@,
            pairs,
            pane_pid_text(o, fallback_pid),
        )
}

/// Generate the log file path of an SCP session started at `now`, under
/// the log directory `prefix`; the pane id comes from tmux (or
/// `fallback_pid`).
pub fn generate_scp_log_path<R: CommandRunner>(
    runner: &R,
    log: &mut RequestLog,
    now: &LocalTime,
    prefix: &str,
    pairs: &[(String, String)],
    fallback_pid: u32,
) -> (r: String)
    ensures
        generate_scp_log_path_outcome(runner, *now, prefix@, pairs@, fallback_pid, r@),
{
    let pane_pid = get_pane_pid(runner, log, fallback_pid);
    scp_log_path_at(prefix, now.log_date.as_str(), now.log_stamp.as_str(), pairs, pane_pid.as_str())
}

/// The pane title of an SCP session: `scp:` and the hosts joined by `_`.
pub fn scp_pane_title(user_at_hosts: &[String]) -> (r: String)
    ensures
        r@ == "scp:"@ + join(sviews(user_at_hosts@), "_"@),
{
    let joined = join_strings(user_at_hosts, "_");
    concat2("scp:", joined.as_str())
}

/// The `@fterm_ssh_host` value of an SCP session: `scp:` and the hosts
/// joined by spaces.
pub fn scp_host_value(user_at_hosts: &[String]) -> (r: String)
    ensures
        r@ == "scp:"@ + join(sviews(user_at_hosts@), " "@),
{
    let joined = join_strings(user_at_hosts, " ");
    concat2("scp:", joined.as_str())
}

/// How an `scp` command line is handled.
#[derive(Debug)]
pub enum ScpRoute {
    /// Run `scp` as it is: there is no remote operand, or it only prints
    /// information.
    Direct,
    /// Wrap the transfer: the `(user, host)` pairs of the remote operands
    /// and their hosts.
    Wrap { pairs: Vec<(Option<String>, String)>, hosts: Vec<String> },
}

/// Decide how to handle the `scp` arguments: wrapped when they name a
/// remote host and hold no information flag (`--help`, `-h`).
pub fn scp_route(args: &[String]) -> (r: ScpRoute)
    ensures
        if scp_user_hosts(sviews(args@)).len() == 0 || exists|i: int|
            0 <= i < args@.len() && is_scp_info_flag(#[trigger] sviews(args@)[i]) {
            r is Direct
        } else {
            r matches ScpRoute::Wrap { pairs, hosts } && pair_views(pairs@) == scp_user_hosts(sviews(args@))
                && sviews(hosts@) == scp_user_hosts(sviews(args@)).map_values(|p: UserHost| p.1)
        },
{
    let pairs = extract_user_host_pairs(args);
    if pairs.len() == 0 || is_scp(args) {
        return ScpRoute::Direct;
    }
    let ghost ps = pair_views(pairs@);
    let mut hosts: Vec<String> = Vec::new();
    let mut i: usize = 0;
    while i < pairs.len()
        invariant
            i <= pairs.len(),
            ps == pair_views(pairs@),
            sviews(hosts@) == ps.take(i as int).map_values(|p: UserHost| p.1),
        decreases pairs.len() - i,
    {
        let ghost before = sviews(hosts@);
        hosts.push(pairs[i].1.clone());
        assert(ps[i as int].1 == pairs@[i as int].1@);
        assert(ps.take(i + 1) =~= ps.take(i as int).push(ps[i as int]));
        assert(sviews(hosts@) =~= before.push(ps[i as int].1));
        assert(sviews(hosts@) =~= ps.take(i + 1).map_values(|p: UserHost| p.1));
        i = i + 1;
    }
    assert(ps.take(pairs.len() as int) =~= ps);
    ScpRoute::Wrap { pairs, hosts }
}

/// What a wrapped SCP transfer knows before it starts.
#[derive(Debug)]
pub struct ScpSession {
    /// The resolved `(user, host)` of every remote host, in order.
    pub pairs: Vec<(String, String)>,
    /// `user@host` for each of them.
    pub user_at_hosts: Vec<String>,
    /// Where the session is logged.
    pub log_path: String,
    /// The configuration details (of the first host) shown and logged.
    pub ssh_details: Vec<String>,
    /// The agent keys that match the first host's identity files.
    pub agent_keys: Vec<String>,
    /// The pane title to restore afterwards.
    pub original_title: String,
}

/// `s` is what preparing the transfer makes of the resolved `pairs` and the
/// first host's `ssh -G` output `first`: the `user@host` list, a log path
/// for the pairs, the details, the matching agent keys (none when they
/// cannot be listed) and the current pane title (empty when unknown).
pub open spec fn scp_session_is<R: CommandRunner>(
    runner: &R,
    now: LocalTime,
    s: ScpSession,
    pairs: Seq<(String, String)>,
    first: Seq<char>,
    log_prefix: Seq<char>,
    home: Seq<char>,
    fallback_pid: u32,
) -> bool {
    &&& s.pairs@ == pairs
    &&& sviews(s.user_at_hosts@) == user_at_hosts(pairs)
    &&& generate_scp_log_path_outcome(runner, now, log_prefix, pairs, fallback_pid, s.log_path@)
    &&& sviews(s.ssh_details@) == details_of(lines(first))
    &&& exists|k: Result<Vec<String>, Error>|
        {
            &&& #[trigger] agent_match_outcome(runner, first, home, k)
            &&& sviews(s.agent_keys@) == match k {
                Ok(v) => sviews(v@),
                Err(_) => Seq::empty(),
            }
        }
    &&& exists|t: Result<String, Error>|
        {
            &&& #[trigger] get_title_outcome(runner, t)
            &&& s.original_title@ == match t {
                Ok(x) => x@,
                Err(_) => Seq::empty(),
            }
        }
}

/// Prepare a wrapped transfer once the pre-connect checks passed: resolve
/// every remote host (see [`resolve_all_hosts`]; a failure fails the
/// transfer), then derive what [`scp_session_is`] says.
pub fn prepare_scp_session<R: CommandRunner>(
    runner: &R,
    log: &mut RequestLog,
    now: &LocalTime,
    pairs: &[(Option<String>, String)],
    config_args: &[String],
    log_prefix: &str,
    home: &str,
    fallback_pid: u32,
) -> (r: Result<ScpSession, Error>)
    ensures
        exists|v: Result<(Vec<(String, String)>, String), Error>|
            {
                &&& #[trigger] resolve_all_hosts_outcome(runner, pairs@, sviews(config_args@), v)
                &&& match v {
                    Err(e) => is_err_with(r, e@),
                    Ok(p) => r matches Ok(s) && scp_session_is(
                        runner,
                        *now,
                        s,
                        p.0@,
                        p.1@,
                        log_prefix@,
                        home@,
                        fallback_pid,
                    ),
                }
            },
{
    let v = resolve_all_hosts(runner, log, pairs, config_args);
    let ghost vg = v;
    let (resolved, first) = match v {
        Err(e) => {
            assert(resolve_all_hosts_outcome(runner, pairs@, sviews(config_args@), vg));
            return Err(e);
        },
        Ok(p) => p,
    };
    let user_at_hosts = user_at_host_list(resolved.as_slice());
    let log_path = generate_scp_log_path(runner, log, now, log_prefix, resolved.as_slice(), fallback_pid);
    let ssh_details = parse_details(first.as_str());
    let k = get_matched_agent_keys_from_output(runner, log, first.as_str(), home);
    let ghost kg = k;
    let agent_keys = match k {
        Ok(v) => v,
        Err(_) => Vec::new(),
    };
    let t = get_title(runner, log);
    let ghost tg = t;
    let original_title = match t {
        Ok(x) => x,
        Err(_) => String::new(),
    };
    let s = ScpSession { pairs: resolved, user_at_hosts, log_path, ssh_details, agent_keys, original_title };
    assert(sviews(s.agent_keys@) =~= match kg {
        Ok(v) => sviews(v@),
        Err(_) => Seq::empty(),
    });
    assert(s.original_title@ =~= match tg {
        Ok(x) => x@,
        Err(_) => Seq::<char>::empty(),
    });
    assert(agent_match_outcome(runner, first@, home@, kg));
    assert(get_title_outcome(runner, tg));
    assert(resolve_all_hosts_outcome(runner, pairs@, sviews(config_args@), vg));
    Ok(s)
}

} // verus!
