//! SSH connection info extraction from `ssh -G` output.

use vstd::prelude::*;
use crate::runner::RequestLog;

use crate::error::Error;
use crate::runner::{is_err_with, CommandRunner};
use crate::text::{
    concat2, lines, lines_str, split_once, split_once_of, str_eq, string_from, sviews,
    to_lowercase, trim, trim_chars, lowercase, vviews,
};

verus! {

/// Resolved SSH connection parameters for a host.
#[derive(Debug, Clone, PartialEq, Eq)]
pub struct Info {
    /// Remote user name.
    pub user: String,
    /// Resolved hostname or IP address.
    pub hostname: String,
    /// SSH port number.
    pub port: String,
}

/// The trimmed value of `line` when its key lower-cases to `name`.
pub open spec fn field_of(line: Seq<char>, name: Seq<char>) -> Option<Seq<char>> {
    match split_once(line, ' ') {
        Some((k, v)) => if lowercase(k) == name {
            Some(trim(v))
        } else {
            None
        },
        None => None,
    }
}

/// The value of the last line of `ls` that sets `name`.
pub open spec fn last_field(ls: Seq<Seq<char>>, name: Seq<char>) -> Option<Seq<char>>
    decreases ls.len(),
{
    if ls.len() == 0 {
        None
    } else {
        match field_of(ls.last(), name) {
            Some(v) => Some(v),
            None => last_field(ls.drop_last(), name),
        }
    }
}

/// A later line that sets a field overrides every earlier one; a later line
/// that does not set it leaves the field as it was.
pub proof fn law_later_line_wins(ls: Seq<Seq<char>>, line: Seq<char>, name: Seq<char>)
    ensures
        last_field(ls.push(line), name) == match field_of(line, name) {
            Some(v) => Some(v),
            None => last_field(ls, name),
        },
{
    assert(ls.push(line).drop_last() =~= ls);
    assert(ls.push(line).last() == line);
}

/// The connection info of `ssh -G` output: the last `user`, `hostname` and
/// `port` values, when all three are present.
pub open spec fn connection_of(output: Seq<char>) -> Option<(Seq<char>, Seq<char>, Seq<char>)> {
    let ls = lines(output);
    match (last_field(ls, "user"@), last_field(ls, "hostname"@), last_field(ls, "port"@)) {
        (Some(u), Some(h), Some(p)) => Some((u, h, p)),
        _ => None,
    }
}

/// `info` holds the given triple.
pub open spec fn info_is(info: Info, t: (Seq<char>, Seq<char>, Seq<char>)) -> bool {
    info.user@ == t.0 && info.hostname@ == t.1 && info.port@ == t.2
}

/// Parse connection info from pre-resolved `ssh -G` output; `None` when any
/// of the three fields is missing. A later line overrides an earlier one.
pub fn parse_connection_info(ssh_g_output: &str) -> (r: Option<Info>)
    ensures
        match connection_of(ssh_g_output@) {
            Some(t) => r matches Some(info) && info_is(info, t),
            None => r is None,
        },
{
    let ls = lines_str(ssh_g_output);
    let ghost all = vviews(ls@);
    let mut user: Option<String> = None;
    let mut hostname: Option<String> = None;
    let mut port: Option<String> = None;
    let mut i: usize = 0;
    while i < ls.len()
        invariant
            i <= ls.len(),
            all == vviews(ls@),
            match last_field(all.take(i as int), "user"@) {
                Some(v) => user matches Some(s) && s@ == v,
                None => user is None,
            },
            match last_field(all.take(i as int), "hostname"@) {
                Some(v) => hostname matches Some(s) && s@ == v,
                None => hostname is None,
            },
            match last_field(all.take(i as int), "port"@) {
                Some(v) => port matches Some(s) && s@ == v,
                None => port is None,
            },
        decreases ls.len() - i,
    {
        let ghost nxt = all.take(i + 1);
        proof {
            reveal_strlit("user");
            reveal_strlit("hostname");
            reveal_strlit("port");
            assert("user"@[0] != "port"@[0]);
            assert("user"@ != "port"@);
            assert(nxt.drop_last() =~= all.take(i as int));
            assert(nxt.last() == ls@[i as int]@);
        }
        match split_once_of(ls[i].as_slice(), ' ') {
            Some((k, v)) => {
                let value = string_from(trim_chars(v.as_slice()).as_slice());
                let ks = string_from(k.as_slice());
                let key = to_lowercase(ks.as_str());
                if str_eq(key.as_str(), "user") {
                    user = Some(value);
                } else if str_eq(key.as_str(), "hostname") {
                    hostname = Some(value);
                } else if str_eq(key.as_str(), "port") {
                    port = Some(value);
                }
            },
            None => {},
        }
        i = i + 1;
    }
    assert(all.take(ls.len() as int) =~= all);
    match (user, hostname, port) {
        (Some(u), Some(h), Some(p)) => Some(Info { user: u, hostname: h, port: p }),
        _ => None,
    }
}

/// Extract connection info (user, hostname, port) for a host using
/// `ssh -G`; `None` when a field is missing.
pub fn get_connection_info<R: CommandRunner>(runner: &R, log: &mut RequestLog, host: &str, config_args: &[String]) -> (r:
    Result<Option<Info>, Error>)
    ensures
        exists|o: Result<String, Error>|
            {
                &&& #[trigger] runner.resolve_reply(host@, sviews(config_args@), o)
                &&& match o {
                    Err(e) => is_err_with(r, seq!["Failed to resolve SSH config for host: "@ + host@] + e@),
                    Ok(out) => match connection_of(out@) {
                        Some(t) => r matches Ok(Some(info)) && info_is(info, t),
                        None => r matches Ok(None),
                    },
                }
            },
{
    match runner.ssh_resolve(log, host, config_args) {
        Err(e) => Err(e.context(concat2("Failed to resolve SSH config for host: ", host))),
        Ok(out) => Ok(parse_connection_info(out.as_str())),
    }
}

} // verus!
