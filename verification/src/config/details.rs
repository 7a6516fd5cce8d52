//! SSH config detail extraction from `ssh -G` output: proxy, identity,
//! forwarding and agent settings.

use vstd::prelude::*;
use crate::runner::RequestLog;

use crate::error::Error;
use crate::runner::{is_err_with, CommandRunner};
use crate::text::{
    chars_of, concat2, eq_ignore_ascii_case, eq_ignore_ascii_case_exec, lines, lines_str, owned,
    push_chars, split_once, split_once_of, str_eq, string_from, sviews, to_lowercase, trim,
    trim_chars, lowercase, vviews,
};

verus! {

/// The detail line a single `ssh -G` line contributes, if any.
///
/// Keys are matched case-insensitively: `ProxyJump`, `ProxyCommand` and
/// `DynamicForward` unless `none`; `ForwardAgent` only when `yes`;
/// `IdentityFile`, `IdentitiesOnly`, `LocalForward` and `RemoteForward`
/// always.
pub open spec fn detail_of(line: Seq<char>) -> Option<Seq<char>> {
    let t = trim(line);
    if t.len() == 0 {
        None
    } else {
        match split_once(t, ' ') {
            None => None,
            Some((k, v0)) => {
                let v = trim(v0);
                let key = lowercase(k);
                if key == "proxyjump"@ {
                    if eq_ignore_ascii_case(v, "none"@) { None } else { Some("ProxyJump "@ + v) }
                } else if key == "proxycommand"@ {
                    if eq_ignore_ascii_case(v, "none"@) { None } else { Some("ProxyCommand "@ + v) }
                } else if key == "identityfile"@ {
                    Some("IdentityFile "@ + v)
                } else if key == "identitiesonly"@ {
                    Some("IdentitiesOnly "@ + v)
                } else if key == "forwardagent"@ {
                    if eq_ignore_ascii_case(v, "yes"@) { Some("ForwardAgent "@ + v) } else { None }
                } else if key == "localforward"@ {
                    Some("LocalForward "@ + v)
                } else if key == "remoteforward"@ {
                    Some("RemoteForward "@ + v)
                } else if key == "dynamicforward"@ {
                    if eq_ignore_ascii_case(v, "none"@) { None } else { Some("DynamicForward "@ + v) }
                } else {
                    None
                }
            },
        }
    }
}

/// The detail lines of the lines `ls`, in order.
pub open spec fn details_of(ls: Seq<Seq<char>>) -> Seq<Seq<char>>
    decreases ls.len(),
{
    if ls.len() == 0 {
        Seq::empty()
    } else {
        details_of(ls.drop_last()) + match detail_of(ls.last()) {
            Some(d) => seq![d],
            None => Seq::empty(),
        }
    }
}

fn labelled(label: &str, v: &[char]) -> (r: Option<String>)
    ensures
        r matches Some(s) && s@ == label@ + v@,
{
    let mut s = owned(label);
    push_chars(&mut s, v);
    Some(s)
}

fn detail_exec(line: &[char]) -> (r: Option<String>)
    ensures
        match detail_of(line@) {
            Some(d) => r matches Some(s) && s@ == d,
            None => r is None,
        },
{
    let t = trim_chars(line);
    if t.len() == 0 {
        return None;
    }
    match split_once_of(t.as_slice(), ' ') {
        None => None,
        Some((k, v0)) => {
            let v = trim_chars(v0.as_slice());
            let ks = string_from(k.as_slice());
            let key = to_lowercase(ks.as_str());
            let none = chars_of("none");
            let yes = chars_of("yes");
            let is_none = eq_ignore_ascii_case_exec(v.as_slice(), none.as_slice());
            let is_yes = eq_ignore_ascii_case_exec(v.as_slice(), yes.as_slice());
            let kk = key.as_str();
            if str_eq(kk, "proxyjump") {
                if is_none { None } else { labelled("ProxyJump ", v.as_slice()) }
            } else if str_eq(kk, "proxycommand") {
                if is_none { None } else { labelled("ProxyCommand ", v.as_slice()) }
            } else if str_eq(kk, "identityfile") {
                labelled("IdentityFile ", v.as_slice())
            } else if str_eq(kk, "identitiesonly") {
                labelled("IdentitiesOnly ", v.as_slice())
            } else if str_eq(kk, "forwardagent") {
                if is_yes { labelled("ForwardAgent ", v.as_slice()) } else { None }
            } else if str_eq(kk, "localforward") {
                labelled("LocalForward ", v.as_slice())
            } else if str_eq(kk, "remoteforward") {
                labelled("RemoteForward ", v.as_slice())
            } else if str_eq(kk, "dynamicforward") {
                if is_none { None } else { labelled("DynamicForward ", v.as_slice()) }
            } else {
                None
            }
        },
    }
}

/// Parse SSH config details from pre-resolved `ssh -G` output: formatted
/// lines such as `"ProxyJump bastion"`, in output order.
pub fn parse(ssh_g_output: &str) -> (r: Vec<String>)
    ensures
        sviews(r@) == details_of(lines(ssh_g_output@)),
{
    let ls = lines_str(ssh_g_output);
    let ghost all = vviews(ls@);
    let mut r: Vec<String> = Vec::new();
    let mut i: usize = 0;
    while i < ls.len()
        invariant
            i <= ls.len(),
            all == vviews(ls@),
            sviews(r@) == details_of(all.take(i as int)),
        decreases ls.len() - i,
    {
        let ghost pre = all.take(i as int);
        proof {
            let nxt = all.take(i + 1);
            assert(nxt.drop_last() =~= pre);
            assert(nxt.last() == ls@[i as int]@);
        }
        match detail_exec(ls[i].as_slice()) {
            Some(d) => {
                r.push(d);
                assert(sviews(r@) =~= details_of(all.take(i + 1)));
            },
            None => {
                assert(details_of(all.take(i + 1)) =~= details_of(pre));
            },
        }
        i = i + 1;
    }
    assert(all.take(ls.len() as int) =~= all);
    r
}

/// Extract detailed SSH configuration settings for a host using `ssh -G`
/// (see [`parse`]).
pub fn get<R: CommandRunner>(runner: &R, log: &mut RequestLog, host: &str, config_args: &[String]) -> (r: Result<Vec<String>, Error>)
    ensures
        exists|o: Result<String, Error>|
            {
                &&& #[trigger] runner.resolve_reply(host@, sviews(config_args@), o)
                &&& match o {
                    Err(e) => is_err_with(r, seq!["Failed to resolve SSH config for host: "@ + host@] + e@),
                    Ok(out) => r matches Ok(v) && sviews(v@) == details_of(lines(out@)),
                }
            },
{
    match runner.ssh_resolve(log, host, config_args) {
        Err(e) => Err(e.context(concat2("Failed to resolve SSH config for host: ", host))),
        Ok(out) => Ok(parse(out.as_str())),
    }
}

} // verus!
