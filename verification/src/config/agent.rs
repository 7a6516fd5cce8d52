//! SSH agent key matching against host identity files.
//!
//! The identity files a host uses (from `ssh -G`) are fingerprinted with
//! `ssh-keygen -lf` and compared with the keys loaded in the agent.

use vstd::prelude::*;
use crate::runner::RequestLog;

use crate::error::Error;
use crate::runner::{is_err_with, AgentListResult, CommandRunner};
use crate::ssh_parse::{parse_ssh_g_values, ssh_g_values};
use crate::text::{chars_of, concat2, has_char, owned, push_str, split_ws, split_ws_of, string_from, sviews, trim, trim_str, vviews};
use crate::util::path::{expand_tilde, tilde_expanded};

verus! {

/// The first token of `toks` that contains a `':'`.
pub open spec fn first_with_colon(toks: Seq<Seq<char>>) -> Option<Seq<char>>
    decreases toks.len(),
{
    if toks.len() == 0 {
        None
    } else if toks[0].contains(':') {
        Some(toks[0])
    } else {
        first_with_colon(toks.drop_first())
    }
}

/// The fingerprint hash (e.g. `SHA256:xxx`) of an `ssh-keygen -lf` or
/// `ssh-add -l` line: its first whitespace-separated token with a `':'`.
pub open spec fn fingerprint_hash(line: Seq<char>) -> Option<Seq<char>> {
    first_with_colon(split_ws(line))
}

/// Extract the fingerprint hash of a key line.
pub fn extract_fingerprint_hash(line: &str) -> (r: Option<String>)
    ensures
        match fingerprint_hash(line@) {
            Some(h) => r matches Some(s) && s@ == h,
            None => r is None,
        },
{
    let v = chars_of(line);
    let toks = split_ws_of(v.as_slice());
    let ghost all = vviews(toks@);
    let mut i: usize = 0;
    assert(all.skip(0) =~= all);
    while i < toks.len()
        invariant
            i <= toks.len(),
            all == vviews(toks@),
            all == split_ws(line@),
            first_with_colon(all) == first_with_colon(all.skip(i as int)),
        decreases toks.len() - i,
    {
        assert(all.skip(i as int).drop_first() =~= all.skip(i + 1));
        assert(all.skip(i as int)[0] == toks@[i as int]@);
        if has_char(toks[i].as_slice(), ':') {
            return Some(string_from(toks[i].as_slice()));
        }
        i = i + 1;
    }
    assert(all.skip(toks.len() as int) =~= Seq::<Seq<char>>::empty());
    None
}

/// The agent keys whose hash is `file_hash`, each followed by
/// `" (from: <identity file>)"`.
pub open spec fn keys_matching(keys: Seq<Seq<char>>, file_hash: Option<Seq<char>>, file: Seq<char>) -> Seq<Seq<char>>
    decreases keys.len(),
{
    if keys.len() == 0 {
        Seq::empty()
    } else {
        keys_matching(keys.drop_last(), file_hash, file) + if fingerprint_hash(keys.last()) is Some
            && fingerprint_hash(keys.last()) == file_hash {
            seq![keys.last() + " (from: "@ + file + ")"@]
        } else {
            Seq::empty()
        }
    }
}

/// The matches of the identity files `files`, given the fingerprint reply
/// obtained for each; a file whose fingerprint failed matches nothing.
pub open spec fn matched_keys(
    files: Seq<Seq<char>>,
    fps: Seq<Result<String, Error>>,
    keys: Seq<Seq<char>>,
) -> Seq<Seq<char>>
    decreases files.len(),
{
    if files.len() == 0 || fps.len() != files.len() {
        Seq::empty()
    } else {
        matched_keys(files.drop_last(), fps.drop_last(), keys) + match fps.last() {
            Ok(fp) => keys_matching(keys, fingerprint_hash(trim(fp@)), files.last()),
            Err(_) => Seq::empty(),
        }
    }
}

fn push_matching(matched: &mut Vec<String>, keys: &Vec<String>, fp_hash: &Option<String>, file: &str)
    ensures
        sviews(final(matched)@) == sviews(old(matched)@) + keys_matching(
            sviews(keys@),
            match fp_hash {
                Some(h) => Some(h@),
                None => None,
            },
            file@,
        ),
{
    let ghost fh: Option<Seq<char>> = match fp_hash {
        Some(h) => Some(h@),
        None => None,
    };
    let mut j: usize = 0;
    while j < keys.len()
        invariant
            j <= keys.len(),
            fh == match fp_hash {
                Some(h) => Some(h@),
                None => None::<Seq<char>>,
            },
            sviews(matched@) == sviews(old(matched)@) + keys_matching(sviews(keys@).take(j as int), fh, file@),
        decreases keys.len() - j,
    {
        let ghost pre = sviews(keys@).take(j as int);
        let ghost before = sviews(matched@);
        proof {
            let nxt = sviews(keys@).take(j + 1);
            assert(nxt.drop_last() =~= pre);
            assert(nxt.last() == keys@[j as int]@);
        }
        let kh = extract_fingerprint_hash(keys[j].as_str());
        let hit = match (&kh, fp_hash) {
            (Some(a), Some(b)) => crate::text::str_eq(a.as_str(), b.as_str()),
            _ => false,
        };
        let ghost kj = keys@[j as int]@;
        assert(hit == (fingerprint_hash(kj) is Some && fingerprint_hash(kj) == fh));
        if hit {
            let mut m = keys[j].clone();
            push_str(&mut m, " (from: ");
            push_str(&mut m, file);
            push_str(&mut m, ")");
            assert(m@ == kj + " (from: "@ + file@ + ")"@);
            matched.push(m);
            assert(sviews(matched@) =~= before.push(kj + " (from: "@ + file@ + ")"@));
        } else {
            assert(sviews(matched@) =~= before);
        }
        proof {
            let nxt = sviews(keys@).take(j + 1);
            assert(keys_matching(nxt, fh, file@) == keys_matching(pre, fh, file@) + (
                if fingerprint_hash(kj) is Some && fingerprint_hash(kj) == fh {
                    seq![kj + " (from: "@ + file@ + ")"@]
                } else {
                    Seq::empty()
                }));
        }
        assert(sviews(matched@) =~= sviews(old(matched)@) + keys_matching(
            sviews(keys@).take(j + 1),
            fh,
            file@,
        ));
        j = j + 1;
    }
    assert(sviews(keys@).take(keys.len() as int) =~= sviews(keys@));
}

/// What matching the identity files of `output` against the agent yields:
/// no agent request and no keys when there are no identity files; the
/// agent's error; no keys when the agent is unavailable or empty; otherwise
/// the matches obtained from one fingerprint request per identity file.
pub open spec fn agent_match_outcome<R: CommandRunner>(
    runner: &R,
    output: Seq<char>,
    home: Seq<char>,
    r: Result<Vec<String>, Error>,
) -> bool {
    let files = ssh_g_values(output, "identityfile"@);
    if files.len() == 0 {
        r matches Ok(v) && v@.len() == 0
    } else {
        exists|a: Result<AgentListResult, Error>|
            {
                &&& #[trigger] runner.agent_list_reply(a)
                &&& match a {
                    Err(e) => is_err_with(r, seq!["Failed to list SSH agent keys"@] + e@),
                    Ok(al) => if !al.available || al.keys@.len() == 0 {
                        r matches Ok(v) && v@.len() == 0
                    } else {
                        exists|fps: Seq<Result<String, Error>>|
                            {
                                &&& fps.len() == files.len()
                                &&& forall|i: int|
                                    0 <= i < files.len() ==> #[trigger] runner.fingerprint_reply(
                                        tilde_expanded(files[i], home),
                                        fps[i],
                                    )
                                &&& r matches Ok(v) && sviews(v@) == matched_keys(
                                    files,
                                    fps,
                                    sviews(al.keys@),
                                )
                            }
                    },
                }
            }
    }
}

/// Get the agent-loaded keys that match the identity files of
/// pre-resolved `ssh -G` output, formatted as
/// `"{agent_key_line} (from: {identity_file})"`.
///
/// `home` expands a leading `~` of the identity files. The agent is asked
/// only when there are identity files; a file whose fingerprint cannot be
/// read is skipped.
pub fn get_matched_agent_keys_from_output<R: CommandRunner>(
    runner: &R,
    log: &mut RequestLog,
    ssh_g_output: &str,
    home: &str,
) -> (r: Result<Vec<String>, Error>)
    ensures
        agent_match_outcome(runner, ssh_g_output@, home@, r),
{
    let identity_files = parse_ssh_g_values(ssh_g_output, "identityfile");
    let ghost files = sviews(identity_files@);
    if identity_files.len() == 0 {
        return Ok(Vec::new());
    }
    let agent = match runner.ssh_agent_list(log) {
        Err(e) => {
            return Err(e.context(owned("Failed to list SSH agent keys")));
        },
        Ok(a) => a,
    };
    if !agent.available || agent.keys.len() == 0 {
        return Ok(Vec::new());
    }
    let mut matched: Vec<String> = Vec::new();
    let ghost mut fps: Seq<Result<String, Error>> = Seq::empty();
    let mut i: usize = 0;
    while i < identity_files.len()
        invariant
            i <= identity_files.len(),
            files == sviews(identity_files@),
            fps.len() == i,
            forall|k: int|
                0 <= k < i ==> #[trigger] runner.fingerprint_reply(tilde_expanded(files[k], home@), fps[k]),
            sviews(matched@) == matched_keys(files.take(i as int), fps, sviews(agent.keys@)),
        decreases identity_files.len() - i,
    {
        let ghost pre_files = files.take(i as int);
        let ghost pre_fps = fps;
        let expanded = expand_tilde(identity_files[i].as_str(), home);
        let fp = runner.ssh_keygen_fingerprint(log, expanded.as_str());
        proof {
            fps = fps.push(fp);
            let nf = files.take(i + 1);
            assert(nf.drop_last() =~= pre_files);
            assert(fps.drop_last() =~= pre_fps);
            assert(nf.last() == identity_files@[i as int]@);
        }
        match fp {
            Ok(f) => {
                let t = trim_str(f.as_str());
                let h = extract_fingerprint_hash(t.as_str());
                push_matching(&mut matched, &agent.keys, &h, identity_files[i].as_str());
            },
            Err(_) => {},
        }
        assert(sviews(matched@) =~= matched_keys(files.take(i + 1), fps, sviews(agent.keys@)));
        i = i + 1;
    }
    assert(files.take(identity_files.len() as int) =~= files);
    Ok(matched)
}

/// Get the agent-loaded keys that match the identity files configured for a
/// host, resolving the host with `ssh -G` first.
pub fn get_matched_agent_keys<R: CommandRunner>(
    runner: &R,
    log: &mut RequestLog,
    host: &str,
    config_args: &[String],
    home: &str,
) -> (r: Result<Vec<String>, Error>)
    ensures
        exists|o: Result<String, Error>|
            {
                &&& #[trigger] runner.resolve_reply(host@, sviews(config_args@), o)
                &&& match o {
                    Err(e) => is_err_with(r, seq!["Failed to resolve SSH config for host: "@ + host@] + e@),
                    Ok(out) => agent_match_outcome(runner, out@, home@, r),
                }
            },
{
    match runner.ssh_resolve(log, host, config_args) {
        Err(e) => Err(e.context(concat2("Failed to resolve SSH config for host: ", host))),
        Ok(out) => get_matched_agent_keys_from_output(runner, log, out.as_str(), home),
    }
}

} // verus!
