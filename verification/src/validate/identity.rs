//! Identity file validation: existence, key validity, permissions and
//! presence in the SSH agent.

use vstd::prelude::*;
use crate::runner::RequestLog;

use crate::check_types::{append_messages, msgs_view, push_message, tag_text, tagged, CheckLevel, CheckMessage};
use crate::error::{outer_message, Error};
use crate::runner::{added, extends, is_err_with, lemma_extends_push, no_resolve, AgentListResult, CommandRunner, Request};
use crate::ssh_parse::{parse_ssh_g_values, ssh_g_values};
use crate::text::{
    chars_of, contains_exec, contains_str, digit_char, digit_char_exec, eq_ignore_ascii_case,
    eq_ignore_ascii_case_exec, owned, push_char, push_str, split_ws, split_ws_of, sviews, vviews,
};
use crate::util::path::{expand_tilde, path_extension, std_path_extension, tilde_expanded};

verus! {

/// What the file system says of an identity file.
#[derive(Debug)]
pub struct FileFacts {
    /// The file exists.
    pub exists: bool,
    /// Its `st_mode` from `stat`, or the error `stat` gave.
    pub mode: Result<u32, Error>,
}

/// `probe` may answer `facts` for the path text `path`.
pub open spec fn probed<F: Fn(&str) -> FileFacts>(probe: F, path: Seq<char>, facts: FileFacts) -> bool {
    exists|s: &str| s@ == path && call_ensures(probe, (s,), facts)
}

/// `n` in octal, zero-padded to four digits (`{:04o}` for `n < 4096`).
pub open spec fn octal4(n: int) -> Seq<char> {
    seq![digit_char((n / 512) % 8), digit_char((n / 64) % 8), digit_char((n / 8) % 8), digit_char(n % 8)]
}

/// The permission message for a key file with `st_mode` `mode` (or the
/// `stat` error): a warning unless the permission bits are `0600`.
pub open spec fn permission_messages(host: Seq<char>, path: Seq<char>, mode: Result<u32, Error>) -> Seq<(CheckLevel, Seq<char>)> {
    match mode {
        Ok(st) => {
            let m = st & 0x1ffu32;
            if m != 0x180u32 {
                seq![(CheckLevel::Warn, tagged(host, "IdentityFile permissions are "@ + octal4(m as int) + ", expected 0600: "@ + path))]
            } else {
                Seq::empty()
            }
        },
        Err(e) => seq![(CheckLevel::Warn, tagged(host, "Could not stat IdentityFile ("@ + path + "): "@ + outer_message(e@)))],
    }
}

/// Only the nine permission bits of `st_mode` count: a key file is warned
/// about exactly when they are not `0600` (so `0o100600`, a regular file
/// with mode `0600`, gives no message), and the warning shows those bits.
pub proof fn law_permission_bits(host: Seq<char>, path: Seq<char>, st: u32)
    ensures
        permission_messages(host, path, Ok(st)) == if st % 512 == 384 {
            Seq::<(CheckLevel, Seq<char>)>::empty()
        } else {
            seq![(
                CheckLevel::Warn,
                tagged(host, "IdentityFile permissions are "@ + octal4((st as int) % 512) + ", expected 0600: "@ + path),
            )]
        },
{
    assert(st & 0x1ffu32 == st % 512) by (bit_vector);
}

/// The fingerprint hash of an `ssh-keygen -lf` line: its second
/// whitespace-separated token.
pub open spec fn keygen_hash(fp: Seq<char>) -> Option<Seq<char>> {
    if split_ws(fp).len() > 1 {
        Some(split_ws(fp)[1])
    } else {
        None
    }
}

/// Some agent key line contains the key's fingerprint hash.
pub open spec fn in_agent(keys: Seq<Seq<char>>, fp: Seq<char>) -> bool {
    keygen_hash(fp) matches Some(h) && exists|i: int| 0 <= i < keys.len() && contains_str(#[trigger] keys[i], h)
}

/// The agent message for a valid key file: none when the agent is
/// unavailable, the fingerprint is empty or the key is loaded; otherwise an
/// error for a `.pub` file (whose authentication must fail) and a warning
/// for any other.
pub open spec fn agent_messages(
    host: Seq<char>,
    path: Seq<char>,
    ext: Option<Seq<char>>,
    fp: Seq<char>,
    agent: AgentListResult,
) -> Seq<(CheckLevel, Seq<char>)> {
    if agent.available && fp.len() > 0 && !in_agent(sviews(agent.keys@), fp) {
        let level = if ext matches Some(x) && eq_ignore_ascii_case(x, "pub"@) {
            CheckLevel::Error
        } else {
            CheckLevel::Warn
        };
        seq![(level, tagged(host, "IdentityFile public key not in agent: "@ + path))]
    } else {
        Seq::empty()
    }
}

/// The messages for one identity file: `raw` as configured, `path` with `~`
/// expanded, `facts` from the file system, `fp` the fingerprint reply
/// (asked only for an existing file).
pub open spec fn file_messages(
    host: Seq<char>,
    raw: Seq<char>,
    path: Seq<char>,
    facts: FileFacts,
    fp: Result<String, Error>,
    agent: AgentListResult,
) -> Seq<(CheckLevel, Seq<char>)> {
    if !facts.exists {
        seq![(CheckLevel::Error, tagged(host, "IdentityFile not found: "@ + path))]
    } else {
        match fp {
            Err(e) => seq![(CheckLevel::Error, tagged(host, "IdentityFile is not a valid key ("@ + path + "): "@ + outer_message(e@)))],
            Ok(f) => permission_messages(host, path, facts.mode) + agent_messages(
                host,
                path,
                std_path_extension(raw),
                f@,
                agent,
            ),
        }
    }
}

/// The messages of all identity files `files`, given the facts and
/// fingerprint replies obtained for each.
pub open spec fn files_messages(
    host: Seq<char>,
    home: Seq<char>,
    files: Seq<Seq<char>>,
    facts: Seq<FileFacts>,
    fps: Seq<Result<String, Error>>,
    agent: AgentListResult,
) -> Seq<(CheckLevel, Seq<char>)>
    decreases files.len(),
{
    if files.len() == 0 || facts.len() != files.len() || fps.len() != files.len() {
        Seq::empty()
    } else {
        files_messages(host, home, files.drop_last(), facts.drop_last(), fps.drop_last(), agent)
            + file_messages(host, files.last(), tilde_expanded(files.last(), home), facts.last(), fps.last(), agent)
    }
}

/// What the identity check of `host` (`ssh -G` output `out`) may return:
/// nothing, without asking the agent, when no identity file is configured;
/// the agent's error; or the messages of every file, each probed on the
/// file system and, when it exists, fingerprinted.
pub open spec fn identity_outcome<R: CommandRunner, F: Fn(&str) -> FileFacts>(
    runner: &R,
    probe: F,
    out: Seq<char>,
    host: Seq<char>,
    home: Seq<char>,
    r: Result<Vec<CheckMessage>, Error>,
) -> bool {
    let files = ssh_g_values(out, "identityfile"@);
    if files.len() == 0 {
        r matches Ok(v) && v@.len() == 0
    } else {
        exists|a: Result<AgentListResult, Error>|
            {
                &&& #[trigger] runner.agent_list_reply(a)
                &&& match a {
                    Err(e) => is_err_with(r, seq!["identity check: failed to list agent keys"@] + e@),
                    Ok(al) => exists|facts: Seq<FileFacts>, fps: Seq<Result<String, Error>>|
                        {
                            &&& facts.len() == files.len()
                            &&& fps.len() == files.len()
                            &&& forall|i: int|
                                0 <= i < files.len() ==> #[trigger] probed(probe, tilde_expanded(files[i], home), facts[i])
                            &&& forall|i: int|
                                0 <= i < files.len() && facts[i].exists ==> #[trigger] runner.fingerprint_reply(
                                    tilde_expanded(files[i], home),
                                    fps[i],
                                )
                            &&& r matches Ok(v) && msgs_view(v@) == files_messages(host, home, files, facts, fps, al)
                        },
                }
            }
    }
}

/// `{:04o}` of a permission value.
fn octal4_exec(m: u32) -> (r: String)
    ensures
        r@ == octal4(m as int),
{
    let mut r = String::new();
    push_char(&mut r, digit_char_exec(((m / 512) % 8) as u64));
    push_char(&mut r, digit_char_exec(((m / 64) % 8) as u64));
    push_char(&mut r, digit_char_exec(((m / 8) % 8) as u64));
    push_char(&mut r, digit_char_exec((m % 8) as u64));
    assert(r@ =~= octal4(m as int));
    r
}

/// The permission message of a key file (see [`permission_messages`]).
pub fn permission_check(host: &str, path: &str, mode: &Result<u32, Error>) -> (r: Vec<CheckMessage>)
    ensures
        msgs_view(r@) == permission_messages(host@, path@, *mode),
{
    let mut messages: Vec<CheckMessage> = Vec::new();
    match mode {
        Ok(st) => {
            let m = *st & 0x1ffu32;
            if m != 0x180u32 {
                let mut text = tag_text(host, "IdentityFile permissions are ");
                let oct = octal4_exec(m);
                push_str(&mut text, oct.as_str());
                push_str(&mut text, ", expected 0600: ");
                push_str(&mut text, path);
                assert(text@ =~= tagged(host@, "IdentityFile permissions are "@ + octal4(m as int) + ", expected 0600: "@ + path@));
                push_message(&mut messages, CheckLevel::Warn, text);
            }
        },
        Err(e) => {
            let mut text = tag_text(host, "Could not stat IdentityFile (");
            push_str(&mut text, path);
            push_str(&mut text, "): ");
            let em = e.message();
            push_str(&mut text, em.as_str());
            assert(text@ =~= tagged(host@, "Could not stat IdentityFile ("@ + path@ + "): "@ + outer_message(e@)));
            push_message(&mut messages, CheckLevel::Warn, text);
        },
    }
    assert(msgs_view(messages@) =~= permission_messages(host@, path@, *mode));
    messages
}

fn in_agent_exec(keys: &Vec<String>, fp: &str) -> (r: bool)
    ensures
        r == in_agent(sviews(keys@), fp@),
{
    let toks = split_ws_of(chars_of(fp).as_slice());
    if toks.len() <= 1 {
        return false;
    }
    let ghost h = vviews(toks@)[1];
    let mut i: usize = 0;
    while i < keys.len()
        invariant
            i <= keys.len(),
            toks.len() > 1,
            h == toks@[1]@,
            keygen_hash(fp@) == Some(h),
            forall|k: int| 0 <= k < i ==> !contains_str(#[trigger] sviews(keys@)[k], h),
        decreases keys.len() - i,
    {
        if contains_exec(chars_of(keys[i].as_str()).as_slice(), toks[1].as_slice()) {
            assert(contains_str(sviews(keys@)[i as int], h));
            return true;
        }
        i = i + 1;
    }
    false
}

/// The agent message of a valid key file (see [`agent_messages`]).
pub fn agent_check(host: &str, raw: &str, path: &str, fp: &str, agent: &AgentListResult) -> (r: Vec<CheckMessage>)
    ensures
        msgs_view(r@) == agent_messages(host@, path@, std_path_extension(raw@), fp@, *agent),
{
    let mut messages: Vec<CheckMessage> = Vec::new();
    if agent.available && chars_of(fp).len() > 0 && !in_agent_exec(&agent.keys, fp) {
        let ext = path_extension(raw);
        let is_pub = match &ext {
            Some(x) => eq_ignore_ascii_case_exec(chars_of(x.as_str()).as_slice(), chars_of("pub").as_slice()),
            None => false,
        };
        let level = if is_pub {
            CheckLevel::Error
        } else {
            CheckLevel::Warn
        };
        let mut text = tag_text(host, "IdentityFile public key not in agent: ");
        push_str(&mut text, path);
        assert(text@ =~= tagged(host@, "IdentityFile public key not in agent: "@ + path@));
        push_message(&mut messages, level, text);
    }
    assert(msgs_view(messages@) =~= agent_messages(host@, path@, std_path_extension(raw@), fp@, *agent));
    messages
}

/// The messages of one identity file (see [`file_messages`]).
pub fn file_check(
    host: &str,
    raw: &str,
    path: &str,
    facts: &FileFacts,
    fp: &Result<String, Error>,
    agent: &AgentListResult,
) -> (r: Vec<CheckMessage>)
    ensures
        msgs_view(r@) == file_messages(host@, raw@, path@, *facts, *fp, *agent),
{
    let mut messages: Vec<CheckMessage> = Vec::new();
    if !facts.exists {
        let mut text = tag_text(host, "IdentityFile not found: ");
        push_str(&mut text, path);
        assert(text@ =~= tagged(host@, "IdentityFile not found: "@ + path@));
        push_message(&mut messages, CheckLevel::Error, text);
        return messages;
    }
    match fp {
        Err(e) => {
            let mut text = tag_text(host, "IdentityFile is not a valid key (");
            push_str(&mut text, path);
            push_str(&mut text, "): ");
            let em = e.message();
            push_str(&mut text, em.as_str());
            assert(text@ =~= tagged(host@, "IdentityFile is not a valid key ("@ + path@ + "): "@ + outer_message(e@)));
            push_message(&mut messages, CheckLevel::Error, text);
        },
        Ok(f) => {
            let perm = permission_check(host, path, &facts.mode);
            append_messages(&mut messages, perm);
            let ag = agent_check(host, raw, path, f.as_str(), agent);
            append_messages(&mut messages, ag);
        },
    }
    messages
}

/// Validate the identity files of a host from pre-resolved `ssh -G` output.
///
/// For each `IdentityFile` (with `~` expanded to `home`): report it when
/// `probe` says it does not exist; otherwise fingerprint it with
/// `ssh-keygen -lf`, report an invalid key, warn when its permissions are
/// not `0600`, and report a key the agent has not loaded.
pub fn check<R: CommandRunner, F: Fn(&str) -> FileFacts>(
    runner: &R,
    log: &mut RequestLog,
    ssh_g_output: &str,
    host: &str,
    home: &str,
    probe: &F,
) -> (r: Result<Vec<CheckMessage>, Error>)
    requires
        forall|s: &str| call_requires(*probe, (s,)),
    ensures
        identity_outcome(runner, *probe, ssh_g_output@, host@, home@, r),
        extends(old(log)@, final(log)@),
        no_resolve(added(old(log)@, final(log)@)),
{
    let ghost l0 = log@;
    assert(log@.take(l0.len() as int) =~= l0);
    assert(added(l0, log@) =~= Seq::<Request>::empty());
    let identity_files = parse_ssh_g_values(ssh_g_output, "identityfile");
    let ghost files = sviews(identity_files@);
    if identity_files.len() == 0 {
        return Ok(Vec::new());
    }
    let ghost lpre = log@;
    let agent_r = runner.ssh_agent_list(log);
    proof {
        lemma_extends_push(l0, lpre, Request::AgentList);
        assert(added(l0, log@) =~= seq![Request::AgentList]);
    }
    let agent = match agent_r {
        Err(e) => {
            return Err(e.context(owned("identity check: failed to list agent keys")));
        },
        Ok(a) => a,
    };
    let mut messages: Vec<CheckMessage> = Vec::new();
    let ghost mut facts_s: Seq<FileFacts> = Seq::empty();
    let ghost mut fps: Seq<Result<String, Error>> = Seq::empty();
    let mut i: usize = 0;
    while i < identity_files.len()
        invariant
            i <= identity_files.len(),
            files == sviews(identity_files@),
            extends(l0, log@),
            no_resolve(added(l0, log@)),
            l0 == old(log)@,
            forall|s: &str| call_requires(*probe, (s,)),
            facts_s.len() == i,
            fps.len() == i,
            forall|k: int|
                0 <= k < i ==> #[trigger] probed(*probe, tilde_expanded(files[k], home@), facts_s[k]),
            forall|k: int|
                0 <= k < i && facts_s[k].exists ==> #[trigger] runner.fingerprint_reply(
                    tilde_expanded(files[k], home@),
                    fps[k],
                ),
            msgs_view(messages@) == files_messages(host@, home@, files.take(i as int), facts_s, fps, agent),
        decreases identity_files.len() - i,
    {
        let ghost pre_files = files.take(i as int);
        let ghost pre_facts = facts_s;
        let ghost pre_fps = fps;
        let path = expand_tilde(identity_files[i].as_str(), home);
        let facts = probe(path.as_str());
        assert(probed(*probe, path@, facts));
        let fp = if facts.exists {
            let ghost lb = log@;
            let f = runner.ssh_keygen_fingerprint(log, path.as_str());
            proof {
                lemma_extends_push(l0, lb, Request::Fingerprint { path: path@ });
                assert(added(l0, log@) == added(l0, lb).push(Request::Fingerprint { path: path@ }));
            }
            f
        } else {
            Err(Error::msg(String::new()))
        };
        proof {
            facts_s = facts_s.push(facts);
            fps = fps.push(fp);
            let nf = files.take(i + 1);
            assert(nf.drop_last() =~= pre_files);
            assert(facts_s.drop_last() =~= pre_facts);
            assert(fps.drop_last() =~= pre_fps);
            assert(nf.last() == identity_files@[i as int]@);
        }
        let more = file_check(host, identity_files[i].as_str(), path.as_str(), &facts, &fp, &agent);
        append_messages(&mut messages, more);
        assert(msgs_view(messages@) =~= files_messages(host@, home@, files.take(i + 1), facts_s, fps, agent));
        i = i + 1;
    }
    assert(files.take(identity_files.len() as int) =~= files);
    Ok(messages)
}

} // verus!
