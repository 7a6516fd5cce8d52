//! Validation orchestrator: runs every check and collects the results.

use vstd::prelude::*;
use crate::runner::RequestLog;

use crate::check_types::{append_messages, msgs_view, CheckLevel, CheckMessage, ValidationResult};
use crate::config::block::first_unreadable;
use crate::config::files::ConfigFile;
use crate::error::Error;
use crate::runner::{is_err_with, CommandRunner};
use crate::text::{owned, split_char, sviews};
use crate::validate::basic::{basic_messages, check as basic_check};
use crate::validate::control_path::{check as control_path_check, control_outcome, DirAccess};
use crate::validate::duplicate::{check as duplicate_check, duplicate_messages, files_occurrences, first_order};
use crate::validate::host_prefix::{check as host_prefix_check, combined_text, prefix_covered, uncovered_message};
use crate::validate::identity::{check as identity_check, identity_outcome, FileFacts};
use crate::validate::proxyjump::{check as proxyjump_check, checked_messages, pj_outcome};
use crate::validate::syntax::{check as syntax_check, syntax_messages, DUMMY_HOST};

verus! {

/// The number of messages of `ms` at level `level`.
pub open spec fn count_level(ms: Seq<(CheckLevel, Seq<char>)>, level: CheckLevel) -> nat
    decreases ms.len(),
{
    if ms.len() == 0 {
        0
    } else {
        count_level(ms.drop_last(), level) + if ms.last().0 == level {
            1nat
        } else {
            0nat
        }
    }
}

/// At most every message has a given level.
pub proof fn lemma_count_level_bound(ms: Seq<(CheckLevel, Seq<char>)>, level: CheckLevel)
    ensures
        count_level(ms, level) <= ms.len(),
    decreases ms.len(),
{
    if ms.len() > 0 {
        lemma_count_level_bound(ms.drop_last(), level);
    }
}

/// Every message is an error, a warning or a notice: the three counts add
/// up to the number of messages.
pub proof fn law_count_partition(ms: Seq<(CheckLevel, Seq<char>)>)
    ensures
        count_level(ms, CheckLevel::Error) + count_level(ms, CheckLevel::Warn) + count_level(ms, CheckLevel::Info)
            == ms.len(),
    decreases ms.len(),
{
    if ms.len() > 0 {
        law_count_partition(ms.drop_last());
    }
}

/// Count errors and warnings in a list of messages.
pub fn count_levels(messages: &[CheckMessage]) -> (r: (usize, usize))
    ensures
        r.0 == count_level(msgs_view(messages@), CheckLevel::Error),
        r.1 == count_level(msgs_view(messages@), CheckLevel::Warn),
{
    let ghost all = msgs_view(messages@);
    let mut errors: usize = 0;
    let mut warns: usize = 0;
    let mut i: usize = 0;
    while i < messages.len()
        invariant
            i <= messages.len(),
            all == msgs_view(messages@),
            errors == count_level(all.take(i as int), CheckLevel::Error),
            warns == count_level(all.take(i as int), CheckLevel::Warn),
        decreases messages.len() - i,
    {
        proof {
            assert(all.take(i + 1).drop_last() =~= all.take(i as int));
            assert(all.take(i + 1).last() == (messages@[i as int].level, messages@[i as int].text@));
            lemma_count_level_bound(all.take(i as int), CheckLevel::Error);
            lemma_count_level_bound(all.take(i as int), CheckLevel::Warn);
        }
        match messages[i].level {
            CheckLevel::Error => {
                errors = errors + 1;
            },
            CheckLevel::Warn => {
                warns = warns + 1;
            },
            CheckLevel::Info => {},
        }
        i = i + 1;
    }
    assert(all.take(messages.len() as int) =~= all);
    (errors, warns)
}

/// The result holds exactly the messages `ms`, with their error and warning
/// counts.
pub open spec fn result_is(r: Result<ValidationResult, Error>, ms: Seq<(CheckLevel, Seq<char>)>) -> bool {
    r matches Ok(v) && msgs_view(v.messages@) == ms && v.error_count == count_level(ms, CheckLevel::Error)
        && v.warn_count == count_level(ms, CheckLevel::Warn)
}

/// The host prefix messages of `host`; a failed check contributes nothing.
pub open spec fn prefix_check_messages(host: Seq<char>, files: Seq<ConfigFile>) -> Seq<(CheckLevel, Seq<char>)> {
    if split_char(host, '.').len() < 2 || first_unreadable(files) is Some {
        Seq::empty()
    } else if prefix_covered(split_char(host, '.'), combined_text(files)) {
        Seq::empty()
    } else {
        seq![uncovered_message(host)]
    }
}

/// Names the results of the per-host checks (a trigger for their choice).
pub open spec fn host_results(
    c1: Set<Seq<char>>,
    mpj: Seq<(CheckLevel, Seq<char>)>,
    dm: Seq<(CheckLevel, Seq<char>)>,
) -> bool {
    true
}

/// What the checks of one host may report: its prefix check; then, when
/// it resolves, its basic, identity, `ProxyJump` (starting from the host
/// itself) and control path checks. A failed identity check contributes
/// nothing.
pub open spec fn host_outcome<R: CommandRunner, D: Fn(&str) -> DirAccess, F: Fn(&str) -> FileFacts>(
    runner: &R,
    dir_probe: D,
    file_probe: F,
    files: Seq<ConfigFile>,
    hosts: Seq<Seq<char>>,
    args: Seq<Seq<char>>,
    home: Seq<char>,
    host: Seq<char>,
    msgs: Seq<(CheckLevel, Seq<char>)>,
) -> bool {
    let hp = prefix_check_messages(host, files);
    exists|reply: Result<String, Error>|
        {
            &&& #[trigger] runner.resolve_reply(host, args, reply)
            &&& match reply {
                Err(_) => msgs == hp,
                Ok(out) => exists|
                    idr: Result<Vec<CheckMessage>, Error>,
                    c1: Set<Seq<char>>,
                    mpj: Seq<(CheckLevel, Seq<char>)>,
                    dm: Seq<(CheckLevel, Seq<char>)>,
                |
                    {
                        &&& #[trigger] identity_outcome(runner, file_probe, out@, host, home, idr)
                        &&& #[trigger] host_results(c1, mpj, dm)
                        &&& pj_outcome(runner, file_probe, home, args, hosts, out@, host, seq![host], Set::empty(), c1, mpj)
                        &&& control_outcome(dir_probe, out@, host, home, dm)
                        &&& msgs == hp + basic_messages(out@, host) + checked_messages(idr) + mpj + dm
                    },
            }
        }
}

/// Names the messages of the earlier hosts and of the last one.
pub open spec fn split_results(m1: Seq<(CheckLevel, Seq<char>)>, m2: Seq<(CheckLevel, Seq<char>)>) -> bool {
    true
}

/// What the checks of the hosts `hs`, in order, may report.
pub open spec fn hosts_outcome<R: CommandRunner, D: Fn(&str) -> DirAccess, F: Fn(&str) -> FileFacts>(
    runner: &R,
    dir_probe: D,
    file_probe: F,
    files: Seq<ConfigFile>,
    hosts: Seq<Seq<char>>,
    args: Seq<Seq<char>>,
    home: Seq<char>,
    hs: Seq<Seq<char>>,
    msgs: Seq<(CheckLevel, Seq<char>)>,
) -> bool
    decreases hs.len(),
{
    if hs.len() == 0 {
        msgs.len() == 0
    } else {
        exists|m1: Seq<(CheckLevel, Seq<char>)>, m2: Seq<(CheckLevel, Seq<char>)>|
            {
                &&& #[trigger] split_results(m1, m2)
                &&& hosts_outcome(runner, dir_probe, file_probe, files, hosts, args, home, hs.drop_last(), m1)
                &&& host_outcome(runner, dir_probe, file_probe, files, hosts, args, home, hs.last(), m2)
                &&& msgs == m1 + m2
            }
    }
}

/// What a full validation may give: the socket directory messages `cm`,
/// then the syntax messages, stopping there when they hold an error; then
/// the duplicate messages (an unreadable config file fails the run) and the
/// messages of every host; with the error and warning counts.
pub open spec fn run_outcome<R: CommandRunner, D: Fn(&str) -> DirAccess, F: Fn(&str) -> FileFacts>(
    runner: &R,
    dir_probe: D,
    file_probe: F,
    cm: Seq<(CheckLevel, Seq<char>)>,
    files: Seq<ConfigFile>,
    hosts: Seq<Seq<char>>,
    args: Seq<Seq<char>>,
    home: Seq<char>,
    r: Result<ValidationResult, Error>,
) -> bool {
    exists|o: Result<String, Error>|
        {
            &&& #[trigger] runner.resolve_reply(DUMMY_HOST@, args, o)
            &&& {
                let sm = match o {
                    Ok(_) => Seq::empty(),
                    Err(e) => syntax_messages(e@),
                };
                let pre = cm + sm;
                if count_level(sm, CheckLevel::Error) > 0 {
                    result_is(r, pre)
                } else {
                    match first_unreadable(files) {
                        Some(i) => match files[i].content {
                            Err(e) => is_err_with(
                                r,
                                seq!["duplicate host check failed"@, "duplicate check: failed to read "@ + files[i].path@] + e@,
                            ),
                            Ok(_) => false,
                        },
                        None => exists|hm: Seq<(CheckLevel, Seq<char>)>|
                            {
                                &&& #[trigger] hosts_outcome(runner, dir_probe, file_probe, files, hosts, args, home, hosts, hm)
                                &&& result_is(
                                    r,
                                    pre + duplicate_messages(first_order(files_occurrences(files)), files_occurrences(files)) + hm,
                                )
                            },
                    }
                }
            }
        }
}

/// Build the result for the messages gathered.
fn finish(messages: Vec<CheckMessage>) -> (r: Result<ValidationResult, Error>)
    ensures
        result_is(r, msgs_view(messages@)),
{
    let (error_count, warn_count) = count_levels(messages.as_slice());
    Ok(ValidationResult { messages, error_count, warn_count })
}

/// The checks of one host (see [`host_outcome`]).
fn check_host<R: CommandRunner, D: Fn(&str) -> DirAccess, F: Fn(&str) -> FileFacts>(
    runner: &R,
    log: &mut RequestLog,
    config_files: &[ConfigFile],
    hosts: &[String],
    config_args: &[String],
    home: &str,
    host: &str,
    dir_probe: &D,
    file_probe: &F,
) -> (r: Vec<CheckMessage>)
    requires
        forall|s: &str| call_requires(*dir_probe, (s,)),
        forall|s: &str| call_requires(*file_probe, (s,)),
    ensures
        host_outcome(
            runner,
            *dir_probe,
            *file_probe,
            config_files@,
            sviews(hosts@),
            sviews(config_args@),
            home@,
            host@,
            msgs_view(r@),
        ),
{
    let mut messages: Vec<CheckMessage> = Vec::new();
    match host_prefix_check(host, config_files) {
        Ok(msgs) => append_messages(&mut messages, msgs),
        Err(_) => {},
    }
    let ghost hp = msgs_view(messages@);
    assert(hp =~= prefix_check_messages(host@, config_files@));
    let reply = runner.ssh_resolve(log, host, config_args);
    let ghost reply_g = reply;
    match reply {
        Err(_) => {
            assert(runner.resolve_reply(host@, sviews(config_args@), reply_g));
            messages
        },
        Ok(out) => {
            let b = basic_check(out.as_str(), host);
            append_messages(&mut messages, b);
            let idr = identity_check(runner, log, out.as_str(), host, home, file_probe);
            let ghost idr_g = idr;
            match idr {
                Ok(v) => append_messages(&mut messages, v),
                Err(_) => {},
            }
            let ghost m_id = msgs_view(messages@);
            let mut visited: Vec<String> = Vec::new();
            visited.push(owned(host));
            assert(sviews(visited@) =~= seq![host@]);
            let pj = proxyjump_check(runner, log, out.as_str(), host, config_args, hosts, &mut visited, home, file_probe);
            let ghost pj_g = pj;
            let ghost mpj = checked_messages(pj_g);
            match pj {
                Ok(v) => append_messages(&mut messages, v),
                Err(_) => {},
            }
            let cp = control_path_check(out.as_str(), host, home, dir_probe);
            let ghost dm = msgs_view(cp@);
            append_messages(&mut messages, cp);
            proof {
                let c1 = choose|c1: Set<Seq<char>>|
                    #[trigger] pj_outcome(
                        runner,
                        *file_probe,
                        home@,
                        sviews(config_args@),
                        sviews(hosts@),
                        out@,
                        host@,
                        seq![host@],
                        Set::empty(),
                        c1,
                        mpj,
                    );
                assert(host_results(c1, mpj, dm));
                assert(identity_outcome(runner, *file_probe, out@, host@, home@, idr_g));
                assert(msgs_view(messages@) =~= hp + basic_messages(out@, host@) + checked_messages(idr_g) + mpj + dm);
                assert(runner.resolve_reply(host@, sviews(config_args@), reply_g));
            }
            messages
        },
    }
}

/// Run all validation checks against the SSH configuration.
///
/// `cm_messages` are the messages of ensuring the `ControlMaster` socket
/// directory (see [`crate::validate::cm_dir`]). The syntax check comes
/// first and ends the run when it reports an error; then duplicate hosts,
/// then for each host its prefix, basic, identity, `ProxyJump` and control
/// path checks. `home` expands `~`; the probes answer for directories and
/// identity files. A config file that cannot be read fails the run.
pub fn run_all_checks<R: CommandRunner, D: Fn(&str) -> DirAccess, F: Fn(&str) -> FileFacts>(
    runner: &R,
    log: &mut RequestLog,
    cm_messages: Vec<CheckMessage>,
    config_files: &[ConfigFile],
    hosts: &[String],
    config_args: &[String],
    home: &str,
    dir_probe: &D,
    file_probe: &F,
) -> (r: Result<ValidationResult, Error>)
    requires
        forall|s: &str| call_requires(*dir_probe, (s,)),
        forall|s: &str| call_requires(*file_probe, (s,)),
    ensures
        run_outcome(
            runner,
            *dir_probe,
            *file_probe,
            msgs_view(cm_messages@),
            config_files@,
            sviews(hosts@),
            sviews(config_args@),
            home@,
            r,
        ),
{
    let ghost cm = msgs_view(cm_messages@);
    let mut messages = cm_messages;

    let syntax = syntax_check(runner, log, config_args);
    let ghost o = choose|o: Result<String, Error>|
        {
            &&& #[trigger] runner.resolve_reply(DUMMY_HOST@, sviews(config_args@), o)
            &&& syntax matches Ok(v) && msgs_view(v@) == match o {
                Ok(_) => Seq::empty(),
                Err(e) => syntax_messages(e@),
            }
        };
    let syntax_msgs = match syntax {
        Ok(v) => v,
        Err(e) => {
            return Err(e.context(owned("syntax check failed")));
        },
    };
    let ghost sm = msgs_view(syntax_msgs@);
    let (syntax_errors, _) = count_levels(syntax_msgs.as_slice());
    append_messages(&mut messages, syntax_msgs);
    if syntax_errors > 0 {
        let r = finish(messages);
        assert(runner.resolve_reply(DUMMY_HOST@, sviews(config_args@), o));
        return r;
    }

    let dup = duplicate_check(config_files);
    match dup {
        Err(e) => {
            let ghost e0 = e@;
            let r: Result<ValidationResult, Error> = Err(e.context(owned("duplicate host check failed")));
            proof {
                let i = first_unreadable(config_files@)->Some_0;
                match config_files@[i].content {
                    Err(ee) => {
                        assert(e0 == seq!["duplicate check: failed to read "@ + config_files@[i].path@] + ee@);
                        assert(seq!["duplicate host check failed"@] + e0 =~= seq!["duplicate host check failed"@, "duplicate check: failed to read "@ + config_files@[i].path@] + ee@);
                    },
                    Ok(_) => {},
                }
                assert(runner.resolve_reply(DUMMY_HOST@, sviews(config_args@), o));
            }
            return r;
        },
        Ok(v) => append_messages(&mut messages, v),
    }
    let ghost pre = msgs_view(messages@);

    let mut i: usize = 0;
    let ghost mut hm: Seq<(CheckLevel, Seq<char>)> = Seq::empty();
    while i < hosts.len()
        invariant
            i <= hosts.len(),
            forall|s: &str| call_requires(*dir_probe, (s,)),
            forall|s: &str| call_requires(*file_probe, (s,)),
            msgs_view(messages@) == pre + hm,
            hosts_outcome(
                runner,
                *dir_probe,
                *file_probe,
                config_files@,
                sviews(hosts@),
                sviews(config_args@),
                home@,
                sviews(hosts@).take(i as int),
                hm,
            ),
        decreases hosts.len() - i,
    {
        let more = check_host(runner, log, config_files, hosts, config_args, home, hosts[i].as_str(), dir_probe, file_probe);
        let ghost m2 = msgs_view(more@);
        append_messages(&mut messages, more);
        proof {
            let hs = sviews(hosts@).take(i + 1);
            assert(hs.drop_last() =~= sviews(hosts@).take(i as int));
            assert(hs.last() == hosts@[i as int]@);
            assert(split_results(hm, m2));
            assert(hosts_outcome(
                runner,
                *dir_probe,
                *file_probe,
                config_files@,
                sviews(hosts@),
                sviews(config_args@),
                home@,
                hs,
                hm + m2,
            ));
            hm = hm + m2;
        }
        i = i + 1;
    }
    assert(sviews(hosts@).take(hosts.len() as int) =~= sviews(hosts@));
    let r = finish(messages);
    assert(runner.resolve_reply(DUMMY_HOST@, sviews(config_args@), o));
    r
}

} // verus!
