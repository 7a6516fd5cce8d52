//! SCP argument parsing for remote host extraction.

use vstd::prelude::*;

use crate::text::{
    chars_of, find, find_char, lemma_find_char, rsplit_once, rsplit_once_of, slice_chars, starts_with, starts_with_exec, str_eq, string_from, sviews,
};

verus! {

/// An scp option that consumes the next argument as its value.
pub open spec fn is_scp_value_option(a: Seq<char>) -> bool {
    a == "-c"@ || a == "-D"@ || a == "-F"@ || a == "-i"@ || a == "-J"@ || a == "-l"@ || a == "-o"@
        || a == "-P"@ || a == "-S"@ || a == "-X"@ || a == "-Y"@ || a == "-Z"@
}

/// A `(user, host)` pair as text.
pub type UserHost = (Option<Seq<char>>, Seq<char>);

/// The `(user, host)` named by a remote operand `[user@]host:path`: the text
/// before the first `':'`, split at its last `'@'`; `None` for local
/// operands and for an empty host part.
pub open spec fn remote_operand(arg: Seq<char>) -> Option<UserHost> {
    match find_char(arg, ':') {
        Some(p) => {
            let host_part = arg.take(p);
            if host_part.len() == 0 {
                None
            } else {
                match rsplit_once(host_part, '@') {
                    Some((u, h)) => Some((Some(u), h)),
                    None => Some((None, host_part)),
                }
            }
        },
        None => None,
    }
}

/// Some pair of `pairs` names `host`.
pub open spec fn has_host(pairs: Seq<UserHost>, host: Seq<char>) -> bool {
    exists|j: int| 0 <= j < pairs.len() && (#[trigger] pairs[j]).1 == host
}

/// Scanner state after some arguments: whether the next argument is an
/// option value to skip, and the pairs found so far.
pub open spec fn scp_step(st: (bool, Seq<UserHost>), arg: Seq<char>) -> (bool, Seq<UserHost>) {
    let (skip, pairs) = st;
    if skip {
        (false, pairs)
    } else if is_scp_value_option(arg) {
        (true, pairs)
    } else if starts_with(arg, "-"@) {
        (false, pairs)
    } else {
        match remote_operand(arg) {
            Some((u, h)) => if h.len() > 0 && !has_host(pairs, h) {
                (false, pairs.push((u, h)))
            } else {
                (false, pairs)
            },
            None => (false, pairs),
        }
    }
}

/// Scanner state after all of `args`.
pub open spec fn scp_scan(args: Seq<Seq<char>>) -> (bool, Seq<UserHost>)
    decreases args.len(),
{
    if args.len() == 0 {
        (false, Seq::empty())
    } else {
        scp_step(scp_scan(args.drop_last()), args.last())
    }
}

/// The distinct `(user, host)` pairs of the remote operands of `args`, in
/// order of first appearance, skipping option values.
pub open spec fn scp_user_hosts(args: Seq<Seq<char>>) -> Seq<UserHost> {
    scp_scan(args).1
}

/// No two of the scanned pairs name the same host, whatever the arguments.
pub proof fn law_scp_hosts_distinct(args: Seq<Seq<char>>)
    ensures
        forall|i: int, j: int|
            0 <= i < j < scp_user_hosts(args).len() ==> (#[trigger] scp_user_hosts(args)[i]).1
                != (#[trigger] scp_user_hosts(args)[j]).1,
    decreases args.len(),
{
    if args.len() > 0 {
        law_scp_hosts_distinct(args.drop_last());
        let prev = scp_scan(args.drop_last());
        let arg = args.last();
        let cur = scp_scan(args);
        assert(cur == scp_step(prev, arg));
        let pairs = prev.1;
        let grown = !prev.0 && !is_scp_value_option(arg) && !starts_with(arg, "-"@) && match remote_operand(arg) {
            Some((u, h)) => h.len() > 0 && !has_host(pairs, h),
            None => false,
        };
        if grown {
            let (u, h) = remote_operand(arg)->Some_0;
            assert(cur.1 == pairs.push((u, h)));
            assert forall|i: int, j: int|
                0 <= i < j < cur.1.len() implies (#[trigger] cur.1[i]).1 != (#[trigger] cur.1[j]).1 by {
                assert(cur.1[i] == pairs[i]);
                if j == cur.1.len() - 1 {
                    assert(cur.1[j].1 == h);
                    if pairs[i].1 == h {
                        assert(pairs[i].1 == h);
                        assert(has_host(pairs, h));
                        assert(false);
                    }
                } else {
                    assert(cur.1[j] == pairs[j]);
                    assert(scp_user_hosts(args.drop_last())[i].1 != scp_user_hosts(args.drop_last())[j].1);
                }
            }
        } else {
            assert(cur.1 == pairs);
            assert forall|i: int, j: int|
                0 <= i < j < cur.1.len() implies (#[trigger] cur.1[i]).1 != (#[trigger] cur.1[j]).1 by {
                assert(scp_user_hosts(args.drop_last())[i].1 != scp_user_hosts(args.drop_last())[j].1);
            }
        }
        assert(scp_user_hosts(args) == cur.1);
    }
}

/// Views of exec pairs.
pub open spec fn pair_views(v: Seq<(Option<String>, String)>) -> Seq<UserHost> {
    v.map_values(
        |p: (Option<String>, String)|
            (
                match p.0 {
                    Some(u) => Some(u@),
                    None => None,
                },
                p.1@,
            ),
    )
}

fn is_scp_value_option_exec(a: &str) -> (r: bool)
    ensures
        r == is_scp_value_option(a@),
{
    str_eq(a, "-c") || str_eq(a, "-D") || str_eq(a, "-F") || str_eq(a, "-i") || str_eq(a, "-J")
        || str_eq(a, "-l") || str_eq(a, "-o") || str_eq(a, "-P") || str_eq(a, "-S") || str_eq(
        a,
        "-X",
    ) || str_eq(a, "-Y") || str_eq(a, "-Z")
}

/// Extract remote host names (without user or path) from SCP arguments,
/// deduplicated in order of first appearance.
pub fn extract_hosts(args: &[String]) -> (r: Vec<String>)
    ensures
        sviews(r@) == scp_user_hosts(sviews(args@)).map_values(|p: UserHost| p.1),
{
    let pairs = extract_user_host_pairs(args);
    let mut r: Vec<String> = Vec::new();
    let mut i: usize = 0;
    while i < pairs.len()
        invariant
            i <= pairs.len(),
            r.len() == i,
            forall|j: int| 0 <= j < i ==> #[trigger] r@[j]@ == pairs@[j].1@,
        decreases pairs.len() - i,
    {
        r.push(pairs[i].1.clone());
        i = i + 1;
    }
    assert(sviews(r@) =~= pair_views(pairs@).map_values(|p: UserHost| p.1));
    r
}

/// Extract `(user, host)` pairs from SCP arguments.
///
/// `user` is `Some` when the operand uses `user@host:path`. Pairs are
/// deduplicated by host in order of first appearance; option values are
/// skipped.
pub fn extract_user_host_pairs(args: &[String]) -> (r: Vec<(Option<String>, String)>)
    ensures
        pair_views(r@) == scp_user_hosts(sviews(args@)),
{
    let mut pairs: Vec<(Option<String>, String)> = Vec::new();
    let mut skip_next = false;
    let ghost all = sviews(args@);
    let mut i: usize = 0;
    while i < args.len()
        invariant
            i <= args.len(),
            all == sviews(args@),
            scp_scan(all.take(i as int)) == (skip_next, pair_views(pairs@)),
        decreases args.len() - i,
    {
        let ghost pre = all.take(i as int);
        let ghost old_pairs = pair_views(pairs@);
        proof {
            assert(all.take(i + 1).drop_last() =~= pre);
            assert(all.take(i + 1).last() == args@[i as int]@);
        }
        let arg = args[i].as_str();
        if skip_next {
            skip_next = false;
        } else if is_scp_value_option_exec(arg) {
            skip_next = true;
        } else {
            let v = chars_of(arg);
            let dash = chars_of("-");
            if !starts_with_exec(v.as_slice(), dash.as_slice()) {
                match find(v.as_slice(), ':') {
                    Some(p) => {
                        proof {
                            lemma_find_char(v@, ':');
                        }
                        if p > 0 {
                            let host_part = slice_chars(v.as_slice(), 0, p);
                            assert(host_part@ =~= v@.take(p as int));
                            let rs = rsplit_once_of(host_part.as_slice(), '@');
                            let (user, host) = match rs {
                                Some((u, h)) => (Some(string_from(u.as_slice())), string_from(h.as_slice())),
                                None => (None, string_from(host_part.as_slice())),
                            };
                            proof {
                                assert(find_char(arg@, ':') == Some(p as int));
                                assert(arg@.take(p as int) == host_part@);
                                match rsplit_once(host_part@, '@') {
                                    Some((a, b)) => {
                                        assert(user matches Some(uu) && uu@ == a);
                                        assert(host@ == b);
                                    },
                                    None => {
                                        assert(user is None);
                                        assert(host@ == host_part@);
                                    },
                                }
                            }
                            let mut seen = false;
                            let mut k: usize = 0;
                            while k < pairs.len()
                                invariant
                                    k <= pairs.len(),
                                    seen == exists|j: int| 0 <= j < k && (#[trigger] pairs@[j]).1@ == host@,
                                decreases pairs.len() - k,
                            {
                                if str_eq(pairs[k].1.as_str(), host.as_str()) {
                                    seen = true;
                                }
                                k = k + 1;
                            }
                            proof {
                                if seen {
                                    let j = choose|j: int| 0 <= j < pairs.len() && (#[trigger] pairs@[j]).1@ == host@;
                                    assert(old_pairs[j].1 == host@);
                                }
                                if has_host(old_pairs, host@) {
                                    let j = choose|j: int| 0 <= j < old_pairs.len() && (#[trigger] old_pairs[j]).1 == host@;
                                    assert(pairs@[j].1@ == host@);
                                }
                            }
                            let ghost uv: Option<Seq<char>> = match &user {
                                Some(u) => Some(u@),
                                None => None,
                            };
                            let ghost hv = host@;
                            assert(remote_operand(arg@) == Some((uv, hv)));
                            if !host.as_str().is_empty() && !seen {
                                pairs.push((user, host));
                                assert(pair_views(pairs@) =~= old_pairs.push((uv, hv)));
                            }
                        }
                    },
                    None => {},
                }
            }
        }
        i = i + 1;
    }
    assert(all.take(args.len() as int) =~= all);
    pairs
}

} // verus!
