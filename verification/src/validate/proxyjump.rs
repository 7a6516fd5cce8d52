//! `ProxyJump` chain validation: circular references, undefined proxies,
//! and recursive checks of the proxies defined in the config.

use vstd::prelude::*;
use crate::runner::RequestLog;

use crate::check_types::{append_messages, msgs_view, push_message, tag_text, tagged, CheckLevel, CheckMessage};
use crate::error::Error;
use crate::runner::{added, extends, lemma_extends_push, lemma_extends_trans, no_resolve, CommandRunner, Request};
use crate::ssh_parse::{ssh_g_value_or_default, ssh_g_value_or_empty};
use crate::text::{
    chars_of, has_char, join, join_strings, parse_u8, parse_unsigned, push_str, rsplit_once, rsplit_once_of,
    split_char, split_char_of, str_eq, string_from, sviews, trim, trim_chars, vviews,
};
use crate::validate::basic::{basic_messages, check as basic_check};
use crate::validate::identity::{check as identity_check, identity_outcome, FileFacts};

verus! {

/// How many hosts of `hosts` are not in `v` (the measure that bounds the
/// recursion through proxies).
pub open spec fn unvisited(hosts: Seq<Seq<char>>, v: Seq<Seq<char>>) -> nat
    decreases hosts.len(),
{
    if hosts.len() == 0 {
        0
    } else {
        unvisited(hosts.drop_last(), v) + if v.contains(hosts.last()) {
            0nat
        } else {
            1nat
        }
    }
}

/// Visiting more hosts leaves no more unvisited.
pub proof fn lemma_unvisited_mono(hosts: Seq<Seq<char>>, v: Seq<Seq<char>>, w: Seq<Seq<char>>)
    requires
        forall|h: Seq<char>| v.contains(h) ==> w.contains(h),
    ensures
        unvisited(hosts, w) <= unvisited(hosts, v),
    decreases hosts.len(),
{
    if hosts.len() > 0 {
        lemma_unvisited_mono(hosts.drop_last(), v, w);
    }
}

/// Visiting a host of `hosts` not visited before leaves fewer unvisited.
pub proof fn lemma_unvisited_push(hosts: Seq<Seq<char>>, v: Seq<Seq<char>>, x: Seq<char>)
    requires
        hosts.contains(x),
        !v.contains(x),
    ensures
        unvisited(hosts, v.push(x)) < unvisited(hosts, v),
    decreases hosts.len(),
{
    assert forall|h: Seq<char>| v.contains(h) implies v.push(x).contains(h) by {
        let k = choose|k: int| 0 <= k < v.len() && v[k] == h;
        assert(v.push(x)[k] == h);
    }
    assert(v.push(x)[v.len() as int] == x);
    let last = hosts.last();
    if last == x {
        lemma_unvisited_mono(hosts.drop_last(), v, v.push(x));
    } else {
        let k = choose|k: int| 0 <= k < hosts.len() && hosts[k] == x;
        assert(hosts.drop_last()[k] == x);
        lemma_unvisited_push(hosts.drop_last(), v, x);
        if v.push(x).contains(last) {
            let m = choose|m: int| 0 <= m < v.push(x).len() && v.push(x)[m] == last;
            assert(v[m] == last);
        }
    }
}

/// The proxies named by the `ProxyJump` value of `out`: none when it is
/// empty or `none`, otherwise its comma-separated items.
pub open spec fn proxy_list(out: Seq<char>) -> Seq<Seq<char>> {
    let pj = ssh_g_value_or_empty(out, "proxyjump"@);
    if pj.len() == 0 || pj == "none"@ {
        Seq::empty()
    } else {
        split_char(pj, ',')
    }
}

/// The host of a proxy item: what follows its last `@`, or all of it.
pub open spec fn proxy_host_of(t: Seq<char>) -> Seq<char> {
    match rsplit_once(t, '@') {
        Some((_, h)) => h,
        None => t,
    }
}

/// `s` reads as a `u8`.
pub open spec fn is_u8(s: Seq<char>) -> bool {
    parse_unsigned(s) matches Some(x) && x <= 255
}

/// A proxy that looks like a direct address rather than a config alias: an
/// IPv4 address (four parts that each read as a `u8`) or a name without a
/// dot.
pub open spec fn likely_direct(h: Seq<char>) -> bool {
    let parts = split_char(h, '.');
    (parts.len() == 4 && forall|i: int| 0 <= i < 4 ==> #[trigger] is_u8(parts[i])) || !h.contains('.')
}

/// The error for a proxy that closes a cycle.
pub open spec fn circular_message(host: Seq<char>, visited: Seq<Seq<char>>, proxy: Seq<char>) -> (CheckLevel, Seq<char>) {
    (CheckLevel::Error, tagged(host, "Circular ProxyJump detected: "@ + join(visited, " -> "@) + " -> "@ + proxy))
}

/// The error for a proxy that is neither defined nor a direct address.
pub open spec fn undefined_message(host: Seq<char>, proxy: Seq<char>) -> (CheckLevel, Seq<char>) {
    (CheckLevel::Error, tagged(host, "ProxyJump host \""@ + proxy + "\" is not defined in config"@))
}

/// The messages of an identity check that may have failed (a failure
/// contributes nothing).
pub open spec fn checked_messages(r: Result<Vec<CheckMessage>, Error>) -> Seq<(CheckLevel, Seq<char>)> {
    match r {
        Ok(v) => msgs_view(v@),
        Err(_) => Seq::empty(),
    }
}

/// The `ProxyJump` check of `host`, whose `ssh -G` output is `out`, with the
/// chain of hosts `v` leading to it and the checked set `c0`, may end with
/// the checked set `c1` and the messages `msgs`.
pub open spec fn pj_outcome<R: CommandRunner, F: Fn(&str) -> FileFacts>(
    runner: &R,
    probe: F,
    home: Seq<char>,
    args: Seq<Seq<char>>,
    hosts: Seq<Seq<char>>,
    out: Seq<char>,
    host: Seq<char>,
    v: Seq<Seq<char>>,
    c0: Set<Seq<char>>,
    c1: Set<Seq<char>>,
    msgs: Seq<(CheckLevel, Seq<char>)>,
) -> bool
    decreases unvisited(hosts, v), 1nat, 0nat, 0nat,
{
    items_outcome(runner, probe, home, args, hosts, host, proxy_list(out), v, c0, c1, msgs)
}

/// Processing the proxy items `proxies` of `host`, reached through the chain
/// `v`, in order may take the checked set from `c0` to `c1` and yield `msgs`.
///
/// Per item (trimmed; empty items are skipped), with `ph` its host: a `ph`
/// already in the chain is a cycle; a `ph` defined in the config and not yet
/// checked is resolved and, when that succeeds, gets the basic and identity
/// checks and its own `ProxyJump` check with the chain grown by `ph`; either
/// way it then counts as checked, so it is resolved at most once; an
/// undefined `ph` that is no direct address is an error.
pub open spec fn items_outcome<R: CommandRunner, F: Fn(&str) -> FileFacts>(
    runner: &R,
    probe: F,
    home: Seq<char>,
    args: Seq<Seq<char>>,
    hosts: Seq<Seq<char>>,
    host: Seq<char>,
    proxies: Seq<Seq<char>>,
    v: Seq<Seq<char>>,
    c0: Set<Seq<char>>,
    c1: Set<Seq<char>>,
    msgs: Seq<(CheckLevel, Seq<char>)>,
) -> bool
    decreases unvisited(hosts, v), 0nat, proxies.len(), 1nat,
{
    if proxies.len() == 0 {
        c1 == c0 && msgs.len() == 0
    } else {
        let t = trim(proxies[0]);
        let rest = proxies.drop_first();
        let ph = proxy_host_of(t);
        if t.len() == 0 {
            items_outcome(runner, probe, home, args, hosts, host, rest, v, c0, c1, msgs)
        } else if v.contains(ph) {
            msgs.len() >= 1 && msgs[0] == circular_message(host, v, ph) && items_outcome(
                runner,
                probe,
                home,
                args,
                hosts,
                host,
                rest,
                v,
                c0,
                c1,
                msgs.drop_first(),
            )
        } else if hosts.contains(ph) {
            if c0.contains(ph) {
                items_outcome(runner, probe, home, args, hosts, host, rest, v, c0, c1, msgs)
            } else {
                exists|reply: Result<String, Error>|
                    {
                        &&& #[trigger] runner.resolve_reply(ph, args, reply)
                        &&& match reply {
                            Err(_) => items_outcome(runner, probe, home, args, hosts, host, rest, v, c0.insert(ph), c1, msgs),
                            Ok(po) => resolved_outcome(runner, probe, home, args, hosts, host, rest, ph, po@, v, c0, c1, msgs),
                        }
                    }
            }
        } else if likely_direct(ph) {
            items_outcome(runner, probe, home, args, hosts, host, rest, v, c0, c1, msgs)
        } else {
            msgs.len() >= 1 && msgs[0] == undefined_message(host, ph) && items_outcome(
                runner,
                probe,
                home,
                args,
                hosts,
                host,
                rest,
                v,
                c0,
                c1,
                msgs.drop_first(),
            )
        }
    }
}

/// Names the results of a proxy's own check and of the items after it (a
/// trigger for the choice of those results).
pub open spec fn sub_results(
    c2: Set<Seq<char>>,
    msub: Seq<(CheckLevel, Seq<char>)>,
    mrest: Seq<(CheckLevel, Seq<char>)>,
) -> bool {
    true
}

/// Continuing after the proxy `ph` of `host` resolved to `po`: its basic
/// and identity checks, its own `ProxyJump` check with the chain `v` grown
/// by `ph`, then the remaining items `rest` (with the chain `v` again) with
/// `ph` counted as checked.
pub open spec fn resolved_outcome<R: CommandRunner, F: Fn(&str) -> FileFacts>(
    runner: &R,
    probe: F,
    home: Seq<char>,
    args: Seq<Seq<char>>,
    hosts: Seq<Seq<char>>,
    host: Seq<char>,
    rest: Seq<Seq<char>>,
    ph: Seq<char>,
    po: Seq<char>,
    v: Seq<Seq<char>>,
    c0: Set<Seq<char>>,
    c1: Set<Seq<char>>,
    msgs: Seq<(CheckLevel, Seq<char>)>,
) -> bool
    decreases unvisited(hosts, v), 0nat, rest.len() + 1, 0nat,
{
    let vp = v.push(ph);
    exists|
        idr: Result<Vec<CheckMessage>, Error>,
        c2: Set<Seq<char>>,
        msub: Seq<(CheckLevel, Seq<char>)>,
        mrest: Seq<(CheckLevel, Seq<char>)>,
    |
        {
            &&& #[trigger] identity_outcome(runner, probe, po, ph, home, idr)
            &&& #[trigger] sub_results(c2, msub, mrest)
            &&& unvisited(hosts, vp) < unvisited(hosts, v)
            &&& pj_outcome(runner, probe, home, args, hosts, po, ph, vp, c0, c2, msub)
            &&& items_outcome(runner, probe, home, args, hosts, host, rest, v, c2.insert(ph), c1, mrest)
            &&& msgs == basic_messages(po, ph) + checked_messages(idr) + msub + mrest
        }
}

/// The strings of `v`, as a set.
pub open spec fn as_set(v: Seq<Seq<char>>) -> Set<Seq<char>> {
    Set::new(|h: Seq<char>| v.contains(h))
}

/// A sequence grown by one element holds exactly the old ones and it.
pub proof fn lemma_push_contains(v: Seq<Seq<char>>, x: Seq<char>)
    ensures
        forall|h: Seq<char>| #[trigger] v.push(x).contains(h) <==> (v.contains(h) || h == x),
        as_set(v.push(x)) == as_set(v).insert(x),
{
    assert forall|h: Seq<char>| #[trigger] v.push(x).contains(h) <==> (v.contains(h) || h == x) by {
        if v.push(x).contains(h) {
            let k = choose|k: int| 0 <= k < v.push(x).len() && v.push(x)[k] == h;
            if k < v.len() {
                assert(v[k] == h);
            }
        }
        if v.contains(h) {
            let k = choose|k: int| 0 <= k < v.len() && v[k] == h;
            assert(v.push(x)[k] == h);
        }
        if h == x {
            assert(v.push(x)[v.len() as int] == h);
        }
    }
    assert(as_set(v.push(x)) =~= as_set(v).insert(x));
}

/// A prefix's elements are elements of the whole.
pub proof fn lemma_prefix_contains(v: Seq<Seq<char>>, w: Seq<Seq<char>>)
    requires
        v.len() <= w.len(),
        w.take(v.len() as int) == v,
    ensures
        forall|h: Seq<char>| v.contains(h) ==> w.contains(h),
{
    assert forall|h: Seq<char>| v.contains(h) implies w.contains(h) by {
        let k = choose|k: int| 0 <= k < v.len() && v[k] == h;
        assert(w.take(v.len() as int)[k] == h);
        assert(w[k] == h);
    }
}

fn contains_string(v: &[String], x: &str) -> (r: bool)
    ensures
        r == sviews(v@).contains(x@),
{
    let mut i: usize = 0;
    while i < v.len()
        invariant
            i <= v.len(),
            forall|k: int| 0 <= k < i ==> sviews(v@)[k] != x@,
        decreases v.len() - i,
    {
        if str_eq(v[i].as_str(), x) {
            assert(sviews(v@)[i as int] == x@);
            return true;
        }
        i = i + 1;
    }
    false
}

/// Heuristic: the proxy looks like a direct address rather than a config
/// alias (an IPv4 address, or a name without a dot).
pub fn is_likely_direct_address(host: &str) -> (r: bool)
    ensures
        r == likely_direct(host@),
{
    let hv = chars_of(host);
    let parts = split_char_of(hv.as_slice(), '.');
    let ghost ps = vviews(parts@);
    if parts.len() == 4 {
        let mut all = true;
        let mut i: usize = 0;
        while i < 4
            invariant
                i <= 4,
                parts.len() == 4,
                ps == vviews(parts@),
                all == forall|k: int| 0 <= k < i ==> #[trigger] is_u8(ps[k]),
            decreases 4 - i,
        {
            let ok = parse_u8(parts[i].as_slice()).is_some();
            assert(ok == is_u8(ps[i as int]));
            all = all && ok;
            i = i + 1;
        }
        if all {
            return true;
        }
    }
    !has_char(hv.as_slice(), '.')
}

/// Every host that the requests `reqs` resolve is a proxy defined in the
/// config (`hosts`) and not on the chain `chain`, resolved with `args`: an
/// undefined proxy, or one that closes a cycle, is never resolved.
pub open spec fn resolves_defined(
    reqs: Seq<Request>,
    hosts: Seq<Seq<char>>,
    chain: Seq<Seq<char>>,
    args: Seq<Seq<char>>,
) -> bool {
    forall|i: int|
        0 <= i < reqs.len() && (#[trigger] reqs[i]) is Resolve ==> {
            &&& hosts.contains(reqs[i]->Resolve_host)
            &&& !chain.contains(reqs[i]->Resolve_host)
            &&& reqs[i]->Resolve_config_args == args
        }
}

/// [`resolves_defined`] holds of two runs of requests in turn when it holds
/// of each.
pub proof fn lemma_resolves_concat(
    a: Seq<Request>,
    b: Seq<Request>,
    hosts: Seq<Seq<char>>,
    chain: Seq<Seq<char>>,
    args: Seq<Seq<char>>,
)
    requires
        resolves_defined(a, hosts, chain, args),
        resolves_defined(b, hosts, chain, args),
    ensures
        resolves_defined(a + b, hosts, chain, args),
{
    assert forall|i: int| 0 <= i < (a + b).len() && (#[trigger] (a + b)[i]) is Resolve implies {
        &&& hosts.contains((a + b)[i]->Resolve_host)
        &&& !chain.contains((a + b)[i]->Resolve_host)
        &&& (a + b)[i]->Resolve_config_args == args
    } by {
        if i < a.len() {
            assert((a + b)[i] == a[i]);
        } else {
            assert((a + b)[i] == b[i - a.len()]);
        }
    }
}

/// Requests that resolve nothing meet [`resolves_defined`]; and a shorter
/// chain keeps it.
pub proof fn lemma_resolves_weaken(
    b: Seq<Request>,
    hosts: Seq<Seq<char>>,
    chain: Seq<Seq<char>>,
    longer: Seq<Seq<char>>,
    args: Seq<Seq<char>>,
)
    requires
        no_resolve(b) || resolves_defined(b, hosts, longer, args),
        forall|h: Seq<char>| chain.contains(h) ==> longer.contains(h),
    ensures
        resolves_defined(b, hosts, chain, args),
{
    assert forall|i: int| 0 <= i < b.len() && (#[trigger] b[i]) is Resolve implies {
        &&& hosts.contains(b[i]->Resolve_host)
        &&& !chain.contains(b[i]->Resolve_host)
        &&& b[i]->Resolve_config_args == args
    } by {
        if no_resolve(b) {
            assert(!(b[i] is Resolve));
        }
    }
}

/// The requests `reqs` resolve each host at most once, none that is in
/// `before` (the proxies checked when they start) and every one into
/// `after` (the proxies checked when they end).
pub open spec fn resolves_fresh(reqs: Seq<Request>, before: Set<Seq<char>>, after: Set<Seq<char>>) -> bool {
    &&& forall|i: int|
        0 <= i < reqs.len() && (#[trigger] reqs[i]) is Resolve ==> !before.contains(reqs[i]->Resolve_host)
            && after.contains(reqs[i]->Resolve_host)
    &&& resolves_once(reqs)
}

/// No host is resolved twice by the requests `reqs`.
pub open spec fn resolves_once(reqs: Seq<Request>) -> bool {
    forall|i: int, j: int|
        0 <= i < j < reqs.len() && (#[trigger] reqs[i]) is Resolve && (#[trigger] reqs[j]) is Resolve
            ==> reqs[i]->Resolve_host != reqs[j]->Resolve_host
}

/// [`resolves_fresh`] over two runs of requests in turn, through a middle
/// checked set.
pub proof fn lemma_fresh_concat(
    a: Seq<Request>,
    b: Seq<Request>,
    c0: Set<Seq<char>>,
    c1: Set<Seq<char>>,
    c2: Set<Seq<char>>,
)
    requires
        c0.subset_of(c1),
        c1.subset_of(c2),
        resolves_fresh(a, c0, c1),
        resolves_fresh(b, c1, c2),
    ensures
        resolves_fresh(a + b, c0, c2),
{
    let ab = a + b;
    assert forall|i: int| 0 <= i < ab.len() && (#[trigger] ab[i]) is Resolve implies !c0.contains(ab[i]->Resolve_host)
        && c2.contains(ab[i]->Resolve_host) by {
        if i < a.len() {
            assert(ab[i] == a[i]);
        } else {
            assert(ab[i] == b[i - a.len()]);
        }
    }
    assert forall|i: int, j: int|
        0 <= i < j < ab.len() && (#[trigger] ab[i]) is Resolve && (#[trigger] ab[j]) is Resolve implies ab[i]->Resolve_host
        != ab[j]->Resolve_host by {
        if j < a.len() {
            assert(ab[i] == a[i] && ab[j] == a[j]);
        } else if i >= a.len() {
            assert(ab[i] == b[i - a.len()] && ab[j] == b[j - a.len()]);
        } else {
            assert(ab[i] == a[i] && ab[j] == b[j - a.len()]);
        }
    }
}

/// Resolving `ph`, which was not checked, and then requests that resolve
/// nothing, makes `ph` checked.
pub proof fn lemma_fresh_one(ph: Seq<char>, args: Seq<Seq<char>>, rest: Seq<Request>, c: Set<Seq<char>>)
    requires
        !c.contains(ph),
        no_resolve(rest),
    ensures
        resolves_fresh(seq![Request::Resolve { host: ph, config_args: args }] + rest, c, c.insert(ph)),
{
    let q = seq![Request::Resolve { host: ph, config_args: args }] + rest;
    assert forall|i: int| 0 <= i < q.len() && (#[trigger] q[i]) is Resolve implies !c.contains(q[i]->Resolve_host)
        && c.insert(ph).contains(q[i]->Resolve_host) by {
        if i > 0 {
            assert(q[i] == rest[i - 1]);
        }
    }
    assert forall|i: int, j: int|
        0 <= i < j < q.len() && (#[trigger] q[i]) is Resolve && (#[trigger] q[j]) is Resolve implies q[i]->Resolve_host
        != q[j]->Resolve_host by {
        assert(q[j] == rest[j - 1]);
    }
}

/// Requests that resolve nothing are fresh over an unchanged set.
pub proof fn lemma_fresh_none(reqs: Seq<Request>, c: Set<Seq<char>>)
    requires
        no_resolve(reqs),
    ensures
        resolves_fresh(reqs, c, c),
{
}

/// A proxy's own requests, which never resolve a host on its chain (the
/// proxy `ph` among them), stay fresh once `ph` counts as checked.
pub proof fn lemma_fresh_beside(
    b: Seq<Request>,
    ph: Seq<char>,
    hosts: Seq<Seq<char>>,
    chain: Seq<Seq<char>>,
    args: Seq<Seq<char>>,
    c1: Set<Seq<char>>,
    c2: Set<Seq<char>>,
)
    requires
        resolves_fresh(b, c1, c2),
        resolves_defined(b, hosts, chain, args),
        chain.contains(ph),
    ensures
        resolves_fresh(b, c1.insert(ph), c2.insert(ph)),
{
    assert forall|i: int| 0 <= i < b.len() && (#[trigger] b[i]) is Resolve implies !c1.insert(ph).contains(
        b[i]->Resolve_host,
    ) && c2.insert(ph).contains(b[i]->Resolve_host) by {
        assert(!chain.contains(b[i]->Resolve_host));
    }
}

/// Freshness after a proxy `ph` that was not checked is resolved (the log
/// going from `lb` to `lc`) and does not resolve: it now counts as checked.
pub proof fn lemma_fresh_failed(
    l0: Seq<Request>,
    lb: Seq<Request>,
    lc: Seq<Request>,
    ph: Seq<char>,
    args: Seq<Seq<char>>,
    c0: Set<Seq<char>>,
    cn: Set<Seq<char>>,
)
    requires
        extends(l0, lb),
        c0.subset_of(cn),
        resolves_fresh(added(l0, lb), c0, cn),
        lc == lb.push(Request::Resolve { host: ph, config_args: args }),
        !cn.contains(ph),
    ensures
        extends(l0, lc),
        c0.subset_of(cn.insert(ph)),
        resolves_fresh(added(l0, lc), c0, cn.insert(ph)),
{
    let q = Request::Resolve { host: ph, config_args: args };
    lemma_extends_push(l0, lb, q);
    assert(lc.take(lb.len() as int) =~= lb);
    assert(added(lb, lc) =~= seq![q] + Seq::<Request>::empty());
    lemma_fresh_one(ph, args, Seq::empty(), cn);
    lemma_extends_trans(l0, lb, lc);
    lemma_fresh_concat(added(l0, lb), added(lb, lc), c0, cn, cn.insert(ph));
}

/// Freshness after a proxy `ph` that was not checked is resolved (the log
/// going from `lb` to `lc`), checked for identity (to `ld`, resolving
/// nothing) and has its own chain checked (to `le`, taking the checked set
/// from `cn` to `c2` and resolving nothing on the chain `vp`, which holds
/// `ph`): it now counts as checked as well.
pub proof fn lemma_fresh_resolved(
    l0: Seq<Request>,
    lb: Seq<Request>,
    lc: Seq<Request>,
    ld: Seq<Request>,
    le: Seq<Request>,
    ph: Seq<char>,
    args: Seq<Seq<char>>,
    hosts: Seq<Seq<char>>,
    vp: Seq<Seq<char>>,
    c0: Set<Seq<char>>,
    cn: Set<Seq<char>>,
    c2: Set<Seq<char>>,
)
    requires
        extends(l0, lb),
        c0.subset_of(cn),
        resolves_fresh(added(l0, lb), c0, cn),
        lc == lb.push(Request::Resolve { host: ph, config_args: args }),
        !cn.contains(ph),
        extends(lc, ld),
        no_resolve(added(lc, ld)),
        extends(ld, le),
        cn.subset_of(c2),
        resolves_fresh(added(ld, le), cn, c2),
        resolves_defined(added(ld, le), hosts, vp, args),
        vp.contains(ph),
    ensures
        extends(l0, le),
        c0.subset_of(c2.insert(ph)),
        resolves_fresh(added(l0, le), c0, c2.insert(ph)),
{
    let q = Request::Resolve { host: ph, config_args: args };
    assert(lb.take(lb.len() as int) =~= lb);
    lemma_extends_push(lb, lb, q);
    assert(added(lb, lc) =~= seq![q]);
    lemma_extends_trans(lb, lc, ld);
    lemma_extends_trans(lb, ld, le);
    lemma_extends_trans(l0, lb, le);
    assert(added(lb, ld) =~= seq![q] + added(lc, ld));
    lemma_fresh_one(ph, args, added(lc, ld), cn);
    lemma_fresh_beside(added(ld, le), ph, hosts, vp, args, cn, c2);
    assert(cn.insert(ph).subset_of(c2.insert(ph)));
    lemma_fresh_concat(added(lb, ld), added(ld, le), cn, cn.insert(ph), c2.insert(ph));
    assert(cn.subset_of(c2.insert(ph)));
    lemma_fresh_concat(added(l0, lb), added(lb, le), c0, cn, c2.insert(ph));
}

/// A proxy item naming a host that is neither on the chain nor defined in
/// the config is reported as undefined exactly when it does not look like a
/// direct address, and leaves the checked set alone (it is never resolved:
/// see [`resolves_defined`]).
pub proof fn law_undefined_proxy<R: CommandRunner, F: Fn(&str) -> FileFacts>(
    runner: &R,
    probe: F,
    home: Seq<char>,
    args: Seq<Seq<char>>,
    hosts: Seq<Seq<char>>,
    host: Seq<char>,
    item: Seq<char>,
    v: Seq<Seq<char>>,
    c0: Set<Seq<char>>,
    c1: Set<Seq<char>>,
    msgs: Seq<(CheckLevel, Seq<char>)>,
)
    requires
        trim(item).len() > 0,
        !v.contains(proxy_host_of(trim(item))),
        !hosts.contains(proxy_host_of(trim(item))),
    ensures
        items_outcome(runner, probe, home, args, hosts, host, seq![item], v, c0, c1, msgs) <==> (c1 == c0 && msgs == if likely_direct(proxy_host_of(trim(item))) {
            Seq::<(CheckLevel, Seq<char>)>::empty()
        } else {
            seq![undefined_message(host, proxy_host_of(trim(item)))]
        }),
{
    let items = seq![item];
    let rest = items.drop_first();
    let ph = proxy_host_of(trim(item));
    assert(items.len() == 1 && items[0] == item);
    assert(rest =~= Seq::<Seq<char>>::empty());
    let lhs = items_outcome(runner, probe, home, args, hosts, host, items, v, c0, c1, msgs);
    if likely_direct(ph) {
        assert(lhs == items_outcome(runner, probe, home, args, hosts, host, rest, v, c0, c1, msgs));
        assert(items_outcome(runner, probe, home, args, hosts, host, rest, v, c0, c1, msgs) == (c1 == c0 && msgs.len()
            == 0));
        if msgs.len() == 0 {
            assert(msgs =~= Seq::<(CheckLevel, Seq<char>)>::empty());
        }
    } else {
        let m = undefined_message(host, ph);
        assert(lhs == (msgs.len() >= 1 && msgs[0] == m && items_outcome(
            runner,
            probe,
            home,
            args,
            hosts,
            host,
            rest,
            v,
            c0,
            c1,
            msgs.drop_first(),
        )));
        assert(items_outcome(runner, probe, home, args, hosts, host, rest, v, c0, c1, msgs.drop_first()) == (c1 == c0
            && msgs.drop_first().len() == 0));
        if msgs =~= seq![m] {
            assert(msgs.drop_first() =~= Seq::<(CheckLevel, Seq<char>)>::empty());
        }
        if msgs.len() >= 1 && msgs[0] == m && msgs.drop_first().len() == 0 {
            assert(msgs =~= seq![m]);
        }
    }
}

/// One step of [`items_outcome`] through a proxy that is defined, not yet
/// in the chain nor checked, and resolves.
pub proof fn lemma_items_recurse<R: CommandRunner, F: Fn(&str) -> FileFacts>(
    runner: &R,
    probe: F,
    home: Seq<char>,
    args: Seq<Seq<char>>,
    hosts: Seq<Seq<char>>,
    host: Seq<char>,
    cur: Seq<Seq<char>>,
    vn: Seq<Seq<char>>,
    cn: Set<Seq<char>>,
    reply: Result<String, Error>,
    idr: Result<Vec<CheckMessage>, Error>,
    c2: Set<Seq<char>>,
    msub: Seq<(CheckLevel, Seq<char>)>,
    c1: Set<Seq<char>>,
    m: Seq<(CheckLevel, Seq<char>)>,
)
    requires
        cur.len() > 0,
        trim(cur[0]).len() != 0,
        !vn.contains(proxy_host_of(trim(cur[0]))),
        hosts.contains(proxy_host_of(trim(cur[0]))),
        !cn.contains(proxy_host_of(trim(cur[0]))),
        runner.resolve_reply(proxy_host_of(trim(cur[0])), args, reply),
        reply is Ok,
        identity_outcome(runner, probe, reply->Ok_0@, proxy_host_of(trim(cur[0])), home, idr),
        pj_outcome(
            runner,
            probe,
            home,
            args,
            hosts,
            reply->Ok_0@,
            proxy_host_of(trim(cur[0])),
            vn.push(proxy_host_of(trim(cur[0]))),
            cn,
            c2,
            msub,
        ),
        items_outcome(runner, probe, home, args, hosts, host, cur.drop_first(), vn, c2.insert(proxy_host_of(trim(cur[0]))), c1, m),
    ensures
        items_outcome(
            runner,
            probe,
            home,
            args,
            hosts,
            host,
            cur,
            vn,
            cn,
            c1,
            basic_messages(reply->Ok_0@, proxy_host_of(trim(cur[0]))) + checked_messages(idr) + msub + m,
        ),
{
    let ph = proxy_host_of(trim(cur[0]));
    lemma_unvisited_push(hosts, vn, ph);
    let po = reply->Ok_0@;
    let msgs = basic_messages(po, ph) + checked_messages(idr) + msub + m;
    assert(sub_results(c2, msub, m));
    assert(resolved_outcome(runner, probe, home, args, hosts, host, cur.drop_first(), ph, po, vn, cn, c1, msgs));
}

/// The `ProxyJump` check of one host (see [`pj_outcome`]); `visited` is the
/// chain leading to it, given back as it came, and `checked` holds the
/// proxies already fully checked.
fn check_inner<R: CommandRunner, F: Fn(&str) -> FileFacts>(
    runner: &R,
    log: &mut RequestLog,
    output: &str,
    host: &str,
    config_args: &[String],
    hosts_in_config: &[String],
    visited: &mut Vec<String>,
    checked: &mut Vec<String>,
    home: &str,
    probe: &F,
) -> (r: Vec<CheckMessage>)
    requires
        forall|s: &str| call_requires(*probe, (s,)),
    ensures
        sviews(final(visited)@) == sviews(old(visited)@),
        pj_outcome(
            runner,
            *probe,
            home@,
            sviews(config_args@),
            sviews(hosts_in_config@),
            output@,
            host@,
            sviews(old(visited)@),
            as_set(sviews(old(checked)@)),
            as_set(sviews(final(checked)@)),
            msgs_view(r@),
        ),
        extends(old(log)@, final(log)@),
        resolves_defined(added(old(log)@, final(log)@), sviews(hosts_in_config@), sviews(old(visited)@), sviews(config_args@)),
        as_set(sviews(old(checked)@)).subset_of(as_set(sviews(final(checked)@))),
        resolves_fresh(added(old(log)@, final(log)@), as_set(sviews(old(checked)@)), as_set(sviews(final(checked)@))),
    decreases unvisited(sviews(hosts_in_config@), sviews(old(visited)@)),
{
    let ghost hosts = sviews(hosts_in_config@);
    let ghost args = sviews(config_args@);
    let ghost v0 = sviews(visited@);
    let ghost c0 = as_set(sviews(checked@));
    let ghost l0 = log@;
    assert(log@.take(l0.len() as int) =~= l0);
    assert(added(l0, log@) =~= Seq::<Request>::empty());
    proof {
        lemma_fresh_none(added(l0, log@), c0);
    }
    let mut messages: Vec<CheckMessage> = Vec::new();
    let pj = ssh_g_value_or_default(output, "proxyjump");
    if chars_of(pj.as_str()).len() == 0 || str_eq(pj.as_str(), "none") {
        assert(msgs_view(messages@) =~= Seq::empty());
        return messages;
    }
    let items = split_char_of(chars_of(pj.as_str()).as_slice(), ',');
    let ghost proxies = vviews(items@);
    assert(proxies == proxy_list(output@));
    assert(proxies.skip(0) =~= proxies);
    assert(msgs_view(messages@) =~= Seq::empty());
    let mut j: usize = 0;
    while j < items.len()
        invariant
            j <= items.len(),
            proxies == vviews(items@),
            proxies == proxy_list(output@),
            hosts == sviews(hosts_in_config@),
            args == sviews(config_args@),
            forall|s: &str| call_requires(*probe, (s,)),
            sviews(visited@) == v0,
            l0 == old(log)@,
            extends(l0, log@),
            resolves_defined(added(l0, log@), hosts, v0, args),
            c0 == as_set(sviews(old(checked)@)),
            c0.subset_of(as_set(sviews(checked@))),
            resolves_fresh(added(l0, log@), c0, as_set(sviews(checked@))),
            forall|c1: Set<Seq<char>>, m: Seq<(CheckLevel, Seq<char>)>|
                #[trigger] items_outcome(runner, *probe, home@, args, hosts, host@, proxies.skip(j as int), v0, as_set(sviews(checked@)), c1, m)
                    ==> items_outcome(runner, *probe, home@, args, hosts, host@, proxies, v0, c0, c1, msgs_view(messages@) + m),
            v0 == sviews(old(visited)@),
        decreases items.len() - j,
    {
        let ghost cn = as_set(sviews(checked@));
        let ghost mn = msgs_view(messages@);
        let ghost cur = proxies.skip(j as int);
        let ghost rest = proxies.skip(j + 1);
        assert(cur.drop_first() =~= rest);
        assert(cur[0] == items@[j as int]@);
        let t = trim_chars(items[j].as_slice());
        if t.len() == 0 {
            assert forall|c1: Set<Seq<char>>, m: Seq<(CheckLevel, Seq<char>)>|
                #[trigger] items_outcome(runner, *probe, home@, args, hosts, host@, rest, v0, cn, c1, m)
                implies items_outcome(runner, *probe, home@, args, hosts, host@, proxies, v0, c0, c1, mn + m) by {
                assert(items_outcome(runner, *probe, home@, args, hosts, host@, cur, v0, cn, c1, m));
            }
        } else {
            let ph = match rsplit_once_of(t.as_slice(), '@') {
                Some((_, h)) => string_from(h.as_slice()),
                None => string_from(t.as_slice()),
            };
            assert(ph@ == proxy_host_of(t@));
            if contains_string(visited.as_slice(), ph.as_str()) {
                let mut text = tag_text(host, "Circular ProxyJump detected: ");
                let chain = join_strings(visited.as_slice(), " -> ");
                push_str(&mut text, chain.as_str());
                push_str(&mut text, " -> ");
                push_str(&mut text, ph.as_str());
                assert(text@ =~= circular_message(host@, v0, ph@).1);
                push_message(&mut messages, CheckLevel::Error, text);
                assert forall|c1: Set<Seq<char>>, m: Seq<(CheckLevel, Seq<char>)>|
                    #[trigger] items_outcome(runner, *probe, home@, args, hosts, host@, rest, v0, cn, c1, m)
                    implies items_outcome(runner, *probe, home@, args, hosts, host@, proxies, v0, c0, c1, msgs_view(messages@) + m) by {
                    let full = seq![circular_message(host@, v0, ph@)] + m;
                    assert(full.drop_first() =~= m);
                    assert(items_outcome(runner, *probe, home@, args, hosts, host@, cur, v0, cn, c1, full));
                    assert(mn + full =~= msgs_view(messages@) + m);
                }
            } else if contains_string(hosts_in_config, ph.as_str()) {
                if contains_string(checked.as_slice(), ph.as_str()) {
                    assert forall|c1: Set<Seq<char>>, m: Seq<(CheckLevel, Seq<char>)>|
                        #[trigger] items_outcome(runner, *probe, home@, args, hosts, host@, rest, v0, cn, c1, m)
                        implies items_outcome(runner, *probe, home@, args, hosts, host@, proxies, v0, c0, c1, mn + m) by {
                        assert(cn.contains(ph@));
                        assert(items_outcome(runner, *probe, home@, args, hosts, host@, cur, v0, cn, c1, m));
                    }
                } else {
                    proof {
                        lemma_unvisited_push(hosts, v0, ph@);
                    }
                    let ghost lb = log@;
                    let reply = runner.ssh_resolve(log, ph.as_str(), config_args);
                    let ghost reply_g = reply;
                    proof {
                        let q = Request::Resolve { host: ph@, config_args: args };
                        lemma_extends_push(l0, lb, q);
                        assert(added(lb, log@) =~= seq![q]);
                        lemma_resolves_concat(added(l0, lb), seq![q], hosts, v0, args);
                    }
                    match reply {
                        Err(_) => {
                            let ghost cb = sviews(checked@);
                            proof {
                                lemma_push_contains(cb, ph@);
                            }
                            checked.push(ph.clone());
                            assert(sviews(checked@) =~= cb.push(ph@));
                            proof {
                                lemma_fresh_failed(l0, lb, log@, ph@, args, c0, cn);
                            }
                            assert forall|c1: Set<Seq<char>>, m: Seq<(CheckLevel, Seq<char>)>|
                                #[trigger] items_outcome(runner, *probe, home@, args, hosts, host@, rest, v0, as_set(sviews(checked@)), c1, m)
                                implies items_outcome(runner, *probe, home@, args, hosts, host@, proxies, v0, c0, c1, mn + m) by {
                                assert(runner.resolve_reply(ph@, args, reply_g));
                                assert(items_outcome(runner, *probe, home@, args, hosts, host@, cur, v0, cn, c1, m));
                            }
                        },
                        Ok(po) => {
                            let b = basic_check(po.as_str(), ph.as_str());
                            append_messages(&mut messages, b);
                            let ghost lc = log@;
                            let idr = identity_check(runner, log, po.as_str(), ph.as_str(), home, probe);
                            let ghost idr_g = idr;
                            proof {
                                lemma_extends_trans(l0, lc, log@);
                                lemma_resolves_weaken(added(lc, log@), hosts, v0, v0, args);
                                lemma_resolves_concat(added(l0, lc), added(lc, log@), hosts, v0, args);
                            }
                            match idr {
                                Ok(v) => append_messages(&mut messages, v),
                                Err(_) => {},
                            }
                            assert(msgs_view(messages@) =~= mn + basic_messages(po@, ph@) + checked_messages(idr_g));
                            visited.push(ph.clone());
                            assert(sviews(visited@) =~= v0.push(ph@));
                            let ghost ld = log@;
                            let sub = check_inner(
                                runner,
                                log,
                                po.as_str(),
                                ph.as_str(),
                                config_args,
                                hosts_in_config,
                                visited,
                                checked,
                                home,
                                probe,
                            );
                            proof {
                                lemma_push_contains(v0, ph@);
                                lemma_extends_trans(l0, ld, log@);
                                lemma_resolves_weaken(added(ld, log@), hosts, v0, v0.push(ph@), args);
                                lemma_resolves_concat(added(l0, ld), added(ld, log@), hosts, v0, args);
                            }
                            let ghost vb = visited@;
                            visited.pop();
                            assert(sviews(visited@) =~= sviews(vb).drop_last());
                            assert(sviews(visited@) =~= v0);
                            let ghost c2 = as_set(sviews(checked@));
                            let ghost msub = msgs_view(sub@);
                            append_messages(&mut messages, sub);
                            let ghost cb = sviews(checked@);
                            let already = contains_string(checked.as_slice(), ph.as_str());
                            if !already {
                                proof {
                                    lemma_push_contains(cb, ph@);
                                }
                                checked.push(ph.clone());
                                assert(sviews(checked@) =~= cb.push(ph@));
                            } else {
                                assert(as_set(cb).contains(ph@));
                            }
                            assert(as_set(sviews(checked@)) =~= c2.insert(ph@));
                            proof {
                                lemma_push_contains(v0, ph@);
                                lemma_fresh_resolved(l0, lb, lc, ld, log@, ph@, args, hosts, v0.push(ph@), c0, cn, c2);
                            }
                            assert forall|c1: Set<Seq<char>>, m: Seq<(CheckLevel, Seq<char>)>|
                                #[trigger] items_outcome(runner, *probe, home@, args, hosts, host@, rest, v0, as_set(sviews(checked@)), c1, m)
                                implies items_outcome(runner, *probe, home@, args, hosts, host@, proxies, v0, c0, c1, msgs_view(messages@) + m) by {
                                lemma_items_recurse(runner, *probe, home@, args, hosts, host@, cur, v0, cn, reply_g, idr_g, c2, msub, c1, m);
                                assert(mn + (basic_messages(po@, ph@) + checked_messages(idr_g) + msub + m) =~= msgs_view(messages@) + m);
                            }
                        },
                    }
                }
            } else if is_likely_direct_address(ph.as_str()) {
                assert forall|c1: Set<Seq<char>>, m: Seq<(CheckLevel, Seq<char>)>|
                    #[trigger] items_outcome(runner, *probe, home@, args, hosts, host@, rest, v0, cn, c1, m)
                    implies items_outcome(runner, *probe, home@, args, hosts, host@, proxies, v0, c0, c1, mn + m) by {
                    assert(items_outcome(runner, *probe, home@, args, hosts, host@, cur, v0, cn, c1, m));
                }
            } else {
                let mut text = tag_text(host, "ProxyJump host \"");
                push_str(&mut text, ph.as_str());
                push_str(&mut text, "\" is not defined in config");
                assert(text@ =~= undefined_message(host@, ph@).1);
                push_message(&mut messages, CheckLevel::Error, text);
                assert forall|c1: Set<Seq<char>>, m: Seq<(CheckLevel, Seq<char>)>|
                    #[trigger] items_outcome(runner, *probe, home@, args, hosts, host@, rest, v0, cn, c1, m)
                    implies items_outcome(runner, *probe, home@, args, hosts, host@, proxies, v0, c0, c1, msgs_view(messages@) + m) by {
                    let full = seq![undefined_message(host@, ph@)] + m;
                    assert(full.drop_first() =~= m);
                    assert(items_outcome(runner, *probe, home@, args, hosts, host@, cur, v0, cn, c1, full));
                    assert(mn + full =~= msgs_view(messages@) + m);
                }
            }
        }
        j = j + 1;
    }
    let ghost fin = proxies.skip(items.len() as int);
    assert(fin =~= Seq::<Seq<char>>::empty());
    assert(items_outcome(runner, *probe, home@, args, hosts, host@, fin, v0, as_set(sviews(checked@)), as_set(sviews(checked@)), Seq::empty()));
    assert(msgs_view(messages@) + Seq::<(CheckLevel, Seq<char>)>::empty() =~= msgs_view(messages@));
    messages
}

/// Validate the `ProxyJump` chain of a host from pre-resolved `ssh -G`
/// output.
///
/// Reports circular proxy references (a proxy already on the chain that
/// leads to it) and proxies that are neither defined in the config
/// (`hosts_in_config`) nor look like direct addresses. The proxies defined
/// in the config get the basic and identity checks and have their own chain
/// checked. Only proxies defined in the config and not on the chain are
/// resolved, each at most once. `visited` is the chain so far (normally the
/// host itself); it is given back unchanged.
pub fn check<R: CommandRunner, F: Fn(&str) -> FileFacts>(
    runner: &R,
    log: &mut RequestLog,
    ssh_g_output: &str,
    host: &str,
    config_args: &[String],
    hosts_in_config: &[String],
    visited: &mut Vec<String>,
    home: &str,
    probe: &F,
) -> (r: Result<Vec<CheckMessage>, Error>)
    requires
        forall|s: &str| call_requires(*probe, (s,)),
    ensures
        sviews(final(visited)@) == sviews(old(visited)@),
        exists|c1: Set<Seq<char>>|
            #[trigger] pj_outcome(
                runner,
                *probe,
                home@,
                sviews(config_args@),
                sviews(hosts_in_config@),
                ssh_g_output@,
                host@,
                sviews(old(visited)@),
                Set::empty(),
                c1,
                checked_messages(r),
            ) && r is Ok,
        extends(old(log)@, final(log)@),
        resolves_defined(added(old(log)@, final(log)@), sviews(hosts_in_config@), sviews(old(visited)@), sviews(config_args@)),
        resolves_once(added(old(log)@, final(log)@)),
{
    let mut checked: Vec<String> = Vec::new();
    assert(as_set(sviews(checked@)) =~= Set::<Seq<char>>::empty());
    let r = check_inner(runner, log, ssh_g_output, host, config_args, hosts_in_config, visited, &mut checked, home, probe);
    let ghost c1 = as_set(sviews(checked@));
    let out: Result<Vec<CheckMessage>, Error> = Ok(r);
    assert(pj_outcome(
        runner,
        *probe,
        home@,
        sviews(config_args@),
        sviews(hosts_in_config@),
        ssh_g_output@,
        host@,
        sviews(old(visited)@),
        Set::empty(),
        c1,
        checked_messages(out),
    ));
    out
}

} // verus!
