//! Duplicate host detection across SSH config files.
//!
//! Aliases are reported in the order in which they first appear.

use vstd::prelude::*;

use crate::check_types::{msgs_view, push_message, CheckLevel, CheckMessage};
use crate::config::block::{first_unreadable, host_keyword_rest, lemma_first_unreadable_prefix, unreadable_error};
use crate::config::files::ConfigFile;
use crate::error::Error;
use crate::text::{
    chars_of, concat2, copy_strings_of, has_char, join, join_strings, lines, lines_str, nat_decimal, push_str,
    slice_chars, split_ws, split_ws_of, starts_with_exec, str_eq, string_from, sviews, trim, trim_chars,
    usize_to_string, vviews,
};

verus! {

/// An alias that names one host: no `*` or `?` wildcard, no `!` negation.
pub open spec fn is_concrete_alias(a: Seq<char>) -> bool {
    !a.contains('*') && !a.contains('?') && !(a.len() > 0 && a[0] == '!')
}

/// The concrete aliases among `ps`, in order.
pub open spec fn concrete_aliases(ps: Seq<Seq<char>>) -> Seq<Seq<char>>
    decreases ps.len(),
{
    if ps.len() == 0 {
        Seq::empty()
    } else {
        concrete_aliases(ps.drop_last()) + if is_concrete_alias(ps.last()) {
            seq![ps.last()]
        } else {
            Seq::empty()
        }
    }
}

/// The concrete aliases of a trimmed `Host`/`host` line.
pub open spec fn line_aliases(t: Seq<char>) -> Seq<Seq<char>> {
    match host_keyword_rest(t) {
        Some(rest) => concrete_aliases(split_ws(rest)),
        None => Seq::empty(),
    }
}

/// `"<path>:<line>"`.
pub open spec fn location(path: Seq<char>, line_no: nat) -> Seq<char> {
    path + ":"@ + nat_decimal(line_no)
}

/// Every alias definition in the lines `ls` of the file `path`, with its
/// location (lines are numbered from 1).
pub open spec fn content_occurrences(path: Seq<char>, ls: Seq<Seq<char>>) -> Seq<(Seq<char>, Seq<char>)>
    decreases ls.len(),
{
    if ls.len() == 0 {
        Seq::empty()
    } else {
        content_occurrences(path, ls.drop_last()) + line_aliases(trim(ls.last())).map_values(
            |a: Seq<char>| (a, location(path, ls.len())),
        )
    }
}

/// Every alias definition in the readable files of `files`, in order.
pub open spec fn files_occurrences(files: Seq<ConfigFile>) -> Seq<(Seq<char>, Seq<char>)>
    decreases files.len(),
{
    if files.len() == 0 {
        Seq::empty()
    } else {
        files_occurrences(files.drop_last()) + match files.last().content {
            Ok(c) => content_occurrences(files.last().path@, lines(c@)),
            Err(_) => Seq::empty(),
        }
    }
}

/// The aliases of `occ` in the order of their first definition.
pub open spec fn first_order(occ: Seq<(Seq<char>, Seq<char>)>) -> Seq<Seq<char>>
    decreases occ.len(),
{
    if occ.len() == 0 {
        Seq::empty()
    } else {
        let prev = first_order(occ.drop_last());
        if prev.contains(occ.last().0) {
            prev
        } else {
            prev.push(occ.last().0)
        }
    }
}

/// The locations at which `a` is defined, in order.
pub open spec fn locs_for(occ: Seq<(Seq<char>, Seq<char>)>, a: Seq<char>) -> Seq<Seq<char>>
    decreases occ.len(),
{
    if occ.len() == 0 {
        Seq::empty()
    } else {
        locs_for(occ.drop_last(), a) + if occ.last().0 == a {
            seq![occ.last().1]
        } else {
            Seq::empty()
        }
    }
}

/// One warning per alias of `order` defined more than once in `occ`.
pub open spec fn duplicate_messages(order: Seq<Seq<char>>, occ: Seq<(Seq<char>, Seq<char>)>) -> Seq<(CheckLevel, Seq<char>)>
    decreases order.len(),
{
    if order.len() == 0 {
        Seq::empty()
    } else {
        let a = order.last();
        duplicate_messages(order.drop_last(), occ) + if locs_for(occ, a).len() > 1 {
            seq![(CheckLevel::Warn, "Duplicate Host \""@ + a + "\" defined at: "@ + join(locs_for(occ, a), ", "@))]
        } else {
            Seq::empty()
        }
    }
}

/// An alias never defined has no location.
pub proof fn lemma_locs_absent(occ: Seq<(Seq<char>, Seq<char>)>, a: Seq<char>)
    requires
        !first_order(occ).contains(a),
    ensures
        locs_for(occ, a) == Seq::<Seq<char>>::empty(),
    decreases occ.len(),
{
    if occ.len() > 0 {
        let prev = first_order(occ.drop_last());
        if prev.contains(a) {
            let k = choose|k: int| 0 <= k < prev.len() && prev[k] == a;
            if !prev.contains(occ.last().0) {
                assert(prev.push(occ.last().0)[k] == a);
            }
        }
        if occ.last().0 == a {
            if !prev.contains(a) {
                assert(prev.push(a)[prev.len() as int] == a);
            }
        }
        lemma_locs_absent(occ.drop_last(), a);
    }
}

/// The concrete aliases of one line.
fn line_aliases_exec(line: &[char]) -> (r: Vec<String>)
    ensures
        sviews(r@) == line_aliases(trim(line@)),
{
    let t = trim_chars(line);
    let mut r: Vec<String> = Vec::new();
    let upper = chars_of("Host ");
    let lower = chars_of("host ");
    let rest = if starts_with_exec(t.as_slice(), upper.as_slice()) {
        slice_chars(t.as_slice(), upper.len(), t.len())
    } else if starts_with_exec(t.as_slice(), lower.as_slice()) {
        slice_chars(t.as_slice(), lower.len(), t.len())
    } else {
        return r;
    };
    assert(host_keyword_rest(t@) == Some(rest@));
    let pats = split_ws_of(rest.as_slice());
    let ghost ps = vviews(pats@);
    let mut i: usize = 0;
    while i < pats.len()
        invariant
            i <= pats.len(),
            ps == vviews(pats@),
            sviews(r@) == concrete_aliases(ps.take(i as int)),
        decreases pats.len() - i,
    {
        let ghost pre = ps.take(i as int);
        assert(ps.take(i + 1).drop_last() =~= pre);
        assert(ps.take(i + 1).last() == pats@[i as int]@);
        let p = pats[i].as_slice();
        let negated = p.len() > 0 && p[0] == '!';
        if !has_char(p, '*') && !has_char(p, '?') && !negated {
            r.push(string_from(p));
        }
        assert(sviews(r@) =~= concrete_aliases(ps.take(i + 1)));
        i = i + 1;
    }
    assert(ps.take(pats.len() as int) =~= ps);
    r
}

/// Append the alias definitions of one file's lines to the parallel lists
/// `names` and `places`.
fn collect_occurrences(path: &str, content: &str, names: &mut Vec<String>, places: &mut Vec<String>)
    requires
        old(names)@.len() == old(places)@.len(),
    ensures
        final(names)@.len() == final(places)@.len(),
        pairs(sviews(final(names)@), sviews(final(places)@)) == pairs(sviews(old(names)@), sviews(old(places)@))
            + content_occurrences(path@, lines(content@)),
{
    let ls = lines_str(content);
    let ghost all = vviews(ls@);
    let ghost start = pairs(sviews(names@), sviews(places@));
    let mut j: usize = 0;
    while j < ls.len()
        invariant
            j <= ls.len(),
            all == vviews(ls@),
            all == lines(content@),
            names@.len() == places@.len(),
            pairs(sviews(names@), sviews(places@)) == start + content_occurrences(path@, all.take(j as int)),
        decreases ls.len() - j,
    {
        let ghost lpre = all.take(j as int);
        assert(all.take(j + 1).drop_last() =~= lpre);
        assert(all.take(j + 1).last() == ls@[j as int]@);
        let aliases = line_aliases_exec(ls[j].as_slice());
        let mut loc = String::new();
        push_str(&mut loc, path);
        push_str(&mut loc, ":");
        let num = usize_to_string(j + 1);
        push_str(&mut loc, num.as_str());
        assert(loc@ == location(path@, (j + 1) as nat));
        let ghost base = pairs(sviews(names@), sviews(places@));
        let ghost la = sviews(aliases@);
        let ghost added = la.map_values(|a: Seq<char>| (a, location(path@, (j + 1) as nat)));
        let mut k: usize = 0;
        while k < aliases.len()
            invariant
                k <= aliases.len(),
                la == sviews(aliases@),
                names@.len() == places@.len(),
                loc@ == location(path@, (j + 1) as nat),
                added == la.map_values(|a: Seq<char>| (a, location(path@, (j + 1) as nat))),
                pairs(sviews(names@), sviews(places@)) == base + added.take(k as int),
            decreases aliases.len() - k,
        {
            let ghost bn = sviews(names@);
            let ghost bp = sviews(places@);
            names.push(aliases[k].clone());
            places.push(loc.clone());
            assert(sviews(names@) =~= bn.push(la[k as int]));
            assert(sviews(places@) =~= bp.push(loc@));
            assert(pairs(sviews(names@), sviews(places@)) =~= pairs(bn, bp).push((la[k as int], loc@)));
            assert(added.take(k + 1) =~= added.take(k as int).push(added[k as int]));
            k = k + 1;
        }
        assert(added.take(aliases.len() as int) =~= added);
        assert(ls@.len() >= j + 1);
        assert(all.take(j + 1).len() == j + 1);
        j = j + 1;
    }
    assert(all.take(ls.len() as int) =~= all);
}

/// The sequence of pairs of two equally long sequences.
pub open spec fn pairs(a: Seq<Seq<char>>, b: Seq<Seq<char>>) -> Seq<(Seq<char>, Seq<char>)> {
    Seq::new(a.len(), |i: int| (a[i], b[i]))
}

/// Detect aliases defined more than once across config files.
///
/// Every `Host` line's concrete aliases are collected with their location
/// (`path:line`); wildcards (`*`, `?`) and negations (`!`) are skipped. One
/// warning per duplicated alias lists all its locations. A file that could
/// not be read fails the check.
pub fn check(config_files: &[ConfigFile]) -> (r: Result<Vec<CheckMessage>, Error>)
    ensures
        match first_unreadable(config_files@) {
            Some(i) => unreadable_error(config_files@, i, "duplicate check: failed to read "@, r),
            None => r matches Ok(v) && msgs_view(v@) == duplicate_messages(
                first_order(files_occurrences(config_files@)),
                files_occurrences(config_files@),
            ),
        },
{
    let mut names: Vec<String> = Vec::new();
    let mut places: Vec<String> = Vec::new();
    let mut i: usize = 0;
    while i < config_files.len()
        invariant
            i <= config_files.len(),
            first_unreadable(config_files@.take(i as int)) is None,
            names@.len() == places@.len(),
            pairs(sviews(names@), sviews(places@)) == files_occurrences(config_files@.take(i as int)),
        decreases config_files.len() - i,
    {
        let ghost nxt = config_files@.take(i + 1);
        assert(nxt.drop_last() =~= config_files@.take(i as int));
        assert(nxt.last() == config_files@[i as int]);
        match &config_files[i].content {
            Err(e) => {
                proof {
                    lemma_first_unreadable_prefix(config_files@, i + 1);
                }
                return Err(e.duplicate().context(concat2("duplicate check: failed to read ", config_files[i].path.as_str())));
            },
            Ok(c) => {
                collect_occurrences(config_files[i].path.as_str(), c.as_str(), &mut names, &mut places);
            },
        }
        i = i + 1;
    }
    assert(config_files@.take(i as int) =~= config_files@);
    let ghost occ = files_occurrences(config_files@);

    // Group the locations by alias, in first-definition order.
    let mut aliases: Vec<String> = Vec::new();
    let mut locs: Vec<Vec<String>> = Vec::new();
    let mut q: usize = 0;
    while q < names.len()
        invariant
            q <= names.len(),
            names@.len() == places@.len(),
            pairs(sviews(names@), sviews(places@)) == occ,
            aliases@.len() == locs@.len(),
            sviews(aliases@) == first_order(occ.take(q as int)),
            forall|k: int| 0 <= k < aliases@.len() ==> sviews(#[trigger] locs@[k]@) == locs_for(occ.take(q as int), aliases@[k]@),
            forall|j: int, k: int| 0 <= j < k < aliases@.len() ==> aliases@[j]@ != aliases@[k]@,
        decreases names.len() - q,
    {
        let ghost pre = occ.take(q as int);
        let ghost nxt = occ.take(q + 1);
        assert(nxt.drop_last() =~= pre);
        assert(nxt.last() == (names@[q as int]@, places@[q as int]@));
        let ghost a = names@[q as int]@;
        let ghost l = places@[q as int]@;
        let mut k: usize = 0;
        let mut found = false;
        while k < aliases.len() && !found
            invariant
                k <= aliases.len(),
                a == names@[q as int]@,
                q < names.len(),
                forall|m: int| 0 <= m < k ==> aliases@[m]@ != a,
                found ==> k < aliases.len() && aliases@[k as int]@ == a,
            decreases aliases.len() - k + if found { 0int } else { 1int },
        {
            if str_eq(aliases[k].as_str(), names[q].as_str()) {
                found = true;
            } else {
                k = k + 1;
            }
        }
        let ghost old_aliases = aliases@;
        let ghost old_locs = locs@;
        if found {
            let mut entry = copy_strings_of(&locs[k]);
            entry.push(places[q].clone());
            locs.set(k, entry);
            proof {
                assert(sviews(aliases@).contains(a)) by {
                    assert(sviews(aliases@)[k as int] == a);
                }
                assert(first_order(nxt) == first_order(pre));
                assert forall|m: int| 0 <= m < aliases@.len() implies sviews(#[trigger] locs@[m]@) == locs_for(nxt, aliases@[m]@) by {
                    if m == k as int {
                        assert(sviews(locs@[m]@) =~= sviews(old_locs[m]@).push(l));
                    } else {
                        assert(locs@[m] == old_locs[m]);
                    }
                }
            }
        } else {
            proof {
                assert(!sviews(aliases@).contains(a)) by {
                    if sviews(aliases@).contains(a) {
                        let m = choose|m: int| 0 <= m < sviews(aliases@).len() && sviews(aliases@)[m] == a;
                        assert(aliases@[m]@ == a);
                    }
                }
                lemma_locs_absent(pre, a);
            }
            aliases.push(names[q].clone());
            let mut entry: Vec<String> = Vec::new();
            entry.push(places[q].clone());
            locs.push(entry);
            proof {
                assert(sviews(aliases@) =~= first_order(nxt));
                assert forall|m: int| 0 <= m < aliases@.len() implies sviews(#[trigger] locs@[m]@) == locs_for(nxt, aliases@[m]@) by {
                    if m < old_aliases.len() {
                        assert(locs@[m] == old_locs[m]);
                        assert(aliases@[m] == old_aliases[m]);
                    } else {
                        assert(sviews(locs@[m]@) =~= seq![l]);
                    }
                }
            }
        }
        q = q + 1;
    }
    assert(occ.take(names.len() as int) =~= occ);

    let mut messages: Vec<CheckMessage> = Vec::new();
    let ghost order = sviews(aliases@);
    let mut k: usize = 0;
    while k < aliases.len()
        invariant
            k <= aliases.len(),
            aliases@.len() == locs@.len(),
            order == sviews(aliases@),
            order == first_order(occ),
            forall|m: int| 0 <= m < aliases@.len() ==> sviews(#[trigger] locs@[m]@) == locs_for(occ, aliases@[m]@),
            msgs_view(messages@) == duplicate_messages(order.take(k as int), occ),
        decreases aliases.len() - k,
    {
        let ghost pre = order.take(k as int);
        assert(order.take(k + 1).drop_last() =~= pre);
        assert(order.take(k + 1).last() == aliases@[k as int]@);
        assert(sviews(locs@[k as int]@) == locs_for(occ, aliases@[k as int]@));
        if locs[k].len() > 1 {
            let mut text = String::new();
            push_str(&mut text, "Duplicate Host \"");
            push_str(&mut text, aliases[k].as_str());
            push_str(&mut text, "\" defined at: ");
            let joined = join_strings(locs[k].as_slice(), ", ");
            push_str(&mut text, joined.as_str());
            push_message(&mut messages, CheckLevel::Warn, text);
        }
        assert(msgs_view(messages@) =~= duplicate_messages(order.take(k + 1), occ));
        k = k + 1;
    }
    assert(order.take(aliases.len() as int) =~= order);
    Ok(messages)
}

} // verus!
