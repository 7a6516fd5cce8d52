//! SSH host extraction from config files.

use vstd::prelude::*;

use crate::config::block::{first_unreadable, host_keyword_rest, lemma_first_unreadable_prefix, unreadable_error};
use crate::config::files::ConfigFile;
use crate::error::Error;
use crate::text::{chars_of, concat2, has_char, lines, lines_str, split_ws, split_ws_of, string_from, sviews, trim, trim_chars, vviews};

verus! {

/// A host pattern with a wildcard (`*` or `?`).
pub open spec fn is_wildcard(p: Seq<char>) -> bool {
    p.contains('*') || p.contains('?')
}

/// The patterns of `ps` that are not wildcards, in order.
pub open spec fn non_wildcards(ps: Seq<Seq<char>>) -> Seq<Seq<char>>
    decreases ps.len(),
{
    if ps.len() == 0 {
        Seq::empty()
    } else {
        non_wildcards(ps.drop_last()) + if is_wildcard(ps.last()) {
            Seq::empty()
        } else {
            seq![ps.last()]
        }
    }
}

/// The concrete host names declared by a trimmed `Host`/`host` line.
pub open spec fn line_hosts(t: Seq<char>) -> Seq<Seq<char>> {
    match host_keyword_rest(t) {
        Some(rest) => non_wildcards(split_ws(rest)),
        None => Seq::empty(),
    }
}

/// The concrete host names declared in the lines `ls`, in order.
pub open spec fn content_hosts(ls: Seq<Seq<char>>) -> Seq<Seq<char>>
    decreases ls.len(),
{
    if ls.len() == 0 {
        Seq::empty()
    } else {
        content_hosts(ls.drop_last()) + line_hosts(trim(ls.last()))
    }
}

/// The concrete host names declared in the readable files of `files`.
pub open spec fn files_hosts(files: Seq<ConfigFile>) -> Seq<Seq<char>>
    decreases files.len(),
{
    if files.len() == 0 {
        Seq::empty()
    } else {
        files_hosts(files.drop_last()) + match files.last().content {
            Ok(c) => content_hosts(lines(c@)),
            Err(_) => Seq::empty(),
        }
    }
}

/// An element of a concatenation is an element of one of its parts.
pub proof fn lemma_concat_contains(a: Seq<Seq<char>>, b: Seq<Seq<char>>, x: Seq<char>)
    ensures
        (a + b).contains(x) <==> (a.contains(x) || b.contains(x)),
{
    if (a + b).contains(x) {
        let k = choose|k: int| 0 <= k < (a + b).len() && (a + b)[k] == x;
        if k < a.len() {
            assert(a[k] == x);
        } else {
            assert(b[k - a.len()] == x);
        }
    }
    if a.contains(x) {
        let k = choose|k: int| 0 <= k < a.len() && a[k] == x;
        assert((a + b)[k] == x);
    }
    if b.contains(x) {
        let k = choose|k: int| 0 <= k < b.len() && b[k] == x;
        assert((a + b)[k + a.len()] == x);
    }
}

/// The patterns kept by [`non_wildcards`] are exactly those of `ps` with
/// neither `*` nor `?`.
pub proof fn lemma_non_wildcards(ps: Seq<Seq<char>>, h: Seq<char>)
    ensures
        non_wildcards(ps).contains(h) <==> (ps.contains(h) && !h.contains('*') && !h.contains('?')),
    decreases ps.len(),
{
    if ps.len() > 0 {
        lemma_non_wildcards(ps.drop_last(), h);
        let tail = if is_wildcard(ps.last()) {
            Seq::<Seq<char>>::empty()
        } else {
            seq![ps.last()]
        };
        lemma_concat_contains(non_wildcards(ps.drop_last()), tail, h);
        assert(ps =~= ps.drop_last() + seq![ps.last()]);
        lemma_concat_contains(ps.drop_last(), seq![ps.last()], h);
        if tail.contains(h) {
            assert(tail[0] == h);
        }
        assert(seq![ps.last()].contains(h) <==> h == ps.last()) by {
            if h == ps.last() {
                assert(seq![ps.last()][0] == h);
            }
        }
    }
}

/// Every host name found in the lines `ls` has neither `*` nor `?`.
proof fn lemma_content_concrete(ls: Seq<Seq<char>>, h: Seq<char>)
    requires
        content_hosts(ls).contains(h),
    ensures
        !h.contains('*') && !h.contains('?'),
    decreases ls.len(),
{
    lemma_concat_contains(content_hosts(ls.drop_last()), line_hosts(trim(ls.last())), h);
    if content_hosts(ls.drop_last()).contains(h) {
        lemma_content_concrete(ls.drop_last(), h);
    } else {
        match host_keyword_rest(trim(ls.last())) {
            Some(rest) => lemma_non_wildcards(split_ws(rest), h),
            None => {},
        }
    }
}

/// A concrete pattern of a `Host` line among `ls` is found.
proof fn lemma_content_includes(ls: Seq<Seq<char>>, j: int, p: Seq<char>)
    requires
        0 <= j < ls.len(),
        host_keyword_rest(trim(ls[j])) matches Some(rest) && split_ws(rest).contains(p),
        !p.contains('*'),
        !p.contains('?'),
    ensures
        content_hosts(ls).contains(p),
    decreases ls.len(),
{
    lemma_concat_contains(content_hosts(ls.drop_last()), line_hosts(trim(ls.last())), p);
    if j == ls.len() - 1 {
        lemma_non_wildcards(split_ws(host_keyword_rest(trim(ls[j]))->Some_0), p);
    } else {
        assert(ls.drop_last()[j] == ls[j]);
        lemma_content_includes(ls.drop_last(), j, p);
    }
}

/// Every host name found in `files` has neither `*` nor `?`.
proof fn lemma_files_concrete(files: Seq<ConfigFile>, h: Seq<char>)
    requires
        files_hosts(files).contains(h),
    ensures
        !h.contains('*') && !h.contains('?'),
    decreases files.len(),
{
    let last = match files.last().content {
        Ok(c) => content_hosts(lines(c@)),
        Err(_) => Seq::empty(),
    };
    lemma_concat_contains(files_hosts(files.drop_last()), last, h);
    if files_hosts(files.drop_last()).contains(h) {
        lemma_files_concrete(files.drop_last(), h);
    } else {
        match files.last().content {
            Ok(c) => lemma_content_concrete(lines(c@), h),
            Err(_) => {},
        }
    }
}

/// A concrete pattern of a `Host` line of a readable file is found.
proof fn lemma_files_includes(files: Seq<ConfigFile>, i: int, j: int, p: Seq<char>)
    requires
        0 <= i < files.len(),
        files[i].content is Ok,
        0 <= j < lines(files[i].content->Ok_0@).len(),
        host_keyword_rest(trim(lines(files[i].content->Ok_0@)[j])) matches Some(rest) && split_ws(rest).contains(p),
        !p.contains('*'),
        !p.contains('?'),
    ensures
        files_hosts(files).contains(p),
    decreases files.len(),
{
    let last = match files.last().content {
        Ok(c) => content_hosts(lines(c@)),
        Err(_) => Seq::empty(),
    };
    lemma_concat_contains(files_hosts(files.drop_last()), last, p);
    if i == files.len() - 1 {
        lemma_content_includes(lines(files[i].content->Ok_0@), j, p);
    } else {
        assert(files.drop_last()[i] == files[i]);
        lemma_files_includes(files.drop_last(), i, j, p);
    }
}

/// The hosts listed from config files (see [`get_all`]) are the concrete
/// names of their `Host` lines: none of them holds a `*` or a `?`, and
/// every pattern of a `Host`/`host` line of a readable file that holds
/// neither is listed.
pub proof fn law_listed_hosts_are_concrete(files: Seq<ConfigFile>)
    ensures
        forall|h: Seq<char>| #[trigger] files_hosts(files).contains(h) ==> !h.contains('*') && !h.contains('?'),
        forall|i: int, j: int, p: Seq<char>|
            0 <= i < files.len() && files[i].content is Ok && 0 <= j < lines(files[i].content->Ok_0@).len()
                && (host_keyword_rest(trim(#[trigger] lines(files[i].content->Ok_0@)[j])) matches Some(rest)
                && split_ws(rest).contains(p)) && !p.contains('*') && !p.contains('?') ==> #[trigger] files_hosts(
                files,
            ).contains(p),
{
    assert forall|h: Seq<char>| #[trigger] files_hosts(files).contains(h) implies !h.contains('*') && !h.contains('?') by {
        lemma_files_concrete(files, h);
    }
    assert forall|i: int, j: int, p: Seq<char>|
        0 <= i < files.len() && files[i].content is Ok && 0 <= j < lines(files[i].content->Ok_0@).len()
            && (host_keyword_rest(trim(#[trigger] lines(files[i].content->Ok_0@)[j])) matches Some(rest)
            && split_ws(rest).contains(p)) && !p.contains('*') && !p.contains('?') implies #[trigger] files_hosts(
            files,
        ).contains(p) by {
        lemma_files_includes(files, i, j, p);
    }
}

/// Lexicographic order of strings by code point (the order of `String`).
pub open spec fn lex_lt(a: Seq<char>, b: Seq<char>) -> bool
    decreases a.len(),
{
    if a.len() == 0 {
        b.len() > 0
    } else if b.len() == 0 {
        false
    } else if a[0] != b[0] {
        (a[0] as int) < (b[0] as int)
    } else {
        lex_lt(a.drop_first(), b.drop_first())
    }
}

/// Each element of `s` is smaller than the next: sorted, without repeats.
pub open spec fn strictly_sorted(s: Seq<Seq<char>>) -> bool {
    forall|i: int, j: int| 0 <= i < j < s.len() ==> lex_lt(#[trigger] s[i], #[trigger] s[j])
}

/// `lex_lt` is irreflexive.
pub proof fn lemma_lex_irreflexive(a: Seq<char>)
    ensures
        !lex_lt(a, a),
    decreases a.len(),
{
    if a.len() > 0 {
        lemma_lex_irreflexive(a.drop_first());
    }
}

/// `lex_lt` is transitive.
pub proof fn lemma_lex_transitive(a: Seq<char>, b: Seq<char>, c: Seq<char>)
    requires
        lex_lt(a, b),
        lex_lt(b, c),
    ensures
        lex_lt(a, c),
    decreases a.len(),
{
    if a.len() > 0 && b.len() > 0 && c.len() > 0 {
        if a[0] == b[0] && b[0] == c[0] {
            lemma_lex_transitive(a.drop_first(), b.drop_first(), c.drop_first());
        }
    }
}

/// Two different strings are ordered one way or the other.
pub proof fn lemma_lex_total(a: Seq<char>, b: Seq<char>)
    requires
        a != b,
    ensures
        lex_lt(a, b) || lex_lt(b, a),
    decreases a.len(),
{
    if a.len() > 0 && b.len() > 0 && a[0] == b[0] {
        if a.drop_first() == b.drop_first() {
            assert(a =~= seq![a[0]] + a.drop_first());
            assert(b =~= seq![b[0]] + b.drop_first());
        }
        lemma_lex_total(a.drop_first(), b.drop_first());
    } else if a.len() > 0 && b.len() > 0 {
        assert((a[0] as int) != (b[0] as int));
    } else if a.len() == 0 && b.len() == 0 {
        assert(a =~= b);
    }
}

fn lex_lt_exec(a: &[char], b: &[char]) -> (r: bool)
    ensures
        r == lex_lt(a@, b@),
{
    let mut i: usize = 0;
    assert(a@.skip(0) =~= a@);
    assert(b@.skip(0) =~= b@);
    while i < a.len() && i < b.len() && a[i] == b[i]
        invariant
            i <= a.len(),
            i <= b.len(),
            lex_lt(a@, b@) == lex_lt(a@.skip(i as int), b@.skip(i as int)),
        decreases a.len() - i,
    {
        assert(a@.skip(i as int).drop_first() =~= a@.skip(i + 1));
        assert(b@.skip(i as int).drop_first() =~= b@.skip(i + 1));
        i = i + 1;
    }
    if i == a.len() {
        i < b.len()
    } else if i == b.len() {
        false
    } else {
        assert(a@.skip(i as int)[0] == a[i as int]);
        assert(b@.skip(i as int)[0] == b[i as int]);
        a[i] < b[i]
    }
}

/// Insert `x` into the strictly sorted `v`, unless it is there already.
fn insert_sorted(v: &mut Vec<String>, x: String)
    requires
        strictly_sorted(sviews(old(v)@)),
    ensures
        strictly_sorted(sviews(final(v)@)),
        forall|y: Seq<char>|
            #![trigger sviews(final(v)@).contains(y)]
            sviews(final(v)@).contains(y) <==> (sviews(old(v)@).contains(y) || y == x@),
{
    let ghost s0 = sviews(v@);
    let xv = chars_of(x.as_str());
    let mut p: usize = 0;
    while p < v.len() && lex_lt_exec(chars_of(v[p].as_str()).as_slice(), xv.as_slice())
        invariant
            p <= v.len(),
            s0 == sviews(v@),
            xv@ == x@,
            strictly_sorted(s0),
            forall|k: int| 0 <= k < p ==> lex_lt(#[trigger] s0[k], x@),
        decreases v.len() - p,
    {
        p = p + 1;
    }
    if p < v.len() && crate::text::str_eq(v[p].as_str(), x.as_str()) {
        assert(s0[p as int] == x@);
        assert(s0.contains(x@));
        return;
    }
    proof {
        if p < v.len() {
            lemma_lex_total(s0[p as int], x@);
            assert forall|k: int| p <= k < s0.len() implies lex_lt(x@, #[trigger] s0[k]) by {
                if k > p {
                    lemma_lex_transitive(x@, s0[p as int], s0[k]);
                }
            }
        }
    }
    v.insert(p, x);
    let ghost s1 = sviews(v@);
    assert(s1 =~= s0.insert(p as int, xv@));
    assert forall|i: int, j: int| 0 <= i < j < s1.len() implies lex_lt(#[trigger] s1[i], #[trigger] s1[j]) by {
        if i < p && j == p {
        } else if i < p && j > p {
            assert(s1[j] == s0[j - 1]);
        } else if i == p {
            assert(s1[j] == s0[j - 1]);
        } else if i > p {
            assert(s1[i] == s0[i - 1]);
            assert(s1[j] == s0[j - 1]);
        }
    }
    assert forall|y: Seq<char>| #![trigger s1.contains(y)] s1.contains(y) <==> (s0.contains(y) || y == x@) by {
        if s1.contains(y) {
            let k = choose|k: int| 0 <= k < s1.len() && s1[k] == y;
            if k < p {
                assert(s0[k] == y);
            } else if k > p {
                assert(s0[k - 1] == y);
            }
        }
        if s0.contains(y) {
            let k = choose|k: int| 0 <= k < s0.len() && s0[k] == y;
            if k < p {
                assert(s1[k] == y);
            } else {
                assert(s1[k + 1] == y);
            }
        }
        if y == x@ {
            assert(s1[p as int] == y);
        }
    }
}

/// The concrete host names of one line, each a new string.
fn line_hosts_exec(line: &[char]) -> (r: Vec<String>)
    ensures
        sviews(r@) == line_hosts(trim(line@)),
{
    let t = trim_chars(line);
    let mut r: Vec<String> = Vec::new();
    let upper = chars_of("Host ");
    let lower = chars_of("host ");
    let rest = if crate::text::starts_with_exec(t.as_slice(), upper.as_slice()) {
        crate::text::slice_chars(t.as_slice(), upper.len(), t.len())
    } else if crate::text::starts_with_exec(t.as_slice(), lower.as_slice()) {
        crate::text::slice_chars(t.as_slice(), lower.len(), t.len())
    } else {
        return r;
    };
    assert(host_keyword_rest(t@) == Some(rest@));
    let pats = split_ws_of(rest.as_slice());
    let ghost ps = vviews(pats@);
    let mut i: usize = 0;
    while i < pats.len()
        invariant
            i <= pats.len(),
            ps == vviews(pats@),
            sviews(r@) == non_wildcards(ps.take(i as int)),
        decreases pats.len() - i,
    {
        let ghost pre = ps.take(i as int);
        assert(ps.take(i + 1).drop_last() =~= pre);
        assert(ps.take(i + 1).last() == pats@[i as int]@);
        let wild = has_char(pats[i].as_slice(), '*') || has_char(pats[i].as_slice(), '?');
        if !wild {
            r.push(string_from(pats[i].as_slice()));
        }
        assert(sviews(r@) =~= non_wildcards(ps.take(i + 1)));
        i = i + 1;
    }
    assert(ps.take(pats.len() as int) =~= ps);
    r
}

/// Extract all concrete host names of the given SSH config files.
///
/// Every `Host`/`host` line contributes its patterns; patterns holding `*`
/// or `?` are skipped. The result is sorted and free of repeats. A file
/// that could not be read fails the whole extraction.
pub fn get_all(config_files: &[ConfigFile]) -> (r: Result<Vec<String>, Error>)
    ensures
        match first_unreadable(config_files@) {
            Some(i) => unreadable_error(config_files@, i, "Failed to read config file: "@, r),
            None => r matches Ok(v) && strictly_sorted(sviews(v@)) && forall|h: Seq<char>|
                #![trigger sviews(v@).contains(h)]
                sviews(v@).contains(h) <==> files_hosts(config_files@).contains(h),
        },
{
    let mut hosts: Vec<String> = Vec::new();
    let mut i: usize = 0;
    while i < config_files.len()
        invariant
            i <= config_files.len(),
            first_unreadable(config_files@.take(i as int)) is None,
            strictly_sorted(sviews(hosts@)),
            forall|h: Seq<char>|
                #![trigger sviews(hosts@).contains(h)]
                sviews(hosts@).contains(h) <==> files_hosts(config_files@.take(i as int)).contains(h),
        decreases config_files.len() - i,
    {
        let ghost pre = config_files@.take(i as int);
        let ghost nxt = config_files@.take(i + 1);
        assert(nxt.drop_last() =~= pre);
        assert(nxt.last() == config_files@[i as int]);
        match &config_files[i].content {
            Err(e) => {
                proof {
                    lemma_first_unreadable_prefix(config_files@, i + 1);
                }
                return Err(e.duplicate().context(concat2("Failed to read config file: ", config_files[i].path.as_str())));
            },
            Ok(c) => {
                let ls = lines_str(c.as_str());
                let ghost all = vviews(ls@);
                let ghost base = files_hosts(pre);
                let mut j: usize = 0;
                while j < ls.len()
                    invariant
                        j <= ls.len(),
                        all == vviews(ls@),
                        strictly_sorted(sviews(hosts@)),
                        forall|h: Seq<char>|
                            #![trigger sviews(hosts@).contains(h)]
                            sviews(hosts@).contains(h) <==> (base + content_hosts(all.take(j as int))).contains(h),
                    decreases ls.len() - j,
                {
                    let ghost lpre = all.take(j as int);
                    assert(all.take(j + 1).drop_last() =~= lpre);
                    assert(all.take(j + 1).last() == ls@[j as int]@);
                    let lh = line_hosts_exec(ls[j].as_slice());
                    let ghost acc0 = base + content_hosts(lpre);
                    let mut k: usize = 0;
                    while k < lh.len()
                        invariant
                            k <= lh.len(),
                            strictly_sorted(sviews(hosts@)),
                            forall|h: Seq<char>|
                                #![trigger sviews(hosts@).contains(h)]
                                sviews(hosts@).contains(h) <==> (acc0 + sviews(lh@).take(k as int)).contains(h),
                        decreases lh.len() - k,
                    {
                        let ghost before = sviews(hosts@);
                        insert_sorted(&mut hosts, lh[k].clone());
                        let ghost a1 = acc0 + sviews(lh@).take(k as int);
                        let ghost a2 = acc0 + sviews(lh@).take(k + 1);
                        assert(a2 =~= a1.push(lh@[k as int]@));
                        assert forall|h: Seq<char>| #![trigger sviews(hosts@).contains(h)]
                            sviews(hosts@).contains(h) <==> a2.contains(h) by {
                            if a2.contains(h) && h != lh@[k as int]@ {
                                let q = choose|q: int| 0 <= q < a2.len() && a2[q] == h;
                                assert(a1[q] == h);
                            }
                            if a1.contains(h) {
                                let q = choose|q: int| 0 <= q < a1.len() && a1[q] == h;
                                assert(a2[q] == h);
                            }
                            if h == lh@[k as int]@ {
                                assert(a2[a2.len() - 1] == h);
                            }
                        }
                        k = k + 1;
                    }
                    assert(sviews(lh@).take(lh.len() as int) =~= sviews(lh@));
                    assert(base + content_hosts(all.take(j + 1)) =~= acc0 + sviews(lh@));
                    j = j + 1;
                }
                assert(all.take(ls.len() as int) =~= all);
                assert(files_hosts(nxt) =~= base + content_hosts(all));
            },
        }
        i = i + 1;
    }
    assert(config_files@.take(i as int) =~= config_files@);
    Ok(hosts)
}

} // verus!
