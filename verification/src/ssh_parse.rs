//! Parsing of `ssh -G` output.
//!
//! `ssh -G` prints one `key value` pair per line, with lower-case keys.

use vstd::prelude::*;

use crate::text::{chars_of, 
    lines, lines_str, split_once, split_once_of, str_eq, string_from, sviews, to_lowercase, lowercase, vviews,
};

verus! {

/// The value of `line` when its key (the text before the first space)
/// lower-cases to `key_lower`.
pub open spec fn line_value(line: Seq<char>, key_lower: Seq<char>) -> Option<Seq<char>> {
    match split_once(line, ' ') {
        Some((k, v)) => if lowercase(k) == key_lower {
            Some(v)
        } else {
            None
        },
        None => None,
    }
}

/// The value of the first line of `ls` whose key matches.
pub open spec fn first_value(ls: Seq<Seq<char>>, key_lower: Seq<char>) -> Option<Seq<char>>
    decreases ls.len(),
{
    if ls.len() == 0 {
        None
    } else {
        match line_value(ls[0], key_lower) {
            Some(v) => Some(v),
            None => first_value(ls.drop_first(), key_lower),
        }
    }
}

/// The values of every line of `ls` whose key matches, in order.
pub open spec fn all_values(ls: Seq<Seq<char>>, key_lower: Seq<char>) -> Seq<Seq<char>>
    decreases ls.len(),
{
    if ls.len() == 0 {
        Seq::empty()
    } else {
        all_values(ls.drop_last(), key_lower) + match line_value(ls.last(), key_lower) {
            Some(v) => seq![v],
            None => Seq::empty(),
        }
    }
}

/// The matching value of one line, as a sequence of zero or one values.
pub open spec fn value_seq(line: Seq<char>, key_lower: Seq<char>) -> Seq<Seq<char>> {
    match line_value(line, key_lower) {
        Some(v) => seq![v],
        None => Seq::empty(),
    }
}

/// [`all_values`] read from the front: the first line's value, then those
/// of the rest.
pub proof fn lemma_all_values_front(ls: Seq<Seq<char>>, key_lower: Seq<char>)
    requires
        ls.len() > 0,
    ensures
        all_values(ls, key_lower) == value_seq(ls[0], key_lower) + all_values(ls.drop_first(), key_lower),
    decreases ls.len(),
{
    if ls.len() == 1 {
        assert(ls.drop_last() =~= Seq::<Seq<char>>::empty());
        assert(ls.drop_first() =~= Seq::<Seq<char>>::empty());
        assert(all_values(ls.drop_last(), key_lower) == Seq::<Seq<char>>::empty());
        assert(all_values(ls.drop_first(), key_lower) == Seq::<Seq<char>>::empty());
        assert(ls.last() == ls[0]);
        assert(all_values(ls, key_lower) =~= value_seq(ls[0], key_lower) + Seq::<Seq<char>>::empty());
    } else {
        lemma_all_values_front(ls.drop_last(), key_lower);
        assert(ls.drop_last().drop_first() =~= ls.drop_first().drop_last());
        assert(ls.drop_first().last() == ls.last());
        assert(ls.drop_last()[0] == ls[0]);
        assert(all_values(ls, key_lower) =~= value_seq(ls[0], key_lower) + all_values(ls.drop_first(), key_lower));
    }
}

/// The first value of a key is the first of all its values, and there is
/// none exactly when it has no value at all.
pub proof fn law_first_value_is_head(ls: Seq<Seq<char>>, key_lower: Seq<char>)
    ensures
        first_value(ls, key_lower) == if all_values(ls, key_lower).len() > 0 {
            Some(all_values(ls, key_lower)[0])
        } else {
            None
        },
    decreases ls.len(),
{
    if ls.len() > 0 {
        lemma_all_values_front(ls, key_lower);
        law_first_value_is_head(ls.drop_first(), key_lower);
    }
}

/// The first value of `key` (case-insensitive) in `ssh -G` output.
pub open spec fn ssh_g_value(output: Seq<char>, key: Seq<char>) -> Option<Seq<char>> {
    first_value(lines(output), lowercase(key))
}

/// Every value of `key` (case-insensitive) in `ssh -G` output, in order.
pub open spec fn ssh_g_values(output: Seq<char>, key: Seq<char>) -> Seq<Seq<char>> {
    all_values(lines(output), lowercase(key))
}

/// In `ssh -G` output, the value that [`parse_ssh_g_value`] gives is the
/// first of those that [`parse_ssh_g_values`] gives, and there is none
/// exactly when that list is empty.
pub proof fn law_ssh_g_value_is_head(output: Seq<char>, key: Seq<char>)
    ensures
        ssh_g_value(output, key) == if ssh_g_values(output, key).len() > 0 {
            Some(ssh_g_values(output, key)[0])
        } else {
            None
        },
{
    law_first_value_is_head(lines(output), lowercase(key));
}

/// The first value of `key` in `output`, or the empty text.
pub open spec fn ssh_g_value_or_empty(output: Seq<char>, key: Seq<char>) -> Seq<char> {
    match ssh_g_value(output, key) {
        Some(v) => v,
        None => Seq::empty(),
    }
}

/// The value of one line for an already lower-cased key.
fn line_value_exec(line: &[char], key_lower: &str) -> (r: Option<Vec<char>>)
    ensures
        match line_value(line@, key_lower@) {
            Some(v) => r matches Some(x) && x@ == v,
            None => r is None,
        },
{
    match split_once_of(line, ' ') {
        Some((k, v)) => {
            let ks = string_from(k.as_slice());
            let kl = to_lowercase(ks.as_str());
            if str_eq(kl.as_str(), key_lower) {
                Some(v)
            } else {
                None
            }
        },
        None => None,
    }
}

/// The value of one `ssh -G` output line for a key given already in lower
/// case: the text after the line's first space when the text before it
/// lower-cases to `key_lower`.
pub fn line_value_for(line: &str, key_lower: &str) -> (r: Option<String>)
    ensures
        match line_value(line@, key_lower@) {
            Some(v) => r matches Some(s) && s@ == v,
            None => r is None,
        },
{
    let v = chars_of(line);
    match line_value_exec(v.as_slice(), key_lower) {
        Some(x) => Some(string_from(x.as_slice())),
        None => None,
    }
}

/// Extract the first value for a key from `ssh -G` output.
///
/// Keys are compared case-insensitively. Returns `None` if the key is not
/// found.
pub fn parse_ssh_g_value(output: &str, key: &str) -> (r: Option<String>)
    ensures
        match ssh_g_value(output@, key@) {
            Some(v) => r matches Some(s) && s@ == v,
            None => r is None,
        },
{
    let key_lower = to_lowercase(key);
    let ls = lines_str(output);
    let ghost all = vviews(ls@);
    let mut i: usize = 0;
    assert(all.skip(0) =~= all);
    while i < ls.len()
        invariant
            i <= ls.len(),
            all == vviews(ls@),
            all == lines(output@),
            key_lower@ == lowercase(key@),
            first_value(all, key_lower@) == first_value(all.skip(i as int), key_lower@),
        decreases ls.len() - i,
    {
        assert(all.skip(i as int).drop_first() =~= all.skip(i + 1));
        assert(all.skip(i as int)[0] == ls@[i as int]@);
        match line_value_exec(ls[i].as_slice(), key_lower.as_str()) {
            Some(v) => {
                assert(line_value(all.skip(i as int)[0], key_lower@) == Some(v@));
                assert(all.skip(i as int).len() > 0);
                assert(first_value(all.skip(i as int), key_lower@) == Some(v@));
                assert(first_value(all, key_lower@) == Some(v@));
                let out = string_from(v.as_slice());
                assert(out@ == v@);
                return Some(out);
            },
            None => {
                assert(line_value(all.skip(i as int)[0], key_lower@) is None);
            },
        }
        i = i + 1;
    }
    assert(all.skip(ls.len() as int) =~= Seq::<Seq<char>>::empty());
    None
}

/// Extract every value for a key from `ssh -G` output, in order.
///
/// Keys are compared case-insensitively (e.g. multiple `IdentityFile` lines).
pub fn parse_ssh_g_values(output: &str, key: &str) -> (r: Vec<String>)
    ensures
        sviews(r@) == ssh_g_values(output@, key@),
{
    let key_lower = to_lowercase(key);
    let ls = lines_str(output);
    let ghost all = vviews(ls@);
    let mut r: Vec<String> = Vec::new();
    let mut i: usize = 0;
    while i < ls.len()
        invariant
            i <= ls.len(),
            all == vviews(ls@),
            sviews(r@) == all_values(all.take(i as int), key_lower@),
        decreases ls.len() - i,
    {
        let ghost pre = all.take(i as int);
        proof {
            let nxt = all.take(i + 1);
            assert(nxt.drop_last() =~= pre);
            assert(nxt.last() == ls@[i as int]@);
        }
        match line_value_exec(ls[i].as_slice(), key_lower.as_str()) {
            Some(v) => {
                r.push(string_from(v.as_slice()));
                assert(sviews(r@) =~= all_values(all.take(i + 1), key_lower@));
            },
            None => {
                assert(all_values(all.take(i + 1), key_lower@) =~= all_values(pre, key_lower@));
            },
        }
        i = i + 1;
    }
    assert(all.take(ls.len() as int) =~= all);
    r
}

/// The first value of `key`, or an empty string when absent
/// (`parse_ssh_g_value(..).unwrap_or_default()`).
pub fn ssh_g_value_or_default(output: &str, key: &str) -> (r: String)
    ensures
        r@ == ssh_g_value_or_empty(output@, key@),
{
    match parse_ssh_g_value(output, key) {
        Some(v) => v,
        None => String::new(),
    }
}

} // verus!
