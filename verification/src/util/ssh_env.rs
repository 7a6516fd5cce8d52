//! The `SSH_ENV` file format: `KEY=VALUE` assignments saved by an ssh-agent
//! start-up script, e.g.
//!
//! ```text
//! SSH_AUTH_SOCK=/tmp/ssh-xxx/agent.123; export SSH_AUTH_SOCK;
//! SSH_AGENT_PID=456; export SSH_AGENT_PID;
//! ```
//!
//! Reading the file and setting the variables is the caller's part.

use vstd::prelude::*;

use crate::text::{chars_of, find, is_ascii_alnum, lemma_find_char, lines, lines_of, slice_chars, split_char, split_once, split_once_of, string_from, trim, trim_chars, vviews};

verus! {

/// An environment variable name accepted from the file: non-empty, ASCII
/// letters, digits and `'_'` only.
pub open spec fn is_env_key(k: Seq<char>) -> bool {
    k.len() > 0 && forall|i: int| 0 <= i < k.len() ==> (is_ascii_alnum(#[trigger] k[i]) || k[i] == '_')
}

/// The assignment read from one line, if any: comment and empty lines give
/// none; otherwise the trimmed text before the first `';'` is split at its
/// first `'='`, and both sides are trimmed.
pub open spec fn line_assignment(line: Seq<char>) -> Option<(Seq<char>, Seq<char>)> {
    let t = trim(line);
    if t.len() == 0 || t[0] == '#' {
        None
    } else {
        let assignment = trim(split_char(t, ';')[0]);
        match split_once(assignment, '=') {
            Some((k, v)) => if is_env_key(trim(k)) {
                Some((trim(k), trim(v)))
            } else {
                None
            },
            None => None,
        }
    }
}

/// The assignments of the lines `ls`, in order.
pub open spec fn assignments(ls: Seq<Seq<char>>) -> Seq<(Seq<char>, Seq<char>)>
    decreases ls.len(),
{
    if ls.len() == 0 {
        Seq::empty()
    } else {
        assignments(ls.drop_last()) + match line_assignment(ls.last()) {
            Some(a) => seq![a],
            None => Seq::empty(),
        }
    }
}

/// Views of exec assignments.
pub open spec fn assignment_views(v: Seq<(String, String)>) -> Seq<(Seq<char>, Seq<char>)> {
    v.map_values(|p: (String, String)| (p.0@, p.1@))
}

fn is_env_key_exec(k: &[char]) -> (r: bool)
    ensures
        r == is_env_key(k@),
{
    if k.len() == 0 {
        return false;
    }
    let mut i: usize = 0;
    while i < k.len()
        invariant
            i <= k.len(),
            forall|j: int| 0 <= j < i ==> (is_ascii_alnum(#[trigger] k@[j]) || k@[j] == '_'),
        decreases k.len() - i,
    {
        let c = k[i];
        let ok = ('0' <= c && c <= '9') || ('a' <= c && c <= 'z') || ('A' <= c && c <= 'Z') || c
            == '_';
        if !ok {
            return false;
        }
        i = i + 1;
    }
    true
}

fn line_assignment_exec(line: &[char]) -> (r: Option<(String, String)>)
    ensures
        match line_assignment(line@) {
            Some((k, v)) => r matches Some((a, b)) && a@ == k && b@ == v,
            None => r is None,
        },
{
    let t = trim_chars(line);
    if t.len() == 0 || t[0] == '#' {
        return None;
    }
    let end = match find(t.as_slice(), ';') {
        Some(p) => p,
        None => t.len(),
    };
    proof {
        lemma_find_char(t@, ';');
    }
    let first = slice_chars(t.as_slice(), 0, end);
    assert(first@ == split_char(t@, ';')[0]);
    let assignment = trim_chars(first.as_slice());
    match split_once_of(assignment.as_slice(), '=') {
        Some((k, v)) => {
            let key = trim_chars(k.as_slice());
            let value = trim_chars(v.as_slice());
            if is_env_key_exec(key.as_slice()) {
                Some((string_from(key.as_slice()), string_from(value.as_slice())))
            } else {
                None
            }
        },
        None => None,
    }
}

/// The `KEY=VALUE` assignments of an `SSH_ENV` file, in order. Empty lines,
/// comments and shell syntax other than the first assignment of a line are
/// ignored, as are keys that are not plain identifiers.
pub fn parse_assignments(content: &str) -> (r: Vec<(String, String)>)
    ensures
        assignment_views(r@) == assignments(lines(content@)),
{
    let v = chars_of(content);
    let ls = lines_of(v.as_slice());
    let ghost all = vviews(ls@);
    let mut r: Vec<(String, String)> = Vec::new();
    let mut i: usize = 0;
    while i < ls.len()
        invariant
            i <= ls.len(),
            all == vviews(ls@),
            assignment_views(r@) == assignments(all.take(i as int)),
        decreases ls.len() - i,
    {
        let ghost pre = all.take(i as int);
        proof {
            let nxt = all.take(i + 1);
            assert(nxt.drop_last() =~= pre);
            assert(nxt.last() == ls@[i as int]@);
        }
        match line_assignment_exec(ls[i].as_slice()) {
            Some(a) => {
                r.push(a);
                assert(assignment_views(r@) =~= assignments(all.take(i + 1)));
            },
            None => {
                assert(assignments(all.take(i + 1)) =~= assignments(pre));
            },
        }
        i = i + 1;
    }
    assert(all.take(ls.len() as int) =~= all);
    r
}

} // verus!
