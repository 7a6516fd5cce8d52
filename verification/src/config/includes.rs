//! SSH config `Include` directive resolution.
//!
//! The walk over the included files is a state machine: it asks its driver
//! for a path's canonical form, a file's text and a pattern's glob matches,
//! and decides from each answer what to ask next. Files are visited depth
//! first in the order their `Include` lines name them; a file whose
//! canonical form was entered before is skipped, so cycles end.

use vstd::prelude::*;

use crate::error::Error;
use crate::text::{
    chars_of, concat2, eq_ignore_ascii_case, eq_ignore_ascii_case_exec, lines, lines_str, owned, slice_chars,
    split_ws, split_ws_of, string_from, strings_from, sviews, trim, trim_chars, vviews,
};
use crate::util::path::{join_path, path_join};

verus! {

/// The `Include` patterns of one line: a trimmed line that is not a comment,
/// starts with the keyword `INCLUDE` in any case and then a space or tab, names the
/// whitespace-separated patterns after the keyword.
pub open spec fn line_patterns(line: Seq<char>) -> Seq<Seq<char>> {
    let t = trim(line);
    if t.len() == 0 || t[0] == '#' {
        Seq::empty()
    } else if t.len() > 7 && eq_ignore_ascii_case(t.take(7), "INCLUDE"@) && (t[7] == ' ' || t[7] == '\t') {
        split_ws(trim(t.skip(7)))
    } else {
        Seq::empty()
    }
}

/// The `Include` patterns of the lines `ls`, in order.
pub open spec fn content_patterns(ls: Seq<Seq<char>>) -> Seq<Seq<char>>
    decreases ls.len(),
{
    if ls.len() == 0 {
        Seq::empty()
    } else {
        content_patterns(ls.drop_last()) + line_patterns(ls.last())
    }
}

/// The `Include` patterns of one line.
fn line_patterns_exec(line: &[char]) -> (r: Vec<String>)
    ensures
        sviews(r@) == line_patterns(line@),
{
    let t = trim_chars(line);
    if t.len() == 0 || t[0] == '#' {
        return Vec::new();
    }
    let kw = chars_of("INCLUDE");
    proof {
        reveal_strlit("INCLUDE");
    }
    if t.len() > 7 {
        let head = slice_chars(t.as_slice(), 0, 7);
        assert(head@ =~= t@.take(7));
        if eq_ignore_ascii_case_exec(head.as_slice(), kw.as_slice()) && (t[7] == ' ' || t[7] == '\t') {
            let rest = slice_chars(t.as_slice(), 7, t.len());
            assert(rest@ =~= t@.skip(7));
            let body = trim_chars(rest.as_slice());
            let pats = split_ws_of(body.as_slice());
            return strings_from(&pats);
        }
    }
    Vec::new()
}

/// The `Include` patterns of a config file's text, in order.
pub fn include_patterns(content: &str) -> (r: Vec<String>)
    ensures
        sviews(r@) == content_patterns(lines(content@)),
{
    let ls = lines_str(content);
    let ghost all = vviews(ls@);
    let mut r: Vec<String> = Vec::new();
    let mut i: usize = 0;
    while i < ls.len()
        invariant
            i <= ls.len(),
            all == vviews(ls@),
            sviews(r@) == content_patterns(all.take(i as int)),
        decreases ls.len() - i,
    {
        assert(all.take(i + 1).drop_last() =~= all.take(i as int));
        assert(all.take(i + 1).last() == ls@[i as int]@);
        let more = line_patterns_exec(ls[i].as_slice());
        let ghost before = sviews(r@);
        let mut j: usize = 0;
        while j < more.len()
            invariant
                j <= more.len(),
                sviews(r@) == before + sviews(more@).take(j as int),
            decreases more.len() - j,
        {
            let ghost b2 = sviews(r@);
            r.push(more[j].clone());
            assert(sviews(r@) =~= b2.push(sviews(more@)[j as int]));
            j = j + 1;
            assert(sviews(r@) =~= before + sviews(more@).take(j as int));
        }
        assert(sviews(more@).take(more.len() as int) =~= sviews(more@));
        i = i + 1;
    }
    assert(all.take(ls.len() as int) =~= all);
    r
}

/// The glob pattern an `Include` pattern stands for: a leading `~` (and the
/// `/` after it) is the home directory `home`, an absolute pattern stays,
/// and any other is relative to the SSH directory `ssh_home`.
pub open spec fn include_glob(pattern: Seq<char>, ssh_home: Seq<char>, home: Seq<char>) -> Seq<char> {
    if pattern.len() > 0 && pattern[0] == '~' {
        let rest = pattern.skip(1);
        let rest = if rest.len() > 0 && rest[0] == '/' {
            rest.skip(1)
        } else {
            rest
        };
        path_join(home, rest)
    } else if pattern.len() > 0 && pattern[0] == '/' {
        pattern
    } else {
        path_join(ssh_home, pattern)
    }
}

/// Resolve an `Include` pattern to the glob pattern to expand.
pub fn include_glob_of(pattern: &str, ssh_home: &str, home: &str) -> (r: String)
    ensures
        r@ == include_glob(pattern@, ssh_home@, home@),
{
    let v = chars_of(pattern);
    if v.len() > 0 && v[0] == '~' {
        let from: usize = if v.len() > 1 && v[1] == '/' {
            2
        } else {
            1
        };
        let rest = string_from(slice_chars(v.as_slice(), from, v.len()).as_slice());
        assert(rest@ =~= if pattern@.skip(1).len() > 0 && pattern@.skip(1)[0] == '/' {
            pattern@.skip(1).skip(1)
        } else {
            pattern@.skip(1)
        });
        join_path(home, rest.as_str())
    } else if v.len() > 0 && v[0] == '/' {
        owned(pattern)
    } else {
        join_path(ssh_home, pattern)
    }
}

/// A pending step of the walk.
#[derive(Debug)]
pub enum IncludeTask {
    /// Enter the config file `path`, reached through the files of `chain`
    /// (the root first, `path` last).
    Visit { path: String, chain: Vec<String> },
    /// Expand the glob `pattern` named by the last file of `chain`.
    Expand { pattern: String, chain: Vec<String> },
}

/// What the walk needs next from its driver.
#[derive(Debug)]
pub enum IncludeRequest {
    /// The canonical form of this path (the path itself when it has none);
    /// answer with [`IncludeWalk::canonicalized`].
    Canonicalize(String),
    /// The paths matching this glob pattern, in the glob's order; answer
    /// with [`IncludeWalk::globbed`].
    Glob(String),
    /// The walk is over: the config files in the order they were entered,
    /// or the error that ended it.
    Done(Result<Vec<String>, Error>),
}

/// The abstract view of a pending step: whether it visits (else expands),
/// its path or pattern, and its chain.
pub open spec fn task_view(t: IncludeTask) -> (bool, Seq<char>, Seq<Seq<char>>) {
    match t {
        IncludeTask::Visit { path, chain } => (true, path@, sviews(chain@)),
        IncludeTask::Expand { pattern, chain } => (false, pattern@, sviews(chain@)),
    }
}

/// The state of an `Include` walk.
pub struct IncludeWalk {
    root: String,
    ssh_home: String,
    home: String,
    visited: Vec<String>,
    result: Vec<String>,
    stack: Vec<IncludeTask>,
    current: Option<(String, Vec<String>)>,
    expanding: Option<(String, Vec<String>)>,
}

/// The contexts an error gets on its way out through the files of `chain`.
pub open spec fn chain_contexts(chain: Seq<Seq<char>>) -> Seq<Seq<char>> {
    chain.map_values(|p: Seq<char>| "failed to resolve includes from "@ + p)
}

impl IncludeWalk {
    /// The canonical forms of the files entered so far.
    pub closed spec fn visited_view(&self) -> Seq<Seq<char>> {
        sviews(self.visited@)
    }

    /// The files entered so far, in order.
    pub closed spec fn result_view(&self) -> Seq<Seq<char>> {
        sviews(self.result@)
    }

    /// The pending steps, the next one last.
    pub closed spec fn stack_view(&self) -> Seq<(bool, Seq<char>, Seq<Seq<char>>)> {
        self.stack@.map_values(|t: IncludeTask| task_view(t))
    }

    /// The file whose canonical form or text is awaited, with its chain.
    pub closed spec fn current_view(&self) -> Option<(Seq<char>, Seq<Seq<char>>)> {
        match self.current {
            Some((p, c)) => Some((p@, sviews(c@))),
            None => None,
        }
    }

    /// The pattern whose glob matches are awaited, with its chain.
    pub closed spec fn expanding_view(&self) -> Option<(Seq<char>, Seq<Seq<char>>)> {
        match self.expanding {
            Some((p, c)) => Some((p@, sviews(c@))),
            None => None,
        }
    }

    /// The SSH directory and home directory the patterns resolve against.
    pub closed spec fn dirs(&self) -> (Seq<char>, Seq<char>) {
        (self.ssh_home@, self.home@)
    }

    /// The config file the walk started at.
    pub closed spec fn root_view(&self) -> Seq<char> {
        self.root@
    }

    /// Nothing is entered yet: the root's visit is pending, or its
    /// canonical form is awaited.
    closed spec fn root_pending(&self) -> bool {
        &&& self.expanding is None
        &&& {
            ||| self.current is None && self.stack@.len() == 1 && task_view(self.stack@[0]).0 && task_view(
                self.stack@[0],
            ).1 == self.root@
            ||| self.stack@.len() == 0 && match self.current {
                Some((p, _)) => p@ == self.root@,
                None => false,
            }
        }
    }

    /// Every file entered is recorded once, under a canonical form entered
    /// once; the root is entered first; at most one answer is awaited.
    pub closed spec fn wf(&self) -> bool {
        &&& self.result@.len() > 0 ==> self.result@[0]@ == self.root@
        &&& self.result@.len() == 0 ==> self.root_pending()
        &&& self.visited@.len() == self.result@.len()
        &&& forall|i: int, j: int|
            0 <= i < j < self.visited@.len() ==> self.visited@[i]@ != self.visited@[j]@
        &&& !(self.current is Some && self.expanding is Some)
    }
}

/// The tasks pushed for the patterns `pats` of a file reached through
/// `chain`: one expansion per pattern, the first pattern on top.
pub open spec fn expand_tasks(
    pats: Seq<Seq<char>>,
    ssh_home: Seq<char>,
    home: Seq<char>,
    chain: Seq<Seq<char>>,
) -> Seq<(bool, Seq<char>, Seq<Seq<char>>)> {
    Seq::new(pats.len(), |i: int| (false, include_glob(pats[pats.len() - 1 - i], ssh_home, home), chain))
}

/// The tasks pushed for the glob matches `paths` of a pattern of a file
/// reached through `chain`: one visit per match, the first match on top.
pub open spec fn visit_tasks(paths: Seq<Seq<char>>, chain: Seq<Seq<char>>) -> Seq<(bool, Seq<char>, Seq<Seq<char>>)> {
    Seq::new(paths.len(), |i: int| (true, paths[paths.len() - 1 - i], chain.push(paths[paths.len() - 1 - i])))
}

fn copy_chain(chain: &Vec<String>) -> (r: Vec<String>)
    ensures
        sviews(r@) == sviews(chain@),
{
    let r = crate::text::copy_strings_of(chain);
    r
}

fn chain_error(chain: &Vec<String>, what: String, e: Error) -> (r: Error)
    ensures
        r@ == chain_contexts(sviews(chain@)) + seq![what@] + e@,
{
    let mut err = e.context(what);
    let mut i: usize = chain.len();
    while i > 0
        invariant
            i <= chain.len(),
            err@ == chain_contexts(sviews(chain@)).skip(i as int) + seq![what@] + e@,
        decreases i,
    {
        i = i - 1;
        let ghost before = err@;
        err = err.context(concat2("failed to resolve includes from ", chain[i].as_str()));
        assert(chain_contexts(sviews(chain@)).skip(i as int) =~= seq![chain_contexts(sviews(chain@))[i as int]]
            + chain_contexts(sviews(chain@)).skip(i + 1));
        assert(err@ =~= chain_contexts(sviews(chain@)).skip(i as int) + seq![what@] + e@);
    }
    assert(chain_contexts(sviews(chain@)).skip(0) =~= chain_contexts(sviews(chain@)));
    err
}

impl IncludeWalk {
    /// Start a walk at the config file `config_path`; `ssh_home` is the SSH
    /// directory relative patterns start from and `home` expands `~`.
    pub fn new(config_path: &str, ssh_home: &str, home: &str) -> (w: IncludeWalk)
        ensures
            w.wf(),
            w.visited_view().len() == 0,
            w.result_view().len() == 0,
            w.stack_view() == seq![(true, config_path@, seq![config_path@])],
            w.current_view() is None,
            w.expanding_view() is None,
            w.dirs() == (ssh_home@, home@),
            w.root_view() == config_path@,
    {
        let mut chain: Vec<String> = Vec::new();
        chain.push(owned(config_path));
        assert(sviews(chain@) =~= seq![config_path@]);
        let mut stack: Vec<IncludeTask> = Vec::new();
        stack.push(IncludeTask::Visit { path: owned(config_path), chain });
        let w = IncludeWalk {
            root: owned(config_path),
            ssh_home: owned(ssh_home),
            home: owned(home),
            visited: Vec::new(),
            result: Vec::new(),
            stack,
            current: None,
            expanding: None,
        };
        assert(w.stack_view() =~= seq![(true, config_path@, seq![config_path@])]);
        assert(w.visited_view() =~= Seq::<Seq<char>>::empty());
        w
    }

    /// The next request of a walk that awaits no answer: the canonical form
    /// of the next file to visit, the matches of the next pattern, or the
    /// end with every file entered.
    pub fn next(&mut self) -> (r: IncludeRequest)
        requires
            old(self).wf(),
            old(self).current_view() is None,
            old(self).expanding_view() is None,
        ensures
            final(self).wf(),
            final(self).visited_view() == old(self).visited_view(),
            final(self).result_view() == old(self).result_view(),
            final(self).dirs() == old(self).dirs(),
            final(self).root_view() == old(self).root_view(),
            old(self).stack_view().len() == 0 ==> final(self).stack_view().len() == 0 && final(self).current_view() is None
                && final(self).expanding_view() is None && (r matches IncludeRequest::Done(Ok(v))
                && sviews(v@) == old(self).result_view() && sviews(v@).len() > 0 && sviews(v@)[0]
                == old(self).root_view()),
            old(self).stack_view().len() > 0 ==> final(self).stack_view() == old(self).stack_view().drop_last(),
            old(self).stack_view().len() > 0 && old(self).stack_view().last().0 ==> (r matches IncludeRequest::Canonicalize(p)
                && p@ == old(self).stack_view().last().1) && final(self).current_view() == Some(
                (old(self).stack_view().last().1, old(self).stack_view().last().2),
            ) && final(self).expanding_view() is None,
            old(self).stack_view().len() > 0 && !old(self).stack_view().last().0 ==> (r matches IncludeRequest::Glob(p)
                && p@ == old(self).stack_view().last().1) && final(self).expanding_view() == Some(
                (old(self).stack_view().last().1, old(self).stack_view().last().2),
            ) && final(self).current_view() is None,
    {
        let ghost old_stack = self.stack_view();
        match self.stack.pop() {
            None => {
                let v = crate::text::copy_strings_of(&self.result);
                IncludeRequest::Done(Ok(v))
            },
            Some(task) => {
                assert(self.stack_view() =~= old_stack.drop_last());
                match task {
                    IncludeTask::Visit { path, chain } => {
                        let p = path.clone();
                        self.current = Some((path, chain));
                        IncludeRequest::Canonicalize(p)
                    },
                    IncludeTask::Expand { pattern, chain } => {
                        let p = pattern.clone();
                        self.expanding = Some((pattern, chain));
                        IncludeRequest::Glob(p)
                    },
                }
            },
        }
    }

    /// Answer the canonical form of the awaited file. A file whose canonical
    /// form was entered before is skipped (`None`); otherwise it is entered
    /// and its text is asked for (`Some` of its path).
    pub fn canonicalized(&mut self, canonical: &str) -> (r: Option<String>)
        requires
            old(self).wf(),
            old(self).current_view() is Some,
        ensures
            final(self).wf(),
            final(self).stack_view() == old(self).stack_view(),
            final(self).dirs() == old(self).dirs(),
            final(self).root_view() == old(self).root_view(),
            final(self).expanding_view() is None,
            old(self).visited_view().contains(canonical@) ==> r is None && final(self).current_view() is None
                && final(self).visited_view() == old(self).visited_view() && final(self).result_view()
                == old(self).result_view(),
            !old(self).visited_view().contains(canonical@) ==> (r matches Some(p) && p@
                == old(self).current_view()->Some_0.0) && final(self).current_view() == old(self).current_view()
                && final(self).visited_view() == old(self).visited_view().push(canonical@) && final(self).result_view()
                == old(self).result_view().push(old(self).current_view()->Some_0.0),
    {
        let mut seen = false;
        let mut i: usize = 0;
        while i < self.visited.len()
            invariant
                i <= self.visited.len(),
                seen == exists|k: int| 0 <= k < i && #[trigger] sviews(self.visited@)[k] == canonical@,
            decreases self.visited.len() - i,
        {
            if crate::text::str_eq(self.visited[i].as_str(), canonical) {
                assert(sviews(self.visited@)[i as int] == canonical@);
                seen = true;
            }
            i = i + 1;
        }
        if seen {
            self.current = None;
            return None;
        }
        let ghost old_visited = sviews(self.visited@);
        let ghost old_result = sviews(self.result@);
        self.visited.push(owned(canonical));
        let path = match &self.current {
            Some((p, _)) => p.clone(),
            None => String::new(),
        };
        self.result.push(path.clone());
        assert(sviews(self.visited@) =~= old_visited.push(canonical@));
        assert(sviews(self.result@) =~= old_result.push(path@));
        assert forall|a: int, b: int| 0 <= a < b < self.visited@.len() implies self.visited@[a]@ != self.visited@[b]@ by {
            if b == self.visited@.len() - 1 {
                assert(old_visited[a] == self.visited@[a]@);
            }
        }
        Some(path)
    }

    /// Answer the text of the entered file (or the error reading it gave).
    /// An error ends the walk (`Some` of the error, under the file's
    /// contexts); otherwise the file's `Include` patterns are queued, the
    /// first on top.
    pub fn read(&mut self, content: Result<String, Error>) -> (r: Option<Error>)
        requires
            old(self).wf(),
            old(self).current_view() is Some,
            old(self).result_view().len() > 0,
        ensures
            final(self).wf(),
            final(self).visited_view() == old(self).visited_view(),
            final(self).result_view() == old(self).result_view(),
            final(self).dirs() == old(self).dirs(),
            final(self).root_view() == old(self).root_view(),
            final(self).current_view() is None,
            final(self).expanding_view() is None,
            match content {
                Err(e) => r matches Some(err) && err@ == chain_contexts(old(self).current_view()->Some_0.1) + seq![
                    "Failed to read SSH config: "@ + old(self).current_view()->Some_0.0,
                ] + e@,
                Ok(c) => r is None && final(self).stack_view() == old(self).stack_view() + expand_tasks(
                    content_patterns(lines(c@)),
                    old(self).dirs().0,
                    old(self).dirs().1,
                    old(self).current_view()->Some_0.1,
                ),
            },
    {
        let (path, chain) = match self.current.take() {
            Some(pc) => pc,
            None => (String::new(), Vec::new()),
        };
        match content {
            Err(e) => Some(chain_error(&chain, concat2("Failed to read SSH config: ", path.as_str()), e)),
            Ok(c) => {
                let pats = include_patterns(c.as_str());
                let ghost base = self.stack_view();
                let ghost want = expand_tasks(sviews(pats@), self.ssh_home@, self.home@, sviews(chain@));
                let ghost v0 = self.visited;
                let ghost r0 = self.result;
                let ghost sh0 = self.ssh_home;
                let ghost h0 = self.home;
                let ghost root0 = self.root;
                let mut k: usize = pats.len();
                while k > 0
                    invariant
                        k <= pats.len(),
                        self.root == root0,
                        self.visited == v0,
                        self.result == r0,
                        self.ssh_home == sh0,
                        self.home == h0,
                        self.current is None,
                        self.expanding is None,
                        want == expand_tasks(sviews(pats@), self.ssh_home@, self.home@, sviews(chain@)),
                        self.stack_view() == base + want.take(pats.len() - k),
                    decreases k,
                {
                    k = k - 1;
                    let glob = include_glob_of(pats[k].as_str(), self.ssh_home.as_str(), self.home.as_str());
                    let ghost before = self.stack_view();
                    self.stack.push(IncludeTask::Expand { pattern: glob, chain: copy_chain(&chain) });
                    assert(self.stack_view() =~= before.push(want[pats.len() - 1 - k]));
                    assert(self.stack_view() =~= base + want.take(pats.len() - k));
                }
                assert(want.take(pats.len() as int) =~= want);
                None
            },
        }
    }

    /// Answer the matches of the awaited pattern (or the glob's error). An
    /// error ends the walk (`Some` of the error, under the contexts of the
    /// file that named the pattern); otherwise each match is queued for a
    /// visit, the first on top.
    pub fn globbed(&mut self, found: Result<Vec<String>, Error>) -> (r: Option<Error>)
        requires
            old(self).wf(),
            old(self).expanding_view() is Some,
        ensures
            final(self).wf(),
            final(self).visited_view() == old(self).visited_view(),
            final(self).result_view() == old(self).result_view(),
            final(self).dirs() == old(self).dirs(),
            final(self).root_view() == old(self).root_view(),
            final(self).current_view() is None,
            final(self).expanding_view() is None,
            match found {
                Err(e) => r matches Some(err) && err@ == chain_contexts(old(self).expanding_view()->Some_0.1) + seq![
                    "Invalid glob pattern: "@ + old(self).expanding_view()->Some_0.0,
                ] + e@,
                Ok(paths) => r is None && final(self).stack_view() == old(self).stack_view() + visit_tasks(
                    sviews(paths@),
                    old(self).expanding_view()->Some_0.1,
                ),
            },
    {
        let (pattern, chain) = match self.expanding.take() {
            Some(pc) => pc,
            None => (String::new(), Vec::new()),
        };
        match found {
            Err(e) => Some(chain_error(&chain, concat2("Invalid glob pattern: ", pattern.as_str()), e)),
            Ok(paths) => {
                let ghost base = self.stack_view();
                let ghost want = visit_tasks(sviews(paths@), sviews(chain@));
                let ghost v0 = self.visited;
                let ghost r0 = self.result;
                let ghost sh0 = self.ssh_home;
                let ghost h0 = self.home;
                let ghost root0 = self.root;
                let mut k: usize = paths.len();
                while k > 0
                    invariant
                        k <= paths.len(),
                        self.root == root0,
                        self.visited == v0,
                        self.result == r0,
                        self.ssh_home == sh0,
                        self.home == h0,
                        self.current is None,
                        self.expanding is None,
                        want == visit_tasks(sviews(paths@), sviews(chain@)),
                        self.stack_view() == base + want.take(paths.len() - k),
                    decreases k,
                {
                    k = k - 1;
                    let mut sub = copy_chain(&chain);
                    sub.push(paths[k].clone());
                    let ghost before = self.stack_view();
                    self.stack.push(IncludeTask::Visit { path: paths[k].clone(), chain: sub });
                    assert(sviews(sub@) =~= sviews(chain@).push(paths@[k as int]@));
                    assert(self.stack_view() =~= before.push(want[paths.len() - 1 - k]));
                    assert(self.stack_view() =~= base + want.take(paths.len() - k));
                }
                assert(want.take(paths.len() as int) =~= want);
                None
            },
        }
    }
}

} // verus!
