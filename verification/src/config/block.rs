//! SSH config block extraction for a specific host.

use vstd::prelude::*;

use crate::config::files::ConfigFile;
use crate::error::Error;
use crate::runner::is_err_with;
use crate::text::{
    chars_of, concat2, join, lines, lines_str, push_char, push_chars, push_str, seq_eq, slice_chars,
    split_ws, split_ws_of, starts_with, starts_with_exec, trim, trim_chars, vviews,
};

verus! {

/// Maximum number of lines kept after the `Host` line of a block.
pub const MAX_BLOCK_LINES: usize = 20;

/// What follows a `Host ` or `host ` keyword at the start of a trimmed line.
pub open spec fn host_keyword_rest(t: Seq<char>) -> Option<Seq<char>> {
    if starts_with(t, "Host "@) {
        Some(t.skip("Host "@.len() as int))
    } else if starts_with(t, "host "@) {
        Some(t.skip("host "@.len() as int))
    } else {
        None
    }
}

/// A `Host` line naming `host` among its patterns.
pub open spec fn is_exact_host_line(t: Seq<char>, host: Seq<char>) -> bool {
    host_keyword_rest(t) matches Some(rest) && split_ws(rest).contains(host)
}

/// A line that opens a new `Host` or `Match` block.
pub open spec fn is_host_or_match_line(t: Seq<char>) -> bool {
    ||| starts_with(t, "Host "@)
    ||| starts_with(t, "host "@)
    ||| starts_with(t, "Match "@)
    ||| starts_with(t, "match "@)
}

/// The block text gathered from the lines `ls`: nothing until a `Host` line
/// naming `host`, then that line and the following ones (each with its
/// newline) up to the next `Host`/`Match` line, at most
/// [`MAX_BLOCK_LINES`] of them, `"  ...\n"` marking a cut.
pub open spec fn block_scan(ls: Seq<Seq<char>>, host: Seq<char>, capturing: bool, count: nat) -> Seq<char>
    decreases ls.len(),
{
    if ls.len() == 0 {
        Seq::empty()
    } else {
        let line = ls[0];
        let t = trim(line);
        if capturing {
            if is_host_or_match_line(t) {
                Seq::empty()
            } else if count >= MAX_BLOCK_LINES {
                "  ...\n"@
            } else {
                line + seq!['\n'] + block_scan(ls.drop_first(), host, true, count + 1)
            }
        } else if is_exact_host_line(t, host) {
            line + seq!['\n'] + block_scan(ls.drop_first(), host, true, 0)
        } else {
            block_scan(ls.drop_first(), host, false, count)
        }
    }
}

/// The block for `host` in one file's text, if the file has one.
pub open spec fn host_block(content: Seq<char>, host: Seq<char>) -> Option<Seq<char>> {
    let b = block_scan(lines(content), host, false, 0);
    if b.len() == 0 {
        None
    } else {
        Some(b)
    }
}

/// The lines `ls`, each followed by a newline.
pub open spec fn lines_text(ls: Seq<Seq<char>>) -> Seq<char>
    decreases ls.len(),
{
    if ls.len() == 0 {
        Seq::empty()
    } else {
        ls[0] + seq!['\n'] + lines_text(ls.drop_first())
    }
}

/// The trimmed line `t` begins with one of the keywords that open a new
/// section of an ssh config.
pub open spec fn opens_section(t: Seq<char>) -> bool {
    starts_with(t, "Host "@) || starts_with(t, "host "@) || starts_with(t, "Match "@) || starts_with(t, "match "@)
}

/// What a block gathers once its `Host` line is taken: the lines up to the
/// first one that opens a section (each with its newline), cut after
/// [`MAX_BLOCK_LINES`] lines in all.
proof fn lemma_capture(ls: Seq<Seq<char>>, host: Seq<char>, c: nat) -> (m: int)
    ensures
        0 <= m <= ls.len(),
        block_scan(ls, host, true, c) == lines_text(ls.take(m)) || block_scan(ls, host, true, c) == lines_text(
            ls.take(m),
        ) + "  ...\n"@,
        forall|k: int| 0 <= k < m ==> !opens_section(trim(#[trigger] ls[k])),
    decreases ls.len(),
{
    if ls.len() == 0 {
        assert(ls.take(0) =~= Seq::<Seq<char>>::empty());
        0
    } else if is_host_or_match_line(trim(ls[0])) || c >= MAX_BLOCK_LINES {
        assert(ls.take(0) =~= Seq::<Seq<char>>::empty());
        assert(lines_text(ls.take(0)) == Seq::<char>::empty());
        assert(Seq::<char>::empty() + "  ...\n"@ =~= "  ...\n"@);
        0
    } else {
        let m1 = lemma_capture(ls.drop_first(), host, c + 1);
        let m = m1 + 1;
        assert(ls.take(m).drop_first() =~= ls.drop_first().take(m1));
        assert(ls.take(m)[0] == ls[0]);
        assert(lines_text(ls.take(m)) == ls[0] + seq!['\n'] + lines_text(ls.drop_first().take(m1)));
        assert(block_scan(ls, host, true, c) == ls[0] + seq!['\n'] + block_scan(ls.drop_first(), host, true, c + 1));
        assert((ls[0] + seq!['\n'] + lines_text(ls.drop_first().take(m1))) + "  ...\n"@ =~= ls[0] + seq!['\n']
            + (lines_text(ls.drop_first().take(m1)) + "  ...\n"@));
        assert forall|k: int| 0 <= k < m implies !opens_section(trim(#[trigger] ls[k])) by {
            if k > 0 {
                assert(ls[k] == ls.drop_first()[k - 1]);
            }
        }
        m
    }
}

/// Where a non-empty block of `host` among the lines `ls` comes from: the
/// lines `ls[s..e]`, the first a `Host` line naming `host` and no other
/// opening a section.
proof fn lemma_scan(ls: Seq<Seq<char>>, host: Seq<char>, c: nat) -> (r: (int, int))
    ensures
        block_scan(ls, host, false, c).len() > 0 ==> {
            let (s, e) = r;
            &&& 0 <= s < e <= ls.len()
            &&& host_keyword_rest(trim(ls[s])) matches Some(rest) && split_ws(rest).contains(host)
            &&& (block_scan(ls, host, false, c) == lines_text(ls.subrange(s, e)) || block_scan(ls, host, false, c)
                == lines_text(ls.subrange(s, e)) + "  ...\n"@)
            &&& forall|k: int| s < k < e ==> !opens_section(trim(#[trigger] ls[k]))
        },
    decreases ls.len(),
{
    if ls.len() == 0 {
        (0, 0)
    } else if is_exact_host_line(trim(ls[0]), host) {
        let m = lemma_capture(ls.drop_first(), host, 0);
        let e = m + 1;
        assert(ls.subrange(0, e).drop_first() =~= ls.drop_first().take(m));
        assert(ls.subrange(0, e)[0] == ls[0]);
        assert(lines_text(ls.subrange(0, e)) == ls[0] + seq!['\n'] + lines_text(ls.drop_first().take(m)));
        assert((ls[0] + seq!['\n'] + lines_text(ls.drop_first().take(m))) + "  ...\n"@ =~= ls[0] + seq!['\n']
            + (lines_text(ls.drop_first().take(m)) + "  ...\n"@));
        assert forall|k: int| 0 < k < e implies !opens_section(trim(#[trigger] ls[k])) by {
            assert(ls[k] == ls.drop_first()[k - 1]);
        }
        (0, e)
    } else {
        let (s1, e1) = lemma_scan(ls.drop_first(), host, c);
        if block_scan(ls, host, false, c).len() > 0 {
            assert(ls.subrange(s1 + 1, e1 + 1) =~= ls.drop_first().subrange(s1, e1));
            assert(ls[s1 + 1] == ls.drop_first()[s1]);
            assert forall|k: int| s1 + 1 < k < e1 + 1 implies !opens_section(trim(#[trigger] ls[k])) by {
                assert(ls[k] == ls.drop_first()[k - 1]);
            }
        }
        (s1 + 1, e1 + 1)
    }
}

/// The block found for `host` in a file is a run of the file's lines, each
/// with its newline (and `"  ...\n"` when it was cut): it starts at a
/// `Host`/`host` line naming `host`, and no later line of it begins, once
/// trimmed, with `Host `, `host `, `Match ` or `match `.
pub proof fn law_block_ends_at_next_section(content: Seq<char>, host: Seq<char>)
    ensures
        host_block(content, host) matches Some(b) ==> exists|s: int, e: int|
            {
                &&& 0 <= s < e <= lines(content).len()
                &&& host_keyword_rest(trim(lines(content)[s])) matches Some(rest) && split_ws(rest).contains(host)
                &&& (b == lines_text(#[trigger] lines(content).subrange(s, e)) || b == lines_text(
                    lines(content).subrange(s, e),
                ) + "  ...\n"@)
                &&& forall|k: int|
                    s < k < e ==> !(starts_with(trim(#[trigger] lines(content)[k]), "Host "@) || starts_with(
                        trim(lines(content)[k]),
                        "host "@,
                    ) || starts_with(trim(lines(content)[k]), "Match "@) || starts_with(
                        trim(lines(content)[k]),
                        "match "@,
                    ))
            },
{
    let ls = lines(content);
    let (s, e) = lemma_scan(ls, host, 0);
    if host_block(content, host) is Some {
        assert(ls.subrange(s, e) == ls.subrange(s, e));
    }
}

fn host_keyword_rest_exec(t: &[char]) -> (r: Option<Vec<char>>)
    ensures
        match host_keyword_rest(t@) {
            Some(rest) => r matches Some(v) && v@ == rest,
            None => r is None,
        },
{
    let upper = chars_of("Host ");
    let lower = chars_of("host ");
    if starts_with_exec(t, upper.as_slice()) {
        Some(slice_chars(t, upper.len(), t.len()))
    } else if starts_with_exec(t, lower.as_slice()) {
        Some(slice_chars(t, lower.len(), t.len()))
    } else {
        None
    }
}

/// Whether the trimmed line `t` is a `Host` line naming `host`.
pub fn is_exact_host_line_exec(t: &[char], host: &[char]) -> (r: bool)
    ensures
        r == is_exact_host_line(t@, host@),
{
    match host_keyword_rest_exec(t) {
        None => false,
        Some(rest) => {
            let pats = split_ws_of(rest.as_slice());
            let ghost ps = vviews(pats@);
            let mut i: usize = 0;
            while i < pats.len()
                invariant
                    i <= pats.len(),
                    ps == vviews(pats@),
                    ps == split_ws(rest@),
                    host_keyword_rest(t@) == Some(rest@),
                    forall|k: int| 0 <= k < i ==> ps[k] != host@,
                decreases pats.len() - i,
            {
                if seq_eq(pats[i].as_slice(), host) {
                    assert(ps[i as int] == host@);
                    assert(ps.contains(host@));
                    return true;
                }
                i = i + 1;
            }
            false
        },
    }
}

fn is_host_or_match_line_exec(t: &[char]) -> (r: bool)
    ensures
        r == is_host_or_match_line(t@),
{
    let a = chars_of("Host ");
    let b = chars_of("host ");
    let c = chars_of("Match ");
    let d = chars_of("match ");
    starts_with_exec(t, a.as_slice()) || starts_with_exec(t, b.as_slice())
        || starts_with_exec(t, c.as_slice()) || starts_with_exec(t, d.as_slice())
}

/// Find the config block for `host` within a single file's text.
pub fn find_host_block(host: &str, content: &str) -> (r: Option<String>)
    ensures
        match host_block(content@, host@) {
            Some(b) => r matches Some(s) && s@ == b,
            None => r is None,
        },
{
    let ls = lines_str(content);
    let hv = chars_of(host);
    let ghost all = vviews(ls@);
    let ghost total = block_scan(all, host@, false, 0);
    let mut block = String::new();
    let mut capturing = false;
    let mut count: usize = 0;
    let mut stopped = false;
    let mut i: usize = 0;
    assert(all.skip(0) =~= all);
    while i < ls.len() && !stopped
        invariant
            i <= ls.len(),
            all == vviews(ls@),
            hv@ == host@,
            total == block_scan(all, host@, false, 0),
            count <= MAX_BLOCK_LINES,
            !stopped ==> block@ + block_scan(all.skip(i as int), host@, capturing, count as nat) == total,
            stopped ==> block@ == total,
        decreases ls.len() - i,
    {
        let ghost rest = all.skip(i as int);
        assert(rest[0] == ls@[i as int]@);
        assert(rest.drop_first() =~= all.skip(i + 1));
        let t = trim_chars(ls[i].as_slice());
        if capturing {
            if is_host_or_match_line_exec(t.as_slice()) {
                stopped = true;
                assert(block@ =~= total);
            } else if count >= MAX_BLOCK_LINES {
                push_str(&mut block, "  ...\n");
                stopped = true;
                assert(block@ =~= total);
            } else {
                push_chars(&mut block, ls[i].as_slice());
                push_char(&mut block, '\n');
                count = count + 1;
                assert(block@ + block_scan(all.skip(i + 1), host@, true, count as nat) =~= total);
            }
        } else if is_exact_host_line_exec(t.as_slice(), hv.as_slice()) {
            push_chars(&mut block, ls[i].as_slice());
            push_char(&mut block, '\n');
            capturing = true;
            count = 0;
            assert(block@ + block_scan(all.skip(i + 1), host@, true, 0) =~= total);
        }
        i = i + 1;
    }
    if !stopped {
        assert(all.skip(i as int) =~= Seq::<Seq<char>>::empty());
        assert(block@ =~= total);
    }
    if block.as_str().is_empty() {
        None
    } else {
        Some(block)
    }
}

/// The text shown for one file's block: a `# <path>` header line, then the
/// block.
pub open spec fn host_section(path: Seq<char>, content: Seq<char>, host: Seq<char>) -> Option<Seq<char>> {
    match host_block(content, host) {
        Some(b) => Some("# "@ + path + seq!['\n'] + b),
        None => None,
    }
}

/// The sections of the readable files of `files` that hold a block for
/// `host`, in file order.
pub open spec fn host_sections(files: Seq<ConfigFile>, host: Seq<char>) -> Seq<Seq<char>>
    decreases files.len(),
{
    if files.len() == 0 {
        Seq::empty()
    } else {
        host_sections(files.drop_last(), host) + match files.last().content {
            Ok(c) => match host_section(files.last().path@, c@, host) {
                Some(s) => seq![s],
                None => Seq::empty(),
            },
            Err(_) => Seq::empty(),
        }
    }
}

/// Index of the first file of `files` that could not be read.
pub open spec fn first_unreadable(files: Seq<ConfigFile>) -> Option<int>
    decreases files.len(),
{
    if files.len() == 0 {
        None
    } else {
        match first_unreadable(files.drop_last()) {
            Some(i) => Some(i),
            None => if files.last().content is Err {
                Some(files.len() - 1)
            } else {
                None
            },
        }
    }
}

/// The first unreadable file of a prefix is the first of the whole list.
pub proof fn lemma_first_unreadable_prefix(files: Seq<ConfigFile>, j: int)
    requires
        0 <= j <= files.len(),
        first_unreadable(files.take(j)) is Some,
    ensures
        first_unreadable(files) == first_unreadable(files.take(j)),
    decreases files.len() - j,
{
    if j < files.len() {
        assert(files.take(j + 1).drop_last() =~= files.take(j));
        lemma_first_unreadable_prefix(files, j + 1);
    } else {
        assert(files.take(j) =~= files);
    }
}

/// `join` of a sequence grown by one part.
pub proof fn lemma_join_push(parts: Seq<Seq<char>>, x: Seq<char>, sep: Seq<char>)
    ensures
        join(parts.push(x), sep) == if parts.len() == 0 {
            x
        } else {
            join(parts, sep) + sep + x
        },
{
    assert(parts.push(x).drop_last() =~= parts);
    if parts.len() == 0 {
        assert(parts.push(x).len() == 1);
    }
}

/// The first unreadable file's error, under `prefix` followed by its path.
pub open spec fn unreadable_error<T>(files: Seq<ConfigFile>, i: int, prefix: Seq<char>, r: Result<T, Error>) -> bool {
    match files[i].content {
        Err(e) => is_err_with(r, seq![prefix + files[i].path@] + e@),
        Ok(_) => false,
    }
}

/// Extract the SSH config block for `host` from the config files.
///
/// Each file contributes a `# <path>` header and its block; blocks of
/// several files are separated by a newline. Without any block the result
/// is `"No config found for <host>"`. A file that could not be read fails
/// the whole extraction.
pub fn extract_host(host: &str, config_files: &[ConfigFile]) -> (r: Result<String, Error>)
    ensures
        match first_unreadable(config_files@) {
            Some(i) => unreadable_error(config_files@, i, "failed to read config file: "@, r),
            None => r matches Ok(s) && s@ == if host_sections(config_files@, host@).len() == 0 {
                "No config found for "@ + host@
            } else {
                join(host_sections(config_files@, host@), seq!['\n'])
            },
        },
{
    let mut result = String::new();
    let mut i: usize = 0;
    while i < config_files.len()
        invariant
            i <= config_files.len(),
            first_unreadable(config_files@.take(i as int)) is None,
            result@ == join(host_sections(config_files@.take(i as int), host@), seq!['\n']),
            (host_sections(config_files@.take(i as int), host@).len() == 0) == (result@.len() == 0),
        decreases config_files.len() - i,
    {
        let ghost pre = config_files@.take(i as int);
        let ghost nxt = config_files@.take(i + 1);
        assert(nxt.drop_last() =~= pre);
        assert(nxt.last() == config_files@[i as int]);
        match &config_files[i].content {
            Err(e) => {
                proof {
                    lemma_first_unreadable_prefix(config_files@, i + 1);
                }
                return Err(e.duplicate().context(concat2("failed to read config file: ", config_files[i].path.as_str())));
            },
            Ok(c) => {
                let ghost before = host_sections(pre, host@);
                match find_host_block(host, c.as_str()) {
                    Some(b) => {
                        if !result.as_str().is_empty() {
                            push_char(&mut result, '\n');
                        }
                        push_str(&mut result, "# ");
                        push_str(&mut result, config_files[i].path.as_str());
                        push_char(&mut result, '\n');
                        push_str(&mut result, b.as_str());
                        proof {
                            lemma_join_push(before, "# "@ + config_files@[i as int].path@ + seq!['\n'] + b@, seq!['\n']);
                        }
                        assert(host_sections(nxt, host@) =~= before.push("# "@ + config_files@[i as int].path@ + seq!['\n'] + b@));
                        assert(result@ =~= join(host_sections(nxt, host@), seq!['\n']));
                    },
                    None => {
                        assert(host_sections(nxt, host@) =~= before);
                    },
                }
            },
        }
        i = i + 1;
    }
    assert(config_files@.take(i as int) =~= config_files@);
    if result.as_str().is_empty() {
        return Ok(concat2("No config found for ", host));
    }
    Ok(result)
}

} // verus!
