//! Host prefix wildcard pattern validation.
//!
//! A dotted host alias should be covered by a wildcard pattern
//! (`Host prefix.*`) somewhere in the config files.

use vstd::prelude::*;

use crate::check_types::{msgs_view, push_message, tag_text, tagged, CheckLevel, CheckMessage};
use crate::config::block::{first_unreadable, is_exact_host_line, is_exact_host_line_exec, lemma_first_unreadable_prefix, unreadable_error};
use crate::config::files::ConfigFile;
use crate::error::Error;
use crate::text::{chars_of, concat2, join, join_strings, lines, lines_str, push_char, push_str, split_char, split_char_of, strings_from, take_strings, sviews, trim, trim_chars, vviews};

verus! {

/// Some `Host` line of `content` lists `pattern` among its patterns.
pub open spec fn has_pattern(content: Seq<char>, pattern: Seq<char>) -> bool {
    exists|i: int| 0 <= i < lines(content).len() && #[trigger] is_exact_host_line(trim(lines(content)[i]), pattern)
}

/// Check if a `Host <pattern>` line exists in the config text.
pub fn has_host_pattern(content: &str, pattern: &str) -> (r: bool)
    ensures
        r == has_pattern(content@, pattern@),
{
    let ls = lines_str(content);
    let pv = chars_of(pattern);
    let ghost all = vviews(ls@);
    let mut i: usize = 0;
    while i < ls.len()
        invariant
            i <= ls.len(),
            all == vviews(ls@),
            all == lines(content@),
            pv@ == pattern@,
            forall|k: int| 0 <= k < i ==> !#[trigger] is_exact_host_line(trim(all[k]), pattern@),
        decreases ls.len() - i,
    {
        let t = trim_chars(ls[i].as_slice());
        if is_exact_host_line_exec(t.as_slice(), pv.as_slice()) {
            assert(is_exact_host_line(trim(all[i as int]), pattern@));
            return true;
        }
        i = i + 1;
    }
    false
}

/// The wildcard pattern for the first `n` parts of a dotted alias.
pub open spec fn prefix_pattern(parts: Seq<Seq<char>>, n: int) -> Seq<char> {
    join(parts.take(n), "."@) + ".*"@
}

/// The text of all config files, each followed by a newline.
pub open spec fn combined_text(files: Seq<ConfigFile>) -> Seq<char>
    decreases files.len(),
{
    if files.len() == 0 {
        Seq::empty()
    } else {
        combined_text(files.drop_last()) + match files.last().content {
            Ok(c) => c@ + seq!['\n'],
            Err(_) => Seq::empty(),
        }
    }
}

/// Some prefix pattern of the alias's parts, or `Host *`, is in `text`.
pub open spec fn prefix_covered(parts: Seq<Seq<char>>, text: Seq<char>) -> bool {
    (exists|n: int| 1 <= n < parts.len() && #[trigger] has_pattern(text, prefix_pattern(parts, n)))
        || has_pattern(text, "*"@)
}

/// The message when no wildcard covers `host`: it names the most specific
/// prefix pattern (all parts but the last).
pub open spec fn uncovered_message(host: Seq<char>) -> (CheckLevel, Seq<char>) {
    let parts = split_char(host, '.');
    (
        CheckLevel::Error,
        tagged(host, "No wildcard Host pattern found for prefix (expected e.g. Host "@ + prefix_pattern(parts, parts.len() - 1) + ")"@),
    )
}

/// Check that a host alias with several dot-separated parts is covered by a
/// wildcard pattern of the config files.
///
/// `org.env.host` is covered by `Host org.env.*`, `Host org.*` or `Host *`.
/// An alias without a dot needs nothing, and no file is looked at.
pub fn check(host: &str, config_files: &[ConfigFile]) -> (r: Result<Vec<CheckMessage>, Error>)
    ensures
        split_char(host@, '.').len() < 2 ==> (r matches Ok(v) && v@.len() == 0),
        split_char(host@, '.').len() >= 2 ==> match first_unreadable(config_files@) {
            Some(i) => unreadable_error(config_files@, i, "host_prefix: failed to read config file "@, r),
            None => r matches Ok(v) && msgs_view(v@) == if prefix_covered(
                split_char(host@, '.'),
                combined_text(config_files@),
            ) {
                Seq::empty()
            } else {
                seq![uncovered_message(host@)]
            },
        },
{
    let hv = chars_of(host);
    let parts_v = split_char_of(hv.as_slice(), '.');
    let ghost parts = vviews(parts_v@);
    if parts_v.len() < 2 {
        return Ok(Vec::new());
    }
    let parts_s = strings_from(&parts_v);

    let mut text = String::new();
    let mut i: usize = 0;
    while i < config_files.len()
        invariant
            i <= config_files.len(),
            first_unreadable(config_files@.take(i as int)) is None,
            text@ == combined_text(config_files@.take(i as int)),
            parts_v.len() >= 2,
            parts == vviews(parts_v@),
            parts == split_char(host@, '.'),
        decreases config_files.len() - i,
    {
        let ghost nxt = config_files@.take(i + 1);
        assert(nxt.drop_last() =~= config_files@.take(i as int));
        assert(nxt.last() == config_files@[i as int]);
        match &config_files[i].content {
            Err(e) => {
                proof {
                    lemma_first_unreadable_prefix(config_files@, i + 1);
                }
                return Err(e.duplicate().context(concat2("host_prefix: failed to read config file ", config_files[i].path.as_str())));
            },
            Ok(c) => {
                push_str(&mut text, c.as_str());
                push_char(&mut text, '\n');
            },
        }
        i = i + 1;
    }
    assert(config_files@.take(i as int) =~= config_files@);

    // Most specific prefix first: all parts but the last, then fewer.
    let mut n: usize = parts_v.len() - 1;
    while n >= 1
        invariant
            1 <= parts_v.len() - 1,
            n <= parts_v.len() - 1,
            parts == vviews(parts_v@),
            parts == split_char(host@, '.'),
            sviews(parts_s@) == parts,
            text@ == combined_text(config_files@),
            first_unreadable(config_files@) is None,
            forall|m: int| n < m < parts.len() ==> !#[trigger] has_pattern(text@, prefix_pattern(parts, m)),
        decreases n,
    {
        let first = take_strings(&parts_s, n);
        let mut pat = join_strings(first.as_slice(), ".");
        assert(sviews(first@) =~= parts.take(n as int));
        push_str(&mut pat, ".*");
        if has_host_pattern(text.as_str(), pat.as_str()) {
            assert(has_pattern(text@, prefix_pattern(parts, n as int)));
            return Ok(Vec::new());
        }
        n = n - 1;
    }
    if has_host_pattern(text.as_str(), "*") {
        return Ok(Vec::new());
    }
    let first = take_strings(&parts_s, parts_v.len() - 1);
    let mut expected = join_strings(first.as_slice(), ".");
    assert(sviews(first@) =~= parts.take(parts.len() - 1));
    push_str(&mut expected, ".*");
    let mut msg = tag_text(host, "No wildcard Host pattern found for prefix (expected e.g. Host ");
    push_str(&mut msg, expected.as_str());
    push_str(&mut msg, ")");
    assert(msg@ =~= uncovered_message(host@).1);
    let mut messages: Vec<CheckMessage> = Vec::new();
    push_message(&mut messages, CheckLevel::Error, msg);
    assert(msgs_view(messages@) =~= seq![uncovered_message(host@)]);
    Ok(messages)
}

} // verus!
