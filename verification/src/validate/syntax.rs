//! Syntax validation via `ssh -G`.

use vstd::prelude::*;
use crate::runner::RequestLog;

use crate::check_types::{msgs_view, push_message, tag_text, tagged, CheckLevel, CheckMessage};
use crate::error::{full_text, Error};
use crate::runner::CommandRunner;
use crate::text::{chars_of, contains_exec, contains_str, lines, lines_str, push_str, string_from, sviews, to_lowercase, trim, trim_chars, lowercase, vviews};

verus! {

/// The host name resolved to exercise the config's syntax.
pub const DUMMY_HOST: &'static str = "syntax.check.dummy.host";

/// A line of `ssh`'s error output that names a problem: its lower-case
/// form mentions `error`, `bad`, `unknown` or `invalid`.
pub open spec fn is_problem_line(line: Seq<char>) -> bool {
    let lower = lowercase(line);
    contains_str(lower, "error"@) || contains_str(lower, "bad"@) || contains_str(lower, "unknown"@)
        || contains_str(lower, "invalid"@)
}

/// One `[syntax]` error message per problem line of `ls`, trimmed.
pub open spec fn problem_messages(ls: Seq<Seq<char>>) -> Seq<(CheckLevel, Seq<char>)>
    decreases ls.len(),
{
    if ls.len() == 0 {
        Seq::empty()
    } else {
        problem_messages(ls.drop_last()) + if is_problem_line(ls.last()) {
            seq![(CheckLevel::Error, tagged("syntax"@, trim(ls.last())))]
        } else {
            Seq::empty()
        }
    }
}

/// The messages for a failed resolution whose error chain is `chain`: one
/// per problem line of its full text, or else one reporting the whole text.
pub open spec fn syntax_messages(chain: Seq<Seq<char>>) -> Seq<(CheckLevel, Seq<char>)> {
    let text = full_text(chain);
    let found = problem_messages(lines(text));
    if found.len() == 0 {
        seq![(CheckLevel::Error, tagged("syntax"@, "SSH config syntax error: "@ + text))]
    } else {
        found
    }
}

/// Run an SSH syntax check by resolving a dummy host.
///
/// Resolves [`DUMMY_HOST`] with `ssh -G`; a failure is turned into error
/// messages. The check itself always succeeds.
pub fn check<R: CommandRunner>(runner: &R, log: &mut RequestLog, config_args: &[String]) -> (r: Result<Vec<CheckMessage>, Error>)
    ensures
        exists|o: Result<String, Error>|
            {
                &&& #[trigger] runner.resolve_reply(DUMMY_HOST@, sviews(config_args@), o)
                &&& r matches Ok(v) && msgs_view(v@) == match o {
                    Ok(_) => Seq::empty(),
                    Err(e) => syntax_messages(e@),
                }
            },
{
    let result = runner.ssh_resolve(log, DUMMY_HOST, config_args);
    let ghost o = result;
    match result {
        Ok(_) => {
            let v: Vec<CheckMessage> = Vec::new();
            assert(msgs_view(v@) =~= Seq::empty());
            Ok(v)
        },
        Err(e) => {
            let err_str = e.full_message();
            let ls = lines_str(err_str.as_str());
            let ghost all = vviews(ls@);
            let mut messages: Vec<CheckMessage> = Vec::new();
            let mut i: usize = 0;
            while i < ls.len()
                invariant
                    i <= ls.len(),
                    all == vviews(ls@),
                    msgs_view(messages@) == problem_messages(all.take(i as int)),
                decreases ls.len() - i,
            {
                let ghost pre = all.take(i as int);
                assert(all.take(i + 1).drop_last() =~= pre);
                assert(all.take(i + 1).last() == ls@[i as int]@);
                let line = string_from(ls[i].as_slice());
                let lower = to_lowercase(line.as_str());
                let lv = chars_of(lower.as_str());
                let hit = contains_exec(lv.as_slice(), chars_of("error").as_slice())
                    || contains_exec(lv.as_slice(), chars_of("bad").as_slice())
                    || contains_exec(lv.as_slice(), chars_of("unknown").as_slice())
                    || contains_exec(lv.as_slice(), chars_of("invalid").as_slice());
                if hit {
                    let t = trim_chars(ls[i].as_slice());
                    let ts = string_from(t.as_slice());
                    push_message(&mut messages, CheckLevel::Error, tag_text("syntax", ts.as_str()));
                }
                assert(msgs_view(messages@) =~= problem_messages(all.take(i + 1)));
                i = i + 1;
            }
            assert(all.take(ls.len() as int) =~= all);
            if messages.len() == 0 {
                let mut text = tag_text("syntax", "SSH config syntax error: ");
                push_str(&mut text, err_str.as_str());
                assert(text@ =~= tagged("syntax"@, "SSH config syntax error: "@ + err_str@));
                push_message(&mut messages, CheckLevel::Error, text);
            }
            Ok(messages)
        },
    }
}

} // verus!
