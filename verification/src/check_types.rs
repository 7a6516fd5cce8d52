//! Validation result types and the summary line of a validation run.

use vstd::prelude::*;

use crate::text::{nat_decimal, push_str, u64_digits, push_chars};

verus! {

/// Level of a validation message.
#[derive(Debug, Clone, Copy, PartialEq, Eq, Structural)]
pub enum CheckLevel {
    /// Hard failure that should block usage.
    Error,
    /// Soft issue that may indicate misconfiguration.
    Warn,
    /// Informational notice (not an error or warning).
    Info,
}

/// A single validation message.
#[derive(Debug, Clone)]
pub struct CheckMessage {
    /// Severity level.
    pub level: CheckLevel,
    /// Human-readable description.
    pub text: String,
}

/// Result of running all validation checks.
#[derive(Debug)]
pub struct ValidationResult {
    /// All collected messages.
    pub messages: Vec<CheckMessage>,
    /// Count of error-level messages.
    pub error_count: usize,
    /// Count of warning-level messages.
    pub warn_count: usize,
}

/// What a message says: its level and its text.
pub open spec fn msg_view(m: CheckMessage) -> (CheckLevel, Seq<char>) {
    (m.level, m.text@)
}

/// What a list of messages says, message by message.
pub open spec fn msgs_view(ms: Seq<CheckMessage>) -> Seq<(CheckLevel, Seq<char>)> {
    ms.map_values(|m: CheckMessage| msg_view(m))
}

/// `text` under the `[<tag>] ` prefix every check message carries.
pub open spec fn tagged(tag: Seq<char>, text: Seq<char>) -> Seq<char> {
    "["@ + tag + "] "@ + text
}

/// Build `"[<tag>] <text>"`.
pub fn tag_text(tag: &str, text: &str) -> (r: String)
    ensures
        r@ == tagged(tag@, text@),
{
    let mut r = String::new();
    push_str(&mut r, "[");
    push_str(&mut r, tag);
    push_str(&mut r, "] ");
    push_str(&mut r, text);
    r
}

/// A message with the given level and text.
pub fn new_message(level: CheckLevel, text: String) -> (m: CheckMessage)
    ensures
        msg_view(m) == (level, text@),
{
    CheckMessage { level, text }
}

/// Append a message to a list.
pub fn push_message(ms: &mut Vec<CheckMessage>, level: CheckLevel, text: String)
    ensures
        msgs_view(final(ms)@) == msgs_view(old(ms)@).push((level, text@)),
{
    ms.push(CheckMessage { level, text });
    assert(msgs_view(ms@) =~= msgs_view(old(ms)@).push((level, text@)));
}

/// Append every message of `more` to `ms`.
pub fn append_messages(ms: &mut Vec<CheckMessage>, more: Vec<CheckMessage>)
    ensures
        msgs_view(final(ms)@) == msgs_view(old(ms)@) + msgs_view(more@),
{
    let mut more = more;
    let ghost start = msgs_view(ms@);
    let ghost all = msgs_view(more@);
    let mut rest: Vec<CheckMessage> = Vec::new();
    // Reverse `more` so that popping yields its messages in order.
    while more.len() > 0
        invariant
            msgs_view(more@) + msgs_view(rest@).reverse() == all,
        decreases more.len(),
    {
        let ghost before_more = more@;
        let ghost before_rest = rest@;
        let m = more.pop().unwrap();
        rest.push(m);
        assert(msgs_view(more@) + msgs_view(rest@).reverse() =~= all) by {
            assert(before_more =~= more@.push(m));
            assert(rest@ =~= before_rest.push(m));
            assert(msgs_view(rest@).reverse() =~= seq![msg_view(m)] + msgs_view(before_rest).reverse());
            assert(msgs_view(before_more) =~= msgs_view(more@).push(msg_view(m)));
        }
    }
    assert(msgs_view(rest@).reverse() =~= all);
    while rest.len() > 0
        invariant
            msgs_view(ms@) + msgs_view(rest@).reverse() == start + all,
        decreases rest.len(),
    {
        let ghost before_rest = rest@;
        let ghost before_ms = msgs_view(ms@);
        let m = rest.pop().unwrap();
        ms.push(m);
        assert(msgs_view(ms@) + msgs_view(rest@).reverse() =~= start + all) by {
            assert(before_rest =~= rest@.push(m));
            assert(msgs_view(before_rest).reverse() =~= seq![msg_view(m)] + msgs_view(rest@).reverse());
            assert(msgs_view(ms@) =~= before_ms.push(msg_view(m)));
        }
    }
    assert(msgs_view(ms@) =~= start + all);
}

/// Summary shown when no check reported an error or a warning.
pub const ALL_PASSED: &'static str = "\x1b[32m\u{2713} All checks passed.\x1b[0m";

/// The coloured `"<n> error(s)"` part of a summary.
pub open spec fn error_part(n: nat) -> Seq<char> {
    "\x1b[31m"@ + nat_decimal(n) + " error(s)\x1b[0m"@
}

/// The coloured `"<n> warning(s)"` part of a summary.
pub open spec fn warn_part(n: nat) -> Seq<char> {
    "\x1b[33m"@ + nat_decimal(n) + " warning(s)\x1b[0m"@
}

/// The summary line for the given error and warning counts.
pub open spec fn summary_text(errors: nat, warns: nat) -> Seq<char> {
    if errors == 0 && warns == 0 {
        ALL_PASSED@
    } else if errors > 0 && warns > 0 {
        error_part(errors) + ", "@ + warn_part(warns)
    } else if errors > 0 {
        error_part(errors)
    } else {
        warn_part(warns)
    }
}

/// The summary says that all checks passed exactly when there is neither
/// an error nor a warning.
pub proof fn law_summary_all_passed(errors: nat, warns: nat)
    ensures
        (summary_text(errors, warns) == ALL_PASSED@) <==> (errors == 0 && warns == 0),
{
    reveal_strlit("\x1b[32m\u{2713} All checks passed.\x1b[0m");
    reveal_strlit("\x1b[31m");
    reveal_strlit("\x1b[33m");
    if !(errors == 0 && warns == 0) {
        let s = summary_text(errors, warns);
        assert(ALL_PASSED@[3] == '2');
        if errors > 0 {
            let e = error_part(errors);
            assert(e[3] == '1');
            if warns > 0 {
                assert(s[3] == e[3]);
            }
            assert(s[3] == '1');
        } else {
            let w = warn_part(warns);
            assert(w[3] == '3');
            assert(s[3] == '3');
        }
    }
}

/// Format a coloured summary line for the validation result.
pub fn format_summary(result: &ValidationResult) -> (r: String)
    ensures
        r@ == summary_text(result.error_count as nat, result.warn_count as nat),
{
    if result.error_count == 0 && result.warn_count == 0 {
        let mut r = String::new();
        push_str(&mut r, ALL_PASSED);
        return r;
    }
    let mut r = String::new();
    if result.error_count > 0 {
        push_str(&mut r, "\x1b[31m");
        let d = u64_digits(result.error_count as u64);
        push_chars(&mut r, d.as_slice());
        push_str(&mut r, " error(s)\x1b[0m");
    }
    if result.warn_count > 0 {
        if result.error_count > 0 {
            push_str(&mut r, ", ");
        }
        push_str(&mut r, "\x1b[33m");
        let d = u64_digits(result.warn_count as u64);
        push_chars(&mut r, d.as_slice());
        push_str(&mut r, " warning(s)\x1b[0m");
    }
    assert(r@ =~= summary_text(result.error_count as nat, result.warn_count as nat));
    r
}

} // verus!
