//! Human-readable duration formatting.

use vstd::prelude::*;

use crate::text::{nat_decimal, push_chars, push_str, u64_digits};

verus! {

/// `"<n><unit>"` when `shown`, empty otherwise.
pub open spec fn unit_part(shown: bool, n: nat, unit: Seq<char>) -> Seq<char> {
    if shown {
        nat_decimal(n) + unit
    } else {
        Seq::empty()
    }
}

/// The text of a duration of `t` seconds, e.g. `"3d 23h37m29s"`: days,
/// hours and minutes appear from the largest non-zero unit down, seconds
/// always appear, and zero is `"0s"`.
pub open spec fn duration_text(t: nat) -> Seq<char> {
    if t == 0 {
        "0s"@
    } else {
        let days = t / 86400;
        let hours = (t % 86400) / 3600;
        let minutes = (t % 3600) / 60;
        let seconds = t % 60;
        unit_part(days > 0, days, "d "@) + unit_part(days > 0 || hours > 0, hours, "h"@)
            + unit_part(days > 0 || hours > 0 || minutes > 0, minutes, "m"@) + nat_decimal(seconds)
            + "s"@
    }
}

/// Format a duration in seconds as `Xd Yh Zm Ws`.
pub fn format(total_secs: u64) -> (r: String)
    ensures
        r@ == duration_text(total_secs as nat),
{
    if total_secs == 0 {
        let mut r = String::new();
        push_str(&mut r, "0s");
        return r;
    }
    let days = total_secs / 86400;
    let hours = (total_secs % 86400) / 3600;
    let minutes = (total_secs % 3600) / 60;
    let seconds = total_secs % 60;
    let mut r = String::new();
    if days > 0 {
        push_chars(&mut r, u64_digits(days).as_slice());
        push_str(&mut r, "d ");
    }
    if days > 0 || hours > 0 {
        push_chars(&mut r, u64_digits(hours).as_slice());
        push_str(&mut r, "h");
    }
    if days > 0 || hours > 0 || minutes > 0 {
        push_chars(&mut r, u64_digits(minutes).as_slice());
        push_str(&mut r, "m");
    }
    push_chars(&mut r, u64_digits(seconds).as_slice());
    push_str(&mut r, "s");
    assert(r@ =~= duration_text(total_secs as nat));
    r
}

} // verus!
