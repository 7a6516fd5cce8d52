//! Tmux window management: the `@fterm_ssh_count` window option and window
//! renaming, which track the active SSH connections of a window.

use vstd::prelude::*;
use crate::runner::RequestLog;

use crate::error::Error;
use crate::runner::{added, checked_outcome, extends, is_err_with, run_checked, run_req, step_then, CommandOutput, CommandRunner, Request};
use crate::text::{
    chars_of, concat2, is_digit, law_decimal_roundtrip, lemma_nat_decimal_digits, nat_decimal, parse_i64, parse_signed,
    push_str, strviews, trim, trim_chars,
};
use crate::tmux::session::ran;

verus! {

/// Tmux format that adds one to `@fterm_ssh_count` (an unset count is 0).
pub const INCREMENT_FORMAT: &'static str = "#{e|+:#{?@fterm_ssh_count,#{@fterm_ssh_count},0},1}";

/// Tmux format that subtracts one from `@fterm_ssh_count` (an unset count is 0).
pub const DECREMENT_FORMAT: &'static str = "#{e|-:#{?@fterm_ssh_count,#{@fterm_ssh_count},0},1}";

/// Arguments of `tmux` that set a window option.
pub open spec fn set_option_args(option: Seq<char>, value: Seq<char>) -> Seq<Seq<char>> {
    seq!["set-window-option"@, option, value]
}

/// Arguments of `tmux` that unset a window option.
pub open spec fn unset_option_args(option: Seq<char>) -> Seq<Seq<char>> {
    seq!["set-window-option"@, "-u"@, option]
}

/// Arguments of `tmux` that print `@fterm_ssh_count`.
pub open spec fn show_count_args() -> Seq<Seq<char>> {
    seq!["show-window-option"@, "-v"@, "@fterm_ssh_count"@]
}

/// The outcome of setting a window option.
pub open spec fn set_outcome(o: Result<CommandOutput, Error>, option: Seq<char>, value: Seq<char>) -> Result<CommandOutput, Seq<Seq<char>>> {
    checked_outcome(
        o,
        "failed to set window option "@ + option + "="@ + value,
        "tmux set-window-option "@ + option + " "@ + value + " failed with exit code "@,
    )
}

/// The outcome of unsetting a window option.
pub open spec fn unset_outcome(o: Result<CommandOutput, Error>, option: Seq<char>) -> Result<CommandOutput, Seq<Seq<char>>> {
    checked_outcome(
        o,
        "failed to unset window option "@ + option,
        "tmux set-window-option -u "@ + option + " failed with exit code "@,
    )
}

/// The count read back from `tmux show-window-option -v`: 0 when the
/// command failed, printed nothing, or printed something that is not an
/// `i64`; negative values (from decrementing below zero) and values beyond
/// `u32` also read as 0.
pub open spec fn count_value(out: CommandOutput) -> nat {
    let t = trim(out.stdout@);
    if out.exit_code != 0 || t.len() == 0 {
        0
    } else {
        match parse_signed(t) {
            Some(x) => if i64::MIN <= x <= i64::MAX && 0 <= x <= u32::MAX {
                x as nat
            } else {
                0
            },
            None => 0,
        }
    }
}

/// A count tmux prints back as written (decimal, then a newline) is read
/// as that count.
pub proof fn law_count_read_back(n: nat, out: CommandOutput)
    requires
        n <= u32::MAX,
        out.exit_code == 0,
        out.stdout@ == nat_decimal(n) + seq!['\n'],
    ensures
        count_value(out) == n,
{
    let d = nat_decimal(n);
    let s = d + seq!['\n'];
    lemma_nat_decimal_digits(n);
    law_decimal_roundtrip(n as int);
    assert(is_digit(d[0]));
    assert(s[0] == d[0]);
    assert(crate::text::trim_start(s) == s);
    assert(s.drop_last() =~= d);
    assert(is_digit(d.last()));
    assert(crate::text::trim_end(d) == d);
    assert(crate::text::trim_end(s) == crate::text::trim_end(d));
    assert(trim(s) == d);
}

/// `r` is the result of a step outcome, continued by `rest` on success.
pub open spec fn then_unit(c: Result<CommandOutput, Seq<Seq<char>>>, r: Result<(), Error>, rest: bool) -> bool {
    match c {
        Err(chain) => is_err_with(r, chain),
        Ok(_) => rest,
    }
}

/// Set a tmux window option.
pub fn set_window_option<R: CommandRunner>(runner: &R, log: &mut RequestLog, option: &str, value: &str) -> (r: Result<(), Error>)
    ensures
        exists|o: Result<CommandOutput, Error>|
            {
                &&& #[trigger] runner.run_reply("tmux"@, set_option_args(option@, value@), 5, o)
                &&& then_unit(set_outcome(o, option@, value@), r, r is Ok)
            },
        final(log)@ == old(log)@.push(run_req("tmux"@, set_option_args(option@, value@), 5)),
{
    let args: [&str; 3] = ["set-window-option", option, value];
    let sl: &[&str] = &args;
    assert(strviews(sl@) =~= set_option_args(option@, value@));
    let mut ctx = concat2("failed to set window option ", option);
    push_str(&mut ctx, "=");
    push_str(&mut ctx, value);
    let mut what = concat2("tmux set-window-option ", option);
    push_str(&mut what, " ");
    push_str(&mut what, value);
    push_str(&mut what, " failed with exit code ");
    match run_checked(runner, log, "tmux", sl, 5, ctx.as_str(), what.as_str()) {
        Ok(_) => Ok(()),
        Err(e) => Err(e),
    }
}

/// Unset (remove) a tmux window option.
pub fn unset_window_option<R: CommandRunner>(runner: &R, log: &mut RequestLog, option: &str) -> (r: Result<(), Error>)
    ensures
        exists|o: Result<CommandOutput, Error>|
            {
                &&& #[trigger] runner.run_reply("tmux"@, unset_option_args(option@), 5, o)
                &&& then_unit(unset_outcome(o, option@), r, r is Ok)
            },
        final(log)@ == old(log)@.push(run_req("tmux"@, unset_option_args(option@), 5)),
{
    let args: [&str; 3] = ["set-window-option", "-u", option];
    let sl: &[&str] = &args;
    assert(strviews(sl@) =~= unset_option_args(option@));
    let ctx = concat2("failed to unset window option ", option);
    let mut what = concat2("tmux set-window-option -u ", option);
    push_str(&mut what, " failed with exit code ");
    match run_checked(runner, log, "tmux", sl, 5, ctx.as_str(), what.as_str()) {
        Ok(_) => Ok(()),
        Err(e) => Err(e),
    }
}

/// Read the current `@fterm_ssh_count` value (see [`count_value`]).
pub fn read_ssh_count<R: CommandRunner>(runner: &R, log: &mut RequestLog) -> (r: Result<u32, Error>)
    ensures
        exists|o: Result<CommandOutput, Error>|
            {
                &&& #[trigger] runner.run_reply("tmux"@, show_count_args(), 5, o)
                &&& match ran(o, "failed to read @fterm_ssh_count window option"@) {
                    Err(chain) => is_err_with(r, chain),
                    Ok(out) => r == Ok::<u32, Error>(count_value(out) as u32),
                }
            },
        final(log)@ == old(log)@.push(run_req("tmux"@, show_count_args(), 5)),
{
    let args: [&str; 3] = ["show-window-option", "-v", "@fterm_ssh_count"];
    let sl: &[&str] = &args;
    assert(strviews(sl@) =~= show_count_args());
    let out = match runner.run(log, "tmux", sl, 5) {
        Err(e) => {
            return Err(e.context(crate::text::owned("failed to read @fterm_ssh_count window option")));
        },
        Ok(out) => out,
    };
    let v = chars_of(out.stdout.as_str());
    let t = trim_chars(v.as_slice());
    if out.exit_code != 0 || t.len() == 0 {
        return Ok(0);
    }
    let raw: i64 = match parse_i64(t.as_slice()) {
        Some(x) => x,
        None => 0,
    };
    let clamped: i64 = if raw < 0 {
        0
    } else {
        raw
    };
    let value: u32 = if clamped <= 4294967295 {
        clamped as u32
    } else {
        0
    };
    Ok(value)
}

/// What disabling window renaming may give: see [`disable_rename`].
pub open spec fn disable_rename_outcome<R: CommandRunner>(runner: &R, r: Result<(), Error>) -> bool {
    exists|a: Result<CommandOutput, Error>|
        {
            &&& #[trigger] runner.run_reply("tmux"@, set_option_args("automatic-rename"@, "off"@), 5, a)
            &&& then_unit(
                set_outcome(a, "automatic-rename"@, "off"@),
                r,
                exists|b: Result<CommandOutput, Error>|
                    {
                        &&& #[trigger] runner.run_reply(
                            "tmux"@,
                            set_option_args("allow-rename"@, "off"@),
                            5,
                            b,
                        )
                        &&& then_unit(set_outcome(b, "allow-rename"@, "off"@), r, r is Ok)
                    },
            )
        }
}

/// The `set-window-option` request that sets `option` to `value`.
pub open spec fn set_req(option: Seq<char>, value: Seq<char>) -> Request {
    run_req("tmux"@, set_option_args(option, value), 5)
}

/// The requests of disabling window renaming, with the outcome: set
/// `automatic-rename` off, then (only if that succeeded) `allow-rename` off.
pub open spec fn disable_rename_trace<R: CommandRunner>(runner: &R, r: Result<(), Error>, reqs: Seq<Request>) -> bool {
    exists|a: Result<CommandOutput, Error>|
        {
            &&& #[trigger] runner.run_reply("tmux"@, set_option_args("automatic-rename"@, "off"@), 5, a)
            &&& step_then(
                set_req("automatic-rename"@, "off"@),
                set_outcome(a, "automatic-rename"@, "off"@),
                r,
                reqs,
                exists|b: Result<CommandOutput, Error>|
                    {
                        &&& #[trigger] runner.run_reply("tmux"@, set_option_args("allow-rename"@, "off"@), 5, b)
                        &&& step_then(
                            set_req("allow-rename"@, "off"@),
                            set_outcome(b, "allow-rename"@, "off"@),
                            r,
                            reqs.drop_first(),
                            r is Ok && reqs.len() == 2,
                        )
                    },
            )
        }
}

/// Disable automatic and manual window renaming: `automatic-rename` and
/// then `allow-rename` are set to `off`.
pub fn disable_rename<R: CommandRunner>(runner: &R, log: &mut RequestLog) -> (r: Result<(), Error>)
    ensures
        disable_rename_outcome(runner, r),
        extends(old(log)@, final(log)@),
        disable_rename_trace(runner, r, added(old(log)@, final(log)@)),
{
    let ghost l0 = log@;
    let first = set_window_option(runner, log, "automatic-rename", "off");
    let ghost l1 = log@;
    assert(l1.skip(l0.len() as int) =~= seq![set_req("automatic-rename"@, "off"@)]);
    assert(l1.take(l0.len() as int) =~= l0);
    match first {
        Err(e) => Err(e),
        Ok(()) => {
            let r = set_window_option(runner, log, "allow-rename", "off");
            assert(log@.skip(l0.len() as int) =~= seq![set_req("automatic-rename"@, "off"@), set_req("allow-rename"@, "off"@)]);
            assert(log@.skip(l0.len() as int).drop_first() =~= seq![set_req("allow-rename"@, "off"@)]);
            assert(log@.take(l0.len() as int) =~= l0);
            r
        },
    }
}

/// What incrementing the SSH count may give: see [`increment_ssh_count`].
pub open spec fn increment_ssh_count_outcome<R: CommandRunner>(runner: &R, r: Result<(), Error>) -> bool {
    exists|o: Result<CommandOutput, Error>|
        {
            &&& #[trigger] runner.run_reply("tmux"@, set_option_args("@fterm_ssh_count"@, INCREMENT_FORMAT@), 5, o)
            &&& then_unit(
                set_outcome(o, "@fterm_ssh_count"@, INCREMENT_FORMAT@),
                r,
                exists|a: Result<CommandOutput, Error>|
                    {
                        &&& #[trigger] runner.run_reply(
                            "tmux"@,
                            set_option_args("automatic-rename"@, "off"@),
                            5,
                            a,
                        )
                        &&& then_unit(
                            set_outcome(a, "automatic-rename"@, "off"@),
                            r,
                            exists|b: Result<CommandOutput, Error>|
                                {
                                    &&& #[trigger] runner.run_reply(
                                        "tmux"@,
                                        set_option_args("allow-rename"@, "off"@),
                                        5,
                                        b,
                                    )
                                    &&& then_unit(set_outcome(b, "allow-rename"@, "off"@), r, r is Ok)
                                },
                        )
                    },
            )
        }
}

/// The requests of incrementing the SSH count, with the outcome: the
/// increment, then (only if it succeeded) those of disabling renaming.
pub open spec fn increment_ssh_count_trace<R: CommandRunner>(runner: &R, r: Result<(), Error>, reqs: Seq<Request>) -> bool {
    exists|o: Result<CommandOutput, Error>|
        {
            &&& #[trigger] runner.run_reply("tmux"@, set_option_args("@fterm_ssh_count"@, INCREMENT_FORMAT@), 5, o)
            &&& step_then(
                set_req("@fterm_ssh_count"@, INCREMENT_FORMAT@),
                set_outcome(o, "@fterm_ssh_count"@, INCREMENT_FORMAT@),
                r,
                reqs,
                disable_rename_trace(runner, r, reqs.drop_first()),
            )
        }
}

/// Increment `@fterm_ssh_count` by one with a tmux-side arithmetic format
/// (so that concurrent panes do not race on a read-modify-write), then
/// disable window renaming so the title set by fterm is kept.
pub fn increment_ssh_count<R: CommandRunner>(runner: &R, log: &mut RequestLog) -> (r: Result<(), Error>)
    ensures
        increment_ssh_count_outcome(runner, r),
        extends(old(log)@, final(log)@),
        increment_ssh_count_trace(runner, r, added(old(log)@, final(log)@)),
{
    let ghost l0 = log@;
    let first = set_window_option(runner, log, "@fterm_ssh_count", INCREMENT_FORMAT);
    let ghost l1 = log@;
    assert(l1.skip(l0.len() as int) =~= seq![set_req("@fterm_ssh_count"@, INCREMENT_FORMAT@)]);
    assert(l1.take(l0.len() as int) =~= l0);
    match first {
        Err(e) => Err(e),
        Ok(()) => {
            let r = disable_rename(runner, log);
            assert(log@.skip(l0.len() as int) =~= seq![set_req("@fterm_ssh_count"@, INCREMENT_FORMAT@)] + log@.skip(l1.len() as int));
            assert(log@.skip(l0.len() as int).drop_first() =~= log@.skip(l1.len() as int));
            assert(log@.take(l0.len() as int) =~= l0);
            r
        },
    }
}

/// The restoring steps once the count reached zero: unset the count, then
/// set `allow-rename` and `automatic-rename` back to `on`.
pub open spec fn restore_rename<R: CommandRunner>(runner: &R, r: Result<(), Error>) -> bool {
    exists|u: Result<CommandOutput, Error>|
        {
            &&& #[trigger] runner.run_reply("tmux"@, unset_option_args("@fterm_ssh_count"@), 5, u)
            &&& then_unit(
                unset_outcome(u, "@fterm_ssh_count"@),
                r,
                exists|a: Result<CommandOutput, Error>|
                    {
                        &&& #[trigger] runner.run_reply("tmux"@, set_option_args("allow-rename"@, "on"@), 5, a)
                        &&& then_unit(
                            set_outcome(a, "allow-rename"@, "on"@),
                            r,
                            exists|b: Result<CommandOutput, Error>|
                                {
                                    &&& #[trigger] runner.run_reply(
                                        "tmux"@,
                                        set_option_args("automatic-rename"@, "on"@),
                                        5,
                                        b,
                                    )
                                    &&& then_unit(set_outcome(b, "automatic-rename"@, "on"@), r, r is Ok)
                                },
                        )
                    },
            )
        }
}

/// The requests of restoring renaming, with the outcome: unset the count,
/// set `allow-rename` on, set `automatic-rename` on, stopping at the first
/// that fails.
pub open spec fn restore_rename_trace<R: CommandRunner>(runner: &R, r: Result<(), Error>, reqs: Seq<Request>) -> bool {
    exists|u: Result<CommandOutput, Error>|
        {
            &&& #[trigger] runner.run_reply("tmux"@, unset_option_args("@fterm_ssh_count"@), 5, u)
            &&& step_then(
                run_req("tmux"@, unset_option_args("@fterm_ssh_count"@), 5),
                unset_outcome(u, "@fterm_ssh_count"@),
                r,
                reqs,
                exists|a: Result<CommandOutput, Error>|
                    {
                        &&& #[trigger] runner.run_reply("tmux"@, set_option_args("allow-rename"@, "on"@), 5, a)
                        &&& step_then(
                            set_req("allow-rename"@, "on"@),
                            set_outcome(a, "allow-rename"@, "on"@),
                            r,
                            reqs.drop_first(),
                            exists|b: Result<CommandOutput, Error>|
                                {
                                    &&& #[trigger] runner.run_reply(
                                        "tmux"@,
                                        set_option_args("automatic-rename"@, "on"@),
                                        5,
                                        b,
                                    )
                                    &&& step_then(
                                        set_req("automatic-rename"@, "on"@),
                                        set_outcome(b, "automatic-rename"@, "on"@),
                                        r,
                                        reqs.drop_first().drop_first(),
                                        r is Ok && reqs.len() == 3,
                                    )
                                },
                        )
                    },
            )
        }
}

fn restore_rename_exec<R: CommandRunner>(runner: &R, log: &mut RequestLog) -> (r: Result<(), Error>)
    ensures
        restore_rename(runner, r),
        extends(old(log)@, final(log)@),
        restore_rename_trace(runner, r, added(old(log)@, final(log)@)),
{
    let ghost l0 = log@;
    let ghost q0 = run_req("tmux"@, unset_option_args("@fterm_ssh_count"@), 5);
    let ghost q1 = set_req("allow-rename"@, "on"@);
    let ghost q2 = set_req("automatic-rename"@, "on"@);
    let first = unset_window_option(runner, log, "@fterm_ssh_count");
    assert(log@.skip(l0.len() as int) =~= seq![q0]);
    assert(log@.take(l0.len() as int) =~= l0);
    match first {
        Err(e) => Err(e),
        Ok(()) => {
            let second = set_window_option(runner, log, "allow-rename", "on");
            assert(log@.skip(l0.len() as int) =~= seq![q0, q1]);
            assert(log@.take(l0.len() as int) =~= l0);
            assert(log@.skip(l0.len() as int).drop_first() =~= seq![q1]);
            match second {
                Err(e) => Err(e),
                Ok(()) => {
                    let r = set_window_option(runner, log, "automatic-rename", "on");
                    assert(log@.skip(l0.len() as int) =~= seq![q0, q1, q2]);
                    assert(log@.skip(l0.len() as int).drop_first() =~= seq![q1, q2]);
                    assert(log@.skip(l0.len() as int).drop_first().drop_first() =~= seq![q2]);
                    assert(log@.take(l0.len() as int) =~= l0);
                    r
                },
            }
        },
    }
}

/// What decrementing the SSH count may give: see [`decrement_ssh_count`].
pub open spec fn decrement_ssh_count_outcome<R: CommandRunner>(runner: &R, r: Result<(), Error>) -> bool {
    exists|o: Result<CommandOutput, Error>|
        {
            &&& #[trigger] runner.run_reply("tmux"@, set_option_args("@fterm_ssh_count"@, DECREMENT_FORMAT@), 5, o)
            &&& then_unit(
                set_outcome(o, "@fterm_ssh_count"@, DECREMENT_FORMAT@),
                r,
                exists|c: Result<CommandOutput, Error>|
                    {
                        &&& #[trigger] runner.run_reply("tmux"@, show_count_args(), 5, c)
                        &&& then_unit(
                            ran(c, "failed to read @fterm_ssh_count window option"@),
                            r,
                            if count_value(c->Ok_0) == 0 {
                                restore_rename(runner, r)
                            } else {
                                r is Ok
                            },
                        )
                    },
            )
        }
}

/// The requests of decrementing the SSH count, with the outcome: the
/// decrement, then (if it succeeded) the read-back, then (if that ran and
/// the count is zero) those of restoring renaming.
pub open spec fn decrement_ssh_count_trace<R: CommandRunner>(runner: &R, r: Result<(), Error>, reqs: Seq<Request>) -> bool {
    exists|o: Result<CommandOutput, Error>|
        {
            &&& #[trigger] runner.run_reply("tmux"@, set_option_args("@fterm_ssh_count"@, DECREMENT_FORMAT@), 5, o)
            &&& step_then(
                set_req("@fterm_ssh_count"@, DECREMENT_FORMAT@),
                set_outcome(o, "@fterm_ssh_count"@, DECREMENT_FORMAT@),
                r,
                reqs,
                exists|c: Result<CommandOutput, Error>|
                    {
                        &&& #[trigger] runner.run_reply("tmux"@, show_count_args(), 5, c)
                        &&& step_then(
                            run_req("tmux"@, show_count_args(), 5),
                            ran(c, "failed to read @fterm_ssh_count window option"@),
                            r,
                            reqs.drop_first(),
                            if count_value(c->Ok_0) == 0 {
                                restore_rename_trace(runner, r, reqs.drop_first().drop_first())
                            } else {
                                r is Ok && reqs.len() == 2
                            },
                        )
                    },
            )
        }
}

/// Decrement `@fterm_ssh_count` by one with a tmux-side arithmetic format,
/// read it back, and when it reached zero (or went below) unset it and turn
/// `allow-rename` and `automatic-rename` back on so tmux manages the window
/// title again.
pub fn decrement_ssh_count<R: CommandRunner>(runner: &R, log: &mut RequestLog) -> (r: Result<(), Error>)
    ensures
        decrement_ssh_count_outcome(runner, r),
        extends(old(log)@, final(log)@),
        decrement_ssh_count_trace(runner, r, added(old(log)@, final(log)@)),
{
    let ghost l0 = log@;
    let ghost q0 = set_req("@fterm_ssh_count"@, DECREMENT_FORMAT@);
    let ghost q1 = run_req("tmux"@, show_count_args(), 5);
    let first = set_window_option(runner, log, "@fterm_ssh_count", DECREMENT_FORMAT);
    assert(log@.skip(l0.len() as int) =~= seq![q0]);
    assert(log@.take(l0.len() as int) =~= l0);
    match first {
        Err(e) => Err(e),
        Ok(()) => {
            let read = read_ssh_count(runner, log);
            let ghost l2 = log@;
            assert(l2.skip(l0.len() as int) =~= seq![q0, q1]);
            assert(l2.skip(l0.len() as int).drop_first() =~= seq![q1]);
            assert(l2.take(l0.len() as int) =~= l0);
            let new_count = match read {
                Err(e) => {
                    return Err(e);
                },
                Ok(c) => c,
            };
            if new_count == 0 {
                let r = restore_rename_exec(runner, log);
                assert(log@.skip(l0.len() as int) =~= seq![q0, q1] + log@.skip(l2.len() as int));
                assert(log@.skip(l0.len() as int).drop_first().drop_first() =~= log@.skip(l2.len() as int));
                assert(log@.take(l0.len() as int) =~= l0);
                r
            } else {
                Ok(())
            }
        },
    }
}

} // verus!
