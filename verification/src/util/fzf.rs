//! fzf integration: the command line built from the options, and what an
//! fzf run's exit code and output mean.

use vstd::prelude::*;

use crate::error::Error;
use crate::text::{i32_to_string, int_decimal, owned, push_str, sviews, trim, trim_str};

verus! {

/// Options for configuring fzf behavior.
#[derive(Debug)]
pub struct Options {
    /// Height of the fzf window (e.g., "40%").
    pub height: String,
    /// Display items in reverse order.
    pub reverse: bool,
    /// Enable exact-match mode.
    pub exact: bool,
    /// Enable ANSI color code interpretation.
    pub ansi: bool,
    /// Prompt string shown to the user.
    pub prompt: String,
    /// Header text displayed below the input line.
    pub header: Option<String>,
    /// Shell command for the preview window.
    pub preview: Option<String>,
    /// Preview window layout (e.g., "right:50%").
    pub preview_window: Option<String>,
    /// Border style (e.g., "rounded").
    pub border: Option<String>,
    /// Margin (e.g., "0,1").
    pub margin: Option<String>,
    /// Field delimiter (e.g., ":").
    pub delimiter: Option<String>,
    /// Field index expression for search scope (e.g., "1").
    pub nth: Option<String>,
    /// Key bindings (each element is a single --bind argument).
    pub bind: Vec<String>,
}

/// `[flag]` when `on`.
pub open spec fn flag_if(on: bool, flag: Seq<char>) -> Seq<Seq<char>> {
    if on {
        seq![flag]
    } else {
        Seq::empty()
    }
}

/// `[flag, value]` when the value is present.
pub open spec fn opt_arg(flag: Seq<char>, value: Option<String>) -> Seq<Seq<char>> {
    match value {
        Some(v) => seq![flag, v@],
        None => Seq::empty(),
    }
}

/// `--bind <b>` for every binding, in order.
pub open spec fn bind_args(binds: Seq<Seq<char>>) -> Seq<Seq<char>>
    decreases binds.len(),
{
    if binds.len() == 0 {
        Seq::empty()
    } else {
        bind_args(binds.drop_last()) + seq!["--bind"@, binds.last()]
    }
}

/// The fzf arguments for `opts`.
pub open spec fn fzf_args(opts: Options) -> Seq<Seq<char>> {
    seq!["--height"@, opts.height@] + flag_if(opts.reverse, "--reverse"@) + flag_if(opts.exact, "--exact"@)
        + flag_if(opts.ansi, "--ansi"@) + seq!["--prompt"@, opts.prompt@] + opt_arg("--header"@, opts.header)
        + opt_arg("--preview"@, opts.preview) + opt_arg("--preview-window"@, opts.preview_window) + opt_arg(
        "--border"@,
        opts.border,
    ) + opt_arg("--margin"@, opts.margin) + opt_arg("--delimiter"@, opts.delimiter) + opt_arg("--nth"@, opts.nth)
        + bind_args(sviews(opts.bind@))
}

fn push_opt(args: &mut Vec<String>, flag: &str, value: &Option<String>)
    ensures
        sviews(final(args)@) == sviews(old(args)@) + opt_arg(flag@, *value),
{
    let ghost before = sviews(args@);
    match value {
        Some(v) => {
            args.push(owned(flag));
            args.push(v.clone());
            assert(sviews(args@) =~= before + seq![flag@, v@]);
        },
        None => {
            assert(sviews(args@) =~= before + Seq::<Seq<char>>::empty());
        },
    }
}

fn push_flag(args: &mut Vec<String>, on: bool, flag: &str)
    ensures
        sviews(final(args)@) == sviews(old(args)@) + flag_if(on, flag@),
{
    let ghost before = sviews(args@);
    if on {
        args.push(owned(flag));
        assert(sviews(args@) =~= before + seq![flag@]);
    } else {
        assert(sviews(args@) =~= before + Seq::<Seq<char>>::empty());
    }
}

/// Build fzf CLI arguments from options.
pub fn build_args(opts: &Options) -> (r: Vec<String>)
    ensures
        sviews(r@) == fzf_args(*opts),
{
    let mut args: Vec<String> = Vec::new();
    args.push(owned("--height"));
    args.push(opts.height.clone());
    assert(sviews(args@) =~= seq!["--height"@, opts.height@]);
    push_flag(&mut args, opts.reverse, "--reverse");
    push_flag(&mut args, opts.exact, "--exact");
    push_flag(&mut args, opts.ansi, "--ansi");
    let ghost before = sviews(args@);
    args.push(owned("--prompt"));
    args.push(opts.prompt.clone());
    assert(sviews(args@) =~= before + seq!["--prompt"@, opts.prompt@]);
    push_opt(&mut args, "--header", &opts.header);
    push_opt(&mut args, "--preview", &opts.preview);
    push_opt(&mut args, "--preview-window", &opts.preview_window);
    push_opt(&mut args, "--border", &opts.border);
    push_opt(&mut args, "--margin", &opts.margin);
    push_opt(&mut args, "--delimiter", &opts.delimiter);
    push_opt(&mut args, "--nth", &opts.nth);
    let ghost base = sviews(args@);
    let ghost binds = sviews(opts.bind@);
    let mut i: usize = 0;
    while i < opts.bind.len()
        invariant
            i <= opts.bind.len(),
            binds == sviews(opts.bind@),
            sviews(args@) == base + bind_args(binds.take(i as int)),
        decreases opts.bind.len() - i,
    {
        assert(binds.take(i + 1).drop_last() =~= binds.take(i as int));
        assert(binds.take(i + 1).last() == opts.bind@[i as int]@);
        let ghost before = sviews(args@);
        args.push(owned("--bind"));
        args.push(opts.bind[i].clone());
        assert(sviews(args@) =~= before + seq!["--bind"@, binds[i as int]]);
        assert(bind_args(binds.take(i + 1)) == bind_args(binds.take(i as int)) + seq!["--bind"@, binds[i as int]]);
        assert(sviews(args@) =~= base + bind_args(binds.take(i + 1)));
        i = i + 1;
    }
    assert(binds.take(opts.bind.len() as int) =~= binds);
    args
}

/// What an fzf run that exited with `code` and printed `stdout` selected:
/// the trimmed output on success (nothing when it is empty); nothing on no
/// match (1) or abort (130); an error for any other code.
pub fn interpret_result(code: i32, stdout: &str) -> (r: Result<Option<String>, Error>)
    ensures
        code == 0 ==> (trim(stdout@).len() == 0 ==> r == Ok::<Option<String>, Error>(None))
            && (trim(stdout@).len() > 0 ==> (r matches Ok(Some(s)) && s@ == trim(stdout@))),
        code == 1 || code == 130 ==> r == Ok::<Option<String>, Error>(None),
        code != 0 && code != 1 && code != 130 ==> (r matches Err(e) && e@ == seq![
            "fzf exited with unexpected code: "@ + int_decimal(code as int),
        ]),
{
    if code == 0 {
        let selected = trim_str(stdout);
        if selected.as_str().is_empty() {
            Ok(None)
        } else {
            Ok(Some(selected))
        }
    } else if code == 1 || code == 130 {
        Ok(None)
    } else {
        let mut m = owned("fzf exited with unexpected code: ");
        let d = i32_to_string(code);
        push_str(&mut m, d.as_str());
        Err(Error::msg(m))
    }
}

} // verus!
