//! Log viewer: the fzf setup for browsing and searching logs, and the
//! viewer command for the selected entry.

use vstd::prelude::*;

use crate::error::Error;
use crate::runner::is_err_with;
use crate::text::{
    concat2, chars_of, eq_ignore_ascii_case, eq_ignore_ascii_case_exec, find_str, find_str_exec, owned, push_str,
    sub_string, sviews, trim, trim_str,
};
use crate::util::fzf::Options;
use crate::util::path::{path_extension, std_path_extension};

verus! {

/// The path part of an fzf selection: in search mode fzf returns
/// `path:line:content`, cut after the first `.log.gz` (or else `.log`)
/// followed by `:`; a plain path is kept whole.
pub open spec fn selected_path(raw: Seq<char>) -> Seq<char> {
    match find_str(raw, ".log.gz:"@) {
        Some(pos) => raw.take(pos + 7),
        None => match find_str(raw, ".log:"@) {
            Some(pos) => raw.take(pos + 4),
            None => raw,
        },
    }
}

/// Extract the file path from fzf output (see [`selected_path`]).
pub fn extract_file_path(raw: &str) -> (r: String)
    ensures
        r@ == selected_path(raw@),
{
    let v = chars_of(raw);
    let len = v.len();
    let gz = chars_of(".log.gz:");
    let plain = chars_of(".log:");
    proof {
        reveal_strlit(".log.gz:");
        reveal_strlit(".log:");
    }
    match find_str_exec(v.as_slice(), gz.as_slice()) {
        Some(pos) => {
            proof {
                lemma_find_str_found(raw@, ".log.gz:"@, 0);
                assert(find_str(raw@, ".log.gz:"@) == Some(pos as int));
                assert(crate::text::occurs_at(raw@, ".log.gz:"@, pos as int));
                assert(".log.gz:"@.len() == 8);
                assert(v@ == raw@);
                assert(pos + 8 <= len);
            }
            let r = sub_string(v.as_slice(), 0, pos + 7);
            assert(r@ =~= raw@.take(pos + 7));
            r
        },
        None => match find_str_exec(v.as_slice(), plain.as_slice()) {
            Some(pos) => {
                proof {
                    lemma_find_str_found(raw@, ".log:"@, 0);
                    assert(find_str(raw@, ".log:"@) == Some(pos as int));
                    assert(crate::text::occurs_at(raw@, ".log:"@, pos as int));
                    assert(".log:"@.len() == 5);
                    assert(v@ == raw@);
                    assert(pos + 5 <= len);
                }
                let r = sub_string(v.as_slice(), 0, pos + 4);
                assert(r@ =~= raw@.take(pos + 4));
                r
            },
            None => owned(raw),
        },
    }
}

/// A found position lies within the text.
pub proof fn lemma_find_str_found(s: Seq<char>, p: Seq<char>, k: int)
    ensures
        crate::text::find_str_from(s, p, k) matches Some(i) ==> crate::text::occurs_at(s, p, i) && k <= i,
    decreases s.len() + 1 - k,
{
    if !(k < 0 || k + p.len() > s.len()) && !crate::text::occurs_at(s, p, k) {
        lemma_find_str_found(s, p, k + 1);
    }
}

/// The command that shows a log file: through `zcat` for a `.gz` file.
pub open spec fn viewer_command(path: Seq<char>) -> Seq<char> {
    if std_path_extension(path) matches Some(e) && eq_ignore_ascii_case(e, "gz"@) {
        "zcat '"@ + path + "' | less"@
    } else {
        "less '"@ + path + "'"@
    }
}

/// The command printed for the selected log file (see [`viewer_command`]).
pub fn viewer_command_for(path: &str) -> (r: String)
    ensures
        r@ == viewer_command(path@),
{
    let ext = path_extension(path);
    let is_gz = match &ext {
        Some(e) => eq_ignore_ascii_case_exec(chars_of(e.as_str()).as_slice(), chars_of("gz").as_slice()),
        None => false,
    };
    if is_gz {
        let mut r = owned("zcat '");
        push_str(&mut r, path);
        push_str(&mut r, "' | less");
        r
    } else {
        let mut r = owned("less '");
        push_str(&mut r, path);
        push_str(&mut r, "'");
        r
    }
}

/// What a finished selection leads to: see [`selection_outcome`].
pub open spec fn selection_outcome_is(selected: Option<String>, r: (i32, Option<String>)) -> bool {
    match selected {
        None => r.0 == 1 && r.1 is None,
        Some(s) => if trim(s@).len() == 0 {
            r.0 == 1 && r.1 is None
        } else {
            r.0 == 0 && (r.1 matches Some(c) && c@ == viewer_command(selected_path(trim(s@))))
        },
    }
}

/// What a finished selection leads to: the exit code, and the viewer
/// command to print for a non-blank selection.
pub fn selection_outcome(selected: Option<String>) -> (r: (i32, Option<String>))
    ensures
        selection_outcome_is(selected, r),
{
    match selected {
        None => (1, None),
        Some(raw) => {
            let t = trim_str(raw.as_str());
            if t.as_str().is_empty() {
                (1, None)
            } else {
                let p = extract_file_path(t.as_str());
                (0, Some(viewer_command_for(p.as_str())))
            }
        },
    }
}

/// Display items from the log file list (the full paths).
pub fn build_log_items(log_files: &[String]) -> (r: Vec<String>)
    ensures
        sviews(r@) == sviews(log_files@),
{
    let mut r: Vec<String> = Vec::new();
    let mut i: usize = 0;
    while i < log_files.len()
        invariant
            i <= log_files.len(),
            sviews(r@) == sviews(log_files@).take(i as int),
        decreases log_files.len() - i,
    {
        let ghost before = sviews(r@);
        r.push(log_files[i].clone());
        assert(sviews(r@) =~= before.push(log_files@[i as int]@));
        i = i + 1;
        assert(sviews(r@) =~= sviews(log_files@).take(i as int));
    }
    assert(sviews(log_files@).take(log_files.len() as int) =~= sviews(log_files@));
    r
}

/// The file-mode preview: the first 500 lines, through `zcat` for `.gz`.
pub const PREVIEW_COMMAND: &'static str = "f={}; if [[ $f == *.gz ]]; then zcat \"$f\" 2>/dev/null | head --lines=500; else head --lines=500 \"$f\" 2>/dev/null; fi";

/// Header of the file mode.
pub const FILE_HEADER: &'static str = "ctrl-s: Search mode | ctrl-j/k: Preview scroll";

/// Header of the search mode.
pub const SEARCH_HEADER: &'static str = "ctrl-f: File mode | Type to search content";

/// The command listing the log files of `log_dir`, newest first.
pub open spec fn find_command(log_dir: Seq<char>) -> Seq<char> {
    "find '"@ + log_dir + "' -type f \\( -name '*.log' -o -name '*.log.gz' \\) 2>/dev/null | sort --reverse"@
}

/// The command searching the contents of the logs of `log_dir` for the
/// query `{q}`.
pub open spec fn search_command(log_dir: Seq<char>) -> Seq<char> {
    "rg --search-zip --color=always --line-number --no-heading --smart-case -- {q} '"@ + log_dir
        + "' 2>/dev/null || true"@
}

/// The fzf key bindings of the log viewer.
pub open spec fn log_binds(log_dir: Seq<char>) -> Seq<Seq<char>> {
    seq![
        "ctrl-j:preview-down,ctrl-k:preview-up"@,
        "ctrl-d:preview-page-down,ctrl-u:preview-page-up"@,
        "ctrl-s:change-prompt([Search] > )+disable-search+reload("@ + search_command(log_dir)
            + ")+rebind(change)+change-preview-window(hidden)+change-header("@ + SEARCH_HEADER@ + ")"@,
        "ctrl-f:change-prompt([File] > )+enable-search+reload("@ + find_command(log_dir)
            + ")+unbind(change)+change-preview-window(right:60%:wrap)+change-header("@ + FILE_HEADER@ + ")"@,
        "change:reload:sleep 0.1; "@ + search_command(log_dir),
        "start:unbind(change)"@,
    ]
}

/// The fzf options of the log viewer for the log directory `log_dir`: file
/// mode with preview, `ctrl-s` switching to content search and `ctrl-f`
/// back.
pub fn log_selection_options(log_dir: &str) -> (r: Options)
    ensures
        r.height@ == "90%"@,
        r.reverse && r.exact && r.ansi,
        r.prompt@ == "[File] > "@,
        r.header matches Some(h) && h@ == FILE_HEADER@,
        r.preview matches Some(p) && p@ == PREVIEW_COMMAND@,
        r.preview_window matches Some(w) && w@ == "right:60%:wrap"@,
        r.border matches Some(b) && b@ == "rounded"@,
        r.margin is None,
        r.delimiter matches Some(d) && d@ == ":"@,
        r.nth matches Some(n) && n@ == "1"@,
        sviews(r.bind@) == log_binds(log_dir@),
{
    let mut find_cmd = owned("find '");
    push_str(&mut find_cmd, log_dir);
    push_str(&mut find_cmd, "' -type f \\( -name '*.log' -o -name '*.log.gz' \\) 2>/dev/null | sort --reverse");
    let mut search_cmd = owned("rg --search-zip --color=always --line-number --no-heading --smart-case -- {q} '");
    push_str(&mut search_cmd, log_dir);
    push_str(&mut search_cmd, "' 2>/dev/null || true");

    let mut bind_search = owned("ctrl-s:change-prompt([Search] > )+disable-search+reload(");
    push_str(&mut bind_search, search_cmd.as_str());
    push_str(&mut bind_search, ")+rebind(change)+change-preview-window(hidden)+change-header(");
    push_str(&mut bind_search, SEARCH_HEADER);
    push_str(&mut bind_search, ")");

    let mut bind_file = owned("ctrl-f:change-prompt([File] > )+enable-search+reload(");
    push_str(&mut bind_file, find_cmd.as_str());
    push_str(&mut bind_file, ")+unbind(change)+change-preview-window(right:60%:wrap)+change-header(");
    push_str(&mut bind_file, FILE_HEADER);
    push_str(&mut bind_file, ")");

    let mut bind_change = owned("change:reload:sleep 0.1; ");
    push_str(&mut bind_change, search_cmd.as_str());

    let mut bind: Vec<String> = Vec::new();
    bind.push(owned("ctrl-j:preview-down,ctrl-k:preview-up"));
    bind.push(owned("ctrl-d:preview-page-down,ctrl-u:preview-page-up"));
    bind.push(bind_search);
    bind.push(bind_file);
    bind.push(bind_change);
    bind.push(owned("start:unbind(change)"));
    assert(sviews(bind@) =~= log_binds(log_dir@));

    Options {
        height: owned("90%"),
        reverse: true,
        exact: true,
        ansi: true,
        prompt: owned("[File] > "),
        header: Some(owned(FILE_HEADER)),
        preview: Some(owned(PREVIEW_COMMAND)),
        preview_window: Some(owned("right:60%:wrap")),
        border: Some(owned("rounded")),
        margin: None,
        delimiter: Some(owned(":")),
        nth: Some(owned("1")),
        bind,
    }
}

/// What the log viewer ends with: its exit code, the viewer command to
/// print on stdout, and the message to print on stderr.
#[derive(Debug)]
pub struct FlogResult {
    /// The exit code.
    pub code: i32,
    /// The command that views the selected log, for the shell to run.
    pub command: Option<String>,
    /// Why there was nothing to choose from.
    pub message: Option<String>,
}

/// The viewer ends with exit code 1 and the message `text`.
pub open spec fn nothing_to_choose(r: Result<FlogResult, Error>, text: Seq<char>) -> bool {
    r matches Ok(o) && o.code == 1 && o.command is None && (o.message matches Some(m) && m@ == text)
}

/// The log viewer in the log directory `prefix`, given whether it exists
/// and the log files found in it: a missing directory or an empty one ends
/// with exit code 1 and a message; otherwise `select_fn` picks among the
/// files (its failure fails the viewer) and [`selection_outcome`] decides.
pub fn run_inner<F: FnOnce(&[String], &str) -> Result<Option<String>, Error>>(
    prefix: &str,
    dir_exists: bool,
    log_files: &[String],
    select_fn: F,
) -> (r: Result<FlogResult, Error>)
    requires
        forall|a: &[String], b: &str| call_requires(select_fn, (a, b)),
    ensures
        !dir_exists ==> nothing_to_choose(r, "Error: Log directory does not exist: "@ + prefix@),
        dir_exists && log_files@.len() == 0 ==> nothing_to_choose(r, "No log files found in: "@ + prefix@),
        dir_exists && log_files@.len() > 0 ==> exists|items: &[String], sel: Result<Option<String>, Error>|
            {
                &&& sviews(items@) == sviews(log_files@)
                &&& #[trigger] call_ensures(select_fn, (items, prefix), sel)
                &&& match sel {
                    Err(e) => is_err_with(r, seq!["fzf log selection failed"@] + e@),
                    Ok(s) => r matches Ok(o) && o.message is None && selection_outcome_is(s, (o.code, o.command)),
                }
            },
{
    if !dir_exists {
        return Ok(FlogResult {
            code: 1,
            command: None,
            message: Some(concat2("Error: Log directory does not exist: ", prefix)),
        });
    }
    if log_files.len() == 0 {
        return Ok(FlogResult { code: 1, command: None, message: Some(concat2("No log files found in: ", prefix)) });
    }
    let items = build_log_items(log_files);
    let slice = items.as_slice();
    let sel = select_fn(slice, prefix);
    let ghost sg = sel;
    let r = match sel {
        Err(e) => Err(e.context(owned("fzf log selection failed"))),
        Ok(s) => {
            let ghost s0 = s;
            let (code, command) = selection_outcome(s);
            assert(selection_outcome_is(s0, (code, command)));
            Ok(FlogResult { code, command, message: None })
        },
    };
    assert(call_ensures(select_fn, (slice, prefix), sg));
    r
}

} // verus!
