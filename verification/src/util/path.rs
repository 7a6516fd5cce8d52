//! Home directory choice and `~` expansion on path text.
//!
//! Paths are handled as text with Unix `/` separators; joining follows
//! `PathBuf::push`: an absolute part replaces the base, and a separator is
//! inserted when the base does not already end in one.

use vstd::prelude::*;

use crate::text::{
    chars_of, owned, push_str, starts_with, starts_with_exec, sub_string,
};

verus! {

/// The home directory: `USERPROFILE` under MSYS2 when it is set, otherwise
/// `HOME`, otherwise `/root`.
pub open spec fn home_choice(
    msystem_set: bool,
    userprofile: Option<Seq<char>>,
    home: Option<Seq<char>>,
) -> Seq<char> {
    if msystem_set && userprofile is Some {
        userprofile->0
    } else {
        match home {
            Some(h) => h,
            None => "/root"@,
        }
    }
}

/// Pick the user's home directory from the environment values read by the
/// caller (`MSYSTEM` presence, `USERPROFILE`, `HOME`).
///
/// On MSYS2 `USERPROFILE` is preferred so the Windows home is used.
pub fn resolve_home(msystem_set: bool, userprofile: Option<String>, home: Option<String>) -> (r: String)
    ensures
        r@ == home_choice(
            msystem_set,
            match userprofile {
                Some(u) => Some(u@),
                None => None,
            },
            match home {
                Some(h) => Some(h@),
                None => None,
            },
        ),
{
    if msystem_set {
        if let Some(p) = userprofile {
            return p;
        }
    }
    match home {
        Some(h) => h,
        None => owned("/root"),
    }
}

/// `base` joined with `part` as `PathBuf::push` does on Unix.
pub open spec fn path_join(base: Seq<char>, part: Seq<char>) -> Seq<char> {
    if part.len() > 0 && part[0] == '/' {
        part
    } else if base.len() > 0 && base.last() != '/' {
        base + "/"@ + part
    } else {
        base + part
    }
}

/// Join path text as `PathBuf::join` does on Unix.
pub fn join_path(base: &str, part: &str) -> (r: String)
    ensures
        r@ == path_join(base@, part@),
{
    let p = chars_of(part);
    if p.len() > 0 && p[0] == '/' {
        return owned(part);
    }
    let b = chars_of(base);
    let mut r = owned(base);
    if b.len() > 0 && b[b.len() - 1] != '/' {
        push_str(&mut r, "/");
    }
    push_str(&mut r, part);
    r
}

/// The text after a leading `"~/"`, or else after a leading `'~'`.
pub open spec fn tilde_rest(path: Seq<char>) -> Option<Seq<char>> {
    if starts_with(path, "~/"@) {
        Some(path.skip(2))
    } else if path.len() > 0 && path[0] == '~' {
        Some(path.skip(1))
    } else {
        None
    }
}

/// `path` with a leading `~` expanded to `home`.
pub open spec fn tilde_expanded(path: Seq<char>, home: Seq<char>) -> Seq<char> {
    match tilde_rest(path) {
        Some(rest) => path_join(home, rest),
        None => path,
    }
}

/// Expand a leading `~` or `~/` in `path` to the home directory `home`.
pub fn expand_tilde(path: &str, home: &str) -> (r: String)
    ensures
        r@ == tilde_expanded(path@, home@),
{
    let v = chars_of(path);
    let prefix = chars_of("~/");
    proof {
        reveal_strlit("~/");
    }
    if starts_with_exec(v.as_slice(), prefix.as_slice()) {
        let rest = sub_string(v.as_slice(), 2, v.len());
        assert(rest@ =~= path@.skip(2));
        join_path(home, rest.as_str())
    } else if v.len() > 0 && v[0] == '~' {
        let rest = sub_string(v.as_slice(), 1, v.len());
        assert(rest@ =~= path@.skip(1));
        join_path(home, rest.as_str())
    } else {
        owned(path)
    }
}

} // verus!

verus! {

/// What `Path::parent` gives for the path text `p`: the path without its
/// last component, or nothing for a root, a prefix or an empty path.
pub uninterp spec fn std_path_parent(p: Seq<char>) -> Option<Seq<char>>;

/// What `Path::extension` gives for the path text `p`: the text after the
/// last `.` of the file name, if the name has one that is not its first
/// character.
pub uninterp spec fn std_path_extension(p: Seq<char>) -> Option<Seq<char>>;

/// `Path::parent` (std) on path text. The contract names the result; the
/// component rules of `Path` are not restated.
#[verifier::external_body]
pub(crate) fn path_parent(p: &str) -> (r: Option<String>)
    ensures
        match r {
            Some(s) => std_path_parent(p@) == Some(s@),
            None => std_path_parent(p@) is None,
        },
{
    std::path::Path::new(p).parent().map(|q| q.to_string_lossy().into_owned())
}

/// `Path::extension` (std) on path text. The contract names the result; the
/// file-name rules of `Path` are not restated.
#[verifier::external_body]
pub(crate) fn path_extension(p: &str) -> (r: Option<String>)
    ensures
        match r {
            Some(s) => std_path_extension(p@) == Some(s@),
            None => std_path_extension(p@) is None,
        },
{
    std::path::Path::new(p).extension().map(|e| e.to_string_lossy().into_owned())
}

} // verus!
