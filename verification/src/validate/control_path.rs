//! `ControlPath` directory validation.

use vstd::prelude::*;

use crate::check_types::{msgs_view, push_message, tag_text, tagged, CheckLevel, CheckMessage};
use crate::ssh_parse::{ssh_g_value_or_default, ssh_g_value_or_empty};
use crate::text::{chars_of, push_str, str_eq};
use crate::util::path::{expand_tilde, path_parent, std_path_parent, tilde_expanded};

verus! {

/// What the file system says of a directory.
#[derive(Debug, Clone, Copy, PartialEq, Eq, Structural)]
pub struct DirAccess {
    /// The directory exists.
    pub exists: bool,
    /// The effective user may write to it.
    pub writable: bool,
}

/// The directory that holds the control sockets of a host whose `ssh -G`
/// output is `out`, with `~` expanded to `home`; nothing when connection
/// sharing is off (`ControlMaster` empty or `no`), when `ControlPath` is
/// empty or `none`, or when the path has no parent.
pub open spec fn control_dir(out: Seq<char>, home: Seq<char>) -> Option<Seq<char>> {
    let cm = ssh_g_value_or_empty(out, "controlmaster"@);
    let cp = ssh_g_value_or_empty(out, "controlpath"@);
    if cm.len() == 0 || cm == "no"@ {
        None
    } else if cp.len() == 0 || cp == "none"@ {
        None
    } else {
        std_path_parent(tilde_expanded(cp, home))
    }
}

/// The warning for a control directory that is missing or read-only.
pub open spec fn dir_messages(host: Seq<char>, dir: Seq<char>, access: DirAccess) -> Seq<(CheckLevel, Seq<char>)> {
    if !access.exists {
        seq![(CheckLevel::Warn, tagged(host, "ControlPath directory does not exist: "@ + dir))]
    } else if !access.writable {
        seq![(CheckLevel::Warn, tagged(host, "ControlPath directory is not writable: "@ + dir))]
    } else {
        Seq::empty()
    }
}

/// What the control path check of `host` may report: nothing without a
/// control directory; otherwise the messages for what `probe` says of it.
pub open spec fn control_outcome<F: Fn(&str) -> DirAccess>(
    probe: F,
    out: Seq<char>,
    host: Seq<char>,
    home: Seq<char>,
    msgs: Seq<(CheckLevel, Seq<char>)>,
) -> bool {
    match control_dir(out, home) {
        None => msgs.len() == 0,
        Some(d) => exists|s: &str, a: DirAccess|
            s@ == d && #[trigger] call_ensures(probe, (s,), a) && msgs == dir_messages(host, d, a),
    }
}

/// The control socket directory of a host (see [`control_dir`]).
pub fn control_dir_of(ssh_g_output: &str, home: &str) -> (r: Option<String>)
    ensures
        match control_dir(ssh_g_output@, home@) {
            Some(d) => r matches Some(s) && s@ == d,
            None => r is None,
        },
{
    let cm = ssh_g_value_or_default(ssh_g_output, "controlmaster");
    let cp = ssh_g_value_or_default(ssh_g_output, "controlpath");
    if chars_of(cm.as_str()).len() == 0 || str_eq(cm.as_str(), "no") {
        return None;
    }
    if chars_of(cp.as_str()).len() == 0 || str_eq(cp.as_str(), "none") {
        return None;
    }
    let expanded = expand_tilde(cp.as_str(), home);
    path_parent(expanded.as_str())
}

/// The messages for control directory `dir` of `host`, given what the file
/// system says of it.
pub fn check_dir(host: &str, dir: &str, access: DirAccess) -> (r: Vec<CheckMessage>)
    ensures
        msgs_view(r@) == dir_messages(host@, dir@, access),
{
    let mut messages: Vec<CheckMessage> = Vec::new();
    if !access.exists {
        let mut text = tag_text(host, "ControlPath directory does not exist: ");
        push_str(&mut text, dir);
        assert(text@ =~= tagged(host@, "ControlPath directory does not exist: "@ + dir@));
        push_message(&mut messages, CheckLevel::Warn, text);
    } else if !access.writable {
        let mut text = tag_text(host, "ControlPath directory is not writable: ");
        push_str(&mut text, dir);
        assert(text@ =~= tagged(host@, "ControlPath directory is not writable: "@ + dir@));
        push_message(&mut messages, CheckLevel::Warn, text);
    }
    assert(msgs_view(messages@) =~= dir_messages(host@, dir@, access));
    messages
}

/// Validate the `ControlPath` directory of a host from pre-resolved `ssh -G`
/// output.
///
/// Nothing is checked when connection sharing is off or `ControlPath` is
/// `none`. Otherwise `probe` is asked about the socket directory, which is
/// reported when it does not exist or is not writable. `home` expands a
/// leading `~`.
pub fn check<F: Fn(&str) -> DirAccess>(ssh_g_output: &str, host: &str, home: &str, probe: &F) -> (r: Vec<CheckMessage>)
    requires
        forall|s: &str| call_requires(*probe, (s,)),
    ensures
        control_outcome(*probe, ssh_g_output@, host@, home@, msgs_view(r@)),
{
    match control_dir_of(ssh_g_output, home) {
        None => {
            let v: Vec<CheckMessage> = Vec::new();
            assert(msgs_view(v@).len() == 0);
            v
        },
        Some(dir) => {
            let access = probe(dir.as_str());
            check_dir(host, dir.as_str(), access)
        },
    }
}

} // verus!
