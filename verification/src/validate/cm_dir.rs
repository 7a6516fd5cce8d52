//! `ControlMaster` socket directory: where it lives and what is reported
//! after ensuring it exists.

use vstd::prelude::*;

use crate::check_types::{msgs_view, push_message, CheckLevel, CheckMessage};
use crate::text::push_str;
use crate::util::path::{join_path, path_join};

verus! {

/// What ensuring the socket directory did.
#[derive(Debug)]
pub enum CmDirOutcome {
    /// The directory was already there.
    Existed,
    /// Creating it failed, with the error's message.
    CreateFailed(String),
    /// It was created, but setting its permissions to `0700` failed, with
    /// the error's message.
    PermissionsFailed(String),
    /// It was created with permissions `0700`.
    Created,
}

/// `<ssh_home>/conf.d/cm`.
pub open spec fn cm_dir(ssh_home: Seq<char>) -> Seq<char> {
    path_join(path_join(ssh_home, "conf.d"@), "cm"@)
}

/// The path of the `ControlMaster` socket directory.
pub fn cm_dir_path(ssh_home: &str) -> (r: String)
    ensures
        r@ == cm_dir(ssh_home@),
{
    let conf = join_path(ssh_home, "conf.d");
    join_path(conf.as_str(), "cm")
}

/// The messages for what ensuring the directory `dir` did.
pub open spec fn cm_dir_messages(dir: Seq<char>, outcome: CmDirOutcome) -> Seq<(CheckLevel, Seq<char>)> {
    match outcome {
        CmDirOutcome::Existed => Seq::empty(),
        CmDirOutcome::CreateFailed(e) => seq![(CheckLevel::Error, "Failed to create ControlMaster directory "@ + dir + ": "@ + e@)],
        CmDirOutcome::PermissionsFailed(e) => seq![(CheckLevel::Warn, "Created cm directory but failed to set permissions to 0700 on "@ + dir + ": "@ + e@)],
        CmDirOutcome::Created => seq![(CheckLevel::Info, "Created ControlMaster directory: "@ + dir)],
    }
}

/// Report what ensuring the socket directory `dir` did: nothing when it
/// existed, an error when it could not be created, a warning when its
/// permissions could not be set, and a notice when it was created.
pub fn check(dir: &str, outcome: &CmDirOutcome) -> (r: Vec<CheckMessage>)
    ensures
        msgs_view(r@) == cm_dir_messages(dir@, *outcome),
{
    let mut messages: Vec<CheckMessage> = Vec::new();
    match outcome {
        CmDirOutcome::Existed => {},
        CmDirOutcome::CreateFailed(e) => {
            let mut text = String::new();
            push_str(&mut text, "Failed to create ControlMaster directory ");
            push_str(&mut text, dir);
            push_str(&mut text, ": ");
            push_str(&mut text, e.as_str());
            push_message(&mut messages, CheckLevel::Error, text);
        },
        CmDirOutcome::PermissionsFailed(e) => {
            let mut text = String::new();
            push_str(&mut text, "Created cm directory but failed to set permissions to 0700 on ");
            push_str(&mut text, dir);
            push_str(&mut text, ": ");
            push_str(&mut text, e.as_str());
            push_message(&mut messages, CheckLevel::Warn, text);
        },
        CmDirOutcome::Created => {
            let mut text = String::new();
            push_str(&mut text, "Created ControlMaster directory: ");
            push_str(&mut text, dir);
            push_message(&mut messages, CheckLevel::Info, text);
        },
    }
    assert(msgs_view(messages@) =~= cm_dir_messages(dir@, *outcome));
    messages
}

} // verus!
