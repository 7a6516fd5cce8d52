//! Detection of dry-run style invocations that bypass the wrapper flow.

use vstd::prelude::*;

use crate::text::{str_eq, sviews};

verus! {

/// An ssh argument that only prints information (`-G`, `-V`, `-Q`, `--help`).
pub open spec fn is_ssh_info_flag(a: Seq<char>) -> bool {
    a == "-G"@ || a == "-V"@ || a == "-Q"@ || a == "--help"@
}

/// An scp argument that only prints information (`--help`, `-h`).
pub open spec fn is_scp_info_flag(a: Seq<char>) -> bool {
    a == "--help"@ || a == "-h"@
}

/// Check whether SSH args contain a dry-run flag that should bypass
/// wrapper logic (`-G`, `-V`, `-Q`, `--help`).
pub fn is_ssh(args: &[String]) -> (r: bool)
    ensures
        r == exists|i: int| 0 <= i < args@.len() && is_ssh_info_flag(#[trigger] sviews(args@)[i]),
{
    let mut i: usize = 0;
    while i < args.len()
        invariant
            i <= args.len(),
            forall|j: int| 0 <= j < i ==> !is_ssh_info_flag(#[trigger] sviews(args@)[j]),
        decreases args.len() - i,
    {
        let a = args[i].as_str();
        if str_eq(a, "-G") || str_eq(a, "-V") || str_eq(a, "-Q") || str_eq(a, "--help") {
            assert(is_ssh_info_flag(sviews(args@)[i as int]));
            return true;
        }
        i = i + 1;
    }
    false
}

/// Check whether SCP args contain a dry-run flag that should bypass
/// wrapper logic (`--help`, `-h`).
pub fn is_scp(args: &[String]) -> (r: bool)
    ensures
        r == exists|i: int| 0 <= i < args@.len() && is_scp_info_flag(#[trigger] sviews(args@)[i]),
{
    let mut i: usize = 0;
    while i < args.len()
        invariant
            i <= args.len(),
            forall|j: int| 0 <= j < i ==> !is_scp_info_flag(#[trigger] sviews(args@)[j]),
        decreases args.len() - i,
    {
        let a = args[i].as_str();
        if str_eq(a, "--help") || str_eq(a, "-h") {
            assert(is_scp_info_flag(sviews(args@)[i as int]));
            return true;
        }
        i = i + 1;
    }
    false
}

} // verus!
