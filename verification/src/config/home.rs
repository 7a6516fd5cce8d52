//! SSH home directory resolution.
//!
//! The environment is read by the caller; these functions decide from the
//! values it found.

use vstd::prelude::*;

use crate::error::Error;
use crate::runner::is_err_with;
use crate::text::owned;
use crate::util::path::{join_path, path_join};

verus! {

/// The SSH configuration directory: the `FSSH_SSH_CONF_DIR` value when it
/// is set, else `<home>/.ssh`.
pub open spec fn ssh_dir(conf_dir: Option<Seq<char>>, home: Seq<char>) -> Seq<char> {
    match conf_dir {
        Some(d) => d,
        None => path_join(home, ".ssh"@),
    }
}

/// Returns the path of the user's SSH configuration directory, given the
/// value of `FSSH_SSH_CONF_DIR` (if set) and the resolved home directory.
pub fn get_dir(conf_dir: Option<&str>, home: &str) -> (r: String)
    ensures
        r@ == ssh_dir(
            match conf_dir {
                Some(d) => Some(d@),
                None => None,
            },
            home@,
        ),
{
    match conf_dir {
        Some(d) => owned(d),
        None => join_path(home, ".ssh"),
    }
}

/// The path of the SSH config file inside the SSH directory.
pub fn config_path(conf_dir: Option<&str>, home: &str) -> (r: String)
    ensures
        r@ == path_join(
            ssh_dir(
                match conf_dir {
                    Some(d) => Some(d@),
                    None => None,
                },
                home@,
            ),
            "config"@,
        ),
{
    let dir = get_dir(conf_dir, home);
    join_path(dir.as_str(), "config")
}

/// Build the `-F` config arguments for SSH commands.
///
/// `windows_path` is present when Windows OpenSSH is in use (MSYS2) and
/// holds the result of converting the config path to Windows mixed form;
/// that path is then the argument. Otherwise the config path is the
/// argument when a custom SSH directory is configured, and there is none
/// for the default directory, which SSH reads by itself.
pub fn build_config_args(
    windows_path: Option<Result<String, Error>>,
    custom_dir: bool,
    config_path: &str,
) -> (r: Result<Vec<String>, Error>)
    ensures
        match windows_path {
            Some(Err(e)) => is_err_with(r, seq!["failed to convert config path"@] + e@),
            Some(Ok(p)) => r matches Ok(v) && v@.len() == 1 && v@[0]@ == p@,
            None => r matches Ok(v) && if custom_dir {
                v@.len() == 1 && v@[0]@ == config_path@
            } else {
                v@.len() == 0
            },
        },
{
    match windows_path {
        Some(Err(e)) => Err(e.context(owned("failed to convert config path"))),
        Some(Ok(p)) => {
            let mut v: Vec<String> = Vec::new();
            v.push(p);
            Ok(v)
        },
        None => {
            let mut v: Vec<String> = Vec::new();
            if custom_dir {
                v.push(owned(config_path));
            }
            Ok(v)
        },
    }
}

} // verus!
