//! Session log directory prefix.

use vstd::prelude::*;

use crate::text::{owned, push_str};

verus! {

/// Default log directory under the home directory.
pub const DEFAULT_LOG_DIR_PREFIX: &'static str = ".dotfiles/logs/tmux";

/// The log directory prefix: the `FTERM_LOG_DIR_PREFIX` value when set,
/// otherwise `<home>/.dotfiles/logs/tmux`.
pub open spec fn prefix_text(env_value: Option<Seq<char>>, home: Seq<char>) -> Seq<char> {
    match env_value {
        Some(v) => v,
        None => home + "/"@ + DEFAULT_LOG_DIR_PREFIX@,
    }
}

/// Compute the log directory prefix from the `FTERM_LOG_DIR_PREFIX` value
/// (read by the caller) and the home directory.
pub fn get_prefix(env_value: Option<String>, home: &str) -> (r: String)
    ensures
        r@ == prefix_text(
            match env_value {
                Some(v) => Some(v@),
                None => None,
            },
            home@,
        ),
{
    match env_value {
        Some(v) => v,
        None => {
            let mut r = owned(home);
            push_str(&mut r, "/");
            push_str(&mut r, DEFAULT_LOG_DIR_PREFIX);
            r
        },
    }
}

} // verus!
