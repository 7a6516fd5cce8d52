//! Config files as the library sees them: a path and what reading it gave.

use vstd::prelude::*;

use crate::error::Error;

verus! {

/// An SSH config file: its path and the text read from it, or the error
/// that reading it produced.
#[derive(Debug)]
pub struct ConfigFile {
    pub path: String,
    pub content: Result<String, Error>,
}

impl ConfigFile {
    /// A config file whose text was read.
    pub fn new(path: String, content: String) -> (f: ConfigFile)
        ensures
            f.path@ == path@,
            f.content matches Ok(c) && c@ == content@,
    {
        ConfigFile { path, content: Ok(content) }
    }

    /// A config file that could not be read.
    pub fn unreadable(path: String, error: Error) -> (f: ConfigFile)
        ensures
            f.path@ == path@,
            f.content matches Err(e) && e@ == error@,
    {
        ConfigFile { path, content: Err(error) }
    }
}

} // verus!
