//! Where the interval log is kept on disk.

use std::path::PathBuf;
use vstd::prelude::*;

verus! {

/// `std::path::PathBuf`, carried through as an opaque value.
#[verifier::external_type_specification]
#[verifier::external_body]
pub struct ExPathBuf(PathBuf);

/// `PathBuf::clone` returns a path equal to the one it was given.
pub assume_specification[ <PathBuf as Clone>::clone ](path: &PathBuf) -> (copy: PathBuf)
    ensures
        copy == *path,
;

/// The location of the persisted interval log.
#[derive(Debug, Clone)]
pub struct Storage {
    path: PathBuf,
}

impl Storage {
    /// The path that this storage names.
    pub closed spec fn location(&self) -> PathBuf {
        self.path
    }

    /// The storage kept in the file at `path`.
    pub fn from_path(path: PathBuf) -> (s: Storage)
        ensures
            s.location() == path,
    {
        Storage { path }
    }

    /// The path of the file that holds the log.
    pub fn path(&self) -> (p: &PathBuf)
        ensures
            *p == self.location(),
    {
        &self.path
    }
}

} // verus!
