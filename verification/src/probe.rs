//! Questions the library asks of the running system: what is on disk. Their
//! answers are facts of the moment, so nothing is
//! promised of them; the functions that ask take whatever comes back, and
//! the decisions built on the answers are verified functions that take
//! them as arguments.

use vstd::prelude::*;

verus! {

/// Calls `std::path::Path::exists` on `path`: whether something is there.
/// The answer depends on the file system at the moment of the call, so no
/// clause is given.
#[verifier::external_body]
pub(crate) fn path_exists(path: &str) -> bool {
    std::path::Path::new(path).exists()
}

/// Calls `std::path::Path::is_file` on `path`: whether a regular file is
/// there (following symbolic links). The answer depends on the file system
/// at the moment of the call, so no clause is given.
#[verifier::external_body]
pub(crate) fn path_is_file(path: &str) -> bool {
    std::path::Path::new(path).is_file()
}

/// Calls `std::path::Path::is_dir` on `path`: whether a directory is there
/// (following symbolic links). The answer depends on the file system at the
/// moment of the call, so no clause is given.
#[verifier::external_body]
pub(crate) fn path_is_dir(path: &str) -> bool {
    std::path::Path::new(path).is_dir()
}

} // verus!
