//! Probes of the local file system.  Whether a path currently names a
//! file or a directory depends on the state of the disk, so nothing can
//! be promised of these results; every caller states what holds whatever
//! they return.

use vstd::prelude::*;

verus! {

/// Whether `path` names an existing regular file.
///
/// Relies on std::path::Path::is_file: queries the file system; the
/// result depends on the state of the disk, so no more can be said.
#[verifier::external_body]
pub fn check_if_file_exists(path: &str) -> bool {
    std::path::Path::new(path).is_file()
}

/// Whether `path` names an existing directory.
///
/// Relies on std::path::Path::is_dir: queries the file system; the
/// result depends on the state of the disk, so no more can be said.
#[verifier::external_body]
pub fn check_if_dir_exists(path: &str) -> bool {
    std::path::Path::new(path).is_dir()
}

} // verus!
