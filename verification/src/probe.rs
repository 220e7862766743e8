//! Looking at the disk. What is found there is handed to the pipeline as an
//! event; the pipeline is verified for every answer.

use std::path::PathBuf;
use vstd::prelude::*;

verus! {

/// `std::path::PathBuf`, carried through as an opaque value.
#[verifier::external_type_specification]
#[verifier::external_body]
pub struct ExPathBuf(PathBuf);

/// Calls `std::path::Path::exists` on `path`. The answer depends on the disk
/// at the moment of the call, so nothing is claimed of it: two calls on the
/// same path may differ.
#[verifier::external_body]
fn exists_on_disk(path: &PathBuf) -> bool {
    path.exists()
}

/// Whether `path` names something that exists on disk at this moment.
pub fn check_path_exists(path: &PathBuf) -> bool {
    exists_on_disk(path)
}

} // verus!
