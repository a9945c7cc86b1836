//! File system paths, which this crate only hands on.

use std::path::Path;
use std::path::PathBuf;
use vstd::prelude::*;

verus! {

/// `std::path::PathBuf`. Nothing is known of what it holds: two paths are
/// told apart only by equality.
#[verifier::external_type_specification]
#[verifier::external_body]
pub struct ExPathBuf(PathBuf);

/// `std::path::Path`, the borrowed form of a `PathBuf`, as opaque as that.
#[verifier::external_type_specification]
#[verifier::external_body]
pub struct ExPath(Path);

/// The borrowed path that `PathBuf::as_path` gives for an owned one.
pub uninterp spec fn borrowed_path(owned: &PathBuf) -> &Path;

/// `PathBuf::as_path` borrows the whole path and depends on nothing but the
/// path itself, so its result is `borrowed_path` of it.
pub assume_specification<'a>[ PathBuf::as_path ](owned: &'a PathBuf) -> (path: &'a Path)
    ensures
        path == borrowed_path(owned),
;

} // verus!
