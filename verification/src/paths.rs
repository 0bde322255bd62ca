//! File system paths. A path is carried as the standard library's value;
//! what its lexical operations return is named, not computed here.

use std::path::PathBuf;
use vstd::prelude::*;

verus! {

/// `std::path::PathBuf`. Nothing is claimed about what it holds.
#[verifier::external_type_specification]
#[verifier::external_body]
pub struct ExPathBuf(PathBuf);

/// The path without its last component, as `Path::parent` gives it; `None`
/// for a path that ends in a root or is empty.
pub uninterp spec fn parent_of(path: PathBuf) -> Option<PathBuf>;

/// Whether the path is relative, as `Path::is_relative` tells it.
pub uninterp spec fn is_relative(path: PathBuf) -> bool;

/// The second path appended to the first as `Path::join` does it; an
/// absolute second path replaces the first.
pub uninterp spec fn joined(base: PathBuf, path: PathBuf) -> PathBuf;

/// Calls `Path::parent` and owns the result. The contract gives the result
/// the name `parent_of` and claims nothing else about it.
#[verifier::external_body]
pub(crate) fn path_parent(path: &PathBuf) -> (parent: Option<PathBuf>)
    ensures
        parent == parent_of(*path),
{
    path.parent().map(|parent| parent.to_path_buf())
}

/// Calls `Path::is_relative`. The contract gives the result the name
/// `is_relative` and claims nothing else about it.
#[verifier::external_body]
pub(crate) fn path_is_relative(path: &PathBuf) -> (relative: bool)
    ensures
        relative == is_relative(*path),
{
    path.is_relative()
}

/// Calls `Path::join`. The contract gives the result the name `joined` and
/// claims nothing else about it.
#[verifier::external_body]
pub(crate) fn path_join(base: &PathBuf, path: &PathBuf) -> (whole: PathBuf)
    ensures
        whole == joined(*base, *path),
{
    base.join(path)
}

/// The contract of `PathBuf::clone`, taken on trust: the copy is the same
/// path.
pub assume_specification[ <PathBuf as Clone>::clone ](path: &PathBuf) -> (copy: PathBuf)
    ensures
        copy == *path,
;

/// A copy of a list of paths.
pub fn clone_paths(paths: &Vec<PathBuf>) -> (copy: Vec<PathBuf>)
    ensures
        copy@ == paths@,
{
    let mut copy: Vec<PathBuf> = Vec::new();
    let mut i: usize = 0;
    while i < paths.len()
        invariant
            i <= paths.len(),
            copy@ == paths@.take(i as int),
        decreases paths.len() - i,
    {
        copy.push(paths[i].clone());
        assert(paths@.take(i + 1) == paths@.take(i as int).push(paths@[i as int]));
        i += 1;
    }
    assert(paths@.take(i as int) == paths@);
    copy
}

} // verus!
