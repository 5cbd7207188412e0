//! Filesystem paths, which the library only carries from one place to
//! another and never inspects.

use std::path::{Path, PathBuf};
use vstd::prelude::*;

verus! {

#[verifier::external_type_specification]
#[verifier::external_body]
pub struct ExPathBuf(PathBuf);

#[verifier::external_type_specification]
#[verifier::external_body]
pub struct ExPath(Path);

/// `PathBuf::clone`: an equal path.
pub assume_specification[ <PathBuf as Clone>::clone ](p: &PathBuf) -> (r: PathBuf)
    ensures
        r == *p,
;

/// What `Path::join` makes of a directory and a relative name.
pub uninterp spec fn joined_path(root: &Path, name: Seq<char>) -> PathBuf;

/// `Path::join(name)`: the path of `name` inside `root`. The contract claims
/// only that the result depends on `root` and the text of `name` alone
/// ([`joined_path`]); what the joined path looks like is left unsaid.
#[verifier::external_body]
pub(crate) fn join_path(root: &Path, name: &str) -> (r: PathBuf)
    ensures
        r == joined_path(root, name@),
{
    root.join(name)
}

} // verus!
