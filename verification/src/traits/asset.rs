//! Where an asset lives inside a target project.

use std::path::PathBuf;
use vstd::prelude::*;

verus! {

/// `std::path::PathBuf`, an owned path of the file system. Nothing is known
/// of what a value holds.
#[verifier::external_type_specification]
#[verifier::external_body]
pub struct ExPathBuf(PathBuf);

/// What `PathBuf::join` makes of a path and a tail: the tail appended to the
/// path as further components, or the tail alone where it is itself absolute.
pub uninterp spec fn joined(root: PathBuf, tail: Seq<char>) -> PathBuf;

/// Joins `tail` onto `root` with `PathBuf::join`. The outcome is named, not
/// spelled out: it is a function of the path and the tail alone.
#[verifier::external_body]
pub(crate) fn join_path(root: &PathBuf, tail: &str) -> (path: PathBuf)
    ensures
        path == joined(*root, tail@),
{
    root.join(tail)
}

/// An asset of a target project.
pub trait Asset {
    /// The path by which a script of the project refers to the asset.
    spec fn script_path(&self) -> Seq<char>;

    /// The path of the asset below the project root.
    spec fn project_path(&self) -> Seq<char>;

    /// The path by which a script of the project refers to the asset.
    fn relative_path(&self) -> (path: String)
        ensures
            path@ == self.script_path(),
    ;

    /// The path of the asset below the project root.
    fn rooted_path(&self) -> (path: String)
        ensures
            path@ == self.project_path(),
    ;

    /// The place of the asset on disk, for a project at `root`: `root` joined
    /// with [`Asset::rooted_path`].
    fn absolute_path(&self, root: &PathBuf) -> (path: PathBuf)
        ensures
            path == joined(*root, self.project_path()),
    ;
}

} // verus!
