//! Where a file of a namespace lives, and what to tell its owner once the
//! namespace directory has been asked for.

use vstd::prelude::*;
use std::path::PathBuf;
use crate::outcome::{io_result_to_opt_error, opt_error};

verus! {

/// `std::path::PathBuf`, carried through as an opaque value.
#[verifier::external_type_specification]
#[verifier::external_body]
pub struct ExPathBuf(std::path::PathBuf);

/// The path that `std::path::Path::join` gives for `base` and `segment`
/// under the path rules of the platform the crate is built for. Nothing is
/// stated of it but that it depends on the two alone.
pub uninterp spec fn joined(base: PathBuf, segment: Seq<char>) -> PathBuf;

/// `std::path::Path::join`: a new path, `base` with `segment` adjoined. The
/// result is named, not described: what adjoining means (when a separator is
/// added, when `segment` replaces `base`) is the platform's.
#[verifier::external_body]
fn join(base: &PathBuf, segment: &str) -> (res: PathBuf)
    ensures
        res == joined(*base, segment@),
{
    base.join(segment)
}

/// The directory of `namespace` below the temporary directory.
pub open spec fn namespace_dir(temp_dir: PathBuf, namespace: Seq<char>) -> PathBuf {
    joined(temp_dir, namespace)
}

/// The place of `filename` in `namespace`.
pub open spec fn placement(temp_dir: PathBuf, namespace: Seq<char>, filename: Seq<char>) -> Placement {
    Placement {
        dir: namespace_dir(temp_dir, namespace),
        path: joined(namespace_dir(temp_dir, namespace), filename),
    }
}

/// The directory of `namespace` directly below `temp_dir`. No check is made
/// of `namespace`: what the host cannot take shows when the directory is
/// created.
pub fn tmp_with_namespace(temp_dir: &PathBuf, namespace: &str) -> (dir: PathBuf)
    ensures
        dir == namespace_dir(*temp_dir, namespace@),
{
    join(temp_dir, namespace)
}

/// The place of a file in a namespace: the directory that has to exist, and
/// the file's path in it.
#[derive(Debug, PartialEq, Eq)]
pub struct Placement {
    /// The namespace directory, to be created with its missing ancestors.
    pub dir: PathBuf,
    /// The file's path inside `dir`.
    pub path: PathBuf,
}

impl Placement {
    /// What the caller gets once the creation of `dir` has ended with
    /// `created`: the path in any case, beside the error if there was one.
    pub open spec fn finished(self, created: Result<(), std::io::Error>) -> (PathBuf, Option<std::io::Error>) {
        (self.path, opt_error(created))
    }

    /// Pairs the file's path with the outcome of creating the namespace
    /// directory. The path is handed out whether or not the directory could
    /// be created; the error is absent exactly when it could.
    pub fn finish(self, created: std::io::Result<()>) -> (res: (PathBuf, Option<std::io::Error>))
        ensures
            res == self.finished(created),
            res.0 == self.path,
            res.1 is None <==> created is Ok,
            created matches Err(e) ==> res.1 == Some(e),
    {
        let err = io_result_to_opt_error(created);
        (self.path, err)
    }
}

/// The place of `filename` in `namespace` below `temp_dir`: the namespace
/// directory, which the caller is to create, and the path of the file in it.
pub fn in_tmp(temp_dir: &PathBuf, namespace: &str, filename: &str) -> (res: Placement)
    ensures
        res == placement(*temp_dir, namespace@, filename@),
        res.dir == joined(*temp_dir, namespace@),
        res.path == joined(joined(*temp_dir, namespace@), filename@),
{
    let dir = tmp_with_namespace(temp_dir, namespace);
    let path = join(&dir, filename);
    Placement { dir, path }
}

} // verus!
