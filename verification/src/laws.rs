//! What holds of every placement, stated once and proved.

use vstd::prelude::*;
use std::path::PathBuf;
use crate::place::{joined, placement, Placement};

verus! {

/// The path handed out for a file is the temporary directory joined with the
/// namespace and then with the file name, whatever became of the attempt to
/// create the namespace directory.
pub proof fn lemma_path_joins_namespace_then_filename(
    temp_dir: PathBuf,
    namespace: Seq<char>,
    filename: Seq<char>,
    created: Result<(), std::io::Error>,
)
    ensures
        placement(temp_dir, namespace, filename).finished(created).0 == joined(
            joined(temp_dir, namespace),
            filename,
        ),
{
}

/// The directory that the caller is asked to create is the temporary
/// directory joined with the namespace, and the file lies directly in it.
pub proof fn lemma_file_lies_in_namespace_dir(
    temp_dir: PathBuf,
    namespace: Seq<char>,
    filename: Seq<char>,
)
    ensures
        placement(temp_dir, namespace, filename).dir == joined(temp_dir, namespace),
        placement(temp_dir, namespace, filename).path == joined(
            placement(temp_dir, namespace, filename).dir,
            filename,
        ),
{
}

/// A namespace directory that could be created, or was there already, leaves
/// no error beside the path.
pub proof fn lemma_created_dir_leaves_no_error(place: Placement)
    ensures
        place.finished(Ok(())) == (place.path, None::<std::io::Error>),
{
}

/// A namespace directory that could not be created leaves its error beside
/// the path, and the path is the one that success would have given.
pub proof fn lemma_failed_dir_keeps_path(
    temp_dir: PathBuf,
    namespace: Seq<char>,
    filename: Seq<char>,
    error: std::io::Error,
)
    ensures
        placement(temp_dir, namespace, filename).finished(Err(error)) == (
            joined(joined(temp_dir, namespace), filename),
            Some(error),
        ),
        placement(temp_dir, namespace, filename).finished(Err(error)).0 == placement(
            temp_dir,
            namespace,
            filename,
        ).finished(Ok(())).0,
{
}

} // verus!
