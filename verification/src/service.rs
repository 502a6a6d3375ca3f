//! The decision layer of each operation: everything the operations compute
//! once the raw facts (existence and type flags, raw child entries) are in
//! hand.

use crate::entries::DirectoryContents;
use crate::entries::FileInfo;
use crate::errors::FsError;
use crate::sorting::entries_sorted;
use crate::sorting::sort_entries;
use vstd::prelude::*;

verus! {

/// Builds the result of one listing call.
///
/// `path_exists` and `path_is_dir` report what the filesystem said about the
/// queried path; `entries` holds one record per immediate child, in
/// enumeration order. A missing path fails with `NotFound`, a non-directory
/// with `NotADirectory`; otherwise the call succeeds with exactly the given
/// entries, rearranged into listing order.
pub fn list_directory(
    path: String,
    path_exists: bool,
    path_is_dir: bool,
    entries: Vec<FileInfo>,
) -> (r: Result<DirectoryContents, FsError>)
    ensures
        !path_exists ==> (r matches Err(e) && e is NotFound),
        path_exists && !path_is_dir ==> (r matches Err(e) && e is NotADirectory),
        path_exists && path_is_dir ==> (r matches Ok(d) && {
            &&& d.path@ == path@
            &&& entries_sorted(d.files@)
            &&& d.files@.to_multiset() == entries@.to_multiset()
            &&& d.files@.len() == entries@.len()
        }),
{
    if !path_exists {
        return Err(FsError::NotFound);
    }
    if !path_is_dir {
        return Err(FsError::NotADirectory);
    }
    let files = sort_entries(entries);
    Ok(DirectoryContents { files, path })
}

/// Which removal primitive a delete call must use.
#[derive(Debug, PartialEq, Eq, Structural)]
pub enum DeleteAction {
    /// Remove the directory and its entire contents, recursively.
    RemoveDirectoryTree,
    /// Remove the single file.
    RemoveFile,
}

/// Chooses the removal primitive for a delete call: the whole tree when the
/// path is a directory, the single file otherwise.
pub fn delete_action(path_is_dir: bool) -> (a: DeleteAction)
    ensures
        path_is_dir <==> a is RemoveDirectoryTree,
        !path_is_dir <==> a is RemoveFile,
{
    if path_is_dir {
        DeleteAction::RemoveDirectoryTree
    } else {
        DeleteAction::RemoveFile
    }
}

/// Builds the greeting returned to the front-end for a given name.
pub fn greet(name: &str) -> (r: String)
    ensures
        r@ == "Hello, "@ + name@ + "! You've been greeted from Rust!"@,
{
    let mut r = String::from_str("Hello, ");
    r.append(name);
    r.append("! You've been greeted from Rust!");
    proof {
        assert(r@ =~= "Hello, "@ + name@ + "! You've been greeted from Rust!"@);
    }
    r
}

} // verus!
