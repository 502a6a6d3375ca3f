//! The records a listing call returns: one per directory child, and one for
//! the listing as a whole.

use crate::paths::base_name;
use crate::paths::file_name_of;
use vstd::prelude::*;

verus! {

/// One immediate child of a listed directory. Built fresh on every listing
/// call and never mutated afterwards.
#[derive(Debug)]
pub struct FileInfo {
    /// The child's base name.
    pub name: String,
    /// The child's full path.
    pub path: String,
    /// Whether the child is itself a directory.
    pub is_dir: bool,
    /// The child's size in bytes; meaningful only when it is not a directory.
    pub size: u64,
    /// The child's last-modified time, as opaque text.
    pub modified: String,
}

/// The ordered result of listing one directory.
#[derive(Debug)]
pub struct DirectoryContents {
    /// The immediate children, ordered by the listing sort rule.
    pub files: Vec<FileInfo>,
    /// The directory that was listed.
    pub path: String,
}

/// Builds the record for one directory child from its metadata, deriving the
/// base name from the full path.
pub fn make_file_info(path: String, is_dir: bool, size: u64, modified: String) -> (info:
    FileInfo)
    ensures
        info.name@ == base_name(path@),
        info.path@ == path@,
        info.is_dir == is_dir,
        info.size == size,
        info.modified@ == modified@,
{
    let name = file_name_of(path.as_str());
    FileInfo { name, path, is_dir, size, modified }
}

} // verus!
