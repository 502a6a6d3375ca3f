//! The error taxonomy shared by all operations.

use vstd::prelude::*;

verus! {

/// Why an operation failed.
///
/// Every failure is terminal for the call that produced it; nothing is
/// retried. `IoError` carries the diagnostic text reported by the operating
/// system for permission, device, or other OS-level failures.
#[derive(Debug, PartialEq, Eq)]
pub enum FsError {
    /// The path does not exist.
    NotFound,
    /// A directory was expected but the path names a file.
    NotADirectory,
    /// The path is structurally unusable, e.g. a root path with no parent.
    InvalidPath,
    /// Any other OS-level filesystem failure, with its diagnostic text.
    IoError(String),
}

impl FsError {
    /// The human-readable text for this error, as the front-end displays it.
    pub open spec fn text(self) -> Seq<char> {
        match self {
            FsError::NotFound => "Path does not exist"@,
            FsError::NotADirectory => "Path is not a directory"@,
            FsError::InvalidPath => "Cannot get parent directory"@,
            FsError::IoError(detail) => detail@,
        }
    }

    /// Renders the error as descriptive text.
    pub fn message(&self) -> (m: String)
        ensures
            m@ == self.text(),
    {
        match self {
            FsError::NotFound => String::from_str("Path does not exist"),
            FsError::NotADirectory => String::from_str("Path is not a directory"),
            FsError::InvalidPath => String::from_str("Cannot get parent directory"),
            FsError::IoError(detail) => detail.clone(),
        }
    }
}

} // verus!
