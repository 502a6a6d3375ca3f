use file_ops::errors::FsError;
use file_ops::paths::rename_destination;
use file_ops::service::{delete_action, greet, DeleteAction};

#[test]
fn rename_resolves_to_sibling() {
    let dest = rename_destination("/tmp/x/old.txt", "new.txt").unwrap();
    assert_eq!(dest, "/tmp/x/new.txt");
}

#[test]
fn rename_relative_single_component() {
    let dest = rename_destination("old.txt", "new.txt").unwrap();
    assert_eq!(dest, "new.txt");
}

#[test]
fn rename_ignores_trailing_separator() {
    let dest = rename_destination("/tmp/x/sub/", "renamed").unwrap();
    assert_eq!(dest, "/tmp/x/renamed");
}

#[test]
fn rename_root_is_invalid_path() {
    assert_eq!(rename_destination("/", "a").unwrap_err(), FsError::InvalidPath);
    assert_eq!(rename_destination("", "a").unwrap_err(), FsError::InvalidPath);
    assert_eq!(rename_destination("//", "a").unwrap_err(), FsError::InvalidPath);
}

#[test]
fn delete_picks_recursive_removal_for_directories() {
    assert_eq!(delete_action(true), DeleteAction::RemoveDirectoryTree);
    assert_eq!(delete_action(false), DeleteAction::RemoveFile);
}

#[test]
fn error_messages() {
    assert_eq!(FsError::NotFound.message(), "Path does not exist");
    assert_eq!(FsError::NotADirectory.message(), "Path is not a directory");
    assert_eq!(FsError::InvalidPath.message(), "Cannot get parent directory");
    assert_eq!(
        FsError::IoError(String::from("permission denied")).message(),
        "permission denied"
    );
}

#[test]
fn greeting_text() {
    assert_eq!(
        greet("Alice"),
        "Hello, Alice! You've been greeted from Rust!"
    );
}
