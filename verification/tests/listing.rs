use file_ops::entries::{make_file_info, FileInfo};
use file_ops::errors::FsError;
use file_ops::service::list_directory;

fn entry(name: &str, is_dir: bool) -> FileInfo {
    make_file_info(
        format!("/base/{}", name),
        is_dir,
        if is_dir { 0 } else { 10 },
        String::from("1970-01-01"),
    )
}

fn names(files: &[FileInfo]) -> Vec<&str> {
    files.iter().map(|f| f.name.as_str()).collect()
}

#[test]
fn directories_precede_files() {
    let entries = vec![
        entry("notes.txt", false),
        entry("src", true),
        entry("readme.md", false),
        entry("assets", true),
    ];
    let listing = list_directory(String::from("/base"), true, true, entries).unwrap();
    assert_eq!(
        names(&listing.files),
        vec!["assets", "src", "notes.txt", "readme.md"]
    );
    assert!(listing.files[0].is_dir && listing.files[1].is_dir);
    assert!(!listing.files[2].is_dir && !listing.files[3].is_dir);
}

#[test]
fn names_compare_case_insensitively() {
    // A case-sensitive comparison would put "Zebra.txt" before "apple.txt"
    // ('Z' < 'a' by scalar value); the folded comparison must not.
    let entries = vec![
        entry("Zebra.txt", false),
        entry("apple.txt", false),
        entry("Mango.txt", false),
    ];
    let listing = list_directory(String::from("/base"), true, true, entries).unwrap();
    assert_eq!(
        names(&listing.files),
        vec!["apple.txt", "Mango.txt", "Zebra.txt"]
    );
}

#[test]
fn empty_directory_lists_empty() {
    let listing = list_directory(String::from("/empty"), true, true, Vec::new()).unwrap();
    assert!(listing.files.is_empty());
    assert_eq!(listing.path, "/empty");
}

#[test]
fn missing_path_is_not_found() {
    let r = list_directory(String::from("/nowhere"), false, false, Vec::new());
    assert_eq!(r.unwrap_err(), FsError::NotFound);
}

#[test]
fn file_path_is_not_a_directory() {
    let r = list_directory(String::from("/base/notes.txt"), true, false, Vec::new());
    assert_eq!(r.unwrap_err(), FsError::NotADirectory);
}

#[test]
fn listing_keeps_every_entry() {
    let entries = vec![
        entry("b.txt", false),
        entry("a.txt", false),
        entry("c", true),
        entry("a.txt", false),
    ];
    let listing = list_directory(String::from("/base"), true, true, entries).unwrap();
    assert_eq!(listing.files.len(), 4);
    assert_eq!(names(&listing.files), vec!["c", "a.txt", "a.txt", "b.txt"]);
}

#[test]
fn make_file_info_derives_base_name() {
    let info = make_file_info(String::from("/tmp/x/old.txt"), false, 7, String::from("t"));
    assert_eq!(info.name, "old.txt");
    assert_eq!(info.path, "/tmp/x/old.txt");
    assert!(!info.is_dir);
    assert_eq!(info.size, 7);

    let dir = make_file_info(String::from("/tmp/x/sub/"), true, 0, String::from("t"));
    assert_eq!(dir.name, "sub");

    let root = make_file_info(String::from("/"), true, 0, String::from("t"));
    assert_eq!(root.name, "");

    let bare = make_file_info(String::from("plain.txt"), false, 1, String::from("t"));
    assert_eq!(bare.name, "plain.txt");
}
