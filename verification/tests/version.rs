use notion_zh::error::LocalizeError;
use notion_zh::version::{find_subdirectory, DirEntry, VersionManifest};

fn dir(name: &str) -> Option<DirEntry> {
    Some(DirEntry { name: name.to_string(), is_dir: true })
}

fn file(name: &str) -> Option<DirEntry> {
    Some(DirEntry { name: name.to_string(), is_dir: false })
}

#[test]
fn single_directory_names_the_version() {
    assert_eq!(find_subdirectory(&vec![dir("1.2.3")]), Ok(Some("1.2.3".to_string())));
}

#[test]
fn first_directory_wins_in_the_order_given() {
    let entries = vec![dir("23.13.0.10"), dir("23.12.0.9"), dir("24.1.0.1")];
    assert_eq!(find_subdirectory(&entries), Ok(Some("23.13.0.10".to_string())));
}

#[test]
fn files_before_the_directory_are_passed_over() {
    let entries = vec![file("assets.json"), file("headers.json"), dir("2.0.1"), file("z")];
    assert_eq!(find_subdirectory(&entries), Ok(Some("2.0.1".to_string())));
}

#[test]
fn listing_without_directory_has_no_version() {
    assert_eq!(find_subdirectory(&vec![]), Ok(None));
    assert_eq!(find_subdirectory(&vec![file("a"), file("b")]), Ok(None));
}

#[test]
fn unreadable_entry_before_any_directory_is_an_io_failure() {
    assert_eq!(find_subdirectory(&vec![file("a"), None, dir("1.0.0")]), Err(LocalizeError::Io));
    assert_eq!(find_subdirectory(&vec![None]), Err(LocalizeError::Io));
}

#[test]
fn unreadable_entry_behind_the_directory_does_not_matter() {
    assert_eq!(find_subdirectory(&vec![dir("1.0.0"), None]), Ok(Some("1.0.0".to_string())));
}

#[test]
fn manifest_keeps_version_and_hash() {
    let manifest = VersionManifest { version: "9.9.9".to_string(), hash: "x".to_string() };
    assert_eq!(manifest.version, "9.9.9");
    assert_eq!(manifest.hash, "x");
    assert_eq!(manifest, VersionManifest { version: "9.9.9".to_string(), hash: "x".to_string() });
}
