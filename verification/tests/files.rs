use good_ressource::registry::files::{bytes_eq_ignore_ascii_case, file_resource_id};

#[test]
fn ascii_case_is_ignored_and_lengths_must_agree() {
    assert!(bytes_eq_ignore_ascii_case(b"RoN", b"ron"));
    assert!(bytes_eq_ignore_ascii_case(b"", b""));
    assert!(!bytes_eq_ignore_ascii_case(b"ron", b"rom"));
    assert!(!bytes_eq_ignore_ascii_case(b"ron", b"ronn"));
    assert!(!bytes_eq_ignore_ascii_case(b"[", b"{"));
    assert!(bytes_eq_ignore_ascii_case(b"JSON1", b"json1"));
}

#[test]
fn a_matching_file_is_read_under_its_stem() {
    assert_eq!(file_resource_id(true, Some(b"ron"), Some("goblin"), "ron"), Some("goblin"));
    assert_eq!(file_resource_id(true, Some(b"RON"), Some("goblin"), "ron"), Some("goblin"));
}

#[test]
fn a_file_without_extension_is_read() {
    assert_eq!(file_resource_id(true, None, Some("goblin"), "ron"), Some("goblin"));
}

#[test]
fn directories_are_skipped() {
    assert_eq!(file_resource_id(false, Some(b"ron"), Some("goblin"), "ron"), None);
}

#[test]
fn other_extensions_are_skipped() {
    assert_eq!(file_resource_id(true, Some(b"json"), Some("goblin"), "ron"), None);
    assert_eq!(file_resource_id(true, Some(b""), Some("goblin"), "ron"), None);
}

#[test]
fn hidden_files_and_unreadable_names_are_skipped() {
    assert_eq!(file_resource_id(true, Some(b"ron"), Some(".goblin"), "ron"), None);
    assert_eq!(file_resource_id(true, None, None, "ron"), None);
    assert_eq!(file_resource_id(true, None, Some(""), "ron"), Some(""));
}
