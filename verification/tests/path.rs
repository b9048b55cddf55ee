use repossess::path::{path_segments, SEPARATOR};

#[test]
fn separator_is_the_slash() {
    assert_eq!(SEPARATOR, '/');
}

#[test]
fn segments_of_a_plain_repository_path() {
    assert_eq!(path_segments("/rust-lang/rust"), vec!["rust-lang", "rust"]);
}

#[test]
fn empty_pieces_are_no_segments() {
    assert_eq!(path_segments("//a///b/"), vec!["a", "b"]);
    assert_eq!(path_segments("a/b"), vec!["a", "b"]);
    assert_eq!(path_segments("/a"), vec!["a"]);
    assert_eq!(path_segments("a"), vec!["a"]);
}

#[test]
fn path_of_separators_has_no_segment() {
    assert!(path_segments("").is_empty());
    assert!(path_segments("/").is_empty());
    assert!(path_segments("///").is_empty());
}

#[test]
fn segments_come_in_order() {
    assert_eq!(path_segments("/a/b/c/d/e"), vec!["a", "b", "c", "d", "e"]);
}

#[test]
fn segments_are_cut_by_characters_not_bytes() {
    assert_eq!(path_segments("/caf\u{e9}/\u{65e5}\u{672c}/x"), vec!["caf\u{e9}", "\u{65e5}\u{672c}", "x"]);
    assert_eq!(path_segments("\u{1f980}/"), vec!["\u{1f980}"]);
}
