use pup_logging::level::Level;
use pup_logging::utils::path::display;
use pup_logging::utils::path::join;
use pup_logging::utils::path::push_components;
use std::path::Path;
use std::path::PathBuf;

#[test]
fn join_appends_the_components_of_both_paths() {
    assert_eq!(join(Path::new("a/b"), Path::new("c/d")), PathBuf::from("a/b/c/d"));
    assert_eq!(join(Path::new("a"), Path::new("b")).as_os_str(), "a/b");
}

#[test]
fn join_drops_repeated_and_trailing_separators() {
    assert_eq!(join(Path::new("a//b/"), Path::new("c///d/")).as_os_str(), "a/b/c/d");
}

#[test]
fn join_drops_inner_current_directory_marks() {
    assert_eq!(join(Path::new("a/./b"), Path::new("c/.")).as_os_str(), "a/b/c");
    assert_eq!(join(Path::new("./a"), Path::new("b")).as_os_str(), "./a/b");
    assert_eq!(join(Path::new("a"), Path::new("./b")).as_os_str(), "a/./b");
}

#[test]
fn join_keeps_parent_directory_marks() {
    assert_eq!(join(Path::new("a/.."), Path::new("../b")).as_os_str(), "a/../../b");
}

#[test]
fn join_with_an_empty_path_is_the_other_path() {
    assert_eq!(join(Path::new(""), Path::new("")).as_os_str(), "");
    assert_eq!(join(Path::new("a/b"), Path::new("")).as_os_str(), "a/b");
    assert_eq!(join(Path::new(""), Path::new("a/b")).as_os_str(), "a/b");
}

#[test]
fn join_restarts_at_a_root() {
    assert_eq!(join(Path::new("/a"), Path::new("b")).as_os_str(), "/a/b");
    assert_eq!(join(Path::new("a/b"), Path::new("/c")).as_os_str(), "/c");
}

#[test]
fn push_components_extends_the_buffer() {
    let mut buffer = PathBuf::from("base");
    push_components(&mut buffer, Path::new("x//y/./z/"));
    assert_eq!(buffer.as_os_str(), "base/x/y/z");
    push_components(&mut buffer, Path::new(""));
    assert_eq!(buffer.as_os_str(), "base/x/y/z");
}

#[test]
fn display_shows_the_canonical_path() {
    let shown = display(Path::new("rel/../file.txt"), Ok(Path::new("/abs/file.txt")));
    assert_eq!(shown.text, "/abs/file.txt");
    assert!(shown.diagnostic.is_none());
}

#[test]
fn display_falls_back_to_the_given_path() {
    let shown = display(Path::new("missing/file.txt"), Err("entity not found"));
    assert_eq!(shown.text, "missing/file.txt");
    let remark = shown.diagnostic.unwrap();
    assert_eq!(remark.level, Level::Debug);
    assert_eq!(
        remark.message,
        "Failed to normalize path: \"missing/file.txt\": entity not found"
    );
}

#[test]
fn display_escapes_the_path_in_the_remark() {
    let shown = display(Path::new("a \"b\"\\c"), Err(""));
    assert_eq!(shown.text, "a \"b\"\\c");
    assert_eq!(
        shown.diagnostic.unwrap().message,
        "Failed to normalize path: \"a \\\"b\\\"\\\\c\": "
    );
}

#[test]
fn joined_path_can_be_joined_again() {
    let first = join(Path::new("a//b"), Path::new("./c/"));
    assert_eq!(first.as_os_str(), "a/b/./c");
    let second = join(first.as_path(), Path::new("d"));
    assert_eq!(second.as_os_str(), "a/b/c/d");
}
