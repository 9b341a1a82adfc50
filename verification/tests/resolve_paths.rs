use plumb::errors::AppError;
use plumb::resolve::{parent_dir, resolve};

#[test]
fn literal_relative_path_unchanged() {
    let r = resolve("data/in.txt", Some("/home/u"), "/w");
    assert_eq!(r, Ok(String::from("data/in.txt")));
}

#[test]
fn literal_absolute_path_unchanged() {
    let r = resolve("/etc/conf", Some("/home/u"), "/w");
    assert_eq!(r, Ok(String::from("/etc/conf")));
}

#[test]
fn empty_path_unchanged() {
    let r = resolve("", Some("/home/u"), "/w");
    assert_eq!(r, Ok(String::new()));
}

#[test]
fn tilde_expands_to_home() {
    let r = resolve("~/notes.txt", Some("/home/u"), "/w");
    assert_eq!(r, Ok(String::from("/home/u/notes.txt")));
}

#[test]
fn tilde_alone_is_home() {
    let r = resolve("~", Some("/home/u"), "/w");
    assert_eq!(r, Ok(String::from("/home/u")));
}

#[test]
fn tilde_drops_the_second_character_too() {
    // The prefix rule drops the character after `~` even when it is not a
    // separator: `~ab` keeps only `b`.
    let r = resolve("~ab", Some("/home/u"), "/w");
    assert_eq!(r, Ok(String::from("/home/u/b")));
}

#[test]
fn tilde_without_home_fails() {
    let r = resolve("~/x", None, "/w");
    assert_eq!(r, Err(AppError::PathResolution));
}

#[test]
fn literal_path_without_home_still_succeeds() {
    let r = resolve("plain.txt", None, "/w");
    assert_eq!(r, Ok(String::from("plain.txt")));
}

#[test]
fn dot_expands_to_cwd() {
    let r = resolve("./src/x.rs", None, "/work");
    assert_eq!(r, Ok(String::from("/work/src/x.rs")));
}

#[test]
fn dot_alone_is_cwd() {
    let r = resolve(".", Some("/home/u"), "/work");
    assert_eq!(r, Ok(String::from("/work")));
}

#[test]
fn dot_drops_the_second_character_too() {
    // `.cargo` keeps only `argo`: the character after `.` is dropped along
    // with the prefix itself.
    let r = resolve(".cargo", Some("/home/u"), "/work");
    assert_eq!(r, Ok(String::from("/work/argo")));
}

#[test]
fn parent_of_nested_path() {
    assert_eq!(parent_dir("a/b/c.txt"), Some(String::from("a/b")));
}

#[test]
fn parent_of_bare_file_name_is_none() {
    assert_eq!(parent_dir("c.txt"), None);
}

#[test]
fn parent_of_root_level_file_is_root() {
    assert_eq!(parent_dir("/c.txt"), Some(String::from("/")));
}

#[test]
fn parent_of_empty_path_is_none() {
    assert_eq!(parent_dir(""), None);
}
