use ai00_server::path::{build_path, check_path_permitted, PathError, SandboxPath};

fn p(absolute: bool, segs: &[&str]) -> SandboxPath {
    SandboxPath { absolute, segments: segs.iter().map(|s| s.to_string()).collect() }
}

#[test]
fn parent_segment_alone_is_traversal() {
    let root = p(true, &["srv", "www"]);
    let name = p(false, &[".."]);
    assert_eq!(build_path(&root, &name), Err(PathError::PathTraversal));
}

#[test]
fn parent_segment_in_middle_is_traversal() {
    let root = p(true, &["srv", "www"]);
    let name = p(false, &["a", "..", "b"]);
    assert_eq!(build_path(&root, &name), Err(PathError::PathTraversal));
}

#[test]
fn parent_segment_after_absolute_prefix_is_traversal() {
    let root = p(true, &["srv", "www"]);
    let name = p(true, &["srv", "www", "..", "secret"]);
    assert_eq!(build_path(&root, &name), Err(PathError::PathTraversal));
}

#[test]
fn parent_segment_at_end_is_traversal() {
    let root = p(true, &["srv"]);
    let name = p(false, &["plugins", ".."]);
    assert_eq!(build_path(&root, &name), Err(PathError::PathTraversal));
}

#[test]
fn relative_name_is_joined_onto_root() {
    let root = p(true, &["srv", "www"]);
    let name = p(false, &["plugins", "foo"]);
    let got = build_path(&root, &name).unwrap();
    assert_eq!(got, p(true, &["srv", "www", "plugins", "foo"]));
    assert!(got.starts_with(&root));
}

#[test]
fn empty_relative_name_yields_root() {
    let root = p(true, &["srv", "www"]);
    let name = p(false, &[]);
    let got = build_path(&root, &name).unwrap();
    assert_eq!(got, p(true, &["srv", "www"]));
    assert!(got.starts_with(&root));
}

#[test]
fn triple_dot_segment_is_not_traversal() {
    let root = p(true, &["srv"]);
    let name = p(false, &["..."]);
    let got = build_path(&root, &name).unwrap();
    assert_eq!(got, p(true, &["srv", "..."]));
}

#[test]
fn absolute_name_under_root_is_used_as_is() {
    let root = p(true, &["srv", "www"]);
    let name = p(true, &["srv", "www", "index.html"]);
    let got = build_path(&root, &name).unwrap();
    assert_eq!(got, p(true, &["srv", "www", "index.html"]));
}

#[test]
fn absolute_name_outside_root_is_not_permitted() {
    let root = p(true, &["srv", "www"]);
    let name = p(true, &["etc", "passwd"]);
    assert_eq!(build_path(&root, &name), Err(PathError::NotPermitted));
}

#[test]
fn absolute_name_equal_to_root_is_permitted() {
    let root = p(true, &["srv", "www"]);
    let name = p(true, &["srv", "www"]);
    let got = build_path(&root, &name).unwrap();
    assert_eq!(got, p(true, &["srv", "www"]));
}

#[test]
fn allowlist_accepts_descendant_of_permitted_dir() {
    let path = p(true, &["work", "assets", "configs", "a.toml"]);
    let permitted = vec![p(true, &["work", "assets"]), p(true, &["work", "data"])];
    assert_eq!(check_path_permitted(&path, &permitted), Ok(()));
}

#[test]
fn allowlist_rejects_path_outside_every_permitted_dir() {
    let path = p(true, &["etc", "passwd"]);
    let permitted = vec![p(true, &["work", "assets"]), p(true, &["work", "data"])];
    assert_eq!(check_path_permitted(&path, &permitted), Err(PathError::NotPermitted));
}

#[test]
fn allowlist_rejects_everything_when_empty() {
    let path = p(true, &["work", "assets"]);
    let permitted: Vec<SandboxPath> = vec![];
    assert_eq!(check_path_permitted(&path, &permitted), Err(PathError::NotPermitted));
}

#[test]
fn allowlist_verdict_is_repeatable() {
    let path = p(true, &["work", "assets", "x"]);
    let permitted = vec![p(true, &["work", "assets"])];
    let first = check_path_permitted(&path, &permitted);
    let second = check_path_permitted(&path, &permitted);
    assert_eq!(first, second);
    let outside = p(true, &["elsewhere"]);
    let first = check_path_permitted(&outside, &permitted);
    let second = check_path_permitted(&outside, &permitted);
    assert_eq!(first, second);
}
