use ai00_server::path::SandboxPath;
use ai00_server::provision::{is_plugin_bundle, plugin_dir, provision_plan, select_plugins, DirEntryInfo};

fn entry(stem: Option<&str>, extension: Option<&str>, is_file: bool) -> DirEntryInfo {
    DirEntryInfo {
        stem: stem.map(|s| s.to_string()),
        extension: extension.map(|s| s.to_string()),
        is_file,
    }
}

#[test]
fn zip_file_is_a_plugin() {
    assert!(is_plugin_bundle(&entry(Some("foo"), Some("zip"), true)));
}

#[test]
fn reserved_api_bundle_is_skipped() {
    assert!(!is_plugin_bundle(&entry(Some("api"), Some("zip"), true)));
}

#[test]
fn non_zip_extension_is_skipped() {
    assert!(!is_plugin_bundle(&entry(Some("foo"), Some("tar"), true)));
    assert!(!is_plugin_bundle(&entry(Some("foo"), None, true)));
}

#[test]
fn directories_are_skipped() {
    assert!(!is_plugin_bundle(&entry(Some("foo"), Some("zip"), false)));
}

#[test]
fn scan_keeps_order_and_drops_api() {
    let entries = vec![
        entry(Some("foo"), Some("zip"), true),
        entry(Some("api"), Some("zip"), true),
        entry(Some("bad"), Some("zip"), true),
        entry(Some("notes"), Some("txt"), true),
        entry(Some("subdir"), None, false),
    ];
    let names = select_plugins(&entries);
    assert_eq!(names, vec!["foo".to_string(), "bad".to_string()]);
}

#[test]
fn empty_scan_finds_nothing() {
    let entries: Vec<DirEntryInfo> = vec![];
    assert_eq!(select_plugins(&entries).len(), 0);
}

#[test]
fn plugin_is_extracted_under_plugins_subdir() {
    let target = SandboxPath {
        absolute: true,
        segments: vec!["tmp".to_string(), "web".to_string()],
    };
    let dir = plugin_dir(&target, &"foo".to_string());
    assert!(dir.absolute);
    assert_eq!(
        dir.segments,
        vec!["tmp".to_string(), "web".to_string(), "plugins".to_string(), "foo".to_string()]
    );
    assert!(dir.starts_with(&target));
}

#[test]
fn provision_plan_pairs_each_plugin_with_its_directory() {
    let serve_root = SandboxPath {
        absolute: true,
        segments: vec!["tmp".to_string(), "web".to_string()],
    };
    let entries = vec![
        entry(Some("foo"), Some("zip"), true),
        entry(Some("api"), Some("zip"), true),
        entry(Some("bar"), Some("zip"), true),
    ];
    let jobs = provision_plan(&serve_root, &entries);
    assert_eq!(jobs.len(), 2);
    assert_eq!(jobs[0].name, "foo");
    assert_eq!(
        jobs[0].dest.segments,
        vec!["tmp".to_string(), "web".to_string(), "plugins".to_string(), "foo".to_string()]
    );
    assert_eq!(jobs[1].name, "bar");
    assert_eq!(
        jobs[1].dest.segments,
        vec!["tmp".to_string(), "web".to_string(), "plugins".to_string(), "bar".to_string()]
    );
    assert!(jobs.iter().all(|j| j.dest.starts_with(&serve_root)));
}
