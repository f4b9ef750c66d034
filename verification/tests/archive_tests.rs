use ai00_server::archive::{extract_plan, ArchiveError};
use ai00_server::path::SandboxPath;

fn p(absolute: bool, segs: &[&str]) -> SandboxPath {
    SandboxPath { absolute, segments: segs.iter().map(|s| s.to_string()).collect() }
}

#[test]
fn escaping_relative_entry_rejects_the_archive() {
    let target = p(true, &["tmp", "web"]);
    let entries = vec![p(false, &["ok.txt"]), p(false, &["..", "..", "escape.txt"])];
    assert_eq!(extract_plan(&entries, &target), Err(ArchiveError::BadArchive));
}

#[test]
fn absolute_entry_outside_target_rejects_the_archive() {
    let target = p(true, &["tmp", "web"]);
    let entries = vec![p(true, &["etc", "passwd"])];
    assert_eq!(extract_plan(&entries, &target), Err(ArchiveError::BadArchive));
}

#[test]
fn well_formed_entries_are_all_planned_inside_target() {
    let target = p(true, &["tmp", "web"]);
    let entries = vec![
        p(false, &["index.html"]),
        p(false, &["assets", "app.js"]),
        p(false, &["assets", "style.css"]),
    ];
    let plan = extract_plan(&entries, &target).unwrap();
    assert_eq!(plan.len(), 3);
    for dest in &plan {
        assert!(dest.starts_with(&target));
    }
    assert_eq!(plan[0], p(true, &["tmp", "web", "index.html"]));
    assert_eq!(plan[1], p(true, &["tmp", "web", "assets", "app.js"]));
    assert_eq!(plan[2], p(true, &["tmp", "web", "assets", "style.css"]));
}

#[test]
fn empty_archive_plans_nothing() {
    let target = p(true, &["tmp", "web"]);
    let entries: Vec<SandboxPath> = vec![];
    assert_eq!(extract_plan(&entries, &target).unwrap().len(), 0);
}
