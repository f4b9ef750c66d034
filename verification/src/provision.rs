//! Asset provisioning decisions: which files of the plugin directory are
//! plugin bundles, and where each plugin is extracted.

use vstd::prelude::*;
use crate::path::{SandboxPath, spec_join};

verus! {

/// What a directory scan reports of one entry, as plain values: the file
/// name's stem (the name without its last extension), its extension, and
/// whether the entry is a regular file.
#[derive(Debug)]
pub struct DirEntryInfo {
    /// The file name without its last extension, when it has one.
    pub stem: Option<String>,
    /// The part after the file name's last dot, when there is one.
    pub extension: Option<String>,
    /// True when the entry is a regular file.
    pub is_file: bool,
}

/// A directory entry is a plugin bundle when it is a regular file with
/// extension `zip` whose stem is not the reserved name `api`.
pub open spec fn spec_is_plugin_bundle(e: DirEntryInfo) -> bool {
    &&& e.is_file
    &&& e.extension matches Some(ext) && ext@ == "zip"@
    &&& e.stem matches Some(stem) && stem@ != "api"@
}

/// The names of the plugin bundles among `entries`, in scan order.
pub open spec fn spec_plugin_names(entries: Seq<DirEntryInfo>) -> Seq<Seq<char>>
    decreases entries.len(),
{
    if entries.len() == 0 {
        Seq::empty()
    } else {
        let rest = spec_plugin_names(entries.drop_last());
        let e = entries.last();
        if spec_is_plugin_bundle(e) {
            rest.push(e.stem->0@)
        } else {
            rest
        }
    }
}

/// Is this directory entry a plugin bundle to extract?
pub fn is_plugin_bundle(e: &DirEntryInfo) -> (r: bool)
    ensures
        r == spec_is_plugin_bundle(*e),
{
    if !e.is_file {
        return false;
    }
    let zip: String = "zip".to_owned();
    let reserved: String = "api".to_owned();
    match &e.extension {
        None => false,
        Some(ext) => {
            if *ext == zip {
                match &e.stem {
                    None => false,
                    Some(stem) => *stem != reserved,
                }
            } else {
                false
            }
        },
    }
}

/// The plugin names discovered in a directory scan: the stem of every
/// regular `zip` file except the reserved `api`, in scan order.
pub fn select_plugins(entries: &Vec<DirEntryInfo>) -> (r: Vec<String>)
    ensures
        r@.map_values(|s: String| s@) == spec_plugin_names(entries@),
{
    let mut names: Vec<String> = Vec::new();
    let mut i: usize = 0;
    while i < entries.len()
        invariant
            i <= entries.len(),
            names@.map_values(|s: String| s@) == spec_plugin_names(entries@.take(i as int)),
        decreases entries.len() - i,
    {
        proof {
            assert(entries@.take(i as int + 1).drop_last() =~= entries@.take(i as int));
            assert(entries@.take(i as int + 1).last() == entries@[i as int]);
        }
        if is_plugin_bundle(&entries[i]) {
            let stem = match &entries[i].stem {
                Some(stem) => stem.clone(),
                None => "".to_owned(),
            };
            names.push(stem);
        }
        proof {
            assert(names@.map_values(|s: String| s@) =~= spec_plugin_names(
                entries@.take(i as int + 1),
            ));
        }
        i = i + 1;
    }
    proof {
        assert(entries@.take(entries@.len() as int) =~= entries@);
    }
    names
}

/// One plugin to extract: its name and the directory it is extracted into.
#[derive(Debug)]
pub struct PluginJob {
    /// The plugin's name, derived from its file name's stem.
    pub name: String,
    /// The directory the bundle is extracted into.
    pub dest: SandboxPath,
}

/// The provisioning work a directory scan calls for: one job per plugin
/// bundle, in scan order, each extracted into `<serve_root>/plugins/<name>`.
pub fn provision_plan(serve_root: &SandboxPath, entries: &Vec<DirEntryInfo>) -> (r: Vec<PluginJob>)
    ensures
        r@.map_values(|j: PluginJob| j.name@) == spec_plugin_names(entries@),
        forall|i: int|
            0 <= i < r@.len() ==> r@[i].dest@ == spec_join(
                serve_root@,
                seq!["plugins"@, r@[i].name@],
            ),
{
    let names = select_plugins(entries);
    let mut jobs: Vec<PluginJob> = Vec::new();
    let mut i: usize = 0;
    while i < names.len()
        invariant
            i <= names.len(),
            jobs@.len() == i,
            forall|j: int| 0 <= j < i ==> jobs@[j].name == names@[j],
            forall|j: int|
                0 <= j < i ==> jobs@[j].dest@ == spec_join(
                    serve_root@,
                    seq!["plugins"@, jobs@[j].name@],
                ),
        decreases names.len() - i,
    {
        let name = names[i].clone();
        let dest = plugin_dir(serve_root, &name);
        jobs.push(PluginJob { name, dest });
        i = i + 1;
    }
    proof {
        assert(jobs@.map_values(|j: PluginJob| j.name@) =~= names@.map_values(|s: String| s@));
    }
    jobs
}

/// The directory a plugin of the given name is extracted into:
/// `<target>/plugins/<name>`.
pub fn plugin_dir(target: &SandboxPath, name: &String) -> (r: SandboxPath)
    ensures
        r@ == spec_join(target@, seq!["plugins"@, name@]),
{
    let mut segments: Vec<String> = Vec::new();
    segments.push("plugins".to_owned());
    segments.push(name.clone());
    let sub = SandboxPath { absolute: false, segments };
    proof {
        assert(sub@.1 =~= seq!["plugins"@, name@]);
    }
    target.join(&sub)
}

} // verus!
