//! Archive extraction planning: confining every entry of an untrusted
//! zip-format archive to its target directory.
//!
//! An archive's internal entry paths are not trusted. Before anything is
//! written to disk, each declared entry path is resolved against the target
//! directory with the same sandbox rules as any other candidate path; an
//! entry that would escape makes the whole archive bad.

use vstd::prelude::*;
use crate::path::{
    SandboxPath,
    PathError,
    build_path,
    build_path_spec,
    has_parent_segment,
    spec_starts_with,
};

verus! {

/// Why an archive was rejected.
#[derive(Clone, Copy, Debug, PartialEq, Eq, Structural)]
pub enum ArchiveError {
    /// The archive is unreadable or structurally invalid, including an
    /// entry whose path would escape the target directory.
    BadArchive,
    /// A filesystem failure while reading or writing.
    Io,
}

/// Plan the extraction of an archive into `target`: one destination path per
/// entry, each confined to `target`.
///
/// An entry with a parent-directory segment, or an absolute entry path that
/// does not stay under `target`, makes the archive bad and nothing is
/// planned for writing.
pub fn extract_plan(entries: &Vec<SandboxPath>, target: &SandboxPath) -> (r: Result<
    Vec<SandboxPath>,
    ArchiveError,
>)
    ensures
        match r {
            Ok(dests) => {
                &&& dests@.len() == entries@.len()
                &&& forall|i: int|
                    0 <= i < entries@.len() ==> build_path_spec(target@, entries@[i]@)
                        == Ok::<_, PathError>(dests@[i]@)
                &&& forall|i: int|
                    0 <= i < dests@.len() ==> spec_starts_with(dests@[i]@, target@)
            },
            Err(e) => {
                &&& e == ArchiveError::BadArchive
                &&& exists|i: int|
                    0 <= i < entries@.len() && build_path_spec(target@, entries@[i]@) is Err
            },
        },
        r is Ok <==> (forall|i: int|
            0 <= i < entries@.len() ==> build_path_spec(target@, entries@[i]@) is Ok),
{
    let mut dests: Vec<SandboxPath> = Vec::new();
    let mut i: usize = 0;
    while i < entries.len()
        invariant
            i <= entries.len(),
            dests@.len() == i,
            forall|j: int|
                0 <= j < i ==> build_path_spec(target@, entries@[j]@) == Ok::<_, PathError>(
                    dests@[j]@,
                ),
            forall|j: int| 0 <= j < i ==> spec_starts_with(dests@[j]@, target@),
        decreases entries.len() - i,
    {
        match build_path(target, &entries[i]) {
            Ok(dest) => {
                dests.push(dest);
            },
            Err(_) => {
                return Err(ArchiveError::BadArchive);
            },
        }
        i = i + 1;
    }
    Ok(dests)
}

/// No planned write ever leaves the target directory: whatever the entries,
/// either the archive is rejected or every destination has the target as a
/// prefix.
pub proof fn lemma_no_escape(target: (bool, Seq<Seq<char>>), entry: (bool, Seq<Seq<char>>))
    ensures
        build_path_spec(target, entry) matches Ok(dest) ==> spec_starts_with(dest, target),
        has_parent_segment(entry.1) ==> build_path_spec(target, entry) is Err,
{
}

} // verus!
