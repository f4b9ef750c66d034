//! Path sandboxing: deciding whether a candidate path stays inside a
//! permitted root.
//!
//! A path is modelled as an optional leading root (`absolute`) followed by a
//! sequence of plain segments. The parent-directory marker `..` is kept as an
//! ordinary segment so that validation can reject it explicitly.

use vstd::prelude::*;

verus! {

/// A filesystem path, decomposed into its components.
#[derive(Debug, PartialEq, Eq)]
pub struct SandboxPath {
    /// True when the path starts at the filesystem root.
    pub absolute: bool,
    /// The path's segments, in order, each a plain component.
    pub segments: Vec<String>,
}

/// Why a candidate path was rejected.
#[derive(Clone, Copy, Debug, PartialEq, Eq, Structural)]
pub enum PathError {
    /// The candidate contains a parent-directory segment.
    PathTraversal,
    /// The candidate resolves outside the permitted root.
    NotPermitted,
}

/// Does some segment equal the parent-directory marker `..`?
pub open spec fn has_parent_segment(segs: Seq<Seq<char>>) -> bool {
    exists|i: int| 0 <= i < segs.len() && segs[i] == ".."@
}

/// Path `p` starts with path `q`: same absoluteness, and every segment of
/// `q` heads `p` in order.
pub open spec fn spec_starts_with(p: (bool, Seq<Seq<char>>), q: (bool, Seq<Seq<char>>)) -> bool {
    &&& p.0 == q.0
    &&& q.1.len() <= p.1.len()
    &&& forall|i: int| 0 <= i < q.1.len() ==> p.1[i] == q.1[i]
}

/// The path obtained by appending the (relative) segments `name` to `root`.
pub open spec fn spec_join(root: (bool, Seq<Seq<char>>), name: Seq<Seq<char>>) -> (bool, Seq<
    Seq<char>,
>) {
    (root.0, root.1 + name)
}

/// The verdict of [`build_path`], as a function of the two paths alone.
///
/// A candidate with a `..` segment is traversal; an absolute candidate that
/// does not stay under the root is not permitted; any other candidate is
/// taken as-is when it is absolute or already under the root, and joined
/// onto the root otherwise.
pub open spec fn build_path_spec(root: (bool, Seq<Seq<char>>), name: (bool, Seq<Seq<char>>)) -> Result<
    (bool, Seq<Seq<char>>),
    PathError,
> {
    if has_parent_segment(name.1) {
        Err(PathError::PathTraversal)
    } else if name.0 || spec_starts_with(name, root) {
        if spec_starts_with(name, root) {
            Ok(name)
        } else {
            Err(PathError::NotPermitted)
        }
    } else {
        Ok(spec_join(root, name.1))
    }
}

/// Is `path` under some member of `permitted`?
pub open spec fn spec_allowlisted(
    path: (bool, Seq<Seq<char>>),
    permitted: Seq<(bool, Seq<Seq<char>>)>,
) -> bool {
    exists|i: int| 0 <= i < permitted.len() && spec_starts_with(path, permitted[i])
}

impl SandboxPath {
    /// The mathematical value of a path: its absoluteness and its segments
    /// as sequences of characters.
    pub open spec fn view(&self) -> (bool, Seq<Seq<char>>) {
        (self.absolute, self.segments@.map_values(|s: String| s@))
    }

    /// A copy of this path with the same value.
    pub fn duplicate(&self) -> (r: SandboxPath)
        ensures
            r.absolute == self.absolute,
            r.segments@ == self.segments@,
            r@ == self@,
    {
        let mut segments: Vec<String> = Vec::new();
        let mut i: usize = 0;
        while i < self.segments.len()
            invariant
                i <= self.segments.len(),
                segments@.len() == i,
                forall|j: int| 0 <= j < i ==> segments@[j] == self.segments@[j],
            decreases self.segments.len() - i,
        {
            segments.push(self.segments[i].clone());
            i = i + 1;
        }
        proof {
            assert(segments@ =~= self.segments@);
        }
        SandboxPath { absolute: self.absolute, segments }
    }

    /// The path obtained by appending the relative path `name` to `self`.
    pub fn join(&self, name: &SandboxPath) -> (r: SandboxPath)
        requires
            !name.absolute,
        ensures
            r@ == spec_join(self@, name@.1),
    {
        let mut r = self.duplicate();
        let mut i: usize = 0;
        while i < name.segments.len()
            invariant
                i <= name.segments.len(),
                r.absolute == self.absolute,
                r.segments@.len() == self.segments@.len() + i,
                forall|j: int| 0 <= j < self.segments@.len() ==> r.segments@[j]
                    == self.segments@[j],
                forall|j: int| 0 <= j < i ==> r.segments@[self.segments@.len() + j]
                    == name.segments@[j],
            decreases name.segments.len() - i,
        {
            r.segments.push(name.segments[i].clone());
            i = i + 1;
        }
        proof {
            assert(r.segments@ =~= self.segments@ + name.segments@);
            assert(r@.1 =~= spec_join(self@, name@.1).1);
        }
        r
    }

    /// Does some segment of this path equal `..`?
    pub fn has_parent_component(&self) -> (r: bool)
        ensures
            r == has_parent_segment(self@.1),
    {
        let marker: String = "..".to_owned();
        let mut i: usize = 0;
        while i < self.segments.len()
            invariant
                i <= self.segments.len(),
                marker@ == ".."@,
                forall|j: int| 0 <= j < i ==> self@.1[j] != ".."@,
            decreases self.segments.len() - i,
        {
            proof {
                assert(self@.1[i as int] == self.segments@[i as int]@);
            }
            if self.segments[i] == marker {
                return true;
            }
            i = i + 1;
        }
        false
    }

    /// Does this path start with `prefix`?
    pub fn starts_with(&self, prefix: &SandboxPath) -> (r: bool)
        ensures
            r == spec_starts_with(self@, prefix@),
    {
        if self.absolute != prefix.absolute {
            return false;
        }
        if prefix.segments.len() > self.segments.len() {
            return false;
        }
        let mut i: usize = 0;
        while i < prefix.segments.len()
            invariant
                i <= prefix.segments.len(),
                prefix.segments.len() <= self.segments.len(),
                self.absolute == prefix.absolute,
                forall|j: int| 0 <= j < i ==> self@.1[j] == prefix@.1[j],
            decreases prefix.segments.len() - i,
        {
            proof {
                assert(self@.1[i as int] == self.segments@[i as int]@);
                assert(prefix@.1[i as int] == prefix.segments@[i as int]@);
            }
            if self.segments[i] != prefix.segments[i] {
                return false;
            }
            i = i + 1;
        }
        true
    }
}

/// Resolve a candidate path against a permitted root.
///
/// A candidate with a `..` segment anywhere is rejected as traversal, even
/// when an absolute-looking prefix precedes it. Otherwise an absolute
/// candidate, or one already under the root, is used as-is; any other
/// candidate is joined onto the root. The result is rejected unless it still
/// starts with the root.
pub fn build_path(permitted: &SandboxPath, name: &SandboxPath) -> (r: Result<
    SandboxPath,
    PathError,
>)
    ensures
        match r {
            Ok(p) => build_path_spec(permitted@, name@) == Ok::<_, PathError>(p@),
            Err(e) => build_path_spec(permitted@, name@) == Err::<(bool, Seq<Seq<char>>), _>(e),
        },
        has_parent_segment(name@.1) ==> r == Err::<SandboxPath, PathError>(
            PathError::PathTraversal,
        ),
        r matches Ok(p) ==> spec_starts_with(p@, permitted@),
{
    if name.has_parent_component() {
        return Err(PathError::PathTraversal);
    }
    let under_root = name.starts_with(permitted);
    if name.absolute || under_root {
        if under_root {
            Ok(name.duplicate())
        } else {
            Err(PathError::NotPermitted)
        }
    } else {
        Ok(permitted.join(name))
    }
}

/// Accept `path` when it is under some member of `permitted`; reject it
/// otherwise.
///
/// Callers hand in paths already canonicalized (symlinks and `.`/`..`
/// resolved), so containment here is plain prefix containment.
pub fn check_path_permitted(path: &SandboxPath, permitted: &Vec<SandboxPath>) -> (r: Result<
    (),
    PathError,
>)
    ensures
        r is Ok <==> spec_allowlisted(path@, permitted@.map_values(|p: SandboxPath| p@)),
        r is Err ==> r == Err::<(), PathError>(PathError::NotPermitted),
{
    let ghost views = permitted@.map_values(|p: SandboxPath| p@);
    let mut i: usize = 0;
    while i < permitted.len()
        invariant
            i <= permitted.len(),
            views == permitted@.map_values(|p: SandboxPath| p@),
            forall|j: int| 0 <= j < i ==> !spec_starts_with(path@, views[j]),
        decreases permitted.len() - i,
    {
        proof {
            assert(views[i as int] == permitted@[i as int]@);
        }
        if path.starts_with(&permitted[i]) {
            return Ok(());
        }
        i = i + 1;
    }
    Err(PathError::NotPermitted)
}

/// A candidate with a parent-directory segment is always rejected as
/// traversal, regardless of what precedes or follows that segment.
pub proof fn lemma_parent_segment_rejected(
    root: (bool, Seq<Seq<char>>),
    name: (bool, Seq<Seq<char>>),
)
    requires
        has_parent_segment(name.1),
    ensures
        build_path_spec(root, name) == Err::<(bool, Seq<Seq<char>>), PathError>(
            PathError::PathTraversal,
        ),
{
}

/// A relative candidate without parent-directory segments, resolved against
/// an absolute root, yields exactly the root joined with the candidate, and
/// that result always has the root as a prefix.
pub proof fn lemma_relative_name_joins(root: (bool, Seq<Seq<char>>), name: (bool, Seq<Seq<char>>))
    requires
        !has_parent_segment(name.1),
        !name.0,
        root.0,
    ensures
        build_path_spec(root, name) == Ok::<_, PathError>(spec_join(root, name.1)),
        spec_starts_with(spec_join(root, name.1), root),
{
}

/// Checking a path against a permitted set is a pure function of the path
/// and the set: any two verdicts drawn from the same inputs agree.
pub proof fn lemma_allowlist_idempotent(
    path: (bool, Seq<Seq<char>>),
    permitted: Seq<(bool, Seq<Seq<char>>)>,
    first: bool,
    second: bool,
)
    requires
        first == spec_allowlisted(path, permitted),
        second == spec_allowlisted(path, permitted),
    ensures
        first == second,
{
}

} // verus!
