//! Path remapping: the destination-tree counterpart of a source-tree path is
//! obtained by stripping the watch-root prefix and rejoining the remainder
//! under the output root.

use vstd::prelude::*;
use vstd::std_specs::cmp::PartialEqSpec;

verus! {

/// The value of a filesystem path: whether it is absolute, and its components
/// in order, each component the raw bytes of one segment.
#[verifier::ext_equal]
pub ghost struct PathModel {
    pub absolute: bool,
    pub parts: Seq<Seq<u8>>,
}

/// A filesystem path carried as plain data. Canonicalized operating-system
/// paths are handed over component by component; a component holds the raw
/// bytes of one segment.
#[derive(Debug, PartialEq, Eq)]
pub struct FsPath {
    pub absolute: bool,
    pub parts: Vec<Vec<u8>>,
}

impl View for FsPath {
    type V = PathModel;

    open spec fn view(&self) -> PathModel {
        PathModel {
            absolute: self.absolute,
            parts: Seq::new(self.parts.len() as nat, |i: int| self.parts[i]@),
        }
    }
}

/// `root` contains `p` when the two agree on absoluteness and the components
/// of `root` are, in order, the first components of `p`. This is exactly the
/// condition under which stripping `root` from `p` succeeds.
pub open spec fn contains_path(root: PathModel, p: PathModel) -> bool {
    root.absolute == p.absolute && root.parts.is_prefix_of(p.parts)
}

/// The components of `p` that remain below `root`.
pub open spec fn relative_parts(root: PathModel, p: PathModel) -> Seq<Seq<u8>> {
    p.parts.skip(root.parts.len() as int)
}

/// The mirrored counterpart of `p`: what remains of `p` below `from`,
/// rejoined under `to`.
pub open spec fn rebase(from: PathModel, to: PathModel, p: PathModel) -> PathModel {
    PathModel { absolute: to.absolute, parts: to.parts + relative_parts(from, p) }
}

/// Copies one path component.
fn copy_component(src: &Vec<u8>) -> (r: Vec<u8>)
    ensures
        r@ == src@,
{
    let mut r: Vec<u8> = Vec::new();
    let mut i: usize = 0;
    while i < src.len()
        invariant
            i <= src.len(),
            r@ == src@.take(i as int),
        decreases src.len() - i,
    {
        r.push(src[i]);
        i += 1;
    }
    proof {
        assert(r@ =~= src@);
    }
    r
}

impl FsPath {
    /// An equal copy of the path.
    pub fn duplicate(&self) -> (r: FsPath)
        ensures
            r@ == self@,
    {
        let mut parts: Vec<Vec<u8>> = Vec::new();
        let mut i: usize = 0;
        while i < self.parts.len()
            invariant
                i <= self.parts.len(),
                parts@.len() == i,
                forall|j: int| 0 <= j < i ==> parts@[j]@ == self.parts@[j]@,
            decreases self.parts.len() - i,
        {
            parts.push(copy_component(&self.parts[i]));
            i += 1;
        }
        let r = FsPath { absolute: self.absolute, parts };
        proof {
            assert(r@.parts =~= self@.parts);
        }
        r
    }

    /// The parent of the path: the same path with its last component removed,
    /// or `None` for a path with no components. Missing destination
    /// directories are created at the parent of a copy target before the copy
    /// itself.
    pub fn parent(&self) -> (r: Option<FsPath>)
        ensures
            r is Some <==> self@.parts.len() > 0,
            r matches Some(q) ==> q@ == parent_model(self@),
    {
        if self.parts.len() == 0 {
            return None;
        }
        let n = self.parts.len() - 1;
        let mut parts: Vec<Vec<u8>> = Vec::new();
        let mut i: usize = 0;
        while i < n
            invariant
                i <= n,
                n < self.parts.len(),
                parts@.len() == i,
                forall|j: int| 0 <= j < i ==> parts@[j]@ == self.parts@[j]@,
            decreases n - i,
        {
            parts.push(copy_component(&self.parts[i]));
            i += 1;
        }
        let r = FsPath { absolute: self.absolute, parts };
        proof {
            assert(r@.parts =~= parent_model(self@).parts);
        }
        Some(r)
    }
}

/// The parent of `p`: the same path with the last component removed.
pub open spec fn parent_model(p: PathModel) -> PathModel {
    PathModel { absolute: p.absolute, parts: p.parts.drop_last() }
}

/// Maps a path under `watch_root` to its counterpart under `output_root`:
/// the watch-root prefix is stripped and the remainder rejoined under the
/// output root. Fails exactly when `path` does not lie under `watch_root`;
/// the caller reports that and performs no mutation for the event.
pub fn change_root(watch_root: &FsPath, output_root: &FsPath, path: &FsPath) -> (r: Option<
    FsPath,
>)
    ensures
        r is Some <==> contains_path(watch_root@, path@),
        r matches Some(q) ==> q@ == rebase(watch_root@, output_root@, path@),
{
    if watch_root.absolute != path.absolute {
        return None;
    }
    if watch_root.parts.len() > path.parts.len() {
        return None;
    }
    let n = watch_root.parts.len();
    let mut i: usize = 0;
    while i < n
        invariant
            i <= n,
            n == watch_root.parts.len(),
            n <= path.parts.len(),
            forall|j: int| 0 <= j < i ==> watch_root.parts@[j]@ == path.parts@[j]@,
        decreases n - i,
    {
        let a: &Vec<u8> = &watch_root.parts[i];
        let b: &Vec<u8> = &path.parts[i];
        if a != b {
            proof {
                if watch_root.parts@[i as int]@ == path.parts@[i as int]@ {
                    assert(watch_root.parts@[i as int].eq_spec(&path.parts@[i as int]));
                }
                assert(!contains_path(watch_root@, path@)) by {
                    if watch_root@.parts.is_prefix_of(path@.parts) {
                        assert(watch_root@.parts[i as int] == path@.parts.subrange(
                            0,
                            watch_root@.parts.len() as int,
                        )[i as int]);
                    }
                }
            }
            return None;
        }
        i += 1;
    }
    proof {
        assert(watch_root@.parts =~= path@.parts.subrange(0, n as int));
    }
    let mut parts: Vec<Vec<u8>> = Vec::new();
    let m = output_root.parts.len();
    let mut j: usize = 0;
    while j < m
        invariant
            j <= m,
            m == output_root.parts.len(),
            parts@.len() == j,
            forall|k: int| 0 <= k < j ==> parts@[k]@ == output_root.parts@[k]@,
        decreases m - j,
    {
        parts.push(copy_component(&output_root.parts[j]));
        j += 1;
    }
    let mut k: usize = n;
    while k < path.parts.len()
        invariant
            n <= k <= path.parts.len(),
            m == output_root.parts.len(),
            parts@.len() == m + k - n,
            forall|q: int| 0 <= q < m ==> parts@[q]@ == output_root.parts@[q]@,
            forall|q: int| m <= q < parts@.len() ==> parts@[q]@ == path.parts@[n + q - m]@,
        decreases path.parts.len() - k,
    {
        parts.push(copy_component(&path.parts[k]));
        k += 1;
    }
    let result = FsPath { absolute: output_root.absolute, parts };
    proof {
        assert(result@.parts =~= rebase(watch_root@, output_root@, path@).parts);
    }
    Some(result)
}

/// Where a symlink target itself lies under the watch root, it is remapped
/// exactly like an entry path; otherwise the recorded target is preserved
/// verbatim.
pub open spec fn resolved_target(watch: PathModel, out: PathModel, target: PathModel) -> PathModel {
    if contains_path(watch, target) {
        rebase(watch, out, target)
    } else {
        target
    }
}

/// Remaps a symlink target that lies under the watch root, and keeps any
/// other target - absolute elsewhere, or relative - verbatim.
pub fn resolve_link_target(watch_root: &FsPath, output_root: &FsPath, target: &FsPath) -> (r:
    FsPath)
    ensures
        r@ == resolved_target(watch_root@, output_root@, target@),
{
    match change_root(watch_root, output_root, target) {
        Some(p) => p,
        None => target.duplicate(),
    }
}

} // verus!
