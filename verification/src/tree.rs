//! A model of the destination tree and the meaning of each mirror action
//! against it, together with the laws that replay obeys: copying and
//! restamping are idempotent, a rename moves the whole subtree and leaves
//! nothing behind, removal of a directory is recursive, and an event whose
//! path escapes the watch root never touches the tree.
//!
//! Each transformer charts the destination after a successful application of
//! its action; a failed filesystem call is reported by the executor and
//! leaves the destination as it was.

use vstd::prelude::*;
use crate::classify::{ActionModel, ErrorModel, UnsupportedReason, classify_spec};
use crate::events::{EntryKind, EntryMeta, EventKind, EventModel, ModifyKind, ProbeModel,
    RenameMode, entry_kind_spec};
use crate::paths::{PathModel, contains_path, rebase};

verus! {

/// The per-entry attributes that metadata synchronization maintains:
/// permission bits, ownership, and the two timestamps.
pub ghost struct Attrs {
    pub mode: u32,
    pub uid: u32,
    pub gid: u32,
    pub atime_sec: i64,
    pub atime_nsec: u32,
    pub mtime_sec: i64,
    pub mtime_nsec: u32,
}

/// What an entry of the destination tree is.
#[verifier::ext_equal]
pub ghost enum NodeData {
    RegularFile { content: Seq<u8> },
    Directory,
    SymlinkTo { target: PathModel },
}

/// One entry of the destination tree.
#[verifier::ext_equal]
pub ghost struct NodeModel {
    pub data: NodeData,
    pub attrs: Attrs,
}

/// The destination tree: a finite map from component paths to entries.
#[verifier::ext_equal]
pub ghost struct TreeModel {
    pub nodes: Map<Seq<Seq<u8>>, NodeModel>,
}

/// What the executor reads back from the source at application time: the
/// full content of the source file and its current attributes.
pub ghost struct SourceData {
    pub content: Seq<u8>,
    pub attrs: Attrs,
}

/// `pre` names an ancestor of `k`: a proper prefix of its components.
pub open spec fn is_strict_prefix(pre: Seq<Seq<u8>>, k: Seq<Seq<u8>>) -> bool {
    pre.len() < k.len() && pre.is_prefix_of(k)
}

/// The attributes a freshly created directory carries before anything is
/// synchronized onto it; the replay laws do not depend on them.
pub open spec fn fresh_attrs() -> Attrs {
    Attrs { mode: 0, uid: 0, gid: 0, atime_sec: 0, atime_nsec: 0, mtime_sec: 0, mtime_nsec: 0 }
}

/// Creates every missing ancestor of `dst` as a directory, leaving every
/// existing entry untouched.
pub open spec fn ensure_parents(t: TreeModel, dst: Seq<Seq<u8>>) -> TreeModel {
    TreeModel {
        nodes: Map::new(
            |k: Seq<Seq<u8>>| t.nodes.dom().contains(k) || is_strict_prefix(k, dst),
            |k: Seq<Seq<u8>>|
                if t.nodes.dom().contains(k) {
                    t.nodes[k]
                } else {
                    NodeModel { data: NodeData::Directory, attrs: fresh_attrs() }
                },
        ),
    }
}

/// A whole-file overwrite copy to `dst`: missing parents are created first,
/// then the entry at `dst` becomes a regular file with the source content.
pub open spec fn apply_copy(t: TreeModel, dst: Seq<Seq<u8>>, src: SourceData) -> TreeModel {
    TreeModel {
        nodes: ensure_parents(t, dst).nodes.insert(
            dst,
            NodeModel { data: NodeData::RegularFile { content: src.content }, attrs: src.attrs },
        ),
    }
}

/// A non-recursive directory creation at `dst`. Creating over an existing
/// entry fails at the filesystem and is reported; the tree keeps its state.
pub open spec fn apply_create_dir(t: TreeModel, dst: Seq<Seq<u8>>) -> TreeModel {
    if t.nodes.dom().contains(dst) {
        t
    } else {
        TreeModel {
            nodes: t.nodes.insert(
                dst,
                NodeModel { data: NodeData::Directory, attrs: fresh_attrs() },
            ),
        }
    }
}

/// A symlink creation at `dst` pointing at `target`; creating over an
/// existing entry fails and is reported.
pub open spec fn apply_create_symlink(t: TreeModel, dst: Seq<Seq<u8>>, target: PathModel) -> TreeModel {
    if t.nodes.dom().contains(dst) {
        t
    } else {
        TreeModel {
            nodes: t.nodes.insert(
                dst,
                NodeModel { data: NodeData::SymlinkTo { target }, attrs: fresh_attrs() },
            ),
        }
    }
}

/// Removal at `dst`: recursive - the entry and everything below it - when
/// the destination entry is a directory at removal time, else the single
/// entry alone.
pub open spec fn apply_remove(t: TreeModel, dst: Seq<Seq<u8>>) -> TreeModel {
    if t.nodes.dom().contains(dst) && t.nodes[dst].data is Directory {
        TreeModel {
            nodes: Map::new(
                |k: Seq<Seq<u8>>| t.nodes.dom().contains(k) && !dst.is_prefix_of(k),
                |k: Seq<Seq<u8>>| t.nodes[k],
            ),
        }
    } else {
        TreeModel { nodes: t.nodes.remove(dst) }
    }
}

/// An atomic rename from `from` to `to`: the entry and everything below it
/// move, component-wise, from under `from` to under `to`.
pub open spec fn apply_rename(t: TreeModel, from: Seq<Seq<u8>>, to: Seq<Seq<u8>>) -> TreeModel {
    TreeModel {
        nodes: Map::new(
            |k: Seq<Seq<u8>>|
                if to.is_prefix_of(k) {
                    t.nodes.dom().contains(from + k.skip(to.len() as int))
                } else {
                    t.nodes.dom().contains(k) && !from.is_prefix_of(k)
                },
            |k: Seq<Seq<u8>>|
                if to.is_prefix_of(k) {
                    t.nodes[from + k.skip(to.len() as int)]
                } else {
                    t.nodes[k]
                },
        ),
    }
}

/// Restamps the attributes of the entry at `dst` with the attributes just
/// re-read from the source, leaving its data untouched; restamping a missing
/// entry fails at the filesystem and is reported.
pub open spec fn apply_sync_metadata(t: TreeModel, dst: Seq<Seq<u8>>, attrs: Attrs) -> TreeModel {
    if t.nodes.dom().contains(dst) {
        TreeModel {
            nodes: t.nodes.insert(dst, NodeModel { data: t.nodes[dst].data, attrs }),
        }
    } else {
        t
    }
}

/// The meaning of one mirror action against the destination tree, given what
/// the executor reads from the source at application time.
pub open spec fn apply_action(t: TreeModel, a: ActionModel, src: SourceData) -> TreeModel {
    match a {
        ActionModel::CopyFile { dst, .. } => apply_copy(t, dst.parts, src),
        ActionModel::CreateDir { dst } => apply_create_dir(t, dst.parts),
        ActionModel::CreateSymlink { dst, target } => apply_create_symlink(
            t,
            dst.parts,
            target,
        ),
        ActionModel::RemoveEntry { dst } => apply_remove(t, dst.parts),
        ActionModel::RenameEntry { dst_old, dst_new } => apply_rename(
            t,
            dst_old.parts,
            dst_new.parts,
        ),
        ActionModel::SyncMetadata { dst, .. } => apply_sync_metadata(t, dst.parts, src.attrs),
        ActionModel::Ignore => t,
        ActionModel::Unsupported { .. } => t,
    }
}

/// The meaning of one classification outcome: a reported failure mutates
/// nothing.
pub open spec fn apply_outcome(
    t: TreeModel,
    r: Result<ActionModel, ErrorModel>,
    src: SourceData,
) -> TreeModel {
    match r {
        Ok(a) => apply_action(t, a, src),
        Err(_) => t,
    }
}

/// Two prefixes of one path are ordered: one of them is a prefix of the
/// other.
proof fn lemma_common_prefixes(a: Seq<Seq<u8>>, b: Seq<Seq<u8>>, k: Seq<Seq<u8>>)
    requires
        a.is_prefix_of(k),
        b.is_prefix_of(k),
    ensures
        a.is_prefix_of(b) || b.is_prefix_of(a),
{
    if a.len() <= b.len() {
        assert(a =~= b.subrange(0, a.len() as int));
    } else {
        assert(b =~= a.subrange(0, b.len() as int));
    }
}

/// Stripping a shared first block preserves prefixes.
proof fn lemma_prefix_after_prepend(c: Seq<Seq<u8>>, a: Seq<Seq<u8>>, b: Seq<Seq<u8>>)
    requires
        (c + a).is_prefix_of(c + b),
    ensures
        a.is_prefix_of(b),
{
    assert forall|i: int| 0 <= i < a.len() implies a[i] == b[i] by {
        assert((c + a)[c.len() + i] == (c + b).subrange(0, (c + a).len() as int)[c.len() + i]);
    }
    assert(a =~= b.subrange(0, a.len() as int));
}

/// Prepending a shared first block preserves prefixes.
proof fn lemma_prepend_keeps_prefix(c: Seq<Seq<u8>>, a: Seq<Seq<u8>>, b: Seq<Seq<u8>>)
    requires
        a.is_prefix_of(b),
    ensures
        (c + a).is_prefix_of(c + b),
{
    assert((c + a) =~= (c + b).subrange(0, (c + a).len() as int));
}

/// A path under a root is the root's components followed by the relative
/// remainder.
proof fn lemma_split_at_root(root: Seq<Seq<u8>>, p: Seq<Seq<u8>>)
    requires
        root.is_prefix_of(p),
    ensures
        p == root + p.skip(root.len() as int),
{
    assert(p =~= root + p.skip(root.len() as int));
}

/// Rebasing two unrelated source paths under the output root keeps them
/// unrelated: neither mirrored path is a prefix of the other.
proof fn lemma_rebase_keeps_unrelated(watch: PathModel, out: PathModel, x: PathModel, y: PathModel)
    requires
        contains_path(watch, x),
        contains_path(watch, y),
        !x.parts.is_prefix_of(y.parts),
        !y.parts.is_prefix_of(x.parts),
    ensures
        !rebase(watch, out, x).parts.is_prefix_of(rebase(watch, out, y).parts),
        !rebase(watch, out, y).parts.is_prefix_of(rebase(watch, out, x).parts),
{
    let xr = x.parts.skip(watch.parts.len() as int);
    let yr = y.parts.skip(watch.parts.len() as int);
    lemma_split_at_root(watch.parts, x.parts);
    lemma_split_at_root(watch.parts, y.parts);
    if (out.parts + xr).is_prefix_of(out.parts + yr) {
        lemma_prefix_after_prepend(out.parts, xr, yr);
        lemma_prepend_keeps_prefix(watch.parts, xr, yr);
    }
    if (out.parts + yr).is_prefix_of(out.parts + xr) {
        lemma_prefix_after_prepend(out.parts, yr, xr);
        lemma_prepend_keeps_prefix(watch.parts, yr, xr);
    }
}

/// Replaying one and the same whole-file copy twice in succession leaves the
/// destination tree exactly as replaying it once does.
pub proof fn lemma_copy_file_idempotent(t: TreeModel, dst: Seq<Seq<u8>>, src: SourceData)
    ensures
        apply_copy(apply_copy(t, dst, src), dst, src) == apply_copy(t, dst, src),
{
    let once = apply_copy(t, dst, src);
    let twice = apply_copy(once, dst, src);
    assert(twice.nodes =~= once.nodes);
}

/// Replaying one and the same metadata synchronization twice in succession
/// leaves the destination tree exactly as replaying it once does.
pub proof fn lemma_sync_metadata_idempotent(t: TreeModel, dst: Seq<Seq<u8>>, attrs: Attrs)
    ensures
        apply_sync_metadata(apply_sync_metadata(t, dst, attrs), dst, attrs)
            == apply_sync_metadata(t, dst, attrs),
{
    let once = apply_sync_metadata(t, dst, attrs);
    let twice = apply_sync_metadata(once, dst, attrs);
    assert(twice.nodes =~= once.nodes);
}

/// A rename between two unrelated destination paths moves the entry and its
/// whole subtree from under `from` to under `to`, leaves nothing behind
/// under `from`, puts nothing under `to` beyond what moved, and touches no
/// other entry.
pub proof fn lemma_rename_moves_subtree(t: TreeModel, from: Seq<Seq<u8>>, to: Seq<Seq<u8>>)
    requires
        !from.is_prefix_of(to),
        !to.is_prefix_of(from),
    ensures
        forall|s: Seq<Seq<u8>>| #[trigger] t.nodes.dom().contains(from + s) ==> {
            &&& apply_rename(t, from, to).nodes.dom().contains(to + s)
            &&& apply_rename(t, from, to).nodes[to + s] == t.nodes[from + s]
        },
        forall|k: Seq<Seq<u8>>| #[trigger] apply_rename(t, from, to).nodes.dom().contains(k)
            ==> !from.is_prefix_of(k),
        forall|k: Seq<Seq<u8>>|
            to.is_prefix_of(k) && #[trigger] apply_rename(t, from, to).nodes.dom().contains(k)
                ==> t.nodes.dom().contains(from + k.skip(to.len() as int)),
        forall|k: Seq<Seq<u8>>|
            !from.is_prefix_of(k) && !to.is_prefix_of(k) ==> {
                &&& (#[trigger] apply_rename(t, from, to).nodes.dom().contains(k)
                    <==> t.nodes.dom().contains(k))
                &&& t.nodes.dom().contains(k) ==> apply_rename(t, from, to).nodes[k]
                    == t.nodes[k]
            },
{
    let moved = apply_rename(t, from, to);
    assert forall|s: Seq<Seq<u8>>| #[trigger] t.nodes.dom().contains(from + s) implies {
        &&& moved.nodes.dom().contains(to + s)
        &&& moved.nodes[to + s] == t.nodes[from + s]
    } by {
        assert(to.is_prefix_of(to + s)) by {
            assert(to =~= (to + s).subrange(0, to.len() as int));
        }
        assert((to + s).skip(to.len() as int) =~= s);
    }
    assert forall|k: Seq<Seq<u8>>| #[trigger] moved.nodes.dom().contains(k) implies
        !from.is_prefix_of(k) by {
        if from.is_prefix_of(k) && to.is_prefix_of(k) {
            lemma_common_prefixes(from, to, k);
        }
    }
}

/// A rename is applied only when both endpoints independently remap into the
/// destination; one failed endpoint aborts the whole rename as a reported
/// no-op, with no partial apply.
pub proof fn lemma_rename_one_sided_aborts(
    watch: PathModel,
    out: PathModel,
    ev: EventModel,
    probe: Option<ProbeModel>,
    t: TreeModel,
    src: SourceData,
)
    requires
        ev.kind == EventKind::Modify(ModifyKind::Name(RenameMode::Both)),
        ev.path2 is Some,
        !contains_path(watch, ev.path) || !contains_path(watch, ev.path2->0),
    ensures
        classify_spec(watch, out, ev, probe) matches Err(e)
            && e matches ErrorModel::NotContained { .. },
        apply_outcome(t, classify_spec(watch, out, ev, probe), src) == t,
{
}

/// The whole rename law, from the notification onward: a completed rename
/// whose endpoints both lie under the watch root, and name unrelated entries,
/// moves the destination entry together with its subtree from the old
/// mirrored path to the new one, leaves nothing behind under the old path,
/// puts nothing under the new path beyond what moved, and touches no other
/// entry.
pub proof fn lemma_rename_event_atomic(
    watch: PathModel,
    out: PathModel,
    ev: EventModel,
    probe: Option<ProbeModel>,
    t: TreeModel,
    src: SourceData,
)
    requires
        ev.kind == EventKind::Modify(ModifyKind::Name(RenameMode::Both)),
        ev.path2 is Some,
        contains_path(watch, ev.path),
        contains_path(watch, ev.path2->0),
        !ev.path.parts.is_prefix_of(ev.path2->0.parts),
        !(ev.path2->0).parts.is_prefix_of(ev.path.parts),
    ensures
        classify_spec(watch, out, ev, probe) == Ok::<ActionModel, ErrorModel>(
            ActionModel::RenameEntry {
                dst_old: rebase(watch, out, ev.path),
                dst_new: rebase(watch, out, ev.path2->0),
            },
        ),
        ({
            let old_dst = rebase(watch, out, ev.path).parts;
            let new_dst = rebase(watch, out, ev.path2->0).parts;
            let t1 = apply_outcome(t, classify_spec(watch, out, ev, probe), src);
            &&& forall|s: Seq<Seq<u8>>| #[trigger] t.nodes.dom().contains(old_dst + s) ==> {
                &&& t1.nodes.dom().contains(new_dst + s)
                &&& t1.nodes[new_dst + s] == t.nodes[old_dst + s]
            }
            &&& forall|k: Seq<Seq<u8>>| #[trigger] t1.nodes.dom().contains(k)
                ==> !old_dst.is_prefix_of(k)
            &&& forall|k: Seq<Seq<u8>>|
                new_dst.is_prefix_of(k) && #[trigger] t1.nodes.dom().contains(k)
                    ==> t.nodes.dom().contains(old_dst + k.skip(new_dst.len() as int))
            &&& forall|k: Seq<Seq<u8>>|
                !old_dst.is_prefix_of(k) && !new_dst.is_prefix_of(k) ==> {
                    &&& (#[trigger] t1.nodes.dom().contains(k) <==> t.nodes.dom().contains(k))
                    &&& t.nodes.dom().contains(k) ==> t1.nodes[k] == t.nodes[k]
                }
        }),
{
    lemma_rebase_keeps_unrelated(watch, out, ev.path, ev.path2->0);
    lemma_rename_moves_subtree(
        t,
        rebase(watch, out, ev.path).parts,
        rebase(watch, out, ev.path2->0).parts,
    );
}

/// The whole removal law, from the notification onward: a remove event for a
/// path under the watch root removes, at the mirrored path, the entire
/// subtree when the destination entry is a directory at removal time, and
/// the single entry otherwise - and nothing else either way.
pub proof fn lemma_remove_event(
    watch: PathModel,
    out: PathModel,
    ev: EventModel,
    probe: Option<ProbeModel>,
    t: TreeModel,
    src: SourceData,
)
    requires
        ev.kind == EventKind::Remove,
        contains_path(watch, ev.path),
    ensures
        classify_spec(watch, out, ev, probe) == Ok::<ActionModel, ErrorModel>(
            ActionModel::RemoveEntry { dst: rebase(watch, out, ev.path) },
        ),
        ({
            let dst = rebase(watch, out, ev.path).parts;
            let t1 = apply_outcome(t, classify_spec(watch, out, ev, probe), src);
            &&& t.nodes.dom().contains(dst) && t.nodes[dst].data is Directory ==> {
                &&& forall|k: Seq<Seq<u8>>|
                    dst.is_prefix_of(k) ==> !(#[trigger] t1.nodes.dom().contains(k))
                &&& forall|k: Seq<Seq<u8>>| !dst.is_prefix_of(k) ==> {
                    &&& (#[trigger] t1.nodes.dom().contains(k) <==> t.nodes.dom().contains(k))
                    &&& t.nodes.dom().contains(k) ==> t1.nodes[k] == t.nodes[k]
                }
            }
            &&& !(t.nodes.dom().contains(dst) && t.nodes[dst].data is Directory) ==> {
                &&& !t1.nodes.dom().contains(dst)
                &&& forall|k: Seq<Seq<u8>>| k != dst ==> {
                    &&& (#[trigger] t1.nodes.dom().contains(k) <==> t.nodes.dom().contains(k))
                    &&& t.nodes.dom().contains(k) ==> t1.nodes[k] == t.nodes[k]
                }
            }
        }),
{
    let dst = rebase(watch, out, ev.path).parts;
    if t.nodes.dom().contains(dst) && t.nodes[dst].data is Directory {
        lemma_remove_directory_recursive(t, dst);
    } else {
        lemma_remove_single_entry(t, dst);
    }
}

/// Removing a destination entry that is a directory at removal time removes
/// the whole subtree below it, and nothing else.
pub proof fn lemma_remove_directory_recursive(t: TreeModel, dst: Seq<Seq<u8>>)
    requires
        t.nodes.dom().contains(dst),
        t.nodes[dst].data is Directory,
    ensures
        forall|k: Seq<Seq<u8>>| dst.is_prefix_of(k)
            ==> !(#[trigger] apply_remove(t, dst).nodes.dom().contains(k)),
        forall|k: Seq<Seq<u8>>| !dst.is_prefix_of(k) ==> {
            &&& (#[trigger] apply_remove(t, dst).nodes.dom().contains(k)
                <==> t.nodes.dom().contains(k))
            &&& t.nodes.dom().contains(k) ==> apply_remove(t, dst).nodes[k] == t.nodes[k]
        },
{
}

/// Removing a destination entry that is not a directory removes that single
/// entry alone.
pub proof fn lemma_remove_single_entry(t: TreeModel, dst: Seq<Seq<u8>>)
    requires
        t.nodes.dom().contains(dst) ==> !(t.nodes[dst].data is Directory),
    ensures
        !apply_remove(t, dst).nodes.dom().contains(dst),
        forall|k: Seq<Seq<u8>>| k != dst ==> {
            &&& (#[trigger] apply_remove(t, dst).nodes.dom().contains(k)
                <==> t.nodes.dom().contains(k))
            &&& t.nodes.dom().contains(k) ==> apply_remove(t, dst).nodes[k] == t.nodes[k]
        },
{
}

/// A create notification for a file whose link count exceeds one is
/// classified as the distinct hardlink-unsupported case and mutates nothing.
pub proof fn lemma_hardlink_create_skips(
    watch: PathModel,
    out: PathModel,
    ev: EventModel,
    pr: ProbeModel,
    t: TreeModel,
    src: SourceData,
)
    requires
        ev.kind == EventKind::Create,
        !pr.meta.is_symlink,
        !pr.meta.is_dir,
        pr.meta.is_file,
        pr.meta.nlink > 1,
    ensures
        classify_spec(watch, out, ev, Some(pr)) == Ok::<ActionModel, ErrorModel>(
            ActionModel::Unsupported { reason: UnsupportedReason::Hardlink, path: ev.path },
        ),
        apply_outcome(t, classify_spec(watch, out, ev, Some(pr)), src) == t,
{
}

/// Those events that, were their path under the watch root, would mutate the
/// destination: for them an escaped path must surface as the distinct
/// not-contained report.
pub open spec fn mutating_event(ev: EventModel, probe: Option<ProbeModel>) -> bool {
    match ev.kind {
        EventKind::Remove => true,
        EventKind::Modify(mk) => match mk {
            ModifyKind::Data => true,
            ModifyKind::Metadata => true,
            ModifyKind::Name(rm) => rm == RenameMode::Both,
            _ => false,
        },
        EventKind::Create => match probe {
            Some(pr) => entry_kind_spec(pr.meta) == EntryKind::Symlink || entry_kind_spec(
                pr.meta,
            ) == EntryKind::Directory || entry_kind_spec(pr.meta) == EntryKind::RegularFile,
            None => false,
        },
        _ => false,
    }
}

/// An event whose path does not lie under the watch root never mutates the
/// destination tree; and whenever the event is of a kind that would mutate,
/// the outcome is precisely the reported not-contained no-op for that path.
pub proof fn lemma_outside_watch_root_inert(
    watch: PathModel,
    out: PathModel,
    ev: EventModel,
    probe: Option<ProbeModel>,
    t: TreeModel,
    src: SourceData,
)
    requires
        !contains_path(watch, ev.path),
    ensures
        apply_outcome(t, classify_spec(watch, out, ev, probe), src) == t,
        mutating_event(ev, probe) ==> classify_spec(watch, out, ev, probe) == Err::<
            ActionModel,
            ErrorModel,
        >(ErrorModel::NotContained { path: ev.path }),
{
}

/// The round trip: a create notification for a regular file under the watch
/// root copies the file, content and all, to the mirrored path; a later
/// metadata notification for the same source path restamps that mirrored
/// entry with the newly read attributes without altering its content.
pub proof fn lemma_create_then_restamp(
    watch: PathModel,
    out: PathModel,
    p: PathModel,
    meta: EntryMeta,
    t0: TreeModel,
    first: SourceData,
    second: SourceData,
)
    requires
        contains_path(watch, p),
        !meta.is_symlink,
        !meta.is_dir,
        meta.is_file,
        meta.nlink <= 1,
    ensures
        ({
            let created = EventModel { kind: EventKind::Create, path: p, path2: None };
            let probe = Some(ProbeModel { meta, link_target: None });
            let dst = rebase(watch, out, p).parts;
            let t1 = apply_outcome(t0, classify_spec(watch, out, created, probe), first);
            let restamped = EventModel {
                kind: EventKind::Modify(ModifyKind::Metadata),
                path: p,
                path2: None,
            };
            let t2 = apply_outcome(t1, classify_spec(watch, out, restamped, None), second);
            &&& t1.nodes.dom().contains(dst)
            &&& t1.nodes[dst].data == (NodeData::RegularFile { content: first.content })
            &&& t1.nodes[dst].attrs == first.attrs
            &&& t2.nodes.dom().contains(dst)
            &&& t2.nodes[dst].data == (NodeData::RegularFile { content: first.content })
            &&& t2.nodes[dst].attrs == second.attrs
        }),
{
}

} // verus!
