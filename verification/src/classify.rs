//! The event classifier: maps a raw change notification, together with the
//! on-disk probe of a created path, into one concrete mirror action or into a
//! reported no-op. Classification itself never mutates anything; every
//! destination path it hands out is the output of a successful remap under
//! the output root.

use vstd::prelude::*;
use crate::events::{ChangeEvent, EntryKind, EntryProbe, EventKind, EventModel, ModifyKind,
    ProbeModel, RenameMode, classify_entry, entry_kind_spec};
use crate::paths::{FsPath, PathModel, change_root, contains_path, rebase, resolve_link_target,
    resolved_target};

verus! {

/// Why an event was classified as unsupported rather than mirrored.
#[derive(Debug, Clone, Copy, PartialEq, Eq)]
pub enum UnsupportedReason {
    /// A created file with a link count above one.
    Hardlink,
    /// A platform-specific event kind outside the mirrored set.
    OtherEvent,
    /// A platform-specific modification kind outside the mirrored set.
    OtherModify,
    /// A created entry that is neither symlink, directory nor regular file.
    OtherEntry,
    /// An event the notification layer could not classify at all.
    UnknownEvent,
}

/// The value of a mirror action.
#[verifier::ext_equal]
pub ghost enum ActionModel {
    CopyFile { src: PathModel, dst: PathModel },
    CreateDir { dst: PathModel },
    CreateSymlink { dst: PathModel, target: PathModel },
    RemoveEntry { dst: PathModel },
    RenameEntry { dst_old: PathModel, dst_new: PathModel },
    SyncMetadata { src: PathModel, dst: PathModel },
    Ignore,
    Unsupported { reason: UnsupportedReason, path: PathModel },
}

/// The concrete operation to perform against the destination tree for one
/// event. Computed and discarded within a single iteration of the watch
/// loop; never persisted.
#[derive(Debug, PartialEq, Eq)]
pub enum MirrorAction {
    /// Replace the destination file at `dst` with the full content of the
    /// source file at `src`, creating missing destination parents first.
    CopyFile { src: FsPath, dst: FsPath },
    /// Create exactly the one mirrored directory at `dst`.
    CreateDir { dst: FsPath },
    /// Create a symlink at `dst` pointing at `target`.
    CreateSymlink { dst: FsPath, target: FsPath },
    /// Remove the destination entry: recursively when it is a directory at
    /// removal time, else as a single entry.
    RemoveEntry { dst: FsPath },
    /// Atomically rename the destination entry between two remapped paths.
    RenameEntry { dst_old: FsPath, dst_new: FsPath },
    /// Re-read permissions, timestamps and ownership from `src` and apply
    /// each to `dst` independently.
    SyncMetadata { src: FsPath, dst: FsPath },
    /// Nothing to mirror.
    Ignore,
    /// Classified but deliberately not mirrored; logged distinctly.
    Unsupported { reason: UnsupportedReason, path: FsPath },
}

impl View for MirrorAction {
    type V = ActionModel;

    open spec fn view(&self) -> ActionModel {
        match self {
            MirrorAction::CopyFile { src, dst } => ActionModel::CopyFile {
                src: src@,
                dst: dst@,
            },
            MirrorAction::CreateDir { dst } => ActionModel::CreateDir { dst: dst@ },
            MirrorAction::CreateSymlink { dst, target } => ActionModel::CreateSymlink {
                dst: dst@,
                target: target@,
            },
            MirrorAction::RemoveEntry { dst } => ActionModel::RemoveEntry { dst: dst@ },
            MirrorAction::RenameEntry { dst_old, dst_new } => ActionModel::RenameEntry {
                dst_old: dst_old@,
                dst_new: dst_new@,
            },
            MirrorAction::SyncMetadata { src, dst } => ActionModel::SyncMetadata {
                src: src@,
                dst: dst@,
            },
            MirrorAction::Ignore => ActionModel::Ignore,
            MirrorAction::Unsupported { reason, path } => ActionModel::Unsupported {
                reason: *reason,
                path: path@,
            },
        }
    }
}

/// The value of a classification failure.
#[verifier::ext_equal]
pub ghost enum ErrorModel {
    NotContained { path: PathModel },
    MetadataUnavailable { path: PathModel },
}

/// A reported, non-fatal classification failure: the event is dropped after
/// reporting, and no destination mutation happens.
#[derive(Debug, PartialEq, Eq)]
pub enum MirrorError {
    /// The source path does not lie under the watch root.
    NotContained { path: FsPath },
    /// The on-disk probe of the path failed, so a created entry could not be
    /// disambiguated or a symlink target could not be read.
    MetadataUnavailable { path: FsPath },
}

impl View for MirrorError {
    type V = ErrorModel;

    open spec fn view(&self) -> ErrorModel {
        match self {
            MirrorError::NotContained { path } => ErrorModel::NotContained { path: path@ },
            MirrorError::MetadataUnavailable { path } => ErrorModel::MetadataUnavailable {
                path: path@,
            },
        }
    }
}

/// The value of a classification outcome.
pub open spec fn outcome_model(r: Result<MirrorAction, MirrorError>) -> Result<
    ActionModel,
    ErrorModel,
> {
    match r {
        Ok(a) => Ok(a@),
        Err(e) => Err(e@),
    }
}

/// The value of an optional probe.
pub open spec fn probe_model(p: Option<&EntryProbe>) -> Option<ProbeModel> {
    match p {
        Some(q) => Some(q@),
        None => None,
    }
}

/// The decision table of the classifier. `watch` and `out` are the two
/// roots; `probe` is the on-disk probe of the event path, consulted only for
/// a create.
pub open spec fn classify_spec(
    watch: PathModel,
    out: PathModel,
    ev: EventModel,
    probe: Option<ProbeModel>,
) -> Result<ActionModel, ErrorModel> {
    match ev.kind {
        EventKind::Remove => if contains_path(watch, ev.path) {
            Ok(ActionModel::RemoveEntry { dst: rebase(watch, out, ev.path) })
        } else {
            Err(ErrorModel::NotContained { path: ev.path })
        },
        EventKind::Modify(mk) => match mk {
            ModifyKind::Data => if contains_path(watch, ev.path) {
                Ok(ActionModel::CopyFile { src: ev.path, dst: rebase(watch, out, ev.path) })
            } else {
                Err(ErrorModel::NotContained { path: ev.path })
            },
            ModifyKind::Metadata => if contains_path(watch, ev.path) {
                Ok(
                    ActionModel::SyncMetadata {
                        src: ev.path,
                        dst: rebase(watch, out, ev.path),
                    },
                )
            } else {
                Err(ErrorModel::NotContained { path: ev.path })
            },
            ModifyKind::Name(rm) => match rm {
                RenameMode::Both => {
                    let new = ev.path2->0;
                    if !contains_path(watch, ev.path) {
                        Err(ErrorModel::NotContained { path: ev.path })
                    } else if !contains_path(watch, new) {
                        Err(ErrorModel::NotContained { path: new })
                    } else {
                        Ok(
                            ActionModel::RenameEntry {
                                dst_old: rebase(watch, out, ev.path),
                                dst_new: rebase(watch, out, new),
                            },
                        )
                    }
                },
                _ => Ok(ActionModel::Ignore),
            },
            ModifyKind::Other => Ok(
                ActionModel::Unsupported {
                    reason: UnsupportedReason::OtherModify,
                    path: ev.path,
                },
            ),
            ModifyKind::Unspecified => Ok(ActionModel::Ignore),
        },
        EventKind::Create => match probe {
            None => Err(ErrorModel::MetadataUnavailable { path: ev.path }),
            Some(pr) => match entry_kind_spec(pr.meta) {
                EntryKind::Symlink => if !contains_path(watch, ev.path) {
                    Err(ErrorModel::NotContained { path: ev.path })
                } else {
                    match pr.link_target {
                        None => Err(ErrorModel::MetadataUnavailable { path: ev.path }),
                        Some(t) => Ok(
                            ActionModel::CreateSymlink {
                                dst: rebase(watch, out, ev.path),
                                target: resolved_target(watch, out, t),
                            },
                        ),
                    }
                },
                EntryKind::Directory => if contains_path(watch, ev.path) {
                    Ok(ActionModel::CreateDir { dst: rebase(watch, out, ev.path) })
                } else {
                    Err(ErrorModel::NotContained { path: ev.path })
                },
                EntryKind::RegularFile => if contains_path(watch, ev.path) {
                    Ok(
                        ActionModel::CopyFile {
                            src: ev.path,
                            dst: rebase(watch, out, ev.path),
                        },
                    )
                } else {
                    Err(ErrorModel::NotContained { path: ev.path })
                },
                EntryKind::HardlinkedFile => Ok(
                    ActionModel::Unsupported {
                        reason: UnsupportedReason::Hardlink,
                        path: ev.path,
                    },
                ),
                EntryKind::Other => Ok(
                    ActionModel::Unsupported {
                        reason: UnsupportedReason::OtherEntry,
                        path: ev.path,
                    },
                ),
            },
        },
        EventKind::Access => Ok(ActionModel::Ignore),
        EventKind::Other => Ok(
            ActionModel::Unsupported { reason: UnsupportedReason::OtherEvent, path: ev.path },
        ),
        EventKind::Unrecognized => Ok(
            ActionModel::Unsupported { reason: UnsupportedReason::UnknownEvent, path: ev.path },
        ),
    }
}

/// Classifies one change notification into the mirror action to perform, or
/// into a reported no-op. Side-effect-free: the on-disk state enters only
/// through `probe`, which the caller fills from a read-only metadata query of
/// the event path (`None` when that query failed). The result follows the
/// decision table `classify_spec` exactly.
pub fn classify_event(
    watch_root: &FsPath,
    output_root: &FsPath,
    ev: &ChangeEvent,
    probe: Option<&EntryProbe>,
) -> (r: Result<MirrorAction, MirrorError>)
    requires
        ev.wf(),
    ensures
        outcome_model(r) == classify_spec(watch_root@, output_root@, ev@, probe_model(probe)),
{
    match ev.kind {
        EventKind::Remove => match change_root(watch_root, output_root, &ev.path) {
            Some(dst) => Ok(MirrorAction::RemoveEntry { dst }),
            None => Err(MirrorError::NotContained { path: ev.path.duplicate() }),
        },
        EventKind::Modify(mk) => match mk {
            ModifyKind::Data => match change_root(watch_root, output_root, &ev.path) {
                Some(dst) => Ok(MirrorAction::CopyFile { src: ev.path.duplicate(), dst }),
                None => Err(MirrorError::NotContained { path: ev.path.duplicate() }),
            },
            ModifyKind::Metadata => match change_root(watch_root, output_root, &ev.path) {
                Some(dst) => Ok(MirrorAction::SyncMetadata { src: ev.path.duplicate(), dst }),
                None => Err(MirrorError::NotContained { path: ev.path.duplicate() }),
            },
            ModifyKind::Name(rm) => match rm {
                RenameMode::Both => {
                    let new_path = match &ev.path2 {
                        Some(p) => p,
                        None => {
                            proof {
                                assert(false);
                            }
                            return Err(
                                MirrorError::NotContained { path: ev.path.duplicate() },
                            );
                        },
                    };
                    match change_root(watch_root, output_root, &ev.path) {
                        None => Err(MirrorError::NotContained { path: ev.path.duplicate() }),
                        Some(dst_old) => match change_root(watch_root, output_root, new_path) {
                            None => Err(
                                MirrorError::NotContained { path: new_path.duplicate() },
                            ),
                            Some(dst_new) => Ok(
                                MirrorAction::RenameEntry { dst_old, dst_new },
                            ),
                        },
                    }
                },
                _ => Ok(MirrorAction::Ignore),
            },
            ModifyKind::Other => Ok(
                MirrorAction::Unsupported {
                    reason: UnsupportedReason::OtherModify,
                    path: ev.path.duplicate(),
                },
            ),
            ModifyKind::Unspecified => Ok(MirrorAction::Ignore),
        },
        EventKind::Create => match probe {
            None => Err(MirrorError::MetadataUnavailable { path: ev.path.duplicate() }),
            Some(pr) => match classify_entry(&pr.meta) {
                EntryKind::Symlink => match change_root(watch_root, output_root, &ev.path) {
                    None => Err(MirrorError::NotContained { path: ev.path.duplicate() }),
                    Some(dst) => match &pr.link_target {
                        None => Err(
                            MirrorError::MetadataUnavailable { path: ev.path.duplicate() },
                        ),
                        Some(t) => Ok(
                            MirrorAction::CreateSymlink {
                                dst,
                                target: resolve_link_target(watch_root, output_root, t),
                            },
                        ),
                    },
                },
                EntryKind::Directory => match change_root(watch_root, output_root, &ev.path) {
                    Some(dst) => Ok(MirrorAction::CreateDir { dst }),
                    None => Err(MirrorError::NotContained { path: ev.path.duplicate() }),
                },
                EntryKind::RegularFile => match change_root(
                    watch_root,
                    output_root,
                    &ev.path,
                ) {
                    Some(dst) => Ok(
                        MirrorAction::CopyFile { src: ev.path.duplicate(), dst },
                    ),
                    None => Err(MirrorError::NotContained { path: ev.path.duplicate() }),
                },
                EntryKind::HardlinkedFile => Ok(
                    MirrorAction::Unsupported {
                        reason: UnsupportedReason::Hardlink,
                        path: ev.path.duplicate(),
                    },
                ),
                EntryKind::Other => Ok(
                    MirrorAction::Unsupported {
                        reason: UnsupportedReason::OtherEntry,
                        path: ev.path.duplicate(),
                    },
                ),
            },
        },
        EventKind::Access => Ok(MirrorAction::Ignore),
        EventKind::Other => Ok(
            MirrorAction::Unsupported {
                reason: UnsupportedReason::OtherEvent,
                path: ev.path.duplicate(),
            },
        ),
        EventKind::Unrecognized => Ok(
            MirrorAction::Unsupported {
                reason: UnsupportedReason::UnknownEvent,
                path: ev.path.duplicate(),
            },
        ),
    }
}

} // verus!
