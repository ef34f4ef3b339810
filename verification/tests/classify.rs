//! The classifier's decision table, row by row, on concrete events.

use rustsync::classify::{classify_event, MirrorAction, MirrorError, UnsupportedReason};
use rustsync::events::{
    ChangeEvent, EntryMeta, EntryProbe, EventKind, ModifyKind, RenameMode,
};
use rustsync::paths::FsPath;

fn abs(parts: &[&str]) -> FsPath {
    FsPath { absolute: true, parts: parts.iter().map(|s| s.as_bytes().to_vec()).collect() }
}

fn rel(parts: &[&str]) -> FsPath {
    FsPath { absolute: false, parts: parts.iter().map(|s| s.as_bytes().to_vec()).collect() }
}

fn one(kind: EventKind, path: FsPath) -> ChangeEvent {
    ChangeEvent { kind, path, path2: None }
}

fn watch() -> FsPath {
    abs(&["watch"])
}

fn out() -> FsPath {
    abs(&["out"])
}

fn file_probe(nlink: u64) -> EntryProbe {
    EntryProbe {
        meta: EntryMeta { is_symlink: false, is_dir: false, is_file: true, nlink },
        link_target: None,
    }
}

fn dir_probe() -> EntryProbe {
    EntryProbe {
        meta: EntryMeta { is_symlink: false, is_dir: true, is_file: false, nlink: 1 },
        link_target: None,
    }
}

fn symlink_probe(target: Option<FsPath>) -> EntryProbe {
    EntryProbe {
        meta: EntryMeta { is_symlink: true, is_dir: false, is_file: false, nlink: 1 },
        link_target: target,
    }
}

#[test]
fn remove_is_remapped() {
    let ev = one(EventKind::Remove, abs(&["watch", "gone"]));
    let r = classify_event(&watch(), &out(), &ev, None);
    assert_eq!(r, Ok(MirrorAction::RemoveEntry { dst: abs(&["out", "gone"]) }));
}

#[test]
fn data_change_copies() {
    let ev = one(EventKind::Modify(ModifyKind::Data), abs(&["watch", "f"]));
    let r = classify_event(&watch(), &out(), &ev, None);
    assert_eq!(
        r,
        Ok(MirrorAction::CopyFile { src: abs(&["watch", "f"]), dst: abs(&["out", "f"]) })
    );
}

#[test]
fn metadata_change_synchronizes() {
    let ev = one(EventKind::Modify(ModifyKind::Metadata), abs(&["watch", "f"]));
    let r = classify_event(&watch(), &out(), &ev, None);
    assert_eq!(
        r,
        Ok(MirrorAction::SyncMetadata { src: abs(&["watch", "f"]), dst: abs(&["out", "f"]) })
    );
}

#[test]
fn completed_rename_moves_both_endpoints() {
    let ev = ChangeEvent {
        kind: EventKind::Modify(ModifyKind::Name(RenameMode::Both)),
        path: abs(&["watch", "x"]),
        path2: Some(abs(&["watch", "y"])),
    };
    let r = classify_event(&watch(), &out(), &ev, None);
    assert_eq!(
        r,
        Ok(MirrorAction::RenameEntry {
            dst_old: abs(&["out", "x"]),
            dst_new: abs(&["out", "y"]),
        })
    );
}

#[test]
fn rename_with_new_endpoint_outside_aborts() {
    let ev = ChangeEvent {
        kind: EventKind::Modify(ModifyKind::Name(RenameMode::Both)),
        path: abs(&["watch", "x"]),
        path2: Some(abs(&["elsewhere", "y"])),
    };
    let r = classify_event(&watch(), &out(), &ev, None);
    assert_eq!(r, Err(MirrorError::NotContained { path: abs(&["elsewhere", "y"]) }));
}

#[test]
fn rename_with_old_endpoint_outside_aborts() {
    let ev = ChangeEvent {
        kind: EventKind::Modify(ModifyKind::Name(RenameMode::Both)),
        path: abs(&["elsewhere", "x"]),
        path2: Some(abs(&["watch", "y"])),
    };
    let r = classify_event(&watch(), &out(), &ev, None);
    assert_eq!(r, Err(MirrorError::NotContained { path: abs(&["elsewhere", "x"]) }));
}

#[test]
fn one_sided_rename_is_ignored() {
    let ev = one(EventKind::Modify(ModifyKind::Name(RenameMode::From)), abs(&["watch", "x"]));
    assert_eq!(classify_event(&watch(), &out(), &ev, None), Ok(MirrorAction::Ignore));
}

#[test]
fn unspecified_modification_is_ignored() {
    let ev = one(EventKind::Modify(ModifyKind::Unspecified), abs(&["watch", "x"]));
    assert_eq!(classify_event(&watch(), &out(), &ev, None), Ok(MirrorAction::Ignore));
}

#[test]
fn other_modification_is_unsupported() {
    let ev = one(EventKind::Modify(ModifyKind::Other), abs(&["watch", "x"]));
    assert_eq!(
        classify_event(&watch(), &out(), &ev, None),
        Ok(MirrorAction::Unsupported {
            reason: UnsupportedReason::OtherModify,
            path: abs(&["watch", "x"]),
        })
    );
}

#[test]
fn created_regular_file_copies() {
    let ev = one(EventKind::Create, abs(&["watch", "a", "b.txt"]));
    let r = classify_event(&watch(), &out(), &ev, Some(&file_probe(1)));
    assert_eq!(
        r,
        Ok(MirrorAction::CopyFile {
            src: abs(&["watch", "a", "b.txt"]),
            dst: abs(&["out", "a", "b.txt"]),
        })
    );
}

#[test]
fn created_directory_is_created() {
    let ev = one(EventKind::Create, abs(&["watch", "d"]));
    let r = classify_event(&watch(), &out(), &ev, Some(&dir_probe()));
    assert_eq!(r, Ok(MirrorAction::CreateDir { dst: abs(&["out", "d"]) }));
}

#[test]
fn created_symlink_with_target_under_root() {
    let ev = one(EventKind::Create, abs(&["watch", "link"]));
    let probe = symlink_probe(Some(abs(&["watch", "real"])));
    let r = classify_event(&watch(), &out(), &ev, Some(&probe));
    assert_eq!(
        r,
        Ok(MirrorAction::CreateSymlink {
            dst: abs(&["out", "link"]),
            target: abs(&["out", "real"]),
        })
    );
}

#[test]
fn created_symlink_with_relative_target() {
    let ev = one(EventKind::Create, abs(&["watch", "link"]));
    let probe = symlink_probe(Some(rel(&["sibling"])));
    let r = classify_event(&watch(), &out(), &ev, Some(&probe));
    assert_eq!(
        r,
        Ok(MirrorAction::CreateSymlink {
            dst: abs(&["out", "link"]),
            target: rel(&["sibling"]),
        })
    );
}

#[test]
fn created_symlink_with_unreadable_target() {
    let ev = one(EventKind::Create, abs(&["watch", "link"]));
    let probe = symlink_probe(None);
    let r = classify_event(&watch(), &out(), &ev, Some(&probe));
    assert_eq!(r, Err(MirrorError::MetadataUnavailable { path: abs(&["watch", "link"]) }));
}

#[test]
fn created_hardlink_is_unsupported() {
    let ev = one(EventKind::Create, abs(&["watch", "h"]));
    let r = classify_event(&watch(), &out(), &ev, Some(&file_probe(2)));
    assert_eq!(
        r,
        Ok(MirrorAction::Unsupported {
            reason: UnsupportedReason::Hardlink,
            path: abs(&["watch", "h"]),
        })
    );
}

#[test]
fn created_hardlink_outside_root_still_unsupported() {
    let ev = one(EventKind::Create, abs(&["elsewhere", "h"]));
    let r = classify_event(&watch(), &out(), &ev, Some(&file_probe(3)));
    assert_eq!(
        r,
        Ok(MirrorAction::Unsupported {
            reason: UnsupportedReason::Hardlink,
            path: abs(&["elsewhere", "h"]),
        })
    );
}

#[test]
fn create_without_probe_reports_metadata() {
    let ev = one(EventKind::Create, abs(&["watch", "f"]));
    let r = classify_event(&watch(), &out(), &ev, None);
    assert_eq!(r, Err(MirrorError::MetadataUnavailable { path: abs(&["watch", "f"]) }));
}

#[test]
fn created_exotic_entry_is_unsupported() {
    let ev = one(EventKind::Create, abs(&["watch", "sock"]));
    let probe = EntryProbe {
        meta: EntryMeta { is_symlink: false, is_dir: false, is_file: false, nlink: 1 },
        link_target: None,
    };
    let r = classify_event(&watch(), &out(), &ev, Some(&probe));
    assert_eq!(
        r,
        Ok(MirrorAction::Unsupported {
            reason: UnsupportedReason::OtherEntry,
            path: abs(&["watch", "sock"]),
        })
    );
}

#[test]
fn access_is_ignored() {
    let ev = one(EventKind::Access, abs(&["watch", "f"]));
    assert_eq!(classify_event(&watch(), &out(), &ev, None), Ok(MirrorAction::Ignore));
}

#[test]
fn other_event_is_unsupported() {
    let ev = one(EventKind::Other, abs(&["watch", "f"]));
    assert_eq!(
        classify_event(&watch(), &out(), &ev, None),
        Ok(MirrorAction::Unsupported {
            reason: UnsupportedReason::OtherEvent,
            path: abs(&["watch", "f"]),
        })
    );
}

#[test]
fn unrecognized_event_is_unsupported() {
    let ev = one(EventKind::Unrecognized, abs(&["watch", "f"]));
    assert_eq!(
        classify_event(&watch(), &out(), &ev, None),
        Ok(MirrorAction::Unsupported {
            reason: UnsupportedReason::UnknownEvent,
            path: abs(&["watch", "f"]),
        })
    );
}

#[test]
fn out_of_root_remove_reports_not_contained() {
    let ev = one(EventKind::Remove, abs(&["elsewhere", "gone"]));
    let r = classify_event(&watch(), &out(), &ev, None);
    assert_eq!(r, Err(MirrorError::NotContained { path: abs(&["elsewhere", "gone"]) }));
}

#[test]
fn out_of_root_data_change_reports_not_contained() {
    let ev = one(EventKind::Modify(ModifyKind::Data), abs(&["elsewhere", "f"]));
    let r = classify_event(&watch(), &out(), &ev, None);
    assert_eq!(r, Err(MirrorError::NotContained { path: abs(&["elsewhere", "f"]) }));
}

#[test]
fn out_of_root_metadata_change_reports_not_contained() {
    let ev = one(EventKind::Modify(ModifyKind::Metadata), abs(&["elsewhere", "f"]));
    let r = classify_event(&watch(), &out(), &ev, None);
    assert_eq!(r, Err(MirrorError::NotContained { path: abs(&["elsewhere", "f"]) }));
}

#[test]
fn out_of_root_created_file_reports_not_contained() {
    let ev = one(EventKind::Create, abs(&["elsewhere", "f"]));
    let r = classify_event(&watch(), &out(), &ev, Some(&file_probe(1)));
    assert_eq!(r, Err(MirrorError::NotContained { path: abs(&["elsewhere", "f"]) }));
}
