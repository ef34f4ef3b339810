//! Change notifications and the entry disambiguator: the plain-data form of a
//! raw filesystem event, and the decision that tells what kind of entry a
//! freshly created path is.

use vstd::prelude::*;
use crate::paths::{FsPath, PathModel};

verus! {

/// Which half of a rename a name-change notification reports. Only the
/// completed form, carrying both endpoints, is mirrored; the one-sided halves
/// carry too little to act on.
#[derive(Debug, Clone, Copy, PartialEq, Eq)]
pub enum RenameMode {
    /// Both endpoints delivered in one notification: old path, then new path.
    Both,
    /// Only the old path.
    From,
    /// Only the new path.
    To,
    /// The platform did not say which half this is.
    Other,
}

/// What a modification notification says changed.
#[derive(Debug, Clone, Copy, PartialEq, Eq)]
pub enum ModifyKind {
    /// File content changed.
    Data,
    /// Permissions, timestamps or ownership changed.
    Metadata,
    /// The entry was renamed.
    Name(RenameMode),
    /// A platform-specific modification outside the mirrored set.
    Other,
    /// A modification with no further detail attached.
    Unspecified,
}

/// The kind tag of a raw change notification.
#[derive(Debug, Clone, Copy, PartialEq, Eq)]
pub enum EventKind {
    /// An entry appeared.
    Create,
    /// An existing entry changed.
    Modify(ModifyKind),
    /// An entry disappeared.
    Remove,
    /// An entry was read; nothing to mirror.
    Access,
    /// A platform-specific event outside the mirrored set.
    Other,
    /// An event the notification layer could not classify at all.
    Unrecognized,
}

/// The value of a change notification.
#[verifier::ext_equal]
pub ghost struct EventModel {
    pub kind: EventKind,
    pub path: PathModel,
    pub path2: Option<PathModel>,
}

/// A change notification: a kind tag and one path, plus a second path exactly
/// when the notification is a completed rename (old path first, new path
/// second).
#[derive(Debug, PartialEq, Eq)]
pub struct ChangeEvent {
    pub kind: EventKind,
    pub path: FsPath,
    pub path2: Option<FsPath>,
}

impl View for ChangeEvent {
    type V = EventModel;

    open spec fn view(&self) -> EventModel {
        EventModel {
            kind: self.kind,
            path: self.path@,
            path2: match self.path2 {
                Some(p) => Some(p@),
                None => None,
            },
        }
    }
}

impl ChangeEvent {
    /// A well-formed notification carries a second path exactly in the
    /// completed-rename case.
    pub open spec fn wf(&self) -> bool {
        self.path2 is Some <==> self.kind == EventKind::Modify(
            ModifyKind::Name(RenameMode::Both),
        )
    }
}

/// What a metadata probe of a path reports, as plain values: the symlink
/// question is answered without following the link.
#[derive(Debug, Clone, Copy, PartialEq, Eq)]
pub struct EntryMeta {
    /// The path itself is a symbolic link.
    pub is_symlink: bool,
    /// The path is a directory.
    pub is_dir: bool,
    /// The path is a regular file.
    pub is_file: bool,
    /// The platform link count of the entry.
    pub nlink: u64,
}

/// What kind of entry a freshly created path turned out to be.
#[derive(Debug, Clone, Copy, PartialEq, Eq)]
pub enum EntryKind {
    Symlink,
    Directory,
    RegularFile,
    /// A regular file whose link count exceeds one. Recreating the shared
    /// storage faithfully is not possible by copying bytes, so such an entry
    /// is flagged and skipped rather than silently desynced.
    HardlinkedFile,
    /// Nothing of the above: a socket, fifo, device, or similar.
    Other,
}

/// The disambiguation rule. The symlink question is settled first - a symlink
/// must never be followed while deciding type - then the directory question,
/// and a plain file with a link count above one is set apart as hardlinked.
pub open spec fn entry_kind_spec(m: EntryMeta) -> EntryKind {
    if m.is_symlink {
        EntryKind::Symlink
    } else if m.is_dir {
        EntryKind::Directory
    } else if m.is_file {
        if m.nlink > 1 {
            EntryKind::HardlinkedFile
        } else {
            EntryKind::RegularFile
        }
    } else {
        EntryKind::Other
    }
}

/// Decides what kind of entry a probed path is, in the fixed decision order:
/// symlink before directory, directory before regular file, and a regular
/// file with link count above one is hardlinked.
pub fn classify_entry(m: &EntryMeta) -> (k: EntryKind)
    ensures
        k == entry_kind_spec(*m),
{
    if m.is_symlink {
        EntryKind::Symlink
    } else if m.is_dir {
        EntryKind::Directory
    } else if m.is_file {
        if m.nlink > 1 {
            EntryKind::HardlinkedFile
        } else {
            EntryKind::RegularFile
        }
    } else {
        EntryKind::Other
    }
}

/// The value of an on-disk probe of a created path.
#[verifier::ext_equal]
pub ghost struct ProbeModel {
    pub meta: EntryMeta,
    pub link_target: Option<PathModel>,
}

/// The on-disk probe of a freshly created path: its metadata, and - when the
/// metadata marks it a symlink and the link could be read - the link target.
#[derive(Debug, PartialEq, Eq)]
pub struct EntryProbe {
    pub meta: EntryMeta,
    pub link_target: Option<FsPath>,
}

impl View for EntryProbe {
    type V = ProbeModel;

    open spec fn view(&self) -> ProbeModel {
        ProbeModel {
            meta: self.meta,
            link_target: match self.link_target {
                Some(p) => Some(p@),
                None => None,
            },
        }
    }
}

} // verus!
