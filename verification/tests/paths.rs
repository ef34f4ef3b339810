//! Path remapping and entry disambiguation, on concrete values.

use rustsync::events::{classify_entry, EntryKind, EntryMeta};
use rustsync::paths::{change_root, resolve_link_target, FsPath};

fn abs(parts: &[&str]) -> FsPath {
    FsPath { absolute: true, parts: parts.iter().map(|s| s.as_bytes().to_vec()).collect() }
}

fn rel(parts: &[&str]) -> FsPath {
    FsPath { absolute: false, parts: parts.iter().map(|s| s.as_bytes().to_vec()).collect() }
}

#[test]
fn remap_under_root() {
    let watch = abs(&["watch"]);
    let out = abs(&["out"]);
    let p = abs(&["watch", "a", "b.txt"]);
    assert_eq!(change_root(&watch, &out, &p), Some(abs(&["out", "a", "b.txt"])));
}

#[test]
fn remap_root_itself() {
    let watch = abs(&["watch"]);
    let out = abs(&["mirror", "out"]);
    assert_eq!(change_root(&watch, &out, &abs(&["watch"])), Some(abs(&["mirror", "out"])));
}

#[test]
fn remap_outside_root() {
    let watch = abs(&["watch"]);
    let out = abs(&["out"]);
    assert_eq!(change_root(&watch, &out, &abs(&["elsewhere", "a"])), None);
}

#[test]
fn remap_sibling_with_common_name() {
    let watch = abs(&["watch"]);
    let out = abs(&["out"]);
    assert_eq!(change_root(&watch, &out, &abs(&["watchful", "a"])), None);
}

#[test]
fn remap_path_shorter_than_root() {
    let watch = abs(&["deep", "watch"]);
    let out = abs(&["out"]);
    assert_eq!(change_root(&watch, &out, &abs(&["deep"])), None);
}

#[test]
fn remap_relative_path() {
    let watch = abs(&["watch"]);
    let out = abs(&["out"]);
    assert_eq!(change_root(&watch, &out, &rel(&["watch", "a"])), None);
}

#[test]
fn parent_drops_last_component() {
    let p = abs(&["out", "a", "b.txt"]);
    assert_eq!(p.parent(), Some(abs(&["out", "a"])));
}

#[test]
fn parent_of_empty_path() {
    let p = FsPath { absolute: true, parts: Vec::new() };
    assert_eq!(p.parent(), None);
}

#[test]
fn duplicate_is_equal() {
    let p = abs(&["watch", "x"]);
    assert_eq!(p.duplicate(), p);
}

#[test]
fn link_target_under_root_is_remapped() {
    let watch = abs(&["watch"]);
    let out = abs(&["out"]);
    let target = abs(&["watch", "data", "real.txt"]);
    assert_eq!(
        resolve_link_target(&watch, &out, &target),
        abs(&["out", "data", "real.txt"])
    );
}

#[test]
fn link_target_elsewhere_kept_verbatim() {
    let watch = abs(&["watch"]);
    let out = abs(&["out"]);
    let target = abs(&["etc", "hosts"]);
    assert_eq!(resolve_link_target(&watch, &out, &target), target);
}

#[test]
fn relative_link_target_kept_verbatim() {
    let watch = abs(&["watch"]);
    let out = abs(&["out"]);
    let target = rel(&["..", "real.txt"]);
    assert_eq!(resolve_link_target(&watch, &out, &target), target);
}

#[test]
fn symlink_wins_over_directory() {
    let m = EntryMeta { is_symlink: true, is_dir: true, is_file: false, nlink: 1 };
    assert_eq!(classify_entry(&m), EntryKind::Symlink);
}

#[test]
fn directory_wins_over_file() {
    let m = EntryMeta { is_symlink: false, is_dir: true, is_file: true, nlink: 1 };
    assert_eq!(classify_entry(&m), EntryKind::Directory);
}

#[test]
fn plain_file_with_single_link() {
    let m = EntryMeta { is_symlink: false, is_dir: false, is_file: true, nlink: 1 };
    assert_eq!(classify_entry(&m), EntryKind::RegularFile);
}

#[test]
fn file_with_two_links_is_hardlinked() {
    let m = EntryMeta { is_symlink: false, is_dir: false, is_file: true, nlink: 2 };
    assert_eq!(classify_entry(&m), EntryKind::HardlinkedFile);
}

#[test]
fn neither_kind_is_other() {
    let m = EntryMeta { is_symlink: false, is_dir: false, is_file: false, nlink: 1 };
    assert_eq!(classify_entry(&m), EntryKind::Other);
}
