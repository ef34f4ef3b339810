//! Verified core of a directory-mirroring daemon.
//!
//! The engine watches a source tree (the watch root) and replays each change
//! against a destination tree (the output root). This crate holds the logic
//! that is proved: remapping source paths to destination paths, deciding what
//! kind of entry a freshly created path is, classifying a raw change
//! notification into a concrete mirror action, and the laws that replaying
//! those actions obeys over a model of the destination tree. The surrounding
//! process - the OS watch registration, the filesystem mutations themselves,
//! and the companion peer-key utility - performs I/O and stays outside.

pub mod classify;
pub mod events;
pub mod keys;
pub mod paths;
pub mod tree;
