//! Verified core of an album synchroniser: a tool that uploads a folder of
//! images to a named album in a remote object store, downloads an album back
//! to local files, and lists the albums present.
//!
//! The library holds the logic of the transfer pipeline — directory-entry
//! classification, key construction, the optional downscale geometry, the
//! per-item upload and download state machines with their progress
//! accounting, and the listing truncation rule — as verified code over plain
//! values. The surrounding binary performs the actual file, terminal and
//! network I/O and feeds the outcomes back to the state machines as events.

pub mod command;
pub mod download;
pub mod error;
pub mod image;
pub mod keys;
pub mod listing;
pub mod loader;
pub mod model;
pub mod progress;
pub mod text;
pub mod upload;
