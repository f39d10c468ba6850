//! The data the pipeline works on: local images, albums, and the directory
//! entries the loader classifies.

use vstd::prelude::*;

verus! {

/// A local image selected for upload: its file name, its full path, and its
/// size on disk. It lives only for the duration of one run.
#[derive(Debug)]
pub struct Photo {
    pub name: String,
    pub path: String,
    pub size_bytes: u64,
}

/// A named album to be uploaded: the images in enumeration order and whether
/// each is downscaled before transfer. On the remote side an album is
/// nothing but the set of keys sharing the prefix `"<name>/"`.
#[derive(Debug)]
pub struct ImageAlbum {
    pub name: String,
    pub photos: Vec<Photo>,
    pub downscale: bool,
}

/// What could be learnt about one directory entry: a regular file with its
/// size, something other than a regular file (such as a subdirectory), or an
/// entry whose metadata could not be read.
#[derive(Debug)]
pub enum EntryKind {
    File { size_bytes: u64 },
    NotFile,
    Unreadable,
}

/// One enumerated directory entry, as handed to the loader: its full path,
/// its bare file name, and what it turned out to be.
#[derive(Debug)]
pub struct DirEntry {
    pub path: String,
    pub name: String,
    pub kind: EntryKind,
}

} // verus!
