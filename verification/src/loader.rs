//! The descriptor loader: which directory entries become photos.
//!
//! An entry is accepted exactly when it is a regular file whose extension,
//! folded to lower case, equals the configured image extension; everything
//! else is skipped. An entry whose metadata could not be read, but whose
//! name carries the configured extension — one that would otherwise have
//! been eligible — aborts the whole load; an unreadable entry with any
//! other extension is merely skipped, like a file of another type.

use vstd::prelude::*;
use crate::error::SyncError;
use crate::model::DirEntry;
use crate::model::EntryKind;
use crate::model::Photo;
use crate::text::extension_matches;
use crate::text::spec_ext_of;
use crate::text::spec_lower;

verus! {

/// Whether the entry's extension, folded to lower case, is `ext`.
pub open spec fn spec_ext_eligible(e: DirEntry, ext: Seq<char>) -> bool {
    spec_lower(spec_ext_of(e.name@)) == ext
}

/// Whether the entry is accepted as a photo: a regular file carrying the
/// configured extension.
pub open spec fn spec_accepted(e: DirEntry, ext: Seq<char>) -> bool {
    e.kind is File && spec_ext_eligible(e, ext)
}

/// Whether the entry aborts the load: its metadata could not be read, and
/// its extension says it would otherwise have been eligible.
pub open spec fn spec_fatal(e: DirEntry, ext: Seq<char>) -> bool {
    e.kind is Unreadable && spec_ext_eligible(e, ext)
}

/// The subsequence of `s` that the loader accepts, in order.
pub open spec fn spec_selected(s: Seq<DirEntry>, ext: Seq<char>) -> Seq<DirEntry>
    decreases s.len(),
{
    if s.len() == 0 {
        Seq::<DirEntry>::empty()
    } else if spec_accepted(s.last(), ext) {
        spec_selected(s.drop_last(), ext).push(s.last())
    } else {
        spec_selected(s.drop_last(), ext)
    }
}

/// Whether `p` is the photo made from entry `e`: same name, same path, and
/// the size the metadata reported.
pub open spec fn spec_photo_of(p: Photo, e: DirEntry) -> bool {
    &&& p.name@ == e.name@
    &&& p.path@ == e.path@
    &&& e.kind matches EntryKind::File { size_bytes } && p.size_bytes == size_bytes
}

/// Loads photo descriptors from the enumerated entries of a directory, in
/// enumeration order. `extension` is the configured image extension, in
/// lower case. The load fails exactly when some entry with a matching
/// extension was unreadable, and then names the first such entry's path.
pub fn load_photos(entries: &Vec<DirEntry>, extension: &str) -> (r: Result<Vec<Photo>, SyncError>)
    ensures
        r is Ok <==> (forall|i: int|
            0 <= i < entries@.len() ==> !spec_fatal(entries@[i], extension@)),
        r matches Ok(photos) ==> {
            let sel = spec_selected(entries@, extension@);
            &&& photos@.len() == sel.len()
            &&& forall|i: int| 0 <= i < sel.len() ==> spec_photo_of(photos@[i], sel[i])
        },
        r matches Err(e) ==> (exists|k: int|
            {
                &&& 0 <= k < entries@.len()
                &&& spec_fatal(entries@[k], extension@)
                &&& (forall|j: int| 0 <= j < k ==> !spec_fatal(entries@[j], extension@))
                &&& (e matches SyncError::FileUnreadable { path } && path@ == entries@[k].path@)
            }),
{
    let mut photos: Vec<Photo> = Vec::new();
    let n = entries.len();
    let mut i: usize = 0;
    while i < n
        invariant
            n == entries@.len(),
            i <= n,
            forall|j: int| 0 <= j < i ==> !spec_fatal(entries@[j], extension@),
            photos@.len() == spec_selected(entries@.take(i as int), extension@).len(),
            forall|j: int|
                0 <= j < photos@.len() ==> spec_photo_of(
                    photos@[j],
                    spec_selected(entries@.take(i as int), extension@)[j],
                ),
        decreases n - i,
    {
        let entry = &entries[i];
        let matches_ext = extension_matches(entry.name.as_str(), extension);
        proof {
            assert(entries@.take(i + 1).drop_last() =~= entries@.take(i as int));
            assert(entries@.take(i + 1).last() == entries@[i as int]);
        }
        if matches_ext {
            match entry.kind {
                EntryKind::File { size_bytes } => {
                    let photo = Photo {
                        name: entry.name.clone(),
                        path: entry.path.clone(),
                        size_bytes,
                    };
                    photos.push(photo);
                },
                EntryKind::NotFile => {
                    // a subdirectory or other non-regular entry: skipped
                },
                EntryKind::Unreadable => {
                    // an otherwise-eligible entry whose metadata failed:
                    // the whole load aborts
                    return Err(SyncError::FileUnreadable { path: entry.path.clone() });
                },
            }
        }
        // entries with another extension are skipped, whatever they are
        i += 1;
    }
    proof {
        assert(entries@.take(n as int) =~= entries@);
    }
    Ok(photos)
}

} // verus!
