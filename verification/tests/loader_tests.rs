use album_sync::error::SyncError;
use album_sync::loader::load_photos;
use album_sync::model::{DirEntry, EntryKind};

fn entry(path: &str, name: &str, kind: EntryKind) -> DirEntry {
    DirEntry { path: path.to_string(), name: name.to_string(), kind }
}

#[test]
fn loader_keeps_matching_regular_files_in_order() {
    let entries = vec![
        entry("/pics/a.jpg", "a.jpg", EntryKind::File { size_bytes: 10 }),
        entry("/pics/b.png", "b.png", EntryKind::File { size_bytes: 20 }),
        entry("/pics/c.JPG", "c.JPG", EntryKind::File { size_bytes: 30 }),
        entry("/pics/sub.jpg", "sub.jpg", EntryKind::NotFile),
        entry("/pics/d.jpg", "d.jpg", EntryKind::File { size_bytes: 40 }),
    ];
    let photos = load_photos(&entries, "jpg").unwrap();
    assert_eq!(photos.len(), 3);
    assert_eq!(photos[0].name, "a.jpg");
    assert_eq!(photos[0].path, "/pics/a.jpg");
    assert_eq!(photos[0].size_bytes, 10);
    assert_eq!(photos[1].name, "c.JPG");
    assert_eq!(photos[1].size_bytes, 30);
    assert_eq!(photos[2].name, "d.jpg");
    assert_eq!(photos[2].size_bytes, 40);
}

#[test]
fn loader_skips_other_extensions_and_non_files_without_error() {
    let entries = vec![
        entry("/pics/b.png", "b.png", EntryKind::File { size_bytes: 1 }),
        entry("/pics/notes.txt", "notes.txt", EntryKind::File { size_bytes: 2 }),
        entry("/pics/dir", "dir", EntryKind::NotFile),
        entry("/pics/noext", "noext", EntryKind::File { size_bytes: 3 }),
    ];
    let photos = load_photos(&entries, "jpg").unwrap();
    assert!(photos.is_empty());
}

#[test]
fn loader_accepts_an_empty_directory() {
    let photos = load_photos(&vec![], "jpg").unwrap();
    assert!(photos.is_empty());
}

#[test]
fn unreadable_eligible_entry_aborts_the_load() {
    let entries = vec![
        entry("/pics/a.jpg", "a.jpg", EntryKind::File { size_bytes: 10 }),
        entry("/pics/bad.jpg", "bad.jpg", EntryKind::Unreadable),
        entry("/pics/worse.jpg", "worse.jpg", EntryKind::Unreadable),
    ];
    match load_photos(&entries, "jpg") {
        Err(SyncError::FileUnreadable { path }) => assert_eq!(path, "/pics/bad.jpg"),
        other => panic!("expected FileUnreadable, got {:?}", other),
    }
}

#[test]
fn unreadable_entry_with_another_extension_is_skipped() {
    let entries = vec![
        entry("/pics/odd.tmp", "odd.tmp", EntryKind::Unreadable),
        entry("/pics/a.jpg", "a.jpg", EntryKind::File { size_bytes: 5 }),
    ];
    let photos = load_photos(&entries, "jpg").unwrap();
    assert_eq!(photos.len(), 1);
    assert_eq!(photos[0].name, "a.jpg");
}

#[test]
fn loader_honours_the_configured_extension() {
    let entries = vec![
        entry("/pics/a.png", "a.png", EntryKind::File { size_bytes: 1 }),
        entry("/pics/b.jpg", "b.jpg", EntryKind::File { size_bytes: 2 }),
    ];
    let photos = load_photos(&entries, "png").unwrap();
    assert_eq!(photos.len(), 1);
    assert_eq!(photos[0].name, "a.png");
}
