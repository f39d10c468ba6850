use album_sync::error::{StoreError, SyncError};
use album_sync::model::{ImageAlbum, Photo};
use album_sync::upload::{UploadAction, UploadEvent, UploadOutcome, UploadRun};

fn photo(name: &str, path: &str, size_bytes: u64) -> Photo {
    Photo { name: name.to_string(), path: path.to_string(), size_bytes }
}

fn album(name: &str, photos: Vec<Photo>, downscale: bool) -> ImageAlbum {
    ImageAlbum { name: name.to_string(), photos, downscale }
}

#[test]
fn empty_album_finishes_without_creating_a_container() {
    let mut run = UploadRun::new(album("trip", vec![], false), "store".to_string());
    match run.start() {
        UploadAction::Finish { outcome: UploadOutcome::NothingToUpload } => {}
        other => panic!("expected NothingToUpload, got {:?}", other),
    }
    assert_eq!(run.progress.completed, 0);
    assert_eq!(run.progress.total, 0);
}

#[test]
fn upload_without_downscale_puts_the_bytes_unchanged() {
    let photos = vec![photo("a.jpg", "/pics/a.jpg", 3), photo("b.jpg", "/pics/b.jpg", 4)];
    let mut run = UploadRun::new(album("trip", photos, false), "store".to_string());

    match run.start() {
        UploadAction::CreateContainer { name } => assert_eq!(name, "trip"),
        other => panic!("expected CreateContainer, got {:?}", other),
    }
    match run.on_event(UploadEvent::ContainerCreated) {
        UploadAction::ReadFile { path } => assert_eq!(path, "/pics/a.jpg"),
        other => panic!("expected ReadFile, got {:?}", other),
    }
    match run.on_event(UploadEvent::FileRead { data: b"abc".to_vec() }) {
        UploadAction::PutObject { bucket, key, body } => {
            assert_eq!(bucket, "store");
            assert_eq!(key, "trip/a.jpg");
            assert_eq!(body, b"abc".to_vec());
        }
        other => panic!("expected PutObject, got {:?}", other),
    }
    match run.on_event(UploadEvent::ObjectPut) {
        UploadAction::ReadFile { path } => assert_eq!(path, "/pics/b.jpg"),
        other => panic!("expected ReadFile, got {:?}", other),
    }
    match run.on_event(UploadEvent::FileRead { data: b"defg".to_vec() }) {
        UploadAction::PutObject { key, body, .. } => {
            assert_eq!(key, "trip/b.jpg");
            assert_eq!(body, b"defg".to_vec());
        }
        other => panic!("expected PutObject, got {:?}", other),
    }
    match run.on_event(UploadEvent::PutFailed) {
        UploadAction::Finish { outcome: UploadOutcome::Completed } => {}
        other => panic!("expected Completed, got {:?}", other),
    }

    // every attempt is counted; the store holds the attempts that succeeded
    assert_eq!(run.progress.completed, 2);
    assert_eq!(run.progress.total, 2);
    assert_eq!(run.failed, 1);
    assert_eq!(run.stored, 1);
}

#[test]
fn upload_with_downscale_routes_bytes_through_the_transformer() {
    let photos = vec![photo("a.jpg", "/pics/a.jpg", 3)];
    let mut run = UploadRun::new(album("trip", photos, true), "store".to_string());

    run.start();
    run.on_event(UploadEvent::ContainerCreated);
    match run.on_event(UploadEvent::FileRead { data: b"raw".to_vec() }) {
        UploadAction::TransformImage { data } => assert_eq!(data, b"raw".to_vec()),
        other => panic!("expected TransformImage, got {:?}", other),
    }
    match run.on_event(UploadEvent::ImageTransformed { data: b"small".to_vec() }) {
        UploadAction::PutObject { key, body, .. } => {
            assert_eq!(key, "trip/a.jpg");
            assert_eq!(body, b"small".to_vec());
        }
        other => panic!("expected PutObject, got {:?}", other),
    }
    match run.on_event(UploadEvent::ObjectPut) {
        UploadAction::Finish { outcome: UploadOutcome::Completed } => {}
        other => panic!("expected Completed, got {:?}", other),
    }
    assert_eq!(run.progress.completed, 1);
    assert_eq!(run.failed, 0);
    assert_eq!(run.stored, 1);
}

#[test]
fn failed_transform_skips_that_item_and_continues() {
    let photos = vec![photo("a.jpg", "/pics/a.jpg", 3), photo("b.jpg", "/pics/b.jpg", 4)];
    let mut run = UploadRun::new(album("trip", photos, true), "store".to_string());

    run.start();
    run.on_event(UploadEvent::ContainerCreated);
    run.on_event(UploadEvent::FileRead { data: b"one".to_vec() });
    match run.on_event(UploadEvent::TransformFailed) {
        UploadAction::ReadFile { path } => assert_eq!(path, "/pics/b.jpg"),
        other => panic!("expected ReadFile, got {:?}", other),
    }
    run.on_event(UploadEvent::FileRead { data: b"two".to_vec() });
    run.on_event(UploadEvent::ImageTransformed { data: b"two-small".to_vec() });
    match run.on_event(UploadEvent::ObjectPut) {
        UploadAction::Finish { outcome: UploadOutcome::Completed } => {}
        other => panic!("expected Completed, got {:?}", other),
    }
    assert_eq!(run.progress.completed, 2);
    assert_eq!(run.failed, 1);
    assert_eq!(run.stored, 1);
}

#[test]
fn container_failure_aborts_the_whole_upload() {
    let photos = vec![photo("a.jpg", "/pics/a.jpg", 3)];
    let mut run = UploadRun::new(album("trip", photos, false), "store".to_string());

    run.start();
    let failure = StoreError::AlreadyExists { message: "taken".to_string() };
    match run.on_event(UploadEvent::ContainerFailed { error: failure }) {
        UploadAction::Finish {
            outcome: UploadOutcome::Aborted { error: SyncError::ContainerCreateError { message } },
        } => assert_eq!(message, "already exists: taken"),
        other => panic!("expected Aborted, got {:?}", other),
    }
    assert_eq!(run.progress.completed, 0);
}

#[test]
fn read_failure_aborts_the_remaining_items() {
    let photos = vec![photo("a.jpg", "/pics/a.jpg", 3), photo("b.jpg", "/pics/b.jpg", 4)];
    let mut run = UploadRun::new(album("trip", photos, false), "store".to_string());

    run.start();
    run.on_event(UploadEvent::ContainerCreated);
    match run.on_event(UploadEvent::FileReadFailed) {
        UploadAction::Finish {
            outcome: UploadOutcome::Aborted { error: SyncError::FileUnreadable { path } },
        } => assert_eq!(path, "/pics/a.jpg"),
        other => panic!("expected Aborted, got {:?}", other),
    }
    assert_eq!(run.progress.completed, 0);
}
