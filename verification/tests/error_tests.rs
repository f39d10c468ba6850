use album_sync::error::{StoreError, SyncError};

#[test]
fn each_error_has_its_diagnostic_line() {
    let e = SyncError::ConfigError { message: "no credentials".to_string() };
    assert_eq!(e.message(), "failed to create store client: no credentials");

    let e = SyncError::DirectoryUnreadable { message: "denied".to_string() };
    assert_eq!(e.message(), "can not read folder: denied");

    let e = SyncError::FileUnreadable { path: "/pics/a.jpg".to_string() };
    assert_eq!(e.message(), "can not read file /pics/a.jpg");

    let e = SyncError::ContainerCreateError { message: "taken".to_string() };
    assert_eq!(e.message(), "failed to create album container: taken");

    let e = SyncError::PerItemTransferError { message: "timeout".to_string() };
    assert_eq!(e.message(), "failed to transfer object: timeout");

    let e = SyncError::TransformError { message: "bad header".to_string() };
    assert_eq!(e.message(), "failed to transform image: bad header");

    let e = SyncError::InvalidCommand { command: "sync".to_string() };
    assert_eq!(e.message(), "Command sync is not valid");
}

#[test]
fn each_store_failure_has_its_rendering() {
    let e = StoreError::ConnectivityError { message: "refused".to_string() };
    assert_eq!(e.message(), "connectivity error: refused");

    let e = StoreError::NotFound { message: "no such key".to_string() };
    assert_eq!(e.message(), "not found: no such key");

    let e = StoreError::AlreadyExists { message: "bucket taken".to_string() };
    assert_eq!(e.message(), "already exists: bucket taken");

    let e = StoreError::PermissionDenied { message: "forbidden".to_string() };
    assert_eq!(e.message(), "permission denied: forbidden");

    let e = StoreError::Unknown { message: "http 500".to_string() };
    assert_eq!(e.message(), "unknown error: http 500");
}
