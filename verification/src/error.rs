//! The error taxonomy of the synchroniser.
//!
//! Fatal errors unwind to the top level and end the run; per-item errors are
//! recorded by the state machines and the run continues. Which failures are
//! fatal is decided by the upload and download state machines, not here.

use vstd::prelude::*;

verus! {

/// What a call on the object store can fail with, as the store interface
/// surfaces it: a connectivity failure, a missing object or container, a
/// name already taken, a refusal of the credentials, or anything else with
/// its cause.
#[derive(Debug)]
pub enum StoreError {
    ConnectivityError { message: String },
    NotFound { message: String },
    AlreadyExists { message: String },
    PermissionDenied { message: String },
    Unknown { message: String },
}

impl StoreError {
    /// The diagnostic rendering of this store failure.
    pub fn message(&self) -> (r: String)
        ensures
            r@ == self.spec_message(),
    {
        proof {
            reveal_strlit("connectivity error: ");
            reveal_strlit("not found: ");
            reveal_strlit("already exists: ");
            reveal_strlit("permission denied: ");
            reveal_strlit("unknown error: ");
        }
        match self {
            StoreError::ConnectivityError { message } => {
                let mut s = String::from_str("connectivity error: ");
                s.append(message.as_str());
                s
            },
            StoreError::NotFound { message } => {
                let mut s = String::from_str("not found: ");
                s.append(message.as_str());
                s
            },
            StoreError::AlreadyExists { message } => {
                let mut s = String::from_str("already exists: ");
                s.append(message.as_str());
                s
            },
            StoreError::PermissionDenied { message } => {
                let mut s = String::from_str("permission denied: ");
                s.append(message.as_str());
                s
            },
            StoreError::Unknown { message } => {
                let mut s = String::from_str("unknown error: ");
                s.append(message.as_str());
                s
            },
        }
    }

    /// What `message` returns, for each variant.
    pub open spec fn spec_message(&self) -> Seq<char> {
        match self {
            StoreError::ConnectivityError { message } => "connectivity error: "@ + message@,
            StoreError::NotFound { message } => "not found: "@ + message@,
            StoreError::AlreadyExists { message } => "already exists: "@ + message@,
            StoreError::PermissionDenied { message } => "permission denied: "@ + message@,
            StoreError::Unknown { message } => "unknown error: "@ + message@,
        }
    }
}

/// One error value of the synchroniser.
///
/// - `ConfigError`: the store client could not be constructed (fatal at
///   startup).
/// - `DirectoryUnreadable`: the source path could not be opened as a
///   directory (fatal, upload only).
/// - `FileUnreadable`: a local file that was about to be uploaded could not
///   be opened or read (fatal; aborts the remaining items).
/// - `ContainerCreateError`: the remote container could not be created
///   (fatal to the whole upload).
/// - `PerItemTransferError`: a single object transfer failed.
/// - `TransformError`: decoding, resampling or re-encoding an image failed
///   (that one item is skipped).
/// - `InvalidCommand`: an unrecognised command word, carried verbatim.
#[derive(Debug)]
pub enum SyncError {
    ConfigError { message: String },
    DirectoryUnreadable { message: String },
    FileUnreadable { path: String },
    ContainerCreateError { message: String },
    PerItemTransferError { message: String },
    TransformError { message: String },
    InvalidCommand { command: String },
}

impl SyncError {
    /// The diagnostic line for this error.
    pub fn message(&self) -> (r: String)
        ensures
            r@ == self.spec_message(),
    {
        proof {
            reveal_strlit("failed to create store client: ");
            reveal_strlit("can not read folder: ");
            reveal_strlit("can not read file ");
            reveal_strlit("failed to create album container: ");
            reveal_strlit("failed to transfer object: ");
            reveal_strlit("failed to transform image: ");
            reveal_strlit("Command ");
            reveal_strlit(" is not valid");
        }
        match self {
            SyncError::ConfigError { message } => {
                let mut s = String::from_str("failed to create store client: ");
                s.append(message.as_str());
                s
            },
            SyncError::DirectoryUnreadable { message } => {
                let mut s = String::from_str("can not read folder: ");
                s.append(message.as_str());
                s
            },
            SyncError::FileUnreadable { path } => {
                let mut s = String::from_str("can not read file ");
                s.append(path.as_str());
                s
            },
            SyncError::ContainerCreateError { message } => {
                let mut s = String::from_str("failed to create album container: ");
                s.append(message.as_str());
                s
            },
            SyncError::PerItemTransferError { message } => {
                let mut s = String::from_str("failed to transfer object: ");
                s.append(message.as_str());
                s
            },
            SyncError::TransformError { message } => {
                let mut s = String::from_str("failed to transform image: ");
                s.append(message.as_str());
                s
            },
            SyncError::InvalidCommand { command } => {
                let mut s = String::from_str("Command ");
                s.append(command.as_str());
                s.append(" is not valid");
                s
            },
        }
    }

    /// What `message` returns, for each variant.
    pub open spec fn spec_message(&self) -> Seq<char> {
        match self {
            SyncError::ConfigError { message } => "failed to create store client: "@ + message@,
            SyncError::DirectoryUnreadable { message } => "can not read folder: "@ + message@,
            SyncError::FileUnreadable { path } => "can not read file "@ + path@,
            SyncError::ContainerCreateError { message } => "failed to create album container: "@
                + message@,
            SyncError::PerItemTransferError { message } => "failed to transfer object: "@
                + message@,
            SyncError::TransformError { message } => "failed to transform image: "@ + message@,
            SyncError::InvalidCommand { command } => "Command "@ + command@ + " is not valid"@,
        }
    }
}

} // verus!
