use vstd::prelude::*;
use crate::record::FileId;

verus! {

/// Why the file manager could not be brought up.
#[derive(Clone, Copy, Debug, PartialEq, Eq, Structural)]
pub enum InitError {
    /// The upload path exists but is not a directory.
    NotADirectory,
    /// The upload directory does not exist and may not be created.
    MissingDirectory,
    /// Creating the missing upload directory failed.
    CreateFailed,
    /// The upload path could not be queried.
    Unreadable,
    /// The stored records name one identifier twice.
    DuplicateRecord(FileId),
}

#[derive(Clone, Copy, Debug, PartialEq, Eq, Structural)]
pub enum AppError {
    /// Configuring the app failed.
    ConfigError(InitError),
    /// The blob of this file could not be removed.
    RemoveError(FileId),
}

/// Why an upload was not stored.
#[derive(Clone, Copy, Debug, PartialEq, Eq, Structural)]
pub enum IngestError {
    /// The identifier is already taken by a stored record.
    AlreadyExists,
    /// Writing the blob failed; no metadata was touched.
    StorageFailure,
    /// Saving the metadata failed; the new record was taken back.
    MetadataFailure,
}

/// Why a download cannot be served.
#[derive(Clone, Copy, Debug, PartialEq, Eq, Structural)]
pub enum FetchError {
    /// The text is not an identifier.
    Malformed,
    /// No record, or no blob, under that identifier.
    NotFound,
}

} // verus!
