//! Screening a candidate image by its file system metadata.

use vstd::prelude::*;

verus! {

/// Bytes in one MiB.
pub const MIB_FACTOR: u64 = 1_048_576;

/// Largest image accepted, 150 MiB.
pub const MAX_FILE_SIZE: u64 = 150 * MIB_FACTOR;

/// What the file system reports of an opened image.
#[derive(Clone, Copy, Debug, PartialEq, Eq, Structural)]
pub struct FileMetadata {
    /// The entry is a regular file.
    pub is_file: bool,
    /// Its size in bytes.
    pub len: u64,
}

/// Various errors which can cause a file to fail validation.
#[derive(Clone, Copy, Debug, PartialEq, Eq, Structural)]
pub enum ValidationError {
    /// The file's metadata could not be read.
    Metadata,
    /// The file exceeds the maximum size (150 MiB).
    FileTooLarge,
    /// The entry is a directory, a device or another non-regular file.
    NotRegularFile,
}

impl ValidationError {
    /// The sentence shown for this failure.
    pub fn message(&self) -> (r: &'static str)
        ensures
            *self == ValidationError::Metadata ==> r@ == "Failed to read file metadata."@,
            *self == ValidationError::FileTooLarge ==> r@
                == "File exceeds maximum size (150 MiB)."@,
            *self == ValidationError::NotRegularFile ==> r@
                == "Selection must be a regular file."@,
    {
        match self {
            ValidationError::Metadata => "Failed to read file metadata.",
            ValidationError::FileTooLarge => "File exceeds maximum size (150 MiB).",
            ValidationError::NotRegularFile => "Selection must be a regular file.",
        }
    }
}

/// The outcome of screening a file with the given metadata; `None` stands
/// for metadata that could not be read. The checks run in order: readable
/// metadata, a regular file, at most 150 MiB.
pub open spec fn validation_outcome(metadata: Option<FileMetadata>) -> Result<(), ValidationError> {
    match metadata {
        None => Err(ValidationError::Metadata),
        Some(m) => if !m.is_file {
            Err(ValidationError::NotRegularFile)
        } else if m.len > MAX_FILE_SIZE {
            Err(ValidationError::FileTooLarge)
        } else {
            Ok(())
        },
    }
}

/// Returns `Ok(())` where a file with this metadata may be parsed, else the
/// first check that it fails.
pub fn validate_file(metadata: Option<FileMetadata>) -> (r: Result<(), ValidationError>)
    ensures
        r == validation_outcome(metadata),
{
    let file_info = match metadata {
        Some(m) => m,
        None => {
            return Err(ValidationError::Metadata);
        },
    };
    if !file_info.is_file {
        return Err(ValidationError::NotRegularFile);
    }
    if file_info.len > MAX_FILE_SIZE {
        return Err(ValidationError::FileTooLarge);
    }
    Ok(())
}

} // verus!
