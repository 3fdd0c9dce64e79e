//! Error taxonomy of the storage and boot layer.

use vstd::prelude::*;

verus! {

/// Failure modes of partition and file operations.
///
/// Filesystem-level errors (`NotFound`, `UnsupportedFilesystem`,
/// `CorruptFilesystem`) are local to one partition or operation; the calling
/// boot stage decides whether to retry elsewhere. `PermissionDenied` is always
/// surfaced and never downgraded; `DeviceUnavailable` reports an absent or
/// not-ready medium.
#[derive(Clone, Copy, Debug, PartialEq, Eq, Structural)]
pub enum StorageError {
    /// A partition or file name does not resolve.
    NotFound,
    /// A filesystem hint was given and does not match the probed type.
    UnsupportedFilesystem,
    /// The superblock signature of the partition is invalid.
    CorruptFilesystem,
    /// A write was attempted against a forbidden or read-only device.
    PermissionDenied,
    /// The medium is absent or not ready.
    DeviceUnavailable,
}

impl StorageError {
    /// Short diagnostic name of the error.
    pub fn name(&self) -> (r: &'static str)
        ensures
            r@ == self.spec_name(),
    {
        match self {
            StorageError::NotFound => "not found",
            StorageError::UnsupportedFilesystem => "unsupported filesystem",
            StorageError::CorruptFilesystem => "corrupt filesystem",
            StorageError::PermissionDenied => "permission denied",
            StorageError::DeviceUnavailable => "device unavailable",
        }
    }

    /// The diagnostic name as a sequence of characters.
    pub open spec fn spec_name(&self) -> Seq<char> {
        match self {
            StorageError::NotFound => "not found"@,
            StorageError::UnsupportedFilesystem => "unsupported filesystem"@,
            StorageError::CorruptFilesystem => "corrupt filesystem"@,
            StorageError::PermissionDenied => "permission denied"@,
            StorageError::DeviceUnavailable => "device unavailable"@,
        }
    }
}

} // verus!
