//! Choosing the storage that the configuration names.

use vstd::prelude::*;
use crate::common::app_error::AppError;
use crate::common::text::same_text;
use crate::models::printfile_model::FileStorageType;

verus! {

/// The configured name of storage in the local file system.
pub const FILE_STORAGE_TYPE_LOCAL: &'static str = "local";

/// The configured name of storage in an S3 bucket.
pub const FILE_STORAGE_TYPE_S3: &'static str = "s3";

/// The storage that a configured name stands for.
pub open spec fn configured_storage(name: Seq<char>) -> Option<FileStorageType> {
    if name == FILE_STORAGE_TYPE_LOCAL@ {
        Some(FileStorageType::Local)
    } else if name == FILE_STORAGE_TYPE_S3@ {
        Some(FileStorageType::S3)
    } else {
        None
    }
}

/// The storage to use under the given configuration. A name that stands
/// for no storage is an internal error.
pub fn storage_type(configured: &str) -> (storage: Result<FileStorageType, AppError>)
    ensures
        match configured_storage(configured@) {
            Some(kind) => storage == Ok::<FileStorageType, AppError>(kind),
            None => storage == Err::<FileStorageType, AppError>(AppError::InternalServer),
        },
{
    if same_text(configured, FILE_STORAGE_TYPE_LOCAL) {
        Ok(FileStorageType::Local)
    } else if same_text(configured, FILE_STORAGE_TYPE_S3) {
        Ok(FileStorageType::S3)
    } else {
        Err(AppError::InternalServer)
    }
}

} // verus!
