//! Where a stored file lives, by kind of storage.

pub mod local_file_strategy;
pub mod s3_file_strategy;
