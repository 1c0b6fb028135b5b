//! Files kept in a directory tree: one directory per user under a base
//! directory.

use vstd::prelude::*;
use crate::common::text::{join, joined};

verus! {

/// Storage in the local file system.
#[derive(Clone, Copy, Debug, PartialEq, Eq, Structural)]
pub struct LocalFileStrategy {}

impl LocalFileStrategy {
    /// The directory that holds a user's files.
    pub fn directory(&self, base_directory: &str, user_uuid: &str) -> (directory: String)
        ensures
            directory@ == joined(base_directory@, user_uuid@),
    {
        join(base_directory, user_uuid)
    }

    /// The path a user's file is written to.
    pub fn file_path(&self, base_directory: &str, user_uuid: &str, filename: &str) -> (path: String)
        ensures
            path@ == joined(joined(base_directory@, user_uuid@), filename@),
    {
        let directory = self.directory(base_directory, user_uuid);
        join(directory.as_str(), filename)
    }

    /// The path a stored file is read from.
    pub fn stored_path(&self, base_directory: &str, filepath: &str) -> (path: String)
        ensures
            path@ == joined(base_directory@, filepath@),
    {
        join(base_directory, filepath)
    }
}

} // verus!
