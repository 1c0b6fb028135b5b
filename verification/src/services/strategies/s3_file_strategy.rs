//! Files kept in a bucket: one key prefix per user.

use vstd::prelude::*;
use crate::common::text::{join, joined};

verus! {

/// The region every bucket is addressed in.
pub const BUCKET_REGION: &'static str = "eu-central-1";

/// Storage in an S3 bucket.
#[derive(Clone, Copy, Debug, PartialEq, Eq, Structural)]
pub struct S3FileStrategy {}

impl S3FileStrategy {
    /// The key a user's file is put under.
    pub fn object_key(&self, user_uuid: &str, filename: &str) -> (key: String)
        ensures
            key@ == joined(user_uuid@, filename@),
    {
        join(user_uuid, filename)
    }
}

} // verus!
