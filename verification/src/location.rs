//! Where an object lies in S3.
use vstd::prelude::*;

use crate::text::join;

verus! {

/// Identifier for an object in S3.
#[derive(Debug)]
pub struct S3Location {
    pub bucket: String,
    pub key: String,
}

/// A location as characters.
pub struct LocationView {
    pub bucket: Seq<char>,
    pub key: Seq<char>,
}

impl View for S3Location {
    type V = LocationView;

    open spec fn view(&self) -> LocationView {
        LocationView { bucket: self.bucket@, key: self.key@ }
    }
}

impl Clone for S3Location {
    fn clone(&self) -> (r: Self)
        ensures
            r == *self,
    {
        S3Location { bucket: self.bucket.clone(), key: self.key.clone() }
    }
}

impl S3Location {
    /// The location as a URL.
    pub fn fmt_location(&self) -> (r: String)
        ensures
            r@ == "s3://"@ + self@.bucket + "/"@ + self@.key,
    {
        let mut out = join("s3://", self.bucket.as_str());
        out.append("/");
        out.append(self.key.as_str());
        out
    }
}

} // verus!
