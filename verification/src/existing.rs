//! What a destination already holds, and whether that makes an upload redundant.
use vstd::prelude::*;

use crate::error::{Error, FailureView, S3Failure};
use crate::metadata::Metadata;
use crate::transfer::{checksum_view, Checksum, ChecksumView};

verus! {

/// What HeadObject reports of an object: its user metadata and its length.
#[derive(Debug)]
pub struct ObjectHead {
    pub metadata: Option<Metadata>,
    pub content_length: Option<i64>,
}

/// A reported object, with its metadata as a map.
pub struct HeadView {
    pub metadata: Option<Map<Seq<char>, Seq<char>>>,
    pub content_length: Option<i64>,
}

impl View for ObjectHead {
    type V = HeadView;

    open spec fn view(&self) -> HeadView {
        HeadView {
            metadata: match self.metadata {
                Some(m) => Some(m@),
                None => None,
            },
            content_length: self.content_length,
        }
    }
}

/// The reply to a HeadObject request. A missing object is a reply of its own;
/// everything else that goes wrong is a failure.
#[derive(Debug)]
pub enum HeadReply<E> {
    Found(ObjectHead),
    NotFound,
    Failed(E),
}

/// A reply to a HeadObject request, with the object as its view.
pub enum HeadReplyView<E> {
    Found(HeadView),
    NotFound,
    Failed(E),
}

impl<E> View for HeadReply<E> {
    type V = HeadReplyView<E>;

    open spec fn view(&self) -> HeadReplyView<E> {
        match *self {
            HeadReply::Found(head) => HeadReplyView::Found(head@),
            HeadReply::NotFound => HeadReplyView::NotFound,
            HeadReply::Failed(e) => HeadReplyView::Failed(e),
        }
    }
}

/// What the skip decision needs to know of an object at the destination.
#[derive(Debug)]
pub struct ExistingObject {
    /// Stored checksum of the same algorithm as the expected one, if the
    /// object carried that metadata key. `None` when no checksum was expected
    /// or the key was absent.
    pub checksum: Option<Checksum>,
    pub size: u64,
}

/// An existing object with its checksum as a view.
pub struct ExistingView {
    pub checksum: Option<ChecksumView>,
    pub size: u64,
}

impl View for ExistingObject {
    type V = ExistingView;

    open spec fn view(&self) -> ExistingView {
        ExistingView {
            checksum: match self.checksum {
                Some(c) => Some(c@),
                None => None,
            },
            size: self.size,
        }
    }
}

/// An optional existing object, seen through its view.
pub open spec fn existing_view(existing: Option<&ExistingObject>) -> Option<ExistingView> {
    match existing {
        Some(object) => Some(object@),
        None => None,
    }
}

/// An object that was found, if there is one, seen through its view.
pub open spec fn found_view(found: Option<ExistingObject>) -> Option<ExistingView> {
    match found {
        Some(object) => Some(object@),
        None => None,
    }
}

/// The checksum that an object's metadata records under the algorithm of the
/// expected one.
pub open spec fn recorded_checksum(
    metadata: Option<Map<Seq<char>, Seq<char>>>,
    expected: Option<ChecksumView>,
) -> Option<ChecksumView> {
    match (metadata, expected) {
        (Some(m), Some(e)) => if m.contains_key(e.algorithm.spec_name()) {
            Some(ChecksumView { algorithm: e.algorithm, hex: m[e.algorithm.spec_name()] })
        } else {
            None
        },
        _ => None,
    }
}

/// A reported length as a size: nothing where it is absent or negative.
pub open spec fn reported_size(content_length: Option<i64>) -> u64 {
    match content_length {
        Some(n) => if n > 0 {
            n as u64
        } else {
            0
        },
        None => 0,
    }
}

/// What the skip decision takes from a reported object.
pub open spec fn existing_object(
    head: HeadView,
    expected: Option<ChecksumView>,
) -> ExistingView {
    ExistingView {
        checksum: recorded_checksum(head.metadata, expected),
        size: reported_size(head.content_length),
    }
}

/// The object that a HeadObject reply speaks of: none where it was not found,
/// an S3 error where the request failed.
pub open spec fn existing_of<E>(
    reply: HeadReplyView<E>,
    expected: Option<ChecksumView>,
) -> Result<Option<ExistingView>, FailureView<E>> {
    match reply {
        HeadReplyView::Found(head) => Ok(Some(existing_object(head, expected))),
        HeadReplyView::NotFound => Ok(None),
        HeadReplyView::Failed(e) => Err(FailureView::Sdk(e)),
    }
}

/// Reads a HeadObject reply: the object at the destination, if there is one.
pub fn head_existing<E>(reply: HeadReply<E>, expected: Option<&Checksum>) -> (r: Result<
    Option<ExistingObject>,
    Error<E>,
>)
    ensures
        match existing_of(reply@, checksum_view(expected)) {
            Ok(existing) => r matches Ok(found) && found_view(found) == existing,
            Err(failure) => r matches Err(e) && e.s3_failure() == Some(failure),
        },
{
    match reply {
        HeadReply::Found(head) => {
            let checksum: Option<Checksum> = match (expected, head.metadata) {
                (Some(exp), Some(metadata)) => match metadata.get(exp.algorithm()) {
                    Some(value) => Some(exp.with_value(value.clone())),
                    None => None,
                },
                _ => None,
            };
            let size: u64 = match head.content_length {
                Some(n) => if n > 0 {
                    n as u64
                } else {
                    0
                },
                None => 0,
            };
            Ok(Some(ExistingObject { checksum, size }))
        },
        HeadReply::NotFound => Ok(None),
        HeadReply::Failed(e) => Err(Error::S3(S3Failure::Sdk(e))),
    }
}

/// Whether an existing object makes the upload redundant: by digest where both
/// sides have one, else by size.
pub open spec fn redundant(
    expected: Option<ChecksumView>,
    size: u64,
    existing: Option<ExistingView>,
) -> bool {
    match existing {
        Some(object) => match (expected, object.checksum) {
            (Some(wanted), Some(stored)) => stored.hex == wanted.hex,
            _ => object.size == size,
        },
        None => false,
    }
}

/// Whether the upload of a file can be skipped for what is already there.
pub fn should_skip(
    expected: Option<&Checksum>,
    size: u64,
    existing: Option<&ExistingObject>,
) -> (r: bool)
    ensures
        r == redundant(checksum_view(expected), size, existing_view(existing)),
{
    match (expected, existing) {
        (Some(expected), Some(object)) => match &object.checksum {
            Some(stored) => stored.same_hex(expected),
            None => object.size == size,
        },
        (None, Some(object)) => object.size == size,
        _ => false,
    }
}

} // verus!
