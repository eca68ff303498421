//! What the sink asks of S3, and what S3 answers.
use aws_sdk_s3::types::CompletedMultipartUpload;
use vstd::prelude::*;

use crate::location::{LocationView, S3Location};
use crate::multipart::{part_reply_view, parts_listed, ListedPart, PartReceipt, ReceiptView};

verus! {

/// Asks what the destination holds.
#[derive(Debug)]
pub struct HeadObjectRequest {
    pub location: S3Location,
}

/// Starts a multipart upload.
#[derive(Debug)]
pub struct CreateMultipartUploadRequest {
    pub location: S3Location,
    /// The checksum that S3 is to compute, by its S3 name.
    pub checksum_algorithm: String,
    /// A name and a value to record as user metadata of the object.
    pub metadata: Option<(String, String)>,
}

/// [`CreateMultipartUploadRequest`] with its texts as characters.
pub struct CreateView {
    pub location: LocationView,
    pub checksum_algorithm: Seq<char>,
    pub metadata: Option<(Seq<char>, Seq<char>)>,
}

impl View for CreateMultipartUploadRequest {
    type V = CreateView;

    open spec fn view(&self) -> CreateView {
        CreateView {
            location: self.location@,
            checksum_algorithm: self.checksum_algorithm@,
            metadata: match self.metadata {
                Some((name, value)) => Some((name@, value@)),
                None => None,
            },
        }
    }
}

/// Uploads one part.
#[derive(Debug)]
pub struct UploadPartRequest {
    pub location: S3Location,
    pub upload_id: String,
    pub part_number: i32,
    /// The checksum that S3 is to compute, by its S3 name.
    pub checksum_algorithm: String,
    pub body: Vec<u8>,
}

/// [`UploadPartRequest`] with its texts and bytes as sequences.
pub struct UploadPartView {
    pub location: LocationView,
    pub upload_id: Seq<char>,
    pub part_number: i32,
    pub checksum_algorithm: Seq<char>,
    pub body: Seq<u8>,
}

impl View for UploadPartRequest {
    type V = UploadPartView;

    open spec fn view(&self) -> UploadPartView {
        UploadPartView {
            location: self.location@,
            upload_id: self.upload_id@,
            part_number: self.part_number,
            checksum_algorithm: self.checksum_algorithm@,
            body: self.body@,
        }
    }
}

/// Gives up a multipart upload.
#[derive(Debug)]
pub struct AbortMultipartUploadRequest {
    pub location: S3Location,
    pub upload_id: String,
}

/// [`AbortMultipartUploadRequest`] with its texts as characters.
pub struct AbortView {
    pub location: LocationView,
    pub upload_id: Seq<char>,
}

impl View for AbortMultipartUploadRequest {
    type V = AbortView;

    open spec fn view(&self) -> AbortView {
        AbortView { location: self.location@, upload_id: self.upload_id@ }
    }
}

/// Completes a multipart upload out of the parts listed.
#[derive(Debug)]
pub struct CompleteMultipartUploadRequest {
    pub location: S3Location,
    pub upload_id: String,
    pub multipart_upload: CompletedMultipartUpload,
}

/// [`CompleteMultipartUploadRequest`] with its texts as characters and the
/// parts that it lists.
pub struct CompleteView {
    pub location: LocationView,
    pub upload_id: Seq<char>,
    pub parts: Seq<ListedPart>,
}

impl View for CompleteMultipartUploadRequest {
    type V = CompleteView;

    open spec fn view(&self) -> CompleteView {
        CompleteView {
            location: self.location@,
            upload_id: self.upload_id@,
            parts: parts_listed(self.multipart_upload),
        }
    }
}

/// A reply that carries an optional text, with the text as characters.
pub open spec fn text_reply_view<E>(reply: Result<Option<String>, E>) -> Result<
    Option<Seq<char>>,
    E,
> {
    match reply {
        Ok(text) => Ok(text.deep_view()),
        Err(e) => Err(e),
    }
}

/// What drives the writing of one chunk.
#[derive(Debug)]
pub enum WriteEvent<'a, E> {
    /// A chunk has come from the source.
    Chunk(&'a [u8]),
    /// The upload that was asked for on account of `chunk` has been created;
    /// the reply holds its identifier.
    Created { chunk: &'a [u8], reply: Result<Option<String>, E> },
    /// The part that was sent last has been answered.
    PartUploaded(Result<PartReceipt, E>),
}

/// [`WriteEvent`] with its texts and bytes as sequences.
pub enum WriteEventView<E> {
    Chunk(Seq<u8>),
    Created { chunk: Seq<u8>, reply: Result<Option<Seq<char>>, E> },
    PartUploaded(Result<ReceiptView, E>),
}

impl<'a, E> View for WriteEvent<'a, E> {
    type V = WriteEventView<E>;

    open spec fn view(&self) -> WriteEventView<E> {
        match *self {
            WriteEvent::Chunk(chunk) => WriteEventView::Chunk(chunk@),
            WriteEvent::Created { chunk, reply } => WriteEventView::Created {
                chunk: chunk@,
                reply: text_reply_view(reply),
            },
            WriteEvent::PartUploaded(reply) => WriteEventView::PartUploaded(
                part_reply_view(reply),
            ),
        }
    }
}

/// What is to be done next for a chunk.
#[derive(Debug)]
pub enum WriteAction {
    /// Send the request and come back with [`WriteEvent::Created`].
    CreateMultipartUpload(CreateMultipartUploadRequest),
    /// Send the request and come back with [`WriteEvent::PartUploaded`].
    UploadPart(UploadPartRequest),
    /// The chunk has been taken.
    Done,
}

/// [`WriteAction`] with the requests as their views.
pub enum WriteActionView {
    CreateMultipartUpload(CreateView),
    UploadPart(UploadPartView),
    Done,
}

impl View for WriteAction {
    type V = WriteActionView;

    open spec fn view(&self) -> WriteActionView {
        match *self {
            WriteAction::CreateMultipartUpload(r) => WriteActionView::CreateMultipartUpload(r@),
            WriteAction::UploadPart(r) => WriteActionView::UploadPart(r@),
            WriteAction::Done => WriteActionView::Done,
        }
    }
}

/// What drives the end of an upload.
#[derive(Debug)]
pub enum FinalizeEvent<E> {
    /// All chunks have been written.
    Start,
    /// The last part has been answered.
    LastPartUploaded(Result<PartReceipt, E>),
    /// The completion has been answered; the reply holds the CRC-64/NVME
    /// checksum of the object.
    Completed(Result<Option<String>, E>),
}

/// [`FinalizeEvent`] with its texts as characters.
pub enum FinalizeEventView<E> {
    Start,
    LastPartUploaded(Result<ReceiptView, E>),
    Completed(Result<Option<Seq<char>>, E>),
}

impl<E> View for FinalizeEvent<E> {
    type V = FinalizeEventView<E>;

    open spec fn view(&self) -> FinalizeEventView<E> {
        match *self {
            FinalizeEvent::Start => FinalizeEventView::Start,
            FinalizeEvent::LastPartUploaded(reply) => FinalizeEventView::LastPartUploaded(
                part_reply_view(reply),
            ),
            FinalizeEvent::Completed(reply) => FinalizeEventView::Completed(
                text_reply_view(reply),
            ),
        }
    }
}

/// What is to be done next to end an upload.
#[derive(Debug)]
pub enum FinalizeAction {
    /// Send the request and come back with [`FinalizeEvent::LastPartUploaded`].
    UploadPart(UploadPartRequest),
    /// Send the request and come back with [`FinalizeEvent::Completed`].
    CompleteMultipartUpload(CompleteMultipartUploadRequest),
    /// The object is at its location.
    Done(S3Location),
}

/// [`FinalizeAction`] with the requests as their views.
pub enum FinalizeActionView {
    UploadPart(UploadPartView),
    CompleteMultipartUpload(CompleteView),
    Done(LocationView),
}

impl View for FinalizeAction {
    type V = FinalizeActionView;

    open spec fn view(&self) -> FinalizeActionView {
        match *self {
            FinalizeAction::UploadPart(r) => FinalizeActionView::UploadPart(r@),
            FinalizeAction::CompleteMultipartUpload(r) => {
                FinalizeActionView::CompleteMultipartUpload(r@)
            },
            FinalizeAction::Done(location) => FinalizeActionView::Done(location@),
        }
    }
}

} // verus!
