//! The S3 sink as a mathematical state machine.
//!
//! Each step takes a state and an event to the next state and an outcome. The
//! executable sink in [`crate::s3`] is proved to take these steps, and
//! [`crate::laws`] says what follows from them.
use vstd::prelude::*;

use crate::error::FailureView;
use crate::existing::{existing_of, redundant, HeadReplyView};
use crate::location::LocationView;
use crate::multipart::{listing, part_size, received_part, PartView, ReceiptView};
use crate::request::{
    AbortView, CompleteView, CreateView, FinalizeActionView, FinalizeEventView, UploadPartView,
    WriteActionView, WriteEventView,
};
use crate::transfer::{hasher_for, ChecksumView, Hasher};

verus! {

/// An upload in progress.
pub struct UploadView {
    pub upload_id: Seq<char>,
    /// Bytes that were written and not yet cut into a part.
    pub buffer: Seq<u8>,
    pub next_part_number: i32,
    /// Parts that S3 has acknowledged, in order.
    pub parts: Seq<PartView>,
}

/// How far a sink has come.
pub enum Phase {
    /// Constructed, not yet prepared.
    Idle,
    /// Committed to uploading, with no upload created yet.
    Pending,
    Uploading(UploadView),
}

/// What a sink waits for an answer to.
pub enum Asked {
    /// No request is outstanding.
    Nothing,
    /// The creation of an upload, on account of `chunk`.
    Upload { chunk: Seq<u8> },
    /// A part that was cut off the buffer while a chunk was written.
    Part,
    /// The part that ends the upload.
    LastPart,
    /// The completion of the upload.
    Completion,
    /// Nothing any more: the sink has been finalized, with or without success.
    Ended,
}

/// The state of a sink.
pub struct SinkView {
    pub location: LocationView,
    pub part_size: usize,
    pub checksum: Option<ChecksumView>,
    pub phase: Phase,
    pub asked: Asked,
}

/// Whether a sink is being finalized or has been.
pub open spec fn ending(s: SinkView) -> bool {
    s.asked is LastPart || s.asked is Completion || s.asked is Ended
}

/// A sink that differs only in what it waits for.
pub open spec fn with_asked(s: SinkView, asked: Asked) -> SinkView {
    SinkView { asked, ..s }
}

/// What a sink answers before the first byte, with the location as its view.
pub enum PreparedView {
    Skip { location: LocationView },
    Resume { received: u64, partial: Option<Hasher> },
}

/// What a sink says of a zero-byte file that is not there yet.
pub open spec fn zero_byte_refusal(name: Seq<char>) -> Seq<char> {
    "refusing to upload zero-byte file "@ + name + " via multipart"@
}

/// A sink is prepared for a file once HeadObject has been answered. An existing
/// object that matches is left alone, even if it is empty; else an empty file
/// is refused, and any other commits the sink to an upload from byte 0.
pub open spec fn prepare_step<E>(
    s: SinkView,
    name: Seq<char>,
    size: u64,
    checksum: Option<ChecksumView>,
    reply: HeadReplyView<E>,
) -> (SinkView, Result<PreparedView, FailureView<E>>) {
    match existing_of(reply, checksum) {
        Err(failure) => (s, Err(failure)),
        Ok(existing) => if redundant(checksum, size, existing) {
            (s, Ok(PreparedView::Skip { location: s.location }))
        } else if size == 0 {
            (s, Err(FailureView::Message(zero_byte_refusal(name))))
        } else {
            (
                SinkView {
                    part_size: part_size(size as nat) as usize,
                    checksum,
                    phase: Phase::Pending,
                    asked: Asked::Nothing,
                    ..s
                },
                Ok(PreparedView::Resume { received: 0, partial: hasher_for(checksum) }),
            )
        },
    }
}

/// The request that starts the upload. It asks for CRC-64/NVME, and records the
/// expected checksum, where there is one, under the name of its algorithm.
pub open spec fn create_request(s: SinkView) -> CreateView {
    CreateView {
        location: s.location,
        checksum_algorithm: "CRC64NVME"@,
        metadata: match s.checksum {
            Some(c) => Some((c.algorithm.spec_name(), c.hex)),
            None => None,
        },
    }
}

/// The identifier that the reply to [`create_request`] holds, or the failure
/// that its absence is.
pub open spec fn created_id<E>(reply: Result<Option<Seq<char>>, E>) -> Result<
    Seq<char>,
    FailureView<E>,
> {
    match reply {
        Ok(Some(id)) => Ok(id),
        Ok(None) => Err(FailureView::Message("create_multipart_upload returned no upload_id"@)),
        Err(e) => Err(FailureView::Sdk(e)),
    }
}

/// The request that uploads `body` as the next part.
pub open spec fn part_request(s: SinkView, u: UploadView, body: Seq<u8>) -> UploadPartView {
    UploadPartView {
        location: s.location,
        upload_id: u.upload_id,
        part_number: u.next_part_number,
        checksum_algorithm: "CRC64NVME"@,
        body,
    }
}

/// A sink with its upload replaced, and what it waits for.
pub open spec fn with_upload(s: SinkView, u: UploadView, asked: Asked) -> SinkView {
    SinkView { phase: Phase::Uploading(u), asked, ..s }
}

/// Cuts the next part off the buffer and asks for it to be sent, if the buffer
/// holds a whole one.
pub open spec fn cut_step(s: SinkView, u: UploadView) -> (SinkView, WriteActionView) {
    if u.buffer.len() >= s.part_size {
        (
            with_upload(
                s,
                UploadView { buffer: u.buffer.skip(s.part_size as int), ..u },
                Asked::Part,
            ),
            WriteActionView::UploadPart(part_request(s, u, u.buffer.take(s.part_size as int))),
        )
    } else {
        (with_upload(s, u, Asked::Nothing), WriteActionView::Done)
    }
}

/// An upload with the acknowledged part added.
pub open spec fn acknowledge(u: UploadView, receipt: ReceiptView) -> UploadView {
    UploadView {
        next_part_number: (u.next_part_number + 1) as i32,
        parts: u.parts.push(received_part(u.next_part_number, receipt)),
        ..u
    }
}

/// When an event may come while a chunk is written. A chunk may come once the
/// sink is prepared and until it is finalized, also after a request that was
/// never answered; a reply may come only to the request that is outstanding.
pub open spec fn write_ready<E>(s: SinkView, event: WriteEventView<E>) -> bool {
    match event {
        WriteEventView::Chunk(_) => !(s.phase is Idle) && !ending(s),
        WriteEventView::Created { chunk, .. } => s.phase is Pending && s.asked
            == (Asked::Upload { chunk }),
        WriteEventView::PartUploaded(reply) => s.asked is Part && match s.phase {
            Phase::Uploading(u) => reply is Ok ==> u.next_part_number < i32::MAX,
            _ => false,
        },
    }
}

/// A chunk is written. The first one asks for an upload to be created; after
/// that a chunk goes into the buffer, and whole parts are cut off the buffer
/// and sent until less than a part is left. A failed request leaves everything
/// as it was when the request was made, but is no longer outstanding.
pub open spec fn write_step<E>(s: SinkView, event: WriteEventView<E>) -> (
    SinkView,
    Result<WriteActionView, FailureView<E>>,
) {
    match (event, s.phase) {
        (WriteEventView::Chunk(chunk), Phase::Pending) => (
            with_asked(s, Asked::Upload { chunk }),
            Ok(WriteActionView::CreateMultipartUpload(create_request(s))),
        ),
        (WriteEventView::Chunk(chunk), Phase::Uploading(u)) => {
            let (next, action) = cut_step(s, UploadView { buffer: u.buffer + chunk, ..u });
            (next, Ok(action))
        },
        (WriteEventView::Created { chunk, reply }, Phase::Pending) => match created_id(reply) {
            Ok(upload_id) => {
                let fresh = UploadView {
                    upload_id,
                    buffer: chunk,
                    next_part_number: 1,
                    parts: Seq::empty(),
                };
                let (next, action) = cut_step(s, fresh);
                (next, Ok(action))
            },
            Err(failure) => (with_asked(s, Asked::Nothing), Err(failure)),
        },
        (WriteEventView::PartUploaded(Ok(receipt)), Phase::Uploading(u)) => {
            let (next, action) = cut_step(s, acknowledge(u, receipt));
            (next, Ok(action))
        },
        (WriteEventView::PartUploaded(Err(e)), _) => (
            with_asked(s, Asked::Nothing),
            Err(FailureView::Sdk(e)),
        ),
        _ => (s, Ok(WriteActionView::Done)),
    }
}

/// A sink starts over. An upload in progress is to be aborted, and nothing of
/// it is kept.
pub open spec fn restart_step(s: SinkView) -> (SinkView, Option<AbortView>) {
    (
        SinkView { phase: Phase::Pending, asked: Asked::Nothing, ..s },
        match s.phase {
            Phase::Uploading(u) => Some(
                AbortView { location: s.location, upload_id: u.upload_id },
            ),
            _ => None,
        },
    )
}

/// What a sink says when it is to complete an upload that has no parts.
pub open spec fn no_parts_refusal() -> Seq<char> {
    "finalize called with no parts uploaded"@
}

/// Asks for the upload to be completed, or refuses to complete an empty one.
pub open spec fn complete_step<E>(s: SinkView, u: UploadView) -> (
    SinkView,
    Result<FinalizeActionView, FailureView<E>>,
) {
    if u.parts.len() == 0 {
        (
            with_upload(s, u, Asked::Ended),
            Err(FailureView::Message(no_parts_refusal())),
        )
    } else {
        (
            with_upload(s, u, Asked::Completion),
            Ok(
                FinalizeActionView::CompleteMultipartUpload(
                    CompleteView {
                        location: s.location,
                        upload_id: u.upload_id,
                        parts: u.parts.map_values(|p: PartView| listing(p)),
                    },
                ),
            ),
        )
    }
}

/// When an event may come while an upload is ended. A sink that was never
/// prepared is not finalized, and none is finalized twice; a reply may come only
/// to the request that is outstanding.
pub open spec fn finalize_ready<E>(s: SinkView, event: FinalizeEventView<E>) -> bool {
    match event {
        FinalizeEventView::Start => !(s.phase is Idle) && !ending(s),
        FinalizeEventView::LastPartUploaded(_) => s.asked is LastPart && s.phase is Uploading,
        FinalizeEventView::Completed(_) => s.asked is Completion && match s.phase {
            Phase::Uploading(u) => u.parts.len() > 0,
            _ => false,
        },
    }
}

/// What a sink says of a completion that reports no checksum.
pub open spec fn no_crc_refusal() -> Seq<char> {
    "complete_multipart_upload returned no crc64nvme"@
}

/// An upload is ended. What is left in the buffer goes out as the last part;
/// then the upload is completed, and the object counts as stored only if S3
/// reports a CRC-64/NVME checksum of it.
pub open spec fn finalize_step<E>(s: SinkView, event: FinalizeEventView<E>) -> (
    SinkView,
    Result<FinalizeActionView, FailureView<E>>,
) {
    match (event, s.phase) {
        (FinalizeEventView::Start, Phase::Uploading(u)) => if u.buffer.len() > 0 {
            (
                with_upload(s, UploadView { buffer: Seq::empty(), ..u }, Asked::LastPart),
                Ok(FinalizeActionView::UploadPart(part_request(s, u, u.buffer))),
            )
        } else {
            complete_step(s, u)
        },
        (FinalizeEventView::LastPartUploaded(Ok(receipt)), Phase::Uploading(u)) => complete_step(
            s,
            UploadView {
                parts: u.parts.push(received_part(u.next_part_number, receipt)),
                ..u
            },
        ),
        (FinalizeEventView::LastPartUploaded(Err(e)), _) => (
            with_asked(s, Asked::Ended),
            Err(FailureView::Sdk(e)),
        ),
        (FinalizeEventView::Completed(Ok(crc)), _) => (
            with_asked(s, Asked::Ended),
            if crc matches Some(text) && text.len() > 0 {
                Ok(FinalizeActionView::Done(s.location))
            } else {
                Err(FailureView::Message(no_crc_refusal()))
            },
        ),
        (FinalizeEventView::Completed(Err(e)), _) => (
            with_asked(s, Asked::Ended),
            Err(FailureView::Sdk(e)),
        ),
        _ => (with_asked(s, Asked::Ended), Err(FailureView::Message(no_parts_refusal()))),
    }
}

} // verus!
