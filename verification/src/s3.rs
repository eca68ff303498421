//! The S3 multipart-upload sink.
//!
//! The sink holds no client. It turns what happened into what is to be done:
//! a chunk or a reply goes in, the next request or the result comes out, and
//! the caller does the sending.
//!
//! # Checksum contract
//!
//! Every multipart upload asks S3 for **crc64nvme**, and one whose completion
//! reports none has failed. When a [`Checksum`] is expected, it is recorded on
//! the object as user metadata, keyed by algorithm, so that later runs can
//! compare it.
//!
//! # Skip rules
//!
//! - checksum expected, object has metadata of that algorithm: skip when equal.
//! - checksum expected, object lacks that metadata: skip when the sizes match.
//! - no checksum expected: skip when the sizes match.
//!
//! # Aborted multipart uploads
//!
//! The upload is created with the first chunk, so a source that fails before
//! any bytes arrive leaves nothing on S3. An upload that is interrupted after
//! that is aborted by [`S3Sink::restart`] alone; a lifecycle rule on the bucket
//! has to collect the others.
use vstd::prelude::*;

use crate::error::{Error, S3Failure};
use crate::existing::{head_existing, should_skip, HeadReply};
use crate::location::{LocationView, S3Location};
use crate::model::{
    complete_step, create_request, created_id, cut_step, finalize_ready, finalize_step, prepare_step,
    restart_step, write_ready, write_step, Asked, Phase, PreparedView, SinkView, UploadView,
};
use crate::multipart::{
    crc64nvme, list_parts, part_size_for, part_views, upload_part, CompletedPart, MIN_PART_SIZE,
};
use crate::request::{
    text_reply_view, AbortMultipartUploadRequest, CompleteMultipartUploadRequest,
    CreateMultipartUploadRequest, FinalizeAction, FinalizeEvent, HeadObjectRequest,
    UploadPartRequest, WriteAction, WriteEvent,
};
use crate::text::join;
use crate::transfer::{checksum_view, Checksum, Hasher, Prepared, Target};

verus! {

/// Uploads each file to `bucket` under `{prefix}{name}`.
#[derive(Debug)]
pub struct S3Dest {
    pub bucket: String,
    pub prefix: Option<String>,
}

/// Where a destination puts a file of the given name.
pub open spec fn destination(
    bucket: Seq<char>,
    prefix: Option<Seq<char>>,
    name: Seq<char>,
) -> LocationView {
    LocationView {
        bucket,
        key: match prefix {
            Some(p) => p + name,
            None => name,
        },
    }
}

impl S3Dest {
    /// A fresh sink for one file.
    pub fn make(&self, target: Target<'_>) -> (r: S3Sink)
        ensures
            r@ == idle_sink(destination(self.bucket@, self.prefix.deep_view(), target.name@)),
    {
        let key = match &self.prefix {
            Some(p) => join(p.as_str(), target.name),
            None => target.name.to_owned(),
        };
        S3Sink::new(S3Location { bucket: self.bucket.clone(), key })
    }
}

enum SinkState {
    /// Constructed, not yet prepared.
    Idle,
    /// Prepared and committed to uploading, but no multipart upload has been
    /// created yet.
    Pending,
    Uploading {
        upload_id: String,
        buffer: Vec<u8>,
        next_part_number: i32,
        parts: Vec<CompletedPart>,
    },
}

impl View for SinkState {
    type V = Phase;

    closed spec fn view(&self) -> Phase {
        match *self {
            SinkState::Idle => Phase::Idle,
            SinkState::Pending => Phase::Pending,
            SinkState::Uploading { upload_id, buffer, next_part_number, parts } => Phase::Uploading(
                UploadView {
                    upload_id: upload_id@,
                    buffer: buffer@,
                    next_part_number,
                    parts: part_views(parts@),
                },
            ),
        }
    }
}

/// The sink of one file.
pub struct S3Sink {
    target: S3Location,
    part_size: usize,
    checksum: Option<Checksum>,
    state: SinkState,
    /// The request that is outstanding.
    asked: Ghost<Asked>,
}

impl View for S3Sink {
    type V = SinkView;

    closed spec fn view(&self) -> SinkView {
        SinkView {
            location: self.target@,
            part_size: self.part_size,
            checksum: match self.checksum {
                Some(c) => Some(c@),
                None => None,
            },
            phase: self.state@,
            asked: self.asked@,
        }
    }
}

/// A sink that has not been prepared.
pub open spec fn idle_sink(location: LocationView) -> SinkView {
    SinkView {
        location,
        part_size: MIN_PART_SIZE,
        checksum: None,
        phase: Phase::Idle,
        asked: Asked::Nothing,
    }
}

/// [`Prepared`] with the location as its view.
pub open spec fn prepared_view(p: Prepared<S3Location>) -> PreparedView {
    match p {
        Prepared::Skip { location } => PreparedView::Skip { location: location@ },
        Prepared::Resume { received, partial } => PreparedView::Resume { received, partial },
    }
}

impl S3Sink {
    /// A sink for the object at `target`.
    pub fn new(target: S3Location) -> (r: Self)
        ensures
            r@ == idle_sink(target@),
    {
        S3Sink {
            target,
            part_size: MIN_PART_SIZE,
            checksum: None,
            state: SinkState::Idle,
            asked: Ghost(Asked::Nothing),
        }
    }

    /// Whether the sink has yet to be prepared.
    pub fn is_idle(&self) -> (r: bool)
        ensures
            r == (self@.phase is Idle),
    {
        match self.state {
            SinkState::Idle => true,
            _ => false,
        }
    }

    /// The request to send before [`S3Sink::prepare`].
    pub fn head_request(&self) -> (r: HeadObjectRequest)
        ensures
            r.location@ == self@.location,
    {
        HeadObjectRequest { location: self.target.clone() }
    }

    /// Prepares the sink for a file, given the reply to
    /// [`S3Sink::head_request`].
    pub fn prepare<E>(&mut self, target: Target<'_>, reply: HeadReply<E>) -> (r: Result<
        Prepared<S3Location>,
        Error<E>,
    >)
        ensures
            ({
                let (next, outcome) = prepare_step(
                    old(self)@,
                    target.name@,
                    target.size,
                    checksum_view(target.checksum),
                    reply@,
                );
                &&& final(self)@ == next
                &&& match outcome {
                    Ok(p) => r matches Ok(prepared) && prepared_view(prepared) == p,
                    Err(failure) => r matches Err(e) && e.s3_failure() == Some(failure),
                }
            }),
    {
        let existing = match head_existing(reply, target.checksum) {
            Ok(existing) => existing,
            Err(e) => {
                return Err(e);
            },
        };
        if should_skip(target.checksum, target.size, existing.as_ref()) {
            return Ok(Prepared::Skip { location: self.target.clone() });
        }
        // Zero-byte files are refused only after the skip check, so that an
        // existing zero-byte object that already matches can still be skipped.
        if target.size == 0 {
            let mut message = join("refusing to upload zero-byte file ", target.name);
            message.append(" via multipart");
            return Err(Error::S3(S3Failure::Message(message)));
        }
        self.part_size = part_size_for(target.size);
        self.checksum = match target.checksum {
            Some(c) => Some(c.clone()),
            None => None,
        };
        self.state = SinkState::Pending;
        self.asked = Ghost(Asked::Nothing);
        Ok(Prepared::Resume { received: 0, partial: Hasher::for_checksum(target.checksum) })
    }

    /// The request that creates the upload.
    fn create_multipart_upload(&self) -> (r: CreateMultipartUploadRequest)
        ensures
            r@ == create_request(self@),
    {
        CreateMultipartUploadRequest {
            location: self.target.clone(),
            checksum_algorithm: crc64nvme(),
            metadata: match &self.checksum {
                Some(c) => Some((c.algorithm().to_owned(), c.hex().to_owned())),
                None => None,
            },
        }
    }

    /// Cuts the next part off the buffer, if the buffer holds a whole one.
    fn cut_part(&mut self) -> (r: WriteAction)
        requires
            old(self)@.phase is Uploading,
        ensures
            (final(self)@, r@) == cut_step(old(self)@, old(self)@.phase->Uploading_0),
    {
        match &mut self.state {
            SinkState::Uploading { upload_id, buffer, next_part_number, .. } => {
                if buffer.len() < self.part_size {
                    self.asked = Ghost(Asked::Nothing);
                    return WriteAction::Done;
                }
                let mut body = buffer.split_off(self.part_size);
                std::mem::swap(buffer, &mut body);
                self.asked = Ghost(Asked::Part);
                WriteAction::UploadPart(
                    UploadPartRequest {
                        location: self.target.clone(),
                        upload_id: upload_id.clone(),
                        part_number: *next_part_number,
                        checksum_algorithm: crc64nvme(),
                        body,
                    },
                )
            },
            _ => WriteAction::Done,
        }
    }

    /// Takes one step of writing a chunk.
    ///
    /// A chunk comes in as [`WriteEvent::Chunk`]; each action but
    /// [`WriteAction::Done`] is to be carried out and answered by the event
    /// that it names.
    pub fn write_chunk<E>(&mut self, event: WriteEvent<'_, E>) -> (r: Result<WriteAction, Error<E>>)
        requires
            write_ready(old(self)@, event@),
        ensures
            ({
                let (next, outcome) = write_step(old(self)@, event@);
                &&& final(self)@ == next
                &&& match outcome {
                    Ok(a) => r matches Ok(action) && action@ == a,
                    Err(failure) => r matches Err(e) && e.s3_failure() == Some(failure),
                }
            }),
    {
        match event {
            WriteEvent::Chunk(chunk) => {
                match &mut self.state {
                    SinkState::Uploading { buffer, .. } => {
                        buffer.extend_from_slice(chunk);
                        assert(buffer@ =~= old(self)@.phase->Uploading_0.buffer + chunk@);
                    },
                    _ => {
                        self.asked = Ghost(Asked::Upload { chunk: chunk@ });
                        return Ok(WriteAction::CreateMultipartUpload(self.create_multipart_upload()));
                    },
                }
            },
            WriteEvent::Created { chunk, reply } => {
                let upload_id = match upload_id_of(reply) {
                    Ok(upload_id) => upload_id,
                    Err(e) => {
                        self.asked = Ghost(Asked::Nothing);
                        return Err(e);
                    },
                };
                let mut buffer: Vec<u8> = Vec::with_capacity(self.part_size);
                buffer.extend_from_slice(chunk);
                assert(buffer@ =~= chunk@);
                self.state = SinkState::Uploading {
                    upload_id,
                    buffer,
                    next_part_number: 1,
                    parts: Vec::new(),
                };
                assert(self@.phase->Uploading_0.parts =~= Seq::empty());
            },
            WriteEvent::PartUploaded(reply) => {
                match &mut self.state {
                    SinkState::Uploading { next_part_number, parts, .. } => {
                        let part = match upload_part(*next_part_number, reply) {
                            Ok(part) => part,
                            Err(e) => {
                                self.asked = Ghost(Asked::Nothing);
                                return Err(e);
                            },
                        };
                        let ghost before = parts@;
                        parts.push(part);
                        *next_part_number = *next_part_number + 1;
                        assert(part_views(parts@) =~= part_views(before).push(part@));
                    },
                    _ => {},
                }
            },
        }
        Ok(self.cut_part())
    }

    /// Starts over, for a source that cannot be resumed. An upload in progress
    /// is dropped; the request returned aborts it, and how that goes does not
    /// matter.
    pub fn restart(&mut self) -> (r: Option<AbortMultipartUploadRequest>)
        ensures
            ({
                let (next, request) = restart_step(old(self)@);
                &&& final(self)@ == next
                &&& match request {
                    Some(a) => r matches Some(abort) && abort@ == a,
                    None => r is None,
                }
            }),
    {
        let abort = match &self.state {
            SinkState::Uploading { upload_id, .. } => Some(
                AbortMultipartUploadRequest {
                    location: self.target.clone(),
                    upload_id: upload_id.clone(),
                },
            ),
            _ => None,
        };
        self.state = SinkState::Pending;
        self.asked = Ghost(Asked::Nothing);
        abort
    }

    /// Asks for the upload to be completed, or refuses to complete an empty one.
    fn complete<E>(&mut self) -> (r: Result<FinalizeAction, Error<E>>)
        requires
            old(self)@.phase is Uploading,
        ensures
            ({
                let (next, outcome) = complete_step::<E>(
                    old(self)@,
                    old(self)@.phase->Uploading_0,
                );
                &&& final(self)@ == next
                &&& match outcome {
                    Ok(a) => r matches Ok(action) && action@ == a,
                    Err(failure) => r matches Err(e) && e.s3_failure() == Some(failure),
                }
            }),
    {
        match &self.state {
            SinkState::Uploading { upload_id, parts, .. } if parts.len() > 0 => {
                self.asked = Ghost(Asked::Completion);
                Ok(
                    FinalizeAction::CompleteMultipartUpload(
                        CompleteMultipartUploadRequest {
                            location: self.target.clone(),
                            upload_id: upload_id.clone(),
                            multipart_upload: list_parts(parts),
                        },
                    ),
                )
            },
            _ => {
                self.asked = Ghost(Asked::Ended);
                Err(Error::s3_message("finalize called with no parts uploaded"))
            },
        }
    }

    /// Takes one step of ending the upload.
    ///
    /// It begins with [`FinalizeEvent::Start`]; each action but
    /// [`FinalizeAction::Done`] is to be carried out and answered by the event
    /// that it names. After an error or [`FinalizeAction::Done`] the sink takes
    /// no further chunk.
    pub fn finalize<E>(&mut self, event: FinalizeEvent<E>) -> (r: Result<FinalizeAction, Error<E>>)
        requires
            finalize_ready(old(self)@, event@),
        ensures
            ({
                let (next, outcome) = finalize_step(old(self)@, event@);
                &&& final(self)@ == next
                &&& match outcome {
                    Ok(a) => r matches Ok(action) && action@ == a,
                    Err(failure) => r matches Err(e) && e.s3_failure() == Some(failure),
                }
            }),
    {
        match event {
            FinalizeEvent::Start => {
                match &mut self.state {
                    SinkState::Uploading { upload_id, buffer, next_part_number, .. } => {
                        if buffer.len() > 0 {
                            let mut body: Vec<u8> = Vec::new();
                            std::mem::swap(buffer, &mut body);
                            self.asked = Ghost(Asked::LastPart);
                            assert(buffer@ =~= Seq::empty());
                            return Ok(
                                FinalizeAction::UploadPart(
                                    UploadPartRequest {
                                        location: self.target.clone(),
                                        upload_id: upload_id.clone(),
                                        part_number: *next_part_number,
                                        checksum_algorithm: crc64nvme(),
                                        body,
                                    },
                                ),
                            );
                        }
                    },
                    _ => {
                        self.asked = Ghost(Asked::Ended);
                        return Err(Error::s3_message("finalize called with no parts uploaded"));
                    },
                }
                self.complete()
            },
            FinalizeEvent::LastPartUploaded(reply) => {
                match &mut self.state {
                    SinkState::Uploading { next_part_number, parts, .. } => {
                        let part = match upload_part(*next_part_number, reply) {
                            Ok(part) => part,
                            Err(e) => {
                                self.asked = Ghost(Asked::Ended);
                                return Err(e);
                            },
                        };
                        let ghost before = parts@;
                        parts.push(part);
                        assert(part_views(parts@) =~= part_views(before).push(part@));
                    },
                    _ => {},
                }
                self.complete()
            },
            FinalizeEvent::Completed(reply) => {
                self.asked = Ghost(Asked::Ended);
                match reply {
                    Ok(Some(crc)) if !crc.as_str().is_empty() => Ok(
                        FinalizeAction::Done(self.target.clone()),
                    ),
                    Ok(_) => Err(
                        Error::s3_message("complete_multipart_upload returned no crc64nvme"),
                    ),
                    Err(e) => Err(Error::S3(S3Failure::Sdk(e))),
                }
            },
        }
    }
}

/// Reads the reply to the creation of an upload.
fn upload_id_of<E>(reply: Result<Option<String>, E>) -> (r: Result<String, Error<E>>)
    ensures
        match created_id(text_reply_view(reply)) {
            Ok(id) => r matches Ok(text) && text@ == id,
            Err(failure) => r matches Err(e) && e.s3_failure() == Some(failure),
        },
{
    match reply {
        Ok(Some(id)) => Ok(id),
        Ok(None) => Err(Error::s3_message("create_multipart_upload returned no upload_id")),
        Err(e) => Err(Error::S3(S3Failure::Sdk(e))),
    }
}

} // verus!
