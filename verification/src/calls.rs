//! What single calls answer, in terms of what goes in and what comes out.
//!
//! Each law speaks of a call of the executable function itself: of every result
//! that the function can return for the arguments, and of the sink before and
//! after it. The texts, names and numbers are written out.
use vstd::prelude::*;
use vstd::string::to_string_from_display_ensures;

use crate::archive_it;
use crate::error::{Error, S3Failure};
use crate::existing::{head_existing, should_skip, ExistingObject, HeadReply, ObjectHead};
use crate::location::S3Location;
use crate::metadata::Metadata;
use crate::model::{Asked, Phase, SinkView, UploadView};
use crate::multipart::{
    part_size_for, parts_listed, upload_part, CompletedPart, PartReceipt, PartView,
};
use crate::request::{
    AbortMultipartUploadRequest, CompleteMultipartUploadRequest, FinalizeAction, FinalizeEvent,
    HeadObjectRequest, WriteAction, WriteEvent,
};
use crate::s3::{S3Dest, S3Sink};
use crate::text::{is_numeral_of, law_decimal_reads_back};
use crate::transfer::{Algorithm, Checksum, Hasher, Prepared, Target};

verus! {

/// Whether a call failed with the error `e` that S3 gave.
pub open spec fn fails_with<T, E>(r: Result<T, Error<E>>, e: E) -> bool {
    r matches Err(Error::S3(S3Failure::Sdk(x))) && x == e
}

/// Whether a call failed on the S3 side with a message of the sink's own.
pub open spec fn refuses_with<T, E>(r: Result<T, Error<E>>, message: Seq<char>) -> bool {
    r matches Err(Error::S3(S3Failure::Message(m))) && m@ == message
}

/// An algorithm is recorded as `sha1` or `md5`.
pub proof fn law_algorithms_have_their_names(a: Algorithm, c: &Checksum, r: &'static str)
    ensures
        call_ensures(Algorithm::name, (a,), r) && a is Sha1 ==> r@ == "sha1"@,
        call_ensures(Algorithm::name, (a,), r) && a is Md5 ==> r@ == "md5"@,
        call_ensures(Checksum::algorithm, (c,), r) && c is Sha1 ==> r@ == "sha1"@,
        call_ensures(Checksum::algorithm, (c,), r) && c is Md5 ==> r@ == "md5"@,
{
}

/// The two names differ, so neither digest is taken for the other.
pub proof fn law_algorithm_names_differ(a: &'static str, b: &'static str)
    requires
        call_ensures(Algorithm::name, (Algorithm::Sha1,), a),
        call_ensures(Algorithm::name, (Algorithm::Md5,), b),
    ensures
        a@ != b@,
{
    reveal_strlit("sha1");
    reveal_strlit("md5");
    assert("sha1"@.len() != "md5"@.len());
}

/// A checksum gives out its algorithm and its digest.
pub proof fn law_checksum_gives_what_it_holds(c: &Checksum, kind: Algorithm, hex: &str)
    ensures
        call_ensures(Checksum::kind, (c,), kind) ==> (kind is Sha1 <==> c is Sha1),
        call_ensures(Checksum::hex, (c,), hex) ==> (c matches Checksum::Sha1(h) ==> hex@ == h@),
        call_ensures(Checksum::hex, (c,), hex) ==> (c matches Checksum::Md5(h) ==> hex@ == h@),
{
}

/// Another digest in place of a checksum's own keeps the algorithm.
pub proof fn law_other_digest_keeps_the_algorithm(c: &Checksum, value: String, r: Checksum)
    requires
        call_ensures(Checksum::with_value, (c, value), r),
    ensures
        r is Sha1 <==> c is Sha1,
        r matches Checksum::Sha1(h) ==> h@ == value@,
        r matches Checksum::Md5(h) ==> h@ == value@,
{
}

/// A stream is hashed with the algorithm of the checksum that it is held
/// against, and not at all where there is none.
pub proof fn law_hasher_has_the_algorithm_of_the_checksum(
    checksum: Option<&Checksum>,
    r: Option<Hasher>,
)
    requires
        call_ensures(Hasher::for_checksum, (checksum,), r),
    ensures
        r is Some <==> checksum is Some,
        checksum matches Some(c) ==> (c is Sha1 ==> r->0.algorithm is Sha1),
        checksum matches Some(c) ==> (c is Md5 ==> r->0.algorithm is Md5),
{
}

/// Metadata answers with what was set last under a name; setting one name leaves
/// the others alone; and fresh metadata holds nothing.
pub proof fn law_metadata_answers_what_was_set(
    m: &mut Metadata,
    name: String,
    value: String,
    asked: &str,
    before: Option<&String>,
    after: Option<&String>,
    fresh: Metadata,
    from_fresh: Option<&String>,
)
    requires
        call_ensures(Metadata::insert, (m, name, value), ()),
        call_ensures(Metadata::get, (old(m), asked), before),
        call_ensures(Metadata::get, (final(m), asked), after),
        call_ensures(Metadata::new, (), fresh),
        call_ensures(Metadata::get, (&fresh, asked), from_fresh),
    ensures
        asked@ == name@ ==> (after matches Some(v) && v@ == value@),
        asked@ != name@ ==> (after is Some <==> before is Some),
        asked@ != name@ && after is Some ==> after->0@ == before->0@,
        from_fresh is None,
{
}

/// The size that is read of an object is the reported length, or nothing where
/// that is absent or negative.
pub proof fn law_head_reads_the_length<E>(
    head: ObjectHead,
    expected: Option<&Checksum>,
    r: Result<Option<ExistingObject>, Error<E>>,
)
    requires
        call_ensures(head_existing::<E>, (HeadReply::Found(head), expected), r),
    ensures
        r matches Ok(Some(object)) && match head.content_length {
            Some(n) => if n >= 0 {
                object.size == n
            } else {
                object.size == 0
            },
            None => object.size == 0,
        },
{
}

/// The checksum that is read of an object is the value recorded under the name
/// of the expected algorithm, and none where no checksum is expected or nothing
/// is recorded under that name.
pub proof fn law_head_reads_the_recorded_checksum<E>(
    head: ObjectHead,
    expected: Option<&Checksum>,
    r: Result<Option<ExistingObject>, Error<E>>,
)
    requires
        call_ensures(head_existing::<E>, (HeadReply::Found(head), expected), r),
    ensures
        r matches Ok(Some(object)) && match (expected, head.metadata) {
            (Some(Checksum::Sha1(_)), Some(m)) => if m@.contains_key("sha1"@) {
                object.checksum matches Some(Checksum::Sha1(h)) && h@ == m@["sha1"@]
            } else {
                object.checksum is None
            },
            (Some(Checksum::Md5(_)), Some(m)) => if m@.contains_key("md5"@) {
                object.checksum matches Some(Checksum::Md5(h)) && h@ == m@["md5"@]
            } else {
                object.checksum is None
            },
            _ => object.checksum is None,
        },
{
}

/// A missing object is no error, and any other failure is passed on as it is.
pub proof fn law_head_tells_missing_from_failed<E>(
    e: E,
    expected: Option<&Checksum>,
    missing: Result<Option<ExistingObject>, Error<E>>,
    failed: Result<Option<ExistingObject>, Error<E>>,
)
    requires
        call_ensures(head_existing::<E>, (HeadReply::NotFound, expected), missing),
        call_ensures(head_existing::<E>, (HeadReply::Failed(e), expected), failed),
    ensures
        missing matches Ok(None),
        fails_with(failed, e),
{
}

/// The digest of a checksum.
pub open spec fn digest(c: Checksum) -> Seq<char> {
    match c {
        Checksum::Sha1(hex) => hex@,
        Checksum::Md5(hex) => hex@,
    }
}

/// An upload is skipped for an object that is there: by digest where both sides
/// have one, whatever the sizes, and else by size. Without an object it is not.
pub proof fn law_skip_goes_by_digest_then_by_size(
    expected: Option<&Checksum>,
    size: u64,
    existing: Option<&ExistingObject>,
    r: bool,
)
    requires
        call_ensures(should_skip, (expected, size, existing), r),
    ensures
        existing is None ==> !r,
        existing matches Some(o) ==> (expected matches Some(c) ==> (o.checksum matches Some(d)
            ==> (r <==> digest(*c) == digest(d)))),
        existing matches Some(o) ==> (expected is None || o.checksum is None ==> (r <==> o.size
            == size)),
{
}

/// The part size is at least 8 MiB; ten thousand parts of it hold the file; and
/// unless it is 8 MiB, ten thousand parts of one byte less do not.
pub proof fn law_part_size_is_the_least_that_fits(file_size: u64, r: usize)
    requires
        call_ensures(part_size_for, (file_size,), r),
        file_size <= 10_000 * usize::MAX,
    ensures
        r >= 8_388_608,
        10_000 * r >= file_size,
        r > 8_388_608 ==> 10_000 * (r - 1) < file_size,
{
}

/// A part is listed with the ETag and the checksum that S3 gave for it, under
/// the number that it was sent with; a part that S3 did not take is an error.
pub proof fn law_part_keeps_its_receipt<E>(
    part_number: i32,
    reply: Result<PartReceipt, E>,
    r: Result<CompletedPart, Error<E>>,
)
    requires
        call_ensures(upload_part::<E>, (part_number, reply), r),
    ensures
        reply matches Ok(receipt) ==> r matches Ok(part) && part.e_tag.deep_view()
            == receipt.e_tag.deep_view() && part.checksum_crc64_nvme.deep_view()
            == receipt.checksum_crc64_nvme.deep_view() && part.part_number == part_number,
        reply matches Err(e) ==> fails_with(r, e),
{
}

/// A location is rendered as `s3://bucket/key`.
pub proof fn law_location_is_rendered_as_a_url(location: &S3Location, r: String)
    requires
        call_ensures(S3Location::fmt_location, (location,), r),
    ensures
        r@ == "s3://"@ + location.bucket@ + "/"@ + location.key@,
{
}

/// Whether a concrete location is the one that a state names.
pub open spec fn at(location: S3Location, s: SinkView) -> bool {
    location.bucket@ == s.location.bucket && location.key@ == s.location.key
}

/// Whether two states agree in everything but how far the upload has come.
pub open spec fn same_file(before: SinkView, after: SinkView) -> bool {
    &&& after.location.bucket == before.location.bucket
    &&& after.location.key == before.location.key
    &&& after.part_size == before.part_size
    &&& after.checksum == before.checksum
}

/// A destination makes a fresh sink for the prefix followed by the name.
pub proof fn law_destination_puts_the_prefix_before_the_name(
    dest: &S3Dest,
    target: Target<'_>,
    sink: S3Sink,
)
    requires
        call_ensures(S3Dest::make, (dest, target), sink),
    ensures
        sink@.location.bucket == dest.bucket@,
        dest.prefix matches Some(p) ==> sink@.location.key == p@ + target.name@,
        dest.prefix is None ==> sink@.location.key == target.name@,
        sink@.phase is Idle && sink@.asked is Nothing && sink@.checksum is None,
{
}

/// A fresh sink stands for the location that it was made for and is not
/// prepared; it asks for the object at that location.
pub proof fn law_fresh_sink_asks_for_its_object(
    target: S3Location,
    made: S3Sink,
    sink: &S3Sink,
    request: HeadObjectRequest,
    idle: bool,
)
    ensures
        call_ensures(S3Sink::new, (target,), made) ==> at(target, made@) && made@.phase is Idle
            && made@.asked is Nothing && made@.checksum is None && made@.part_size == 8_388_608,
        call_ensures(S3Sink::head_request, (sink,), request) ==> at(request.location, sink@),
        call_ensures(S3Sink::is_idle, (sink,), idle) ==> (idle <==> sink@.phase is Idle),
{
}

/// A sink is ready for chunks from when it is prepared until it is finalized,
/// also after a request that went unanswered, and can be finalized then.
pub proof fn law_prepared_sink_can_be_written_and_finalized<'a, E>(
    sink: &mut S3Sink,
    chunk: &'a [u8],
)
    requires
        !(old(sink)@.phase is Idle),
        old(sink)@.asked is Nothing || old(sink)@.asked is Upload || old(sink)@.asked is Part,
    ensures
        call_requires(S3Sink::write_chunk::<E>, (sink, WriteEvent::Chunk(chunk))),
        call_requires(S3Sink::finalize::<E>, (sink, FinalizeEvent::<E>::Start)),
{
}

/// A prepared sink that resumes does so from byte 0, whatever is at the
/// destination, with the hasher of the expected checksum; it is then pending, for
/// the same location, with that checksum and the part size for the file.
pub proof fn law_resume_starts_from_byte_zero<E>(
    sink: &mut S3Sink,
    target: Target<'_>,
    reply: HeadReply<E>,
    r: Result<Prepared<S3Location>, Error<E>>,
    fitting: usize,
)
    requires
        call_ensures(S3Sink::prepare::<E>, (sink, target, reply), r),
        call_ensures(part_size_for, (target.size,), fitting),
        r matches Ok(Prepared::Resume { .. }),
    ensures
        target.size > 0,
        r->Ok_0->received == 0,
        r->Ok_0->partial is Some <==> target.checksum is Some,
        target.checksum matches Some(c) ==> (r->Ok_0->partial->0.algorithm is Sha1 <==> c is Sha1),
        final(sink)@.location == old(sink)@.location,
        final(sink)@.phase is Pending,
        final(sink)@.asked is Nothing,
        final(sink)@.part_size == fitting,
        final(sink)@.checksum is Some <==> target.checksum is Some,
        target.checksum matches Some(c) ==> final(sink)@.checksum->0.hex == digest(*c) && (
        final(sink)@.checksum->0.algorithm is Sha1 <==> c is Sha1),
{
}

/// Whether the object is there already: its recorded digest is the expected one,
/// or no digest can be compared and its length is the size.
pub open spec fn is_there(target: Target<'_>, head: ObjectHead) -> bool {
    let by_length = match head.content_length {
        Some(n) => n == target.size || (n < 0 && target.size == 0),
        None => target.size == 0,
    };
    match (target.checksum, head.metadata) {
        (Some(Checksum::Sha1(hex)), Some(m)) => if m@.contains_key("sha1"@) {
            m@["sha1"@] == hex@
        } else {
            by_length
        },
        (Some(Checksum::Md5(hex)), Some(m)) => if m@.contains_key("md5"@) {
            m@["md5"@] == hex@
        } else {
            by_length
        },
        _ => by_length,
    }
}

/// A file is skipped exactly when its object is there already, and then the sink
/// reports its own location and stays as it was.
pub proof fn law_file_that_is_there_is_skipped<E>(
    sink: &mut S3Sink,
    target: Target<'_>,
    reply: HeadReply<E>,
    r: Result<Prepared<S3Location>, Error<E>>,
)
    requires
        call_ensures(S3Sink::prepare::<E>, (sink, target, reply), r),
    ensures
        r matches Ok(Prepared::Skip { .. }) <==> (reply matches HeadReply::Found(head) && is_there(
            target,
            head,
        )),
        r matches Ok(Prepared::Skip { location }) ==> at(location, old(sink)@) && final(sink)@
            == old(sink)@,
{
}

/// A file that is not skipped is fetched if it has bytes, and refused by name if
/// it has none; a failed HeadObject is passed on. Neither changes the sink.
pub proof fn law_file_that_is_not_there_is_fetched_or_refused<E>(
    sink: &mut S3Sink,
    target: Target<'_>,
    reply: HeadReply<E>,
    r: Result<Prepared<S3Location>, Error<E>>,
)
    requires
        call_ensures(S3Sink::prepare::<E>, (sink, target, reply), r),
    ensures
        reply matches HeadReply::Failed(e) ==> fails_with(r, e),
        !(reply is Failed) && !(r matches Ok(Prepared::Skip { .. })) && target.size > 0
            ==> r matches Ok(Prepared::Resume { .. }),
        !(reply is Failed) && !(r matches Ok(Prepared::Skip { .. })) && target.size == 0
            ==> refuses_with(
            r,
            "refusing to upload zero-byte file "@ + target.name@ + " via multipart"@,
        ),
        r is Err ==> final(sink)@ == old(sink)@,
{
}

/// The first chunk asks for an upload at the sink's location, checked by
/// CRC-64/NVME, with the expected digest recorded under the name of its
/// algorithm; nothing else changes.
pub proof fn law_first_chunk_asks_for_an_upload<'a, E>(
    sink: &mut S3Sink,
    chunk: &'a [u8],
    r: Result<WriteAction, Error<E>>,
)
    requires
        call_ensures(S3Sink::write_chunk::<E>, (sink, WriteEvent::Chunk(chunk)), r),
        old(sink)@.phase is Pending,
    ensures
        r matches Ok(WriteAction::CreateMultipartUpload(request)) && {
            &&& at(request.location, old(sink)@)
            &&& request.checksum_algorithm@ == "CRC64NVME"@
            &&& request.metadata is Some <==> old(sink)@.checksum is Some
            &&& request.metadata matches Some(entry) ==> entry.1@ == old(sink)@.checksum->0.hex
            &&& request.metadata matches Some(entry) ==> entry.0@ == (
            if old(sink)@.checksum->0.algorithm is Sha1 {
                "sha1"@
            } else {
                "md5"@
            })
        },
        same_file(old(sink)@, final(sink)@),
        final(sink)@.phase is Pending,
        final(sink)@.asked == (Asked::Upload { chunk: chunk@ }),
{
}

/// The action that follows once `bytes` wait to be sent: a part of exactly the
/// part size where there are that many, cut off the front and numbered `number`;
/// else nothing. What is not sent stays in the buffer, and no byte is lost.
pub open spec fn sends_a_whole_part(
    action: WriteAction,
    before: SinkView,
    after: SinkView,
    upload_id: Seq<char>,
    number: int,
    bytes: Seq<u8>,
) -> bool {
    &&& same_file(before, after)
    &&& after.phase matches Phase::Uploading(v) && v.upload_id == upload_id && v.next_part_number
        == number && match action {
        WriteAction::UploadPart(request) => {
            &&& bytes.len() >= before.part_size
            &&& request.body@.len() == before.part_size
            &&& request.body@ + v.buffer == bytes
            &&& request.part_number == number
            &&& request.upload_id@ == upload_id
            &&& at(request.location, before)
            &&& request.checksum_algorithm@ == "CRC64NVME"@
            &&& after.asked is Part
        },
        WriteAction::Done => {
            &&& bytes.len() < before.part_size
            &&& v.buffer == bytes
            &&& after.asked is Nothing
        },
        WriteAction::CreateMultipartUpload(_) => false,
    }
}

/// A created upload takes the chunk that asked for it, under the identifier that
/// S3 gave, with part 1 next. A failed creation, and one without an identifier,
/// is an error and leaves the sink pending.
pub proof fn law_created_upload_takes_the_chunk<'a, E>(
    sink: &mut S3Sink,
    chunk: &'a [u8],
    reply: Result<Option<String>, E>,
    r: Result<WriteAction, Error<E>>,
)
    requires
        call_ensures(
            S3Sink::write_chunk::<E>,
            (sink, WriteEvent::Created { chunk, reply }),
            r,
        ),
        old(sink)@.phase is Pending,
    ensures
        reply matches Err(e) ==> fails_with(r, e),
        reply matches Ok(None) ==> refuses_with(
            r,
            "create_multipart_upload returned no upload_id"@,
        ),
        r is Err ==> same_file(old(sink)@, final(sink)@) && final(sink)@.phase is Pending
            && final(sink)@.asked is Nothing,
        reply matches Ok(Some(id)) ==> r matches Ok(action) && sends_a_whole_part(
            action,
            old(sink)@,
            final(sink)@,
            id@,
            1,
            chunk@,
        ),
        reply matches Ok(Some(_)) ==> final(sink)@.phase->Uploading_0.parts.len() == 0,
{
    if (reply matches Ok(Some(_))) {
        lemma_split(chunk@, old(sink)@.part_size as int);
    }
}

/// Bytes cut in two are the two pieces.
proof fn lemma_split(bytes: Seq<u8>, n: int)
    ensures
        0 <= n <= bytes.len() ==> bytes.take(n) + bytes.skip(n) == bytes,
{
    if 0 <= n <= bytes.len() {
        assert(bytes.take(n) + bytes.skip(n) =~= bytes);
    }
}

/// A later chunk goes behind what waits in the buffer; the parts acknowledged so
/// far and the next number stay.
pub proof fn law_later_chunk_follows_the_buffer<'a, E>(
    sink: &mut S3Sink,
    u: UploadView,
    chunk: &'a [u8],
    r: Result<WriteAction, Error<E>>,
)
    requires
        call_ensures(S3Sink::write_chunk::<E>, (sink, WriteEvent::Chunk(chunk)), r),
        old(sink)@.phase == Phase::Uploading(u),
    ensures
        r matches Ok(action) && sends_a_whole_part(
            action,
            old(sink)@,
            final(sink)@,
            u.upload_id,
            u.next_part_number as int,
            u.buffer + chunk@,
        ),
        final(sink)@.phase->Uploading_0.parts == u.parts,
{
    lemma_split(u.buffer + chunk@, old(sink)@.part_size as int);
}

/// An acknowledged part is added behind the others, with its receipt and the
/// number that it was sent with; the next number is one more, and the buffer is
/// looked at again.
pub proof fn law_acknowledged_part_is_added<'a, E>(
    sink: &mut S3Sink,
    u: UploadView,
    receipt: PartReceipt,
    r: Result<WriteAction, Error<E>>,
)
    requires
        call_ensures(
            S3Sink::write_chunk::<E>,
            (sink, WriteEvent::PartUploaded(Ok(receipt))),
            r,
        ),
        old(sink)@.phase == Phase::Uploading(u),
        u.next_part_number < i32::MAX,
    ensures
        r matches Ok(action) && sends_a_whole_part(
            action,
            old(sink)@,
            final(sink)@,
            u.upload_id,
            u.next_part_number + 1,
            u.buffer,
        ),
        is_added(u.parts, final(sink)@.phase->Uploading_0.parts, u.next_part_number, receipt),
{
    lemma_split(u.buffer, old(sink)@.part_size as int);
    assert(final(sink)@.phase->Uploading_0.parts.drop_last() =~= u.parts);
}

/// Whether `after` is `before` and one part more, with the given number and the
/// texts of the receipt.
pub open spec fn is_added(
    before: Seq<PartView>,
    after: Seq<PartView>,
    number: i32,
    receipt: PartReceipt,
) -> bool {
    &&& after.len() == before.len() + 1
    &&& after.drop_last() == before
    &&& after.last().part_number == number
    &&& after.last().e_tag == receipt.e_tag.deep_view()
    &&& after.last().checksum_crc64_nvme == receipt.checksum_crc64_nvme.deep_view()
}

/// A part that S3 did not take makes the chunk fail, with the error that S3 gave;
/// the part is not acknowledged, and nothing is sent in its place.
pub proof fn law_failed_part_is_reported<'a, E>(
    sink: &mut S3Sink,
    e: E,
    r: Result<WriteAction, Error<E>>,
)
    requires
        call_ensures(
            S3Sink::write_chunk::<E>,
            (sink, WriteEvent::PartUploaded(Err(e))),
            r,
        ),
    ensures
        fails_with(r, e),
        same_file(old(sink)@, final(sink)@),
        final(sink)@.phase == old(sink)@.phase,
        final(sink)@.asked is Nothing,
{
}

/// Starting over leaves the sink pending for the same file, and aborts the upload
/// in progress, if there is one, under its identifier.
pub proof fn law_restart_aborts_the_upload(
    sink: &mut S3Sink,
    r: Option<AbortMultipartUploadRequest>,
)
    requires
        call_ensures(S3Sink::restart, (sink,), r),
    ensures
        same_file(old(sink)@, final(sink)@),
        final(sink)@.phase is Pending,
        final(sink)@.asked is Nothing,
        r is Some <==> old(sink)@.phase is Uploading,
        r matches Some(abort) ==> at(abort.location, old(sink)@) && abort.upload_id@
            == old(sink)@.phase->Uploading_0.upload_id,
{
}

/// Whether a request completes the upload with exactly these parts, in order,
/// each with its ETag, its CRC-64/NVME checksum, its number, and no other
/// checksum.
pub open spec fn completes(
    request: CompleteMultipartUploadRequest,
    s: SinkView,
    upload_id: Seq<char>,
    parts: Seq<PartView>,
) -> bool {
    let listed = parts_listed(request.multipart_upload);
    &&& at(request.location, s)
    &&& request.upload_id@ == upload_id
    &&& listed.len() == parts.len()
    &&& forall|i: int|
        0 <= i < listed.len() ==> (#[trigger] listed[i]).e_tag == parts[i].e_tag
            && listed[i].checksum_crc64_nvme == parts[i].checksum_crc64_nvme
            && listed[i].part_number == Some(parts[i].part_number) && !listed[i].other_checksums
}

/// The end of the writing sends all that waits as the last part, under the next
/// number. Where nothing waits, the upload is completed with the parts that are
/// acknowledged; where there are none of these either, it is refused.
pub proof fn law_end_sends_what_waits<E>(
    sink: &mut S3Sink,
    u: UploadView,
    r: Result<FinalizeAction, Error<E>>,
)
    requires
        call_ensures(S3Sink::finalize::<E>, (sink, FinalizeEvent::<E>::Start), r),
        old(sink)@.phase == Phase::Uploading(u),
    ensures
        same_file(old(sink)@, final(sink)@),
        final(sink)@.phase matches Phase::Uploading(v) && v.buffer.len() == 0 && v.parts == u.parts
            && v.next_part_number == u.next_part_number && v.upload_id == u.upload_id,
        u.buffer.len() > 0 ==> final(sink)@.asked is LastPart && (r matches Ok(
            FinalizeAction::UploadPart(request),
        ) && request.body@ == u.buffer && request.part_number == u.next_part_number
            && request.upload_id@ == u.upload_id && at(request.location, old(sink)@)
            && request.checksum_algorithm@ == "CRC64NVME"@),
        u.buffer.len() == 0 && u.parts.len() > 0 ==> final(sink)@.asked is Completion && (
        r matches Ok(FinalizeAction::CompleteMultipartUpload(request)) && completes(
            request,
            old(sink)@,
            u.upload_id,
            u.parts,
        )),
        u.buffer.len() == 0 && u.parts.len() == 0 ==> refuses_with(
            r,
            "finalize called with no parts uploaded"@,
        ),
{
}

/// Where no upload was created, there is nothing to end: it is refused, and
/// nothing is asked of S3.
pub proof fn law_end_without_an_upload_is_refused<E>(
    sink: &mut S3Sink,
    r: Result<FinalizeAction, Error<E>>,
)
    requires
        call_ensures(S3Sink::finalize::<E>, (sink, FinalizeEvent::<E>::Start), r),
        old(sink)@.phase is Pending,
    ensures
        refuses_with(r, "finalize called with no parts uploaded"@),
        same_file(old(sink)@, final(sink)@),
        final(sink)@.phase is Pending,
{
}

/// Once the last part is acknowledged, the upload is completed with the parts
/// before it and this one. A last part that S3 did not take is an error, with the
/// error that S3 gave.
pub proof fn law_acknowledged_last_part_completes<E>(
    sink: &mut S3Sink,
    u: UploadView,
    reply: Result<PartReceipt, E>,
    r: Result<FinalizeAction, Error<E>>,
)
    requires
        call_ensures(
            S3Sink::finalize::<E>,
            (sink, FinalizeEvent::<E>::LastPartUploaded(reply)),
            r,
        ),
        old(sink)@.phase == Phase::Uploading(u),
    ensures
        same_file(old(sink)@, final(sink)@),
        reply matches Err(e) ==> fails_with(r, e),
        reply is Err ==> final(sink)@.phase == old(sink)@.phase,
        final(sink)@.phase matches Phase::Uploading(v) && v.upload_id == u.upload_id && v.buffer
            == u.buffer,
        reply matches Ok(receipt) ==> is_added(
            u.parts,
            final(sink)@.phase->Uploading_0.parts,
            u.next_part_number,
            receipt,
        ),
        reply is Ok ==> final(sink)@.asked is Completion && (r matches Ok(
            FinalizeAction::CompleteMultipartUpload(request),
        ) && completes(
            request,
            old(sink)@,
            u.upload_id,
            final(sink)@.phase->Uploading_0.parts,
        )),
{
    if reply is Ok {
        assert(final(sink)@.phase->Uploading_0.parts.drop_last() =~= u.parts);
    }
}

/// A completed upload is done, at the sink's location, if S3 reports a checksum
/// of the object. A completion without one is an error, and so is one that S3
/// refused, with the error that S3 gave.
pub proof fn law_completion_must_report_a_checksum<E>(
    sink: &mut S3Sink,
    reply: Result<Option<String>, E>,
    r: Result<FinalizeAction, Error<E>>,
)
    requires
        call_ensures(S3Sink::finalize::<E>, (sink, FinalizeEvent::<E>::Completed(reply)), r),
    ensures
        same_file(old(sink)@, final(sink)@),
        final(sink)@.phase == old(sink)@.phase,
        reply matches Err(e) ==> fails_with(r, e),
        (reply matches Ok(Some(crc)) && crc@.len() > 0) ==> (r matches Ok(
            FinalizeAction::Done(location),
        ) && at(location, old(sink)@)),
        (reply matches Ok(None)) || (reply matches Ok(Some(crc)) && crc@.len() == 0)
            ==> refuses_with(
            r,
            "complete_multipart_upload returned no crc64nvme"@,
        ),
{
}

/// Whether `text` is `lead` followed by what `value` displays as.
pub open spec fn leads<T: core::fmt::Display + ?Sized>(
    text: String,
    lead: Seq<char>,
    value: &T,
) -> bool {
    exists|shown: String|
        #[trigger] to_string_from_display_ensures::<T>(value, shown) && text@ == lead + shown@
}

/// The engine's errors say in words which of them they are, and name what they
/// carry.
pub proof fn law_engine_errors_say_what_they_carry<E: core::fmt::Display>(
    e: &Error<E>,
    text: String,
)
    requires
        call_ensures(Error::<E>::message, (e,), text),
    ensures
        match *e {
            Error::ChecksumMismatch { algorithm, url, expected, actual } => text@ == algorithm@
                + " mismatch for "@ + url@ + ": expected "@ + expected@ + ", got "@ + actual@,
            Error::InvalidDownloadPath { path } => exists|
                borrowed: &std::path::Path,
                shown: std::path::Display<'_>,
            |
                {
                    &&& #[trigger] call_ensures(std::path::PathBuf::as_path, (&path,), borrowed)
                    &&& #[trigger] call_ensures(std::path::Path::display, (borrowed,), shown)
                    &&& leads(text, "download path is not a single safe file name: "@, &shown)
                },
            Error::InvalidRangeResponse { url, details } => text@ == "invalid range response for "@
                + url@ + ": "@ + details@,
            Error::Io(x) => leads(text, "I/O failed: "@, &x),
            Error::NotFound(resource) => text@ == "resource not found: "@ + resource@,
            Error::Request(x) => leads(text, "HTTP request failed: "@, &x),
            Error::S3(S3Failure::Sdk(x)) => leads(text, "S3 operation failed: "@, &x),
            Error::S3(S3Failure::Message(m)) => text@ == "S3 operation failed: "@ + m@,
            Error::SizeMismatch { .. } => true,
            Error::Source(x) => leads(text, "source resolution failed: "@, &x),
            Error::Status(x) => leads(text, "unexpected status: "@, &x),
            Error::Url(x) => leads(text, "invalid URL: "@, &x),
        },
{
}

/// A size mismatch names both sizes as decimal numbers: first what was
/// downloaded, then what was expected.
pub proof fn law_size_mismatch_names_both_sizes<E: core::fmt::Display>(
    url: String,
    expected: u64,
    actual: u64,
    text: String,
)
    requires
        call_ensures(
            Error::<E>::message,
            (&Error::SizeMismatch { url, expected, actual },),
            text,
        ),
    ensures
        exists|got: Seq<char>, wanted: Seq<char>|
            {
                &&& #[trigger] is_numeral_of(got, actual as nat)
                &&& #[trigger] is_numeral_of(wanted, expected as nat)
                &&& text@ == "downloaded "@ + got + " bytes from "@ + url@ + "; expected "@ + wanted
            },
{
    law_decimal_reads_back(actual as nat);
    law_decimal_reads_back(expected as nat);
}

/// The client's errors say in words which of them they are, and name what they
/// carry.
pub proof fn law_client_errors_say_what_they_carry(e: &archive_it::Error, text: String)
    requires
        call_ensures(archive_it::Error::message, (e,), text),
    ensures
        match *e {
            archive_it::Error::Empty => text@ == "authenticated account list was empty"@,
            archive_it::Error::Io(x) => leads(text, "I/O failed: "@, &x),
            archive_it::Error::NotFound(resource) => text@ == "resource not found: "@ + resource@,
            archive_it::Error::PrimaryLocationMissing { filename } => text@
                == "no primary WARC location for "@ + filename@,
            archive_it::Error::Request(x) => leads(text, "HTTP request failed: "@, &x),
            archive_it::Error::Status(x) => leads(text, "unexpected status: "@, &x),
            archive_it::Error::Url(x) => leads(text, "invalid URL: "@, &x),
        },
{
}

/// An error from outside is wrapped unchanged: what a caller hands in comes back
/// out as it was, and each kind of outside error under its own variant.
pub proof fn law_outside_errors_are_wrapped_unchanged<E>(
    source: E,
    io: std::io::Error,
    request: reqwest::Error,
    parse: url::ParseError,
    r: Error<E>,
    c: archive_it::Error,
)
    ensures
        call_ensures(Error::<E>::from_source, (source,), r) ==> r == Error::Source(source),
        call_ensures(<Error<E> as From<std::io::Error>>::from, (io,), r) ==> r == Error::<E>::Io(
            io,
        ),
        call_ensures(<Error<E> as From<reqwest::Error>>::from, (request,), r) ==> r
            == Error::<E>::Request(request),
        call_ensures(<Error<E> as From<url::ParseError>>::from, (parse,), r) ==> r
            == Error::<E>::Url(parse),
        call_ensures(<archive_it::Error as From<std::io::Error>>::from, (io,), c) ==> c
            == archive_it::Error::Io(io),
        call_ensures(<archive_it::Error as From<reqwest::Error>>::from, (request,), c) ==> c
            == archive_it::Error::Request(request),
        call_ensures(<archive_it::Error as From<url::ParseError>>::from, (parse,), c) ==> c
            == archive_it::Error::Url(parse),
{
}

} // verus!
