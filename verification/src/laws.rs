//! What holds of the sink over several steps.
//!
//! A run is the sink's steps taken against a server that answers every request:
//! `server` gives the receipt for each part number and body, and `upload_id` is
//! the identifier of the upload that gets created. No error occurs in a run, so
//! the type of errors plays no role there.
use vstd::prelude::*;

use crate::error::FailureView;
use crate::existing::{reported_size, HeadReplyView, HeadView};
use crate::model::{
    acknowledge, create_request, cut_step, finalize_ready, finalize_step, prepare_step,
    restart_step, with_asked, with_upload, write_ready, write_step, Asked, Phase, PreparedView,
    SinkView, UploadView,
};
use crate::multipart::{
    ceil_div, listing, part_size, received_part, PartView, ReceiptView, MAX_PARTS, MIN_PART_SIZE,
};
use crate::pieces::{
    cuts, law_part_size_keeps_the_limits, law_parts_make_up_the_bytes, lemma_cuts,
    lemma_cuts_append, pieces, rest,
};
use crate::request::{
    CompleteView, FinalizeActionView, FinalizeEventView, UploadPartView, WriteActionView,
    WriteEventView,
};
use crate::transfer::{hasher_for, ChecksumView};

verus! {

/// The bytes that wait in the buffer of a sink.
pub open spec fn waiting(s: SinkView) -> nat {
    match s.phase {
        Phase::Uploading(u) => u.buffer.len(),
        _ => 0,
    }
}

/// Carries out the actions of a chunk until it is done: the state that this
/// leads to, and the parts that were sent.
pub open spec fn settle(
    s: SinkView,
    action: WriteActionView,
    server: spec_fn(i32, Seq<u8>) -> ReceiptView,
) -> (SinkView, Seq<UploadPartView>)
    decreases waiting(s), (if action is UploadPart { 1int } else { 0int }),
    when s.part_size > 0
{
    match action {
        WriteActionView::UploadPart(request) => {
            let receipt = server(request.part_number, request.body);
            match write_step::<()>(s, WriteEventView::PartUploaded(Ok(receipt))) {
                (next, Ok(follow_up)) => {
                    let (end, sent) = settle(next, follow_up, server);
                    (end, seq![request] + sent)
                },
                (next, Err(_)) => (next, seq![request]),
            }
        },
        _ => (s, Seq::empty()),
    }
}

/// Writes one chunk.
pub open spec fn write(
    s: SinkView,
    chunk: Seq<u8>,
    upload_id: Seq<char>,
    server: spec_fn(i32, Seq<u8>) -> ReceiptView,
) -> (SinkView, Seq<UploadPartView>) {
    match write_step::<()>(s, WriteEventView::Chunk(chunk)) {
        (pending, Ok(WriteActionView::CreateMultipartUpload(_))) => {
            let created = WriteEventView::Created { chunk, reply: Ok(Some(upload_id)) };
            match write_step::<()>(pending, created) {
                (next, Ok(action)) => settle(next, action, server),
                (next, Err(_)) => (next, Seq::empty()),
            }
        },
        (next, Ok(action)) => settle(next, action, server),
        (next, Err(_)) => (next, Seq::empty()),
    }
}

/// Writes chunks one after the other.
pub open spec fn write_all(
    s: SinkView,
    chunks: Seq<Seq<u8>>,
    upload_id: Seq<char>,
    server: spec_fn(i32, Seq<u8>) -> ReceiptView,
) -> (SinkView, Seq<UploadPartView>)
    decreases chunks.len(),
{
    if chunks.len() == 0 {
        (s, Seq::empty())
    } else {
        let (before, sent) = write_all(s, chunks.drop_last(), upload_id, server);
        let (after, more) = write(before, chunks.last(), upload_id, server);
        (after, sent + more)
    }
}

/// Ends the upload: the parts that were sent for it, and what comes next.
pub open spec fn end(s: SinkView, server: spec_fn(i32, Seq<u8>) -> ReceiptView) -> (
    Seq<UploadPartView>,
    Result<FinalizeActionView, FailureView<()>>,
) {
    match finalize_step::<()>(s, FinalizeEventView::Start) {
        (next, Ok(FinalizeActionView::UploadPart(request))) => {
            let receipt = server(request.part_number, request.body);
            (
                seq![request],
                finalize_step::<()>(next, FinalizeEventView::LastPartUploaded(Ok(receipt))).1,
            )
        },
        (_, outcome) => (Seq::empty(), outcome),
    }
}

/// The requests that upload `bodies` as the parts from number `first` on.
pub open spec fn part_requests(
    s: SinkView,
    upload_id: Seq<char>,
    first: int,
    bodies: Seq<Seq<u8>>,
) -> Seq<UploadPartView> {
    Seq::new(
        bodies.len(),
        |i: int|
            UploadPartView {
                location: s.location,
                upload_id,
                part_number: (first + i) as i32,
                checksum_algorithm: "CRC64NVME"@,
                body: bodies[i],
            },
    )
}

/// The parts that the server makes of `bodies`, numbered from `first` on.
pub open spec fn stored_parts(
    first: int,
    bodies: Seq<Seq<u8>>,
    server: spec_fn(i32, Seq<u8>) -> ReceiptView,
) -> Seq<PartView> {
    Seq::new(
        bodies.len(),
        |i: int| received_part((first + i) as i32, server((first + i) as i32, bodies[i])),
    )
}

/// Where a chunk is settled: everything is sent but the rest of the buffer.
proof fn lemma_settle(
    s: SinkView,
    u: UploadView,
    server: spec_fn(i32, Seq<u8>) -> ReceiptView,
)
    requires
        s.part_size > 0,
        0 < u.next_part_number,
        u.next_part_number + cuts(u.buffer, s.part_size as nat).len() <= i32::MAX,
    ensures
        ({
            let (cut, action) = cut_step(s, u);
            let bodies = cuts(u.buffer, s.part_size as nat);
            settle(cut, action, server) == (
                with_upload(
                    s,
                    UploadView {
                        upload_id: u.upload_id,
                        buffer: rest(u.buffer, s.part_size as nat),
                        next_part_number: (u.next_part_number + bodies.len()) as i32,
                        parts: u.parts + stored_parts(u.next_part_number as int, bodies, server),
                    },
                    Asked::Nothing,
                ),
                part_requests(s, u.upload_id, u.next_part_number as int, bodies),
            )
        }),
    decreases u.buffer.len(),
{
    let size = s.part_size as nat;
    let bodies = cuts(u.buffer, size);
    let n = u.next_part_number;
    let (cut, action) = cut_step(s, u);
    if u.buffer.len() < size {
        assert(u.parts + stored_parts(n as int, bodies, server) =~= u.parts);
        assert(part_requests(s, u.upload_id, n as int, bodies) =~= Seq::empty());
    } else {
        let tail = u.buffer.skip(size as int);
        let head = u.buffer.take(size as int);
        let later = cuts(tail, size);
        assert(bodies == seq![head] + later);
        let receipt = server(n, head);
        let cut_upload = UploadView { buffer: tail, ..u };
        let acked = acknowledge(cut_upload, receipt);
        lemma_settle(s, acked, server);
        let (next, follow_up) = cut_step(s, acked);
        assert(cut == with_upload(s, cut_upload, Asked::Part));
        assert(write_step::<()>(cut, WriteEventView::PartUploaded(Ok(receipt)))
            == (cut_step(cut, acked).0, Ok::<_, FailureView<()>>(cut_step(cut, acked).1)));
        assert(cut_step(cut, acked) == cut_step(s, acked));
        assert(u.parts + stored_parts(n as int, bodies, server) =~= acked.parts + stored_parts(
            n + 1,
            later,
            server,
        ));
        assert(part_requests(s, u.upload_id, n as int, bodies) =~= seq![
            action->UploadPart_0,
        ] + part_requests(s, u.upload_id, n + 1, later));
    }
}

/// The upload that `bytes` lead to, all of them written and the whole parts sent.
pub open spec fn caught_up(
    upload_id: Seq<char>,
    bytes: Seq<u8>,
    size: nat,
    server: spec_fn(i32, Seq<u8>) -> ReceiptView,
) -> UploadView {
    UploadView {
        upload_id,
        buffer: rest(bytes, size),
        next_part_number: (1 + cuts(bytes, size).len()) as i32,
        parts: stored_parts(1, cuts(bytes, size), server),
    }
}

/// The first chunk creates the upload and is cut into parts.
proof fn lemma_write_first(
    s: SinkView,
    chunk: Seq<u8>,
    upload_id: Seq<char>,
    server: spec_fn(i32, Seq<u8>) -> ReceiptView,
)
    requires
        s.phase is Pending,
        s.part_size > 0,
        1 + cuts(chunk, s.part_size as nat).len() <= i32::MAX,
    ensures
        write(s, chunk, upload_id, server) == (
            with_upload(
                s,
                caught_up(upload_id, chunk, s.part_size as nat, server),
                Asked::Nothing,
            ),
            part_requests(s, upload_id, 1, cuts(chunk, s.part_size as nat)),
        ),
{
    let fresh = UploadView {
        upload_id,
        buffer: chunk,
        next_part_number: 1,
        parts: Seq::empty(),
    };
    lemma_settle(s, fresh, server);
    let bodies = cuts(chunk, s.part_size as nat);
    assert(fresh.parts + stored_parts(1, bodies, server) =~= stored_parts(1, bodies, server));
}

/// A later chunk is cut into parts together with what the earlier ones left.
proof fn lemma_write_more(
    s: SinkView,
    bytes: Seq<u8>,
    chunk: Seq<u8>,
    upload_id: Seq<char>,
    server: spec_fn(i32, Seq<u8>) -> ReceiptView,
)
    requires
        s.part_size > 0,
        s.phase == Phase::Uploading(caught_up(upload_id, bytes, s.part_size as nat, server)),
        1 + cuts(bytes + chunk, s.part_size as nat).len() <= i32::MAX,
    ensures
        ({
            let size = s.part_size as nat;
            let (after, sent) = write(s, chunk, upload_id, server);
            &&& after == with_upload(
                s,
                caught_up(upload_id, bytes + chunk, size, server),
                Asked::Nothing,
            )
            &&& part_requests(s, upload_id, 1, cuts(bytes, size)) + sent == part_requests(
                s,
                upload_id,
                1,
                cuts(bytes + chunk, size),
            )
        }),
{
    let size = s.part_size as nat;
    lemma_cuts_append(bytes, chunk, size);
    let u = caught_up(upload_id, bytes, size, server);
    let grown = UploadView { buffer: u.buffer + chunk, ..u };
    lemma_settle(s, grown, server);
    assert(cut_step(s, grown) == cut_step(with_upload(s, u, s.asked), grown));
    let early = cuts(bytes, size);
    let later = cuts(u.buffer + chunk, size);
    assert(stored_parts(1, early, server) + stored_parts(1 + early.len() as int, later, server)
        =~= stored_parts(1, early + later, server));
    assert(part_requests(s, upload_id, 1, early) + part_requests(
        s,
        upload_id,
        1 + early.len() as int,
        later,
    ) =~= part_requests(s, upload_id, 1, early + later));
}

/// Earlier bytes have no more whole parts than all of them.
proof fn lemma_cuts_grow(bytes: Seq<u8>, more: Seq<u8>, size: nat)
    requires
        size > 0,
    ensures
        cuts(bytes, size).len() <= cuts(bytes + more, size).len(),
{
    lemma_cuts_append(bytes, more, size);
}

/// Whole parts go out as soon as they are there. Once the chunks written so far
/// are taken, the parts sent are the whole parts of their bytes, numbered from
/// 1, and acknowledged as the server answered; what waits in the buffer is the
/// rest, less than a part; and no request is outstanding.
pub proof fn law_whole_parts_go_out_at_once(
    s: SinkView,
    chunks: Seq<Seq<u8>>,
    upload_id: Seq<char>,
    server: spec_fn(i32, Seq<u8>) -> ReceiptView,
)
    requires
        s.phase is Pending,
        s.part_size > 0,
        chunks.len() > 0,
        1 + cuts(chunks.flatten(), s.part_size as nat).len() <= i32::MAX,
    ensures
        write_all(s, chunks, upload_id, server) == (
            with_upload(
                s,
                UploadView {
                    upload_id,
                    buffer: rest(chunks.flatten(), s.part_size as nat),
                    next_part_number: (1 + cuts(chunks.flatten(), s.part_size as nat).len()) as i32,
                    parts: stored_parts(1, cuts(chunks.flatten(), s.part_size as nat), server),
                },
                Asked::Nothing,
            ),
            part_requests(s, upload_id, 1, cuts(chunks.flatten(), s.part_size as nat)),
        ),
        cuts(chunks.flatten(), s.part_size as nat).flatten() + rest(
            chunks.flatten(),
            s.part_size as nat,
        ) == chunks.flatten(),
        rest(chunks.flatten(), s.part_size as nat).len() < s.part_size,
    decreases chunks.len(),
{
    broadcast use Seq::lemma_flatten_push;

    let size = s.part_size as nat;
    lemma_cuts(chunks.flatten(), size);
    let earlier = chunks.drop_last();
    let last = chunks.last();
    assert(chunks =~= earlier.push(last));
    assert(chunks.flatten() == earlier.flatten() + last);
    let (before, sent) = write_all(s, earlier, upload_id, server);
    let (after, more) = write(before, last, upload_id, server);
    if earlier.len() == 0 {
        assert(earlier.flatten() + last =~= last);
        lemma_write_first(s, last, upload_id, server);
        assert(sent + more =~= more);
    } else {
        lemma_cuts_grow(earlier.flatten(), last, size);
        law_whole_parts_go_out_at_once(s, earlier, upload_id, server);
        lemma_write_more(before, earlier.flatten(), last, upload_id, server);
        assert(part_requests(before, upload_id, 1, cuts(chunks.flatten(), size)) =~= part_requests(
            s,
            upload_id,
            1,
            cuts(chunks.flatten(), size),
        ));
        assert(part_requests(before, upload_id, 1, cuts(earlier.flatten(), size))
            =~= part_requests(s, upload_id, 1, cuts(earlier.flatten(), size)));
    }
}

/// An upload sends every byte once and in order. Whatever chunks the bytes come
/// in, the parts sent are the bytes cut by the part size, numbered from 1; the
/// bodies together are the bytes; and the upload is completed with exactly these
/// parts, as the server acknowledged them. An upload without bytes is not
/// completed.
pub proof fn law_upload_sends_every_byte(
    s: SinkView,
    chunks: Seq<Seq<u8>>,
    upload_id: Seq<char>,
    server: spec_fn(i32, Seq<u8>) -> ReceiptView,
)
    requires
        s.phase is Pending,
        s.part_size > 0,
        chunks.len() > 0,
        1 + cuts(chunks.flatten(), s.part_size as nat).len() <= i32::MAX,
    ensures
        ({
            let bodies = pieces(chunks.flatten(), s.part_size as nat);
            let (written, sent) = write_all(s, chunks, upload_id, server);
            let (last, outcome) = end(written, server);
            &&& sent + last == part_requests(s, upload_id, 1, bodies)
            &&& bodies.flatten() == chunks.flatten()
            &&& bodies.len() == ceil_div(chunks.flatten().len(), s.part_size as nat)
            &&& bodies.len() > 0 ==> outcome == Ok::<_, FailureView<()>>(
                FinalizeActionView::CompleteMultipartUpload(
                    CompleteView {
                        location: s.location,
                        upload_id,
                        parts: stored_parts(1, bodies, server).map_values(
                            |p: PartView| listing(p),
                        ),
                    },
                ),
            )
            &&& bodies.len() == 0 ==> outcome is Err
        }),
{
    let bytes = chunks.flatten();
    let size = s.part_size as nat;
    law_parts_make_up_the_bytes(bytes, size);
    law_whole_parts_go_out_at_once(s, chunks, upload_id, server);
    let (written, sent) = write_all(s, chunks, upload_id, server);
    let (last, outcome) = end(written, server);
    let whole = cuts(bytes, size);
    let left = rest(bytes, size);
    let bodies = pieces(bytes, size);
    let n = (1 + whole.len()) as i32;
    if left.len() == 0 {
        assert(sent + last =~= sent);
    } else {
        assert(sent + last =~= part_requests(s, upload_id, 1, bodies));
        assert(stored_parts(1, whole, server).push(received_part(n, server(n, left)))
            =~= stored_parts(1, bodies, server));
    }
}

/// The bodies of requests, in order.
pub open spec fn bodies_of(requests: Seq<UploadPartView>) -> Seq<Seq<u8>> {
    Seq::new(requests.len(), |i: int| requests[i].body)
}

/// What has been sent so far is numbered from 1, part by part, under the
/// identifier of the upload and at the sink's location. Each part has exactly
/// the part size and is acknowledged with the texts that the server gave for it.
/// The parts and what waits in the buffer, one after the other, are the bytes
/// written; and less than a part waits.
pub proof fn law_sent_and_waiting_are_the_bytes_written(
    s: SinkView,
    chunks: Seq<Seq<u8>>,
    upload_id: Seq<char>,
    server: spec_fn(i32, Seq<u8>) -> ReceiptView,
)
    requires
        s.phase is Pending,
        s.part_size > 0,
        chunks.len() > 0,
        chunks.flatten().len() < i32::MAX * s.part_size,
    ensures
        ({
            let (after, sent) = write_all(s, chunks, upload_id, server);
            &&& after.location == s.location && after.part_size == s.part_size && after.checksum
                == s.checksum
            &&& after.asked is Nothing
            &&& forall|i: int|
                #![trigger sent[i]]
                0 <= i < sent.len() ==> {
                    &&& sent[i].part_number == i + 1
                    &&& sent[i].upload_id == upload_id
                    &&& sent[i].location == s.location
                    &&& sent[i].checksum_algorithm == "CRC64NVME"@
                    &&& sent[i].body.len() == s.part_size
                }
            &&& after.phase matches Phase::Uploading(u) && {
                &&& u.upload_id == upload_id
                &&& u.next_part_number == sent.len() + 1
                &&& u.buffer.len() < s.part_size
                &&& bodies_of(sent).flatten() + u.buffer == chunks.flatten()
                &&& u.parts.len() == sent.len()
                &&& forall|i: int|
                    #![trigger u.parts[i]]
                    0 <= i < sent.len() ==> {
                        &&& u.parts[i].part_number == i + 1
                        &&& u.parts[i].e_tag == server(sent[i].part_number, sent[i].body).e_tag
                        &&& u.parts[i].checksum_crc64_nvme == server(
                            sent[i].part_number,
                            sent[i].body,
                        ).checksum_crc64_nvme
                    }
            }
        }),
{
    let size = s.part_size as nat;
    let bytes = chunks.flatten();
    lemma_cuts(bytes, size);
    lemma_part_count(bytes.len() as int, cuts(bytes, size).len() as int, size as int);
    law_whole_parts_go_out_at_once(s, chunks, upload_id, server);
    let (after, sent) = write_all(s, chunks, upload_id, server);
    assert(bodies_of(sent) =~= cuts(bytes, size));
}

/// So many whole parts fit into fewer bytes than one part more would have.
proof fn lemma_part_count(bytes: int, parts: int, size: int)
    requires
        size > 0,
        parts * size <= bytes,
        bytes < i32::MAX * size,
    ensures
        parts < i32::MAX,
{
    assert(parts < i32::MAX) by (nonlinear_arith)
        requires
            size > 0,
            parts * size <= bytes,
            bytes < i32::MAX * size,
    ;
}

/// A completed upload is the file. Whatever chunks its bytes come in and
/// whatever the server answers to the parts, the bodies of the parts sent, one
/// after the other, are the bytes; all but the last have exactly the part size,
/// and the last no more; and the completion lists exactly these parts, in order,
/// each under its number with the ETag and the checksum that the server gave for
/// it, and with no other checksum.
pub proof fn law_completed_upload_is_the_file(
    s: SinkView,
    chunks: Seq<Seq<u8>>,
    upload_id: Seq<char>,
    server: spec_fn(i32, Seq<u8>) -> ReceiptView,
)
    requires
        s.phase is Pending,
        s.part_size > 0,
        0 < chunks.flatten().len() < i32::MAX * s.part_size,
    ensures
        ({
            let (written, sent) = write_all(s, chunks, upload_id, server);
            let (last, outcome) = end(written, server);
            let requests = sent + last;
            &&& requests.len() > 0
            &&& bodies_of(requests).flatten() == chunks.flatten()
            &&& forall|i: int|
                #![trigger requests[i]]
                0 <= i < requests.len() ==> {
                    &&& requests[i].part_number == i + 1
                    &&& requests[i].upload_id == upload_id
                    &&& requests[i].location == s.location
                    &&& requests[i].checksum_algorithm == "CRC64NVME"@
                    &&& 0 < requests[i].body.len() <= s.part_size
                    &&& i < requests.len() - 1 ==> requests[i].body.len() == s.part_size
                }
            &&& outcome matches Ok(FinalizeActionView::CompleteMultipartUpload(c)) && {
                &&& c.location == s.location
                &&& c.upload_id == upload_id
                &&& c.parts.len() == requests.len()
                &&& forall|i: int|
                    #![trigger c.parts[i]]
                    0 <= i < c.parts.len() ==> {
                        &&& c.parts[i].part_number == Some((i + 1) as i32)
                        &&& c.parts[i].e_tag == server((i + 1) as i32, requests[i].body).e_tag
                        &&& c.parts[i].checksum_crc64_nvme == server(
                            (i + 1) as i32,
                            requests[i].body,
                        ).checksum_crc64_nvme
                        &&& !c.parts[i].other_checksums
                    }
            }
        }),
{
    let size = s.part_size as nat;
    let bytes = chunks.flatten();
    if chunks.len() == 0 {
        assert(chunks.flatten().len() == 0);
    }
    lemma_cuts(bytes, size);
    lemma_part_count(bytes.len() as int, cuts(bytes, size).len() as int, size as int);
    law_parts_make_up_the_bytes(bytes, size);
    law_upload_sends_every_byte(s, chunks, upload_id, server);
    let (written, sent) = write_all(s, chunks, upload_id, server);
    let (last, outcome) = end(written, server);
    let requests = sent + last;
    let bodies = pieces(bytes, size);
    assert(bodies_of(requests) =~= bodies);
    if bodies.len() == 0 {
        assert(bodies.flatten().len() == 0);
    }
    assert forall|i: int| #![trigger requests[i]] 0 <= i < requests.len() implies 0
        < requests[i].body.len() <= s.part_size by {
        if i < requests.len() - 1 {
            assert(requests[i].body == bodies[i]);
        } else {
            assert(requests[i].body == bodies.last());
        }
    }
}

/// A file that is prepared and then written as announced goes out in no more
/// than ten thousand parts, each but the last of at least 8 MiB.
pub proof fn law_prepared_file_goes_out_within_the_limits<E>(
    s: SinkView,
    name: Seq<char>,
    size: u64,
    checksum: Option<ChecksumView>,
    reply: HeadReplyView<E>,
    chunks: Seq<Seq<u8>>,
    upload_id: Seq<char>,
    server: spec_fn(i32, Seq<u8>) -> ReceiptView,
)
    requires
        prepare_step(s, name, size, checksum, reply).1 matches Ok(PreparedView::Resume { .. }),
        size <= 10_000 * usize::MAX,
        chunks.flatten().len() == size,
    ensures
        ({
            let ready = prepare_step(s, name, size, checksum, reply).0;
            let (written, sent) = write_all(ready, chunks, upload_id, server);
            let requests = sent + end(written, server).0;
            &&& 0 < requests.len() <= 10_000
            &&& bodies_of(requests).flatten() == chunks.flatten()
            &&& forall|i: int|
                0 <= i < requests.len() - 1 ==> (#[trigger] requests[i]).body.len() >= 8_388_608
        }),
{
    let ready = prepare_step(s, name, size, checksum, reply).0;
    law_announced_file_stays_within_the_limits(
        s,
        name,
        size,
        checksum,
        reply,
        chunks,
        upload_id,
        server,
    );
    let (written, sent) = write_all(ready, chunks, upload_id, server);
    let requests = sent + end(written, server).0;
    assert(bodies_of(requests) =~= pieces(chunks.flatten(), part_size(size as nat)));
}

/// How the source splits the bytes into chunks makes no difference.
pub proof fn law_chunking_does_not_matter(
    s: SinkView,
    chunks: Seq<Seq<u8>>,
    others: Seq<Seq<u8>>,
    upload_id: Seq<char>,
    server: spec_fn(i32, Seq<u8>) -> ReceiptView,
)
    requires
        s.phase is Pending,
        s.part_size > 0,
        chunks.len() > 0,
        others.len() > 0,
        chunks.flatten() == others.flatten(),
        1 + cuts(chunks.flatten(), s.part_size as nat).len() <= i32::MAX,
    ensures
        write_all(s, chunks, upload_id, server) == write_all(s, others, upload_id, server),
{
    law_parts_make_up_the_bytes(chunks.flatten(), s.part_size as nat);
    law_whole_parts_go_out_at_once(s, chunks, upload_id, server);
    law_whole_parts_go_out_at_once(s, others, upload_id, server);
}

/// A file that is uploaded as it was announced stays within the limits of S3:
/// it has no more than the allowed number of parts, numbered within the limit.
/// Every part but the last has exactly the part size chosen for the file, which
/// is at least the minimum, and the last has at least one byte and no more than
/// that. The bodies together are the file.
pub proof fn law_announced_file_stays_within_the_limits<E>(
    s: SinkView,
    name: Seq<char>,
    size: u64,
    checksum: Option<ChecksumView>,
    reply: HeadReplyView<E>,
    chunks: Seq<Seq<u8>>,
    upload_id: Seq<char>,
    server: spec_fn(i32, Seq<u8>) -> ReceiptView,
)
    requires
        prepare_step(s, name, size, checksum, reply).1 matches Ok(PreparedView::Resume { .. }),
        part_size(size as nat) <= usize::MAX,
        chunks.flatten().len() == size,
    ensures
        ({
            let ready = prepare_step(s, name, size, checksum, reply).0;
            let (written, sent) = write_all(ready, chunks, upload_id, server);
            let (last, outcome) = end(written, server);
            let requests = sent + last;
            &&& 0 < requests.len() <= MAX_PARTS
            &&& forall|i: int|
                0 <= i < requests.len() ==> 1 <= (#[trigger] requests[i]).part_number <= MAX_PARTS
            &&& part_size(size as nat) >= MIN_PART_SIZE
            &&& forall|i: int|
                0 <= i < requests.len() - 1 ==> (#[trigger] requests[i]).body.len() == part_size(
                    size as nat,
                )
            &&& 1 <= requests.last().body.len() <= part_size(size as nat)
            &&& requests == part_requests(
                s,
                upload_id,
                1,
                pieces(chunks.flatten(), part_size(size as nat)),
            )
            &&& pieces(chunks.flatten(), part_size(size as nat)).flatten() == chunks.flatten()
            &&& outcome matches Ok(FinalizeActionView::CompleteMultipartUpload(_))
        }),
{
    let ready = prepare_step(s, name, size, checksum, reply).0;
    let bytes = chunks.flatten();
    let p = ready.part_size as nat;
    law_part_size_keeps_the_limits(size as nat);
    if chunks.len() == 0 {
        assert(chunks.flatten().len() == 0);
    }
    law_parts_make_up_the_bytes(bytes, p);
    let bodies = pieces(bytes, p);
    law_upload_sends_every_byte(ready, chunks, upload_id, server);
    assert(part_requests(ready, upload_id, 1, bodies) =~= part_requests(s, upload_id, 1, bodies));
    if bodies.len() == 0 {
        assert(bodies.flatten().len() == 0);
    }
}

/// No upload exists before the first chunk: a sink that has none gets one only
/// when S3 answers the creation that a chunk asked for. Preparing, restarting
/// and ending create nothing.
pub proof fn law_upload_is_created_by_the_first_chunk<E>(
    s: SinkView,
    name: Seq<char>,
    size: u64,
    checksum: Option<ChecksumView>,
    reply: HeadReplyView<E>,
    write_event: WriteEventView<E>,
    finalize_event: FinalizeEventView<E>,
)
    requires
        !(s.phase is Uploading),
    ensures
        !(prepare_step(s, name, size, checksum, reply).0.phase is Uploading),
        !(restart_step(s).0.phase is Uploading) && restart_step(s).1 is None,
        finalize_step(s, finalize_event).0 == with_asked(s, Asked::Ended),
        finalize_event is Start ==> finalize_step(s, finalize_event).1 is Err,
        !(finalize_step(s, finalize_event).1 matches Ok(FinalizeActionView::UploadPart(_))),
        !(finalize_step(s, finalize_event).1 matches Ok(
            FinalizeActionView::CompleteMultipartUpload(_),
        )),
        write_step(s, write_event).1 matches Ok(WriteActionView::CreateMultipartUpload(_))
            <==> s.phase is Pending && write_event is Chunk,
        write_step(s, write_event).0.phase is Uploading <==> s.phase is Pending && (
        write_event matches WriteEventView::Created { reply: Ok(Some(_)), .. }),
{
}

/// Starting over aborts the upload in progress and keeps nothing of it: what is
/// uploaded afterwards is what is written afterwards, as part 1 and following of
/// an upload of its own, to the same location and with the same checksum.
pub proof fn law_restart_begins_anew(
    s: SinkView,
    chunks: Seq<Seq<u8>>,
    upload_id: Seq<char>,
    server: spec_fn(i32, Seq<u8>) -> ReceiptView,
)
    requires
        s.part_size > 0,
        chunks.len() > 0,
        1 + cuts(chunks.flatten(), s.part_size as nat).len() <= i32::MAX,
    ensures
        ({
            let (fresh, abort) = restart_step(s);
            let (written, sent) = write_all(fresh, chunks, upload_id, server);
            let (last, _) = end(written, server);
            &&& s.phase matches Phase::Uploading(u) ==> abort matches Some(a) && a.location
                == s.location && a.upload_id == u.upload_id
            &&& !(s.phase is Uploading) ==> abort is None
            &&& create_request(fresh) == create_request(s)
            &&& sent + last == part_requests(
                s,
                upload_id,
                1,
                pieces(chunks.flatten(), s.part_size as nat),
            )
            &&& pieces(chunks.flatten(), s.part_size as nat).flatten() == chunks.flatten()
        }),
{
    let (fresh, abort) = restart_step(s);
    law_upload_sends_every_byte(fresh, chunks, upload_id, server);
    let bodies = pieces(chunks.flatten(), s.part_size as nat);
    assert(part_requests(fresh, upload_id, 1, bodies) =~= part_requests(s, upload_id, 1, bodies));
}

/// Whatever request fails, its error is reported: by the step that takes the
/// reply, and as S3 gave it.
pub proof fn law_every_failure_is_reported<E>(
    s: SinkView,
    name: Seq<char>,
    size: u64,
    checksum: Option<ChecksumView>,
    chunk: Seq<u8>,
    e: E,
)
    ensures
        prepare_step(s, name, size, checksum, HeadReplyView::Failed(e)).1 == Err::<PreparedView, _>(
            FailureView::Sdk(e),
        ),
        s.phase is Pending ==> write_step(s, WriteEventView::Created { chunk, reply: Err(e) }).1
            == Err::<WriteActionView, _>(FailureView::Sdk(e)),
        write_step(s, WriteEventView::PartUploaded(Err(e))).1 == Err::<WriteActionView, _>(
            FailureView::Sdk(e),
        ),
        finalize_step(s, FinalizeEventView::LastPartUploaded(Err(e))).1 == Err::<
            FinalizeActionView,
            _,
        >(FailureView::Sdk(e)),
        finalize_step(s, FinalizeEventView::Completed(Err(e))).1 == Err::<FinalizeActionView, _>(
            FailureView::Sdk(e),
        ),
{
}

/// Whatever is at the destination, a file is never resumed from the middle: where
/// it is fetched at all, it is fetched from byte 0, hashed by the algorithm of
/// its checksum, and uploaded with that checksum.
pub proof fn law_fetching_starts_from_byte_zero<E>(
    s: SinkView,
    name: Seq<char>,
    size: u64,
    checksum: Option<ChecksumView>,
    reply: HeadReplyView<E>,
)
    ensures
        prepare_step(s, name, size, checksum, reply).1 matches Ok(
            PreparedView::Resume { received, partial },
        ) ==> {
            &&& received == 0
            &&& partial is Some <==> checksum is Some
            &&& checksum matches Some(c) ==> partial->0.algorithm == c.algorithm
            &&& prepare_step(s, name, size, checksum, reply).0.checksum == checksum
            &&& size > 0
        },
        !(reply is Failed) && size > 0 ==> prepare_step(s, name, size, checksum, reply).1 is Ok,
{
}

/// A request that fails, and a request that is refused, change nothing of what
/// the sink holds: only that nothing is outstanding any more, and that a sink
/// whose finalizing failed has ended.
pub proof fn law_failure_changes_nothing<E>(
    s: SinkView,
    name: Seq<char>,
    size: u64,
    checksum: Option<ChecksumView>,
    reply: HeadReplyView<E>,
    write_event: WriteEventView<E>,
    finalize_event: FinalizeEventView<E>,
)
    ensures
        prepare_step(s, name, size, checksum, reply).1 is Err ==> prepare_step(
            s,
            name,
            size,
            checksum,
            reply,
        ).0 == s,
        write_step(s, write_event).1 is Err ==> write_step(s, write_event).0 == with_asked(
            s,
            Asked::Nothing,
        ),
        finalize_step(s, finalize_event).1 is Err ==> finalize_step(s, finalize_event).0
            == with_asked(s, Asked::Ended),
{
}

/// A sink never moves: no step changes its location.
pub proof fn law_location_is_fixed<E>(
    s: SinkView,
    name: Seq<char>,
    size: u64,
    checksum: Option<ChecksumView>,
    reply: HeadReplyView<E>,
    write_event: WriteEventView<E>,
    finalize_event: FinalizeEventView<E>,
)
    ensures
        prepare_step(s, name, size, checksum, reply).0.location == s.location,
        write_step(s, write_event).0.location == s.location,
        restart_step(s).0.location == s.location,
        finalize_step(s, finalize_event).0.location == s.location,
        finalize_step(s, finalize_event).1 matches Ok(FinalizeActionView::Done(location))
            ==> location == s.location,
{
}

/// A sink that was never prepared takes no chunk, no reply and no end.
pub proof fn law_unprepared_sink_takes_nothing<E>(
    s: SinkView,
    write_event: WriteEventView<E>,
    finalize_event: FinalizeEventView<E>,
)
    requires
        s.phase is Idle,
    ensures
        !write_ready(s, write_event),
        !finalize_ready(s, finalize_event),
{
}

/// While a chunk is written, every action can be answered and nothing else can:
/// each request leaves the sink ready for the reply to it, of which the creation
/// is for the same chunk; and a chunk that is done or has failed leaves it ready
/// for another chunk or for the end, and for no reply.
pub proof fn law_every_write_action_can_be_answered<E>(
    s: SinkView,
    event: WriteEventView<E>,
    chunk: Seq<u8>,
    created: Result<Option<Seq<char>>, E>,
    uploaded: Result<ReceiptView, E>,
)
    requires
        write_ready(s, event),
    ensures
        ({
            let (next, outcome) = write_step(s, event);
            let creation = WriteEventView::Created { chunk, reply: created };
            let part = WriteEventView::PartUploaded(uploaded);
            match outcome {
                Ok(WriteActionView::CreateMultipartUpload(_)) => {
                    &&& write_ready(next, creation) <==> event == WriteEventView::<E>::Chunk(chunk)
                    &&& !write_ready(next, part)
                },
                Ok(WriteActionView::UploadPart(r)) => {
                    &&& r.part_number < i32::MAX ==> write_ready(next, part)
                    &&& !write_ready(next, creation)
                },
                _ => {
                    &&& write_ready(next, WriteEventView::<E>::Chunk(chunk))
                    &&& finalize_ready(next, FinalizeEventView::<E>::Start)
                    &&& !write_ready(next, creation)
                    &&& !write_ready(next, part)
                },
            }
        }),
{
}

/// While an upload is ended, every action can be answered and nothing else can.
/// Where the ending is over, the sink takes no chunk, no reply and no second end.
pub proof fn law_every_finalize_action_can_be_answered<E>(
    s: SinkView,
    event: FinalizeEventView<E>,
    write_event: WriteEventView<E>,
    uploaded: Result<ReceiptView, E>,
    completed: Result<Option<Seq<char>>, E>,
)
    requires
        finalize_ready(s, event),
    ensures
        ({
            let (next, outcome) = finalize_step(s, event);
            &&& !write_ready(next, write_event)
            &&& !finalize_ready(next, FinalizeEventView::<E>::Start)
            &&& finalize_ready(next, FinalizeEventView::LastPartUploaded(uploaded)) <==> (
            outcome matches Ok(FinalizeActionView::UploadPart(_)))
            &&& finalize_ready(next, FinalizeEventView::Completed(completed)) <==> (
            outcome matches Ok(FinalizeActionView::CompleteMultipartUpload(_)))
        }),
{
}

/// A sink that is prepared for an upload, and one that starts over, is ready for
/// a chunk or for the end, and for no reply.
pub proof fn law_prepared_sink_takes_chunks<E>(
    s: SinkView,
    name: Seq<char>,
    size: u64,
    checksum: Option<ChecksumView>,
    reply: HeadReplyView<E>,
    event: WriteEventView<E>,
)
    ensures
        prepare_step(s, name, size, checksum, reply).1 matches Ok(PreparedView::Resume { .. })
            ==> (write_ready(prepare_step(s, name, size, checksum, reply).0, event)
            <==> event is Chunk),
        prepare_step(s, name, size, checksum, reply).1 matches Ok(PreparedView::Resume { .. })
            ==> finalize_ready(
            prepare_step(s, name, size, checksum, reply).0,
            FinalizeEventView::<E>::Start,
        ),
        write_ready(restart_step(s).0, event) <==> event is Chunk,
        finalize_ready(restart_step(s).0, FinalizeEventView::<E>::Start),
{
}

/// Acknowledged parts are numbered from 1 without gaps. Until the last part is
/// acknowledged, the next number is the one after them; from then on it is that
/// of the last part.
pub open spec fn in_sequence(s: SinkView) -> bool {
    match s.phase {
        Phase::Uploading(u) => {
            &&& u.next_part_number == u.parts.len() + 1 || ((s.asked is Completion
                || s.asked is Ended) && u.next_part_number == u.parts.len())
            &&& forall|i: int|
                0 <= i < u.parts.len() ==> (#[trigger] u.parts[i]).part_number == i + 1
        },
        _ => true,
    }
}

/// Part numbers stay in sequence, whatever happens and in whatever order: every
/// step of preparing, writing, starting over and ending keeps them so.
pub proof fn law_parts_stay_in_sequence<E>(
    s: SinkView,
    name: Seq<char>,
    size: u64,
    checksum: Option<ChecksumView>,
    reply: HeadReplyView<E>,
    write_event: WriteEventView<E>,
    finalize_event: FinalizeEventView<E>,
)
    requires
        in_sequence(s),
    ensures
        in_sequence(prepare_step(s, name, size, checksum, reply).0),
        write_ready(s, write_event) ==> in_sequence(write_step(s, write_event).0),
        in_sequence(restart_step(s).0),
        finalize_ready(s, finalize_event) ==> in_sequence(finalize_step(s, finalize_event).0),
{
}

/// The list that completes an upload has its part numbers in sequence.
pub proof fn law_completion_lists_parts_in_sequence<E>(s: SinkView, event: FinalizeEventView<E>)
    requires
        in_sequence(s),
        finalize_ready(s, event),
    ensures
        finalize_step(s, event).1 matches Ok(FinalizeActionView::CompleteMultipartUpload(c))
            ==> c.parts.len() > 0 && forall|i: int|
            0 <= i < c.parts.len() ==> (#[trigger] c.parts[i]).part_number == Some((i + 1) as i32),
{
}

/// Every upload and every part asks S3 for CRC-64/NVME, and a file counts as
/// stored exactly when its completion reports such a checksum.
pub proof fn law_stored_objects_carry_crc64nvme<E>(
    s: SinkView,
    write_event: WriteEventView<E>,
    finalize_event: FinalizeEventView<E>,
)
    ensures
        write_step(s, write_event).1 matches Ok(WriteActionView::CreateMultipartUpload(r))
            ==> r.checksum_algorithm == "CRC64NVME"@,
        write_step(s, write_event).1 matches Ok(WriteActionView::UploadPart(r))
            ==> r.checksum_algorithm == "CRC64NVME"@,
        finalize_step(s, finalize_event).1 matches Ok(FinalizeActionView::UploadPart(r))
            ==> r.checksum_algorithm == "CRC64NVME"@,
        finalize_step(s, finalize_event).1 matches Ok(FinalizeActionView::Done(_)) <==> (
        finalize_event matches FinalizeEventView::Completed(Ok(Some(crc))) && crc.len() > 0),
{
}

/// A file that was uploaded with a checksum is recognised later: where the
/// object carries the metadata that its creation recorded, the same checksum
/// skips the upload whatever the sizes, and another digest of the same algorithm
/// never does.
pub proof fn law_recorded_checksum_is_recognised<E>(
    uploaded: SinkView,
    recorded: ChecksumView,
    head: HeadView,
    s: SinkView,
    name: Seq<char>,
    size: u64,
    checksum: ChecksumView,
)
    requires
        uploaded.checksum == Some(recorded),
        head.metadata matches Some(m) && create_request(uploaded).metadata matches Some(entry)
            && m.contains_pair(entry.0, entry.1),
        checksum.algorithm == recorded.algorithm,
    ensures
        prepare_step::<E>(s, name, size, Some(checksum), HeadReplyView::Found(head)).1 matches Ok(
            PreparedView::Skip { .. },
        ) <==> checksum.hex == recorded.hex,
        prepare_step::<E>(s, name, size, Some(checksum), HeadReplyView::Found(head)).1 matches Ok(
            PreparedView::Skip { location },
        ) ==> location == s.location,
{
}

/// Where the object records no checksum of the expected algorithm, and where no
/// checksum is expected, the upload is skipped exactly when the reported length
/// is the size; a length that is absent or negative counts as nothing.
pub proof fn law_size_decides_without_checksum<E>(
    s: SinkView,
    name: Seq<char>,
    size: u64,
    checksum: Option<ChecksumView>,
    head: HeadView,
)
    requires
        checksum matches Some(c) ==> (head.metadata matches Some(m) ==> !m.contains_key(
            c.algorithm.spec_name(),
        )),
    ensures
        prepare_step::<E>(s, name, size, checksum, HeadReplyView::Found(head)).1 matches Ok(
            PreparedView::Skip { .. },
        ) <==> reported_size(head.content_length) == size,
{
}

/// A file that is not at its destination is never skipped. An empty one is
/// refused; any other is fetched from byte 0 and hashed by the algorithm of its
/// checksum.
pub proof fn law_missing_file_is_fetched_whole<E>(
    s: SinkView,
    name: Seq<char>,
    size: u64,
    checksum: Option<ChecksumView>,
)
    ensures
        ({
            let (next, outcome) = prepare_step::<E>(
                s,
                name,
                size,
                checksum,
                HeadReplyView::NotFound,
            );
            &&& size == 0 ==> outcome is Err
            &&& size > 0 ==> outcome == Ok::<_, FailureView<E>>(
                PreparedView::Resume { received: 0, partial: hasher_for(checksum) },
            ) && next.phase is Pending && next.checksum == checksum
        }),
{
}

/// An empty file is never uploaded: it is skipped, or it is refused.
pub proof fn law_empty_file_is_never_uploaded<E>(
    s: SinkView,
    name: Seq<char>,
    checksum: Option<ChecksumView>,
    reply: HeadReplyView<E>,
)
    ensures
        !(prepare_step(s, name, 0, checksum, reply).1 matches Ok(PreparedView::Resume { .. })),
{
}

} // verus!
