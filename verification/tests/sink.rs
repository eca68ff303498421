//! The S3 sink driven against scripted replies.
use aws_sdk_s3::types::{ChecksumAlgorithm, CompletedPart};
use http_ferry::error::{Error, S3Failure};
use http_ferry::existing::{head_existing, HeadReply, ObjectHead};
use http_ferry::location::S3Location;
use http_ferry::metadata::Metadata;
use http_ferry::multipart::{PartReceipt, MIN_PART_SIZE};
use http_ferry::request::{
    CompleteMultipartUploadRequest, FinalizeAction, FinalizeEvent, UploadPartRequest, WriteAction,
    WriteEvent,
};
use http_ferry::s3::{S3Dest, S3Sink};
use http_ferry::transfer::{Algorithm, Checksum, Hasher, Prepared, Target};

const CRC: &str = "AAAAAAAAAAA=";

fn target() -> S3Location {
    S3Location {
        bucket: "bucket".into(),
        key: "key".into(),
    }
}

fn sha1(hex: &str) -> Checksum {
    Checksum::Sha1(hex.into())
}

fn head_404() -> HeadReply<String> {
    HeadReply::NotFound
}

fn head_200(size: u64, sha1: Option<&str>) -> HeadReply<String> {
    let mut metadata = Metadata::new();
    if let Some(s) = sha1 {
        metadata.insert("sha1".into(), s.into());
    }
    HeadReply::Found(ObjectHead {
        metadata: Some(metadata),
        content_length: Some(size as i64),
    })
}

fn receipt(number: i32) -> PartReceipt {
    PartReceipt {
        e_tag: Some(format!("\"part-etag-{number}\"")),
        checksum_crc64_nvme: Some(CRC.into()),
    }
}

fn prepared(size: u64, checksum: Option<&Checksum>) -> S3Sink {
    let mut sink = S3Sink::new(target());
    assert!(sink.is_idle());
    let r = sink.prepare(
        Target {
            name: "foo",
            size,
            checksum,
        },
        head_404(),
    );
    assert!(matches!(r, Ok(Prepared::Resume { received: 0, .. })));
    assert!(!sink.is_idle());
    sink
}

/// Writes one chunk against an S3 that answers everything.
fn write(sink: &mut S3Sink, chunk: &[u8], sent: &mut Vec<UploadPartRequest>) {
    let mut event: WriteEvent<'_, String> = WriteEvent::Chunk(chunk);
    loop {
        event = match sink.write_chunk(event).unwrap() {
            WriteAction::CreateMultipartUpload(_) => WriteEvent::Created {
                chunk,
                reply: Ok(Some("upload-id-1".into())),
            },
            WriteAction::UploadPart(request) => {
                let reply = receipt(request.part_number);
                sent.push(request);
                WriteEvent::PartUploaded(Ok(reply))
            }
            WriteAction::Done => return,
        };
    }
}

/// Ends the upload up to its completion request.
fn end(sink: &mut S3Sink, sent: &mut Vec<UploadPartRequest>) -> CompleteMultipartUploadRequest {
    let mut event: FinalizeEvent<String> = FinalizeEvent::Start;
    loop {
        event = match sink.finalize(event).unwrap() {
            FinalizeAction::UploadPart(request) => {
                let reply = receipt(request.part_number);
                sent.push(request);
                FinalizeEvent::LastPartUploaded(Ok(reply))
            }
            FinalizeAction::CompleteMultipartUpload(request) => return request,
            FinalizeAction::Done(_) => panic!("done before completion"),
        };
    }
}

fn message<T>(r: Result<T, Error<String>>) -> String {
    match r {
        Err(Error::S3(S3Failure::Message(m))) => m,
        Err(e) => panic!("another error: {}", e.message()),
        Ok(_) => panic!("no error"),
    }
}

fn sdk<T>(r: Result<T, Error<String>>) -> String {
    match r {
        Err(Error::S3(S3Failure::Sdk(e))) => e,
        Err(e) => panic!("another error: {}", e.message()),
        Ok(_) => panic!("no error"),
    }
}

#[test]
fn head_existing_returns_none_on_404() {
    let result = head_existing(head_404(), Some(&sha1("x"))).unwrap();
    assert!(result.is_none());
}

#[test]
fn head_existing_returns_object_with_sha1_metadata() {
    let obj = head_existing(head_200(42, Some("deadbeef")), Some(&sha1("x")))
        .unwrap()
        .expect("expected Some(ExistingObject)");
    assert_eq!(obj.checksum.as_ref().map(Checksum::hex), Some("deadbeef"));
    assert_eq!(obj.size, 42);
}

#[test]
fn head_existing_returns_object_without_sha1_metadata() {
    let obj = head_existing(head_200(100, None), Some(&sha1("x")))
        .unwrap()
        .expect("expected Some(ExistingObject)");
    assert!(obj.checksum.is_none());
    assert_eq!(obj.size, 100);
}

#[test]
fn head_existing_reads_the_expected_algorithm_only() {
    let mut metadata = Metadata::new();
    metadata.insert("sha1".into(), "first".into());
    metadata.insert("md5".into(), "other".into());
    metadata.insert("sha1".into(), "second".into());
    let head = ObjectHead {
        metadata: Some(metadata),
        content_length: Some(-3),
    };
    let obj = head_existing::<String>(HeadReply::Found(head), Some(&sha1("x")))
        .unwrap()
        .unwrap();
    assert!(matches!(obj.checksum, Some(Checksum::Sha1(ref hex)) if hex == "second"));
    assert_eq!(obj.size, 0);

    let obj = head_existing(head_200(7, Some("deadbeef")), Some(&Checksum::Md5("x".into())))
        .unwrap()
        .unwrap();
    assert!(obj.checksum.is_none());

    let obj = head_existing(head_200(7, Some("deadbeef")), None)
        .unwrap()
        .unwrap();
    assert!(obj.checksum.is_none());

    let head = ObjectHead {
        metadata: None,
        content_length: None,
    };
    let obj = head_existing::<String>(HeadReply::Found(head), Some(&sha1("x")))
        .unwrap()
        .unwrap();
    assert!(obj.checksum.is_none());
    assert_eq!(obj.size, 0);
}

#[test]
fn head_existing_fails_on_other_errors() {
    let r = head_existing(HeadReply::Failed("403".to_string()), None);
    assert_eq!(sdk(r), "403");
}

#[test]
fn prepare_skips_when_metadata_sha1_matches() {
    let mut sink = S3Sink::new(target());
    let cs = Some(sha1("abc123"));
    let prepared = sink
        .prepare(
            Target {
                name: "foo.warc",
                size: 42,
                checksum: cs.as_ref(),
            },
            head_200(42, Some("abc123")),
        )
        .unwrap();
    assert!(matches!(prepared, Prepared::Skip { .. }));
}

#[test]
fn prepare_skips_when_no_wasapi_sha1_and_object_size_matches() {
    let mut sink = S3Sink::new(target());
    let prepared = sink
        .prepare(
            Target {
                name: "foo.warc",
                size: 100,
                checksum: None,
            },
            head_200(100, None),
        )
        .unwrap();
    assert!(matches!(prepared, Prepared::Skip { .. }));
}

#[test]
fn prepare_skips_zero_byte_when_existing_size_matches() {
    let mut sink = S3Sink::new(target());
    let prepared = sink
        .prepare(
            Target {
                name: "zero.warc",
                size: 0,
                checksum: None,
            },
            head_200(0, None),
        )
        .unwrap();
    assert!(matches!(prepared, Prepared::Skip { .. }));
}

#[test]
fn prepare_rejects_zero_byte_when_no_existing_object() {
    let mut sink = S3Sink::new(target());
    let result = sink.prepare(
        Target {
            name: "zero.warc",
            size: 0,
            checksum: None,
        },
        head_404(),
    );
    assert!(matches!(result, Err(Error::S3(_))));
    assert_eq!(
        message(result),
        "refusing to upload zero-byte file zero.warc via multipart"
    );
}

#[test]
fn prepare_passes_a_failed_head_on() {
    let mut sink = S3Sink::new(target());
    let result = sink.prepare(
        Target {
            name: "foo",
            size: 5,
            checksum: None,
        },
        HeadReply::Failed("403".to_string()),
    );
    assert_eq!(sdk(result), "403");
}

#[test]
fn prepare_resumes_from_zero_with_the_matching_hasher() {
    let mut sink = S3Sink::new(target());
    let cs = Checksum::Md5("abc".into());
    let request = sink.head_request();
    assert_eq!(request.location.bucket, "bucket");
    assert_eq!(request.location.key, "key");
    let result = sink.prepare(
        Target {
            name: "foo",
            size: 5,
            checksum: Some(&cs),
        },
        head_200(5, Some("abc123")),
    );
    // The object has no md5, and its size matches.
    assert!(matches!(result, Ok(Prepared::Skip { ref location }) if location.key == "key"));
    let result = sink.prepare(
        Target {
            name: "foo",
            size: 6,
            checksum: Some(&cs),
        },
        head_200(5, Some("abc123")),
    );
    match result {
        Ok(Prepared::Resume { received, partial }) => {
            assert_eq!(received, 0);
            assert_eq!(
                partial,
                Some(Hasher {
                    algorithm: Algorithm::Md5
                })
            );
        }
        _ => panic!("not resumed"),
    }
    assert_eq!(Hasher::for_checksum(None), None);
}

#[test]
fn sink_uploads_single_part_end_to_end() {
    let mut sink = prepared(5, None);
    let mut sent = Vec::new();
    write(&mut sink, b"hello", &mut sent);
    assert!(sent.is_empty());
    let complete = end(&mut sink, &mut sent);
    assert_eq!(sent.len(), 1);
    assert_eq!(sent[0].body, b"hello");
    assert_eq!(sent[0].part_number, 1);
    assert_eq!(sent[0].upload_id, "upload-id-1");
    assert_eq!(complete.upload_id, "upload-id-1");
    let done = sink.finalize::<String>(FinalizeEvent::Completed(Ok(Some(CRC.into()))));
    match done {
        Ok(FinalizeAction::Done(location)) => {
            assert_eq!(location.bucket, "bucket");
            assert_eq!(location.key, "key");
        }
        _ => panic!("not done"),
    }
}

#[test]
fn sink_uploads_multi_part_when_buffer_exceeds_part_size() {
    let part_size = MIN_PART_SIZE;
    let total = (part_size * 2) + 10;
    let mut sink = prepared(total as u64, None);
    let mut sent = Vec::new();
    let chunk = vec![b'x'; part_size];
    write(&mut sink, &chunk, &mut sent);
    write(&mut sink, &chunk, &mut sent);
    write(&mut sink, b"tail-bytes", &mut sent);
    let complete = end(&mut sink, &mut sent);
    assert_eq!(sent.len(), 3);
    assert_eq!(complete.location.key, "key");
    assert_eq!(sent[0].body.len(), part_size);
    assert_eq!(sent[1].body.len(), part_size);
    assert_eq!(sent[2].body, b"tail-bytes");
    let numbers: Vec<i32> = sent.iter().map(|r| r.part_number).collect();
    assert_eq!(numbers, vec![1, 2, 3]);

    let parts = complete.multipart_upload.parts();
    assert_eq!(parts.len(), 3);
    for (i, part) in parts.iter().enumerate() {
        let number = i as i32 + 1;
        let expected = CompletedPart::builder()
            .e_tag(format!("\"part-etag-{number}\""))
            .checksum_crc64_nvme(CRC)
            .part_number(number)
            .build();
        assert_eq!(part, &expected);
    }
}

#[test]
fn finalize_errors_when_complete_response_lacks_crc() {
    let completed = |reply: Result<Option<String>, String>| {
        let mut sink = prepared(5, None);
        let mut sent = Vec::new();
        write(&mut sink, b"hello", &mut sent);
        end(&mut sink, &mut sent);
        sink.finalize(FinalizeEvent::Completed(reply))
    };
    let r = completed(Ok(None));
    assert!(matches!(r, Err(Error::S3(_))));
    assert_eq!(message(r), "complete_multipart_upload returned no crc64nvme");
    let r = completed(Ok(Some(String::new())));
    assert_eq!(message(r), "complete_multipart_upload returned no crc64nvme");
    let r = completed(Err("500".to_string()));
    assert_eq!(sdk(r), "500");
}

#[test]
fn one_chunk_of_many_parts_is_cut_to_the_byte() {
    let total = MIN_PART_SIZE * 2;
    let mut sink = prepared(total as u64, None);
    let bytes: Vec<u8> = (0..total).map(|i| (i % 251) as u8).collect();
    let mut sent = Vec::new();
    write(&mut sink, &bytes, &mut sent);
    assert_eq!(sent.len(), 2);
    let complete = end(&mut sink, &mut sent);
    // Nothing was left over, so no further part was sent.
    assert_eq!(sent.len(), 2);
    assert_eq!(complete.multipart_upload.parts().len(), 2);
    let joined: Vec<u8> = sent.iter().flat_map(|r| r.body.clone()).collect();
    assert!(joined == bytes);
}

#[test]
fn whole_parts_go_out_at_once() {
    let mut sink = prepared(MIN_PART_SIZE as u64 * 3, None);
    let mut sent = Vec::new();
    write(&mut sink, &vec![1u8; MIN_PART_SIZE - 1], &mut sent);
    assert!(sent.is_empty());
    write(&mut sink, &vec![2u8; MIN_PART_SIZE + 1], &mut sent);
    assert_eq!(sent.len(), 2);
    assert_eq!(sent[0].body.len(), MIN_PART_SIZE);
    assert_eq!(sent[0].body[MIN_PART_SIZE - 1], 2);
    write(&mut sink, &[3u8], &mut sent);
    assert_eq!(sent.len(), 2);
    let complete = end(&mut sink, &mut sent);
    assert_eq!(sent[2].body, [3u8]);
    assert_eq!(sent[2].part_number, 3);
    assert_eq!(complete.multipart_upload.parts().len(), 3);
}

#[test]
fn chunking_does_not_matter() {
    let total = MIN_PART_SIZE + 4321;
    let bytes: Vec<u8> = (0..total).map(|i| (i % 253) as u8).collect();
    let mut bodies: Vec<Vec<Vec<u8>>> = Vec::new();
    for size in [total, 1_000_003, MIN_PART_SIZE - 1] {
        let mut sink = prepared(total as u64, None);
        let mut sent = Vec::new();
        for chunk in bytes.chunks(size) {
            write(&mut sink, chunk, &mut sent);
        }
        end(&mut sink, &mut sent);
        bodies.push(sent.into_iter().map(|r| r.body).collect());
    }
    assert_eq!(bodies[0].len(), 2);
    assert!(bodies[0] == bodies[1]);
    assert!(bodies[0] == bodies[2]);
}

#[test]
fn first_chunk_asks_for_an_upload_with_crc64nvme_and_metadata() {
    let cs = sha1("abc123");
    let mut sink = prepared(5, Some(&cs));
    match sink.write_chunk::<String>(WriteEvent::Chunk(b"hello")) {
        Ok(WriteAction::CreateMultipartUpload(request)) => {
            assert_eq!(request.location.bucket, "bucket");
            assert_eq!(request.location.key, "key");
            assert_eq!(request.checksum_algorithm, "CRC64NVME");
            assert_eq!(
                ChecksumAlgorithm::from(request.checksum_algorithm.as_str()),
                ChecksumAlgorithm::Crc64Nvme
            );
            assert_eq!(request.metadata, Some(("sha1".into(), "abc123".into())));
        }
        _ => panic!("no creation"),
    }
    let mut sink = prepared(5, None);
    match sink.write_chunk::<String>(WriteEvent::Chunk(b"hello")) {
        Ok(WriteAction::CreateMultipartUpload(request)) => assert_eq!(request.metadata, None),
        _ => panic!("no creation"),
    }
}

#[test]
fn recorded_checksum_is_recognised_by_a_later_run() {
    let cs = sha1("abc123");
    let mut sink = prepared(5, Some(&cs));
    let recorded = match sink.write_chunk::<String>(WriteEvent::Chunk(b"hello")) {
        Ok(WriteAction::CreateMultipartUpload(request)) => request.metadata.unwrap(),
        _ => panic!("no creation"),
    };
    for (expected, skipped) in [("abc123", true), ("abc124", false)] {
        let mut metadata = Metadata::new();
        metadata.insert(recorded.0.clone(), recorded.1.clone());
        let head = HeadReply::Found(ObjectHead {
            metadata: Some(metadata),
            content_length: Some(999),
        });
        let cs = sha1(expected);
        let r = S3Sink::new(target()).prepare::<String>(
            Target {
                name: "foo",
                size: 5,
                checksum: Some(&cs),
            },
            head,
        );
        assert_eq!(matches!(r, Ok(Prepared::Skip { .. })), skipped);
    }
}

#[test]
fn failed_creation_leaves_the_sink_pending() {
    let mut sink = prepared(5, None);
    for _ in 0..2 {
        // A chunk that failed to create the upload asks for it again.
        assert!(matches!(
            sink.write_chunk::<String>(WriteEvent::Chunk(b"hello")),
            Ok(WriteAction::CreateMultipartUpload(_))
        ));
        let r = sink.write_chunk(WriteEvent::Created {
            chunk: b"hello",
            reply: Err("503".to_string()),
        });
        assert_eq!(sdk(r), "503");
    }
    assert!(matches!(
        sink.write_chunk::<String>(WriteEvent::Chunk(b"hello")),
        Ok(WriteAction::CreateMultipartUpload(_))
    ));
    let r = sink.write_chunk::<String>(WriteEvent::Created {
        chunk: b"hello",
        reply: Ok(None),
    });
    assert_eq!(message(r), "create_multipart_upload returned no upload_id");
    assert!(sink.restart().is_none());
    let r = sink.finalize::<String>(FinalizeEvent::Start);
    assert_eq!(message(r), "finalize called with no parts uploaded");
}

#[test]
fn failed_part_is_reported_and_not_listed() {
    let mut sink = prepared(MIN_PART_SIZE as u64 + 1, None);
    let chunk = vec![1u8; MIN_PART_SIZE];
    let mut event: WriteEvent<'_, String> = WriteEvent::Chunk(&chunk);
    loop {
        match sink.write_chunk(event) {
            Ok(WriteAction::CreateMultipartUpload(_)) => {
                event = WriteEvent::Created {
                    chunk: &chunk,
                    reply: Ok(Some("id".into())),
                };
            }
            Ok(WriteAction::UploadPart(_)) => {
                event = WriteEvent::PartUploaded(Err("timeout".into()));
            }
            Ok(WriteAction::Done) => panic!("done"),
            Err(e) => {
                assert_eq!(sdk::<()>(Err(e)), "timeout");
                break;
            }
        }
    }
    let r = sink.finalize::<String>(FinalizeEvent::Start);
    assert_eq!(message(r), "finalize called with no parts uploaded");
    let abort = sink.restart().unwrap();
    assert_eq!(abort.upload_id, "id");
    assert_eq!(abort.location.key, "key");
}

#[test]
fn failed_last_part_is_reported() {
    let mut sink = prepared(5, None);
    let mut sent = Vec::new();
    write(&mut sink, b"hello", &mut sent);
    assert!(matches!(
        sink.finalize::<String>(FinalizeEvent::Start),
        Ok(FinalizeAction::UploadPart(_))
    ));
    let r = sink.finalize(FinalizeEvent::LastPartUploaded(Err("reset".to_string())));
    assert_eq!(sdk(r), "reset");
}

#[test]
fn empty_chunks_make_no_parts() {
    let mut sink = prepared(5, None);
    let mut sent = Vec::new();
    write(&mut sink, b"", &mut sent);
    let r = sink.finalize::<String>(FinalizeEvent::Start);
    assert_eq!(message(r), "finalize called with no parts uploaded");
    // The upload was created all the same.
    assert_eq!(sink.restart().unwrap().upload_id, "upload-id-1");
}

#[test]
fn restart_begins_anew() {
    let cs = sha1("abc123");
    let mut sink = prepared(MIN_PART_SIZE as u64 + 5, Some(&cs));
    let mut sent = Vec::new();
    write(&mut sink, &vec![1u8; MIN_PART_SIZE + 3], &mut sent);
    assert_eq!(sent.len(), 1);
    assert_eq!(sink.restart().unwrap().upload_id, "upload-id-1");
    assert!(sink.restart().is_none());
    match sink.write_chunk::<String>(WriteEvent::Chunk(b"anew")) {
        Ok(WriteAction::CreateMultipartUpload(request)) => {
            assert_eq!(request.metadata, Some(("sha1".into(), "abc123".into())));
        }
        _ => panic!("no creation"),
    }
    let mut sent = Vec::new();
    write(&mut sink, b"anew", &mut sent);
    let complete = end(&mut sink, &mut sent);
    assert_eq!(sent.len(), 1);
    assert_eq!(sent[0].part_number, 1);
    assert_eq!(sent[0].body, b"anew");
    assert_eq!(complete.multipart_upload.parts().len(), 1);
}

#[test]
fn destination_puts_the_prefix_before_the_name() {
    let to = |prefix: Option<&str>| {
        let dest = S3Dest {
            bucket: "archive".into(),
            prefix: prefix.map(String::from),
        };
        dest.make(Target {
            name: "a.warc.gz",
            size: 1,
            checksum: None,
        })
        .head_request()
        .location
    };
    let location = to(Some("2024/"));
    assert_eq!(location.bucket, "archive");
    assert_eq!(location.key, "2024/a.warc.gz");
    assert_eq!(location.fmt_location(), "s3://archive/2024/a.warc.gz");
    assert_eq!(to(None).fmt_location(), "s3://archive/a.warc.gz");
}
