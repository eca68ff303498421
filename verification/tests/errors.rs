//! What errors say, and what they are made from.
use http_ferry::archive_it;
use http_ferry::error::{Error, S3Failure};
use http_ferry::multipart::{part_size_for, MAX_PARTS, MIN_PART_SIZE};
use http_ferry::transfer::Checksum;

fn request_error() -> reqwest::Error {
    reqwest::Client::new().get("no scheme").build().unwrap_err()
}

fn io_error() -> std::io::Error {
    std::io::Error::new(std::io::ErrorKind::Other, "disk full")
}

#[test]
fn engine_errors_say_what_happened() {
    let said = |e: Error<String>| e.message();
    assert_eq!(
        said(Error::ChecksumMismatch {
            algorithm: "sha1",
            url: "http://a/b".into(),
            expected: "00".into(),
            actual: "ff".into(),
        }),
        "sha1 mismatch for http://a/b: expected 00, got ff"
    );
    assert_eq!(
        said(Error::InvalidDownloadPath { path: "../x".into() }),
        "download path is not a single safe file name: ../x"
    );
    assert_eq!(
        said(Error::InvalidRangeResponse {
            url: "http://a/b".into(),
            details: "no range".into(),
        }),
        "invalid range response for http://a/b: no range"
    );
    assert_eq!(said(Error::Io(io_error())), "I/O failed: disk full");
    assert_eq!(said(Error::NotFound("x".into())), "resource not found: x");
    assert_eq!(
        said(Error::Request(request_error())),
        format!("HTTP request failed: {}", request_error())
    );
    assert_eq!(
        said(Error::S3(S3Failure::Message("no parts".into()))),
        "S3 operation failed: no parts"
    );
    assert_eq!(
        said(Error::S3(S3Failure::Sdk("denied".into()))),
        "S3 operation failed: denied"
    );
    assert_eq!(
        said(Error::SizeMismatch {
            url: "http://a/b".into(),
            expected: 18446744073709551615,
            actual: 0,
        }),
        "downloaded 0 bytes from http://a/b; expected 18446744073709551615"
    );
    assert_eq!(
        said(Error::Source("no url".into())),
        "source resolution failed: no url"
    );
    assert_eq!(
        said(Error::Status(reqwest::StatusCode::NOT_FOUND)),
        "unexpected status: 404 Not Found"
    );
    assert_eq!(
        said(Error::Url(url::ParseError::EmptyHost)),
        "invalid URL: empty host"
    );
}

#[test]
fn client_errors_say_what_happened() {
    assert_eq!(
        archive_it::Error::Empty.message(),
        "authenticated account list was empty"
    );
    assert_eq!(archive_it::Error::Io(io_error()).message(), "I/O failed: disk full");
    assert_eq!(
        archive_it::Error::NotFound("x".into()).message(),
        "resource not found: x"
    );
    assert_eq!(
        archive_it::Error::PrimaryLocationMissing {
            filename: "a.warc".into()
        }
        .message(),
        "no primary WARC location for a.warc"
    );
    assert_eq!(
        archive_it::Error::Request(request_error()).message(),
        format!("HTTP request failed: {}", request_error())
    );
    assert_eq!(
        archive_it::Error::Status(reqwest::StatusCode::IM_A_TEAPOT).message(),
        "unexpected status: 418 I'm a teapot"
    );
    assert_eq!(
        archive_it::Error::Url(url::ParseError::InvalidPort).message(),
        "invalid URL: invalid port number"
    );
}

#[test]
fn outside_errors_convert() {
    assert!(matches!(
        Error::<String>::from(io_error()),
        Error::Io(_)
    ));
    assert!(matches!(
        Error::<String>::from(request_error()),
        Error::Request(_)
    ));
    assert!(matches!(
        Error::<String>::from(url::ParseError::EmptyHost),
        Error::Url(url::ParseError::EmptyHost)
    ));
    assert!(matches!(
        archive_it::Error::from(io_error()),
        archive_it::Error::Io(_)
    ));
    assert!(matches!(
        archive_it::Error::from(request_error()),
        archive_it::Error::Request(_)
    ));
    assert!(matches!(
        archive_it::Error::from(url::ParseError::EmptyHost),
        archive_it::Error::Url(url::ParseError::EmptyHost)
    ));
}

#[test]
fn source_errors_come_back_as_they_went_in() {
    let boxed: Box<dyn std::error::Error + Send + Sync> = Box::new(io_error());
    let e = Error::from_source(boxed);
    assert_eq!(e.message(), "source resolution failed: disk full");
    match e {
        Error::Source(inner) => {
            let io = inner.downcast::<std::io::Error>().unwrap();
            assert_eq!(io.to_string(), "disk full");
        }
        _ => panic!("not a source error"),
    }
}

#[test]
fn checksums_know_their_algorithm() {
    let sha1 = Checksum::Sha1("aa".into());
    let md5 = Checksum::Md5("bb".into());
    assert_eq!(sha1.algorithm(), "sha1");
    assert_eq!(md5.algorithm(), "md5");
    assert_eq!(md5.hex(), "bb");
    assert!(matches!(md5.with_value("cc".into()), Checksum::Md5(ref hex) if hex == "cc"));
    assert!(matches!(sha1.clone(), Checksum::Sha1(ref hex) if hex == "aa"));
}

#[test]
fn part_size_is_exact_at_the_edges() {
    assert_eq!(part_size_for(0), MIN_PART_SIZE);
    assert_eq!(part_size_for(u64::MAX), 1844674407370956);
    let p = (MIN_PART_SIZE as u64) * 3;
    assert_eq!(part_size_for(p * MAX_PARTS), p as usize);
    assert_eq!(part_size_for(p * MAX_PARTS - 1), p as usize);
    assert_eq!(part_size_for(p * MAX_PARTS + 1), p as usize + 1);
}
