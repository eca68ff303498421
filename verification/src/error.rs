//! Errors of the transfer engine, and what they say.
use reqwest::Error as RequestError;
use vstd::prelude::*;

use crate::text::{decimal, displays, join, lead_display, push_decimal};

verus! {

/// `std::io::Error`, carried through unread.
#[verifier::external_type_specification]
#[verifier::external_body]
pub struct ExIoError(std::io::Error);

/// `reqwest::Error`, carried through unread.
#[verifier::external_type_specification]
#[verifier::external_body]
pub struct ExRequestError(RequestError);

/// `reqwest::StatusCode`, carried through unread.
#[verifier::external_type_specification]
#[verifier::external_body]
pub struct ExStatusCode(reqwest::StatusCode);

/// `url::ParseError`, carried through unread.
#[verifier::external_type_specification]
#[verifier::external_body]
pub struct ExUrlParseError(url::ParseError);

/// `std::path::PathBuf`, carried through unread.
#[verifier::external_type_specification]
#[verifier::external_body]
pub struct ExPathBuf(std::path::PathBuf);

/// `std::path::Path`, what a `PathBuf` is read as.
#[verifier::external_type_specification]
#[verifier::external_body]
pub struct ExPath(std::path::Path);

/// `std::path::Display`, a path to be displayed.
#[verifier::external_type_specification]
#[verifier::external_body]
pub struct ExPathDisplay<'a>(std::path::Display<'a>);

/// `PathBuf::as_path`. Nothing is claimed of what it returns.
pub assume_specification[ std::path::PathBuf::as_path ](path: &std::path::PathBuf) -> (r:
    &std::path::Path);

/// `Path::display`. Nothing is claimed of what it returns.
pub assume_specification[ std::path::Path::display ](path: &std::path::Path) -> (r:
    std::path::Display<'_>);

/// Whether `text` is `lead` followed by how `path` is displayed: by what
/// `Path::display` returns for it.
pub open spec fn displays_path(
    lead: Seq<char>,
    path: &std::path::PathBuf,
    text: Seq<char>,
) -> bool {
    exists|borrowed: &std::path::Path, shown: std::path::Display<'_>|
        {
            &&& #[trigger] call_ensures(std::path::PathBuf::as_path, (path,), borrowed)
            &&& #[trigger] call_ensures(std::path::Path::display, (borrowed,), shown)
            &&& displays(lead, &shown, text)
        }
}

/// What went wrong on the S3 side: an error that the S3 client reported, or a
/// reply or request that the sink itself does not accept.
#[derive(Debug)]
pub enum S3Failure<E> {
    Sdk(E),
    Message(String),
}

/// An S3 failure with its message as characters.
pub enum FailureView<E> {
    Sdk(E),
    Message(Seq<char>),
}

impl<E> View for S3Failure<E> {
    type V = FailureView<E>;

    open spec fn view(&self) -> FailureView<E> {
        match *self {
            S3Failure::Sdk(e) => FailureView::Sdk(e),
            S3Failure::Message(m) => FailureView::Message(m@),
        }
    }
}

/// Errors produced by the transfer engine.
///
/// `E` is the type of the errors that come from outside the engine: what the
/// S3 client reports, and what a caller's URL resolver or item stream hands in
/// through [`Error::Source`]. The engine never looks into such a value.
#[allow(inconsistent_fields)]
#[derive(Debug)]
pub enum Error<E> {
    ChecksumMismatch { algorithm: &'static str, url: String, expected: String, actual: String },
    InvalidDownloadPath { path: std::path::PathBuf },
    InvalidRangeResponse { url: String, details: String },
    Io(std::io::Error),
    NotFound(String),
    Request(RequestError),
    S3(S3Failure<E>),
    SizeMismatch { url: String, expected: u64, actual: u64 },
    Source(E),
    Status(reqwest::StatusCode),
    Url(url::ParseError),
}

impl<E> Error<E> {
    /// Wraps a caller-supplied error, from the URL resolver or the input item
    /// stream, so that the caller gets the same value back out of it.
    pub fn from_source(err: E) -> (r: Self)
        ensures
            r == Error::Source(err),
    {
        Error::Source(err)
    }

    /// The failure that this error reports of S3, if it does.
    pub open spec fn s3_failure(self) -> Option<FailureView<E>> {
        match self {
            Error::S3(failure) => Some(failure@),
            _ => None,
        }
    }

    /// An S3 error with a message of the sink's own.
    pub(crate) fn s3_message(message: &str) -> (r: Self)
        ensures
            r.s3_failure() == Some(FailureView::<E>::Message(message@)),
    {
        Error::S3(S3Failure::Message(message.to_owned()))
    }
}

impl<E: core::fmt::Display> Error<E> {
    /// Whether `text` is what this error says.
    pub open spec fn says(self, text: Seq<char>) -> bool {
        match self {
            Error::ChecksumMismatch { algorithm, url, expected, actual } => text == algorithm@
                + " mismatch for "@ + url@ + ": expected "@ + expected@ + ", got "@ + actual@,
            Error::InvalidDownloadPath { path } => displays_path(
                "download path is not a single safe file name: "@,
                &path,
                text,
            ),
            Error::InvalidRangeResponse { url, details } => text == "invalid range response for "@
                + url@ + ": "@ + details@,
            Error::Io(e) => displays("I/O failed: "@, &e, text),
            Error::NotFound(resource) => text == "resource not found: "@ + resource@,
            Error::Request(e) => displays("HTTP request failed: "@, &e, text),
            Error::S3(S3Failure::Sdk(e)) => displays("S3 operation failed: "@, &e, text),
            Error::S3(S3Failure::Message(m)) => text == "S3 operation failed: "@ + m@,
            Error::SizeMismatch { url, expected, actual } => text == "downloaded "@ + decimal(
                actual as nat,
            ) + " bytes from "@ + url@ + "; expected "@ + decimal(expected as nat),
            Error::Source(e) => displays("source resolution failed: "@, &e, text),
            Error::Status(code) => displays("unexpected status: "@, &code, text),
            Error::Url(e) => displays("invalid URL: "@, &e, text),
        }
    }

    /// What this error says, in one line.
    pub fn message(&self) -> (text: String)
        ensures
            self.says(text@),
    {
        match self {
            Error::ChecksumMismatch { algorithm, url, expected, actual } => {
                let mut out = String::new();
                out.append(algorithm);
                out.append(" mismatch for ");
                out.append(url.as_str());
                out.append(": expected ");
                out.append(expected.as_str());
                out.append(", got ");
                out.append(actual.as_str());
                assert(out@ =~= algorithm@ + " mismatch for "@ + url@ + ": expected "@ + expected@
                    + ", got "@ + actual@);
                out
            },
            Error::InvalidDownloadPath { path } => {
                let borrowed = path.as_path();
                let shown = borrowed.display();
                assert(call_ensures(std::path::PathBuf::as_path, (path,), borrowed));
                assert(call_ensures(std::path::Path::display, (borrowed,), shown));
                lead_display("download path is not a single safe file name: ", &shown)
            },
            Error::InvalidRangeResponse { url, details } => {
                let mut out = join("invalid range response for ", url.as_str());
                out.append(": ");
                out.append(details.as_str());
                out
            },
            Error::Io(e) => lead_display("I/O failed: ", e),
            Error::NotFound(resource) => join("resource not found: ", resource.as_str()),
            Error::Request(e) => lead_display("HTTP request failed: ", e),
            Error::S3(S3Failure::Sdk(e)) => lead_display("S3 operation failed: ", e),
            Error::S3(S3Failure::Message(m)) => join("S3 operation failed: ", m.as_str()),
            Error::SizeMismatch { url, expected, actual } => {
                let mut out = join("downloaded ", "");
                push_decimal(&mut out, *actual);
                out.append(" bytes from ");
                out.append(url.as_str());
                out.append("; expected ");
                push_decimal(&mut out, *expected);
                proof {
                    reveal_strlit("");
                    assert(out@ =~= "downloaded "@ + decimal(*actual as nat) + " bytes from "@ + url@
                        + "; expected "@ + decimal(*expected as nat));
                }
                out
            },
            Error::Source(e) => lead_display("source resolution failed: ", e),
            Error::Status(code) => lead_display("unexpected status: ", code),
            Error::Url(e) => lead_display("invalid URL: ", e),
        }
    }
}

impl<E> From<std::io::Error> for Error<E> {
    fn from(e: std::io::Error) -> (r: Self) {
        Error::Io(e)
    }
}

impl<E> vstd::std_specs::convert::FromSpecImpl<std::io::Error> for Error<E> {
    open spec fn obeys_from_spec() -> bool {
        true
    }

    open spec fn from_spec(e: std::io::Error) -> Self {
        Error::Io(e)
    }
}

impl<E> From<RequestError> for Error<E> {
    fn from(e: RequestError) -> (r: Self) {
        Error::Request(e)
    }
}

impl<E> vstd::std_specs::convert::FromSpecImpl<RequestError> for Error<E> {
    open spec fn obeys_from_spec() -> bool {
        true
    }

    open spec fn from_spec(e: RequestError) -> Self {
        Error::Request(e)
    }
}

impl<E> From<url::ParseError> for Error<E> {
    fn from(e: url::ParseError) -> (r: Self) {
        Error::Url(e)
    }
}

impl<E> vstd::std_specs::convert::FromSpecImpl<url::ParseError> for Error<E> {
    open spec fn obeys_from_spec() -> bool {
        true
    }

    open spec fn from_spec(e: url::ParseError) -> Self {
        Error::Url(e)
    }
}

} // verus!
