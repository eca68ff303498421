//! Errors of the archive client that uses the transfer engine.
use reqwest::Error as RequestError;
use vstd::prelude::*;

use crate::text::{displays, join, lead_display};

verus! {

/// What can go wrong when the client lists accounts and files.
#[derive(Debug)]
pub enum Error {
    Empty,
    Io(std::io::Error),
    NotFound(String),
    PrimaryLocationMissing { filename: String },
    Request(RequestError),
    Status(reqwest::StatusCode),
    Url(url::ParseError),
}

impl Error {
    /// Whether `text` is what this error says.
    pub open spec fn says(self, text: Seq<char>) -> bool {
        match self {
            Error::Empty => text == "authenticated account list was empty"@,
            Error::Io(e) => displays("I/O failed: "@, &e, text),
            Error::NotFound(resource) => text == "resource not found: "@ + resource@,
            Error::PrimaryLocationMissing { filename } => text == "no primary WARC location for "@
                + filename@,
            Error::Request(e) => displays("HTTP request failed: "@, &e, text),
            Error::Status(code) => displays("unexpected status: "@, &code, text),
            Error::Url(e) => displays("invalid URL: "@, &e, text),
        }
    }

    /// What this error says, in one line.
    pub fn message(&self) -> (text: String)
        ensures
            self.says(text@),
    {
        match self {
            Error::Empty => "authenticated account list was empty".to_owned(),
            Error::Io(e) => lead_display("I/O failed: ", e),
            Error::NotFound(resource) => join("resource not found: ", resource.as_str()),
            Error::PrimaryLocationMissing { filename } => {
                join("no primary WARC location for ", filename.as_str())
            },
            Error::Request(e) => lead_display("HTTP request failed: ", e),
            Error::Status(code) => lead_display("unexpected status: ", code),
            Error::Url(e) => lead_display("invalid URL: ", e),
        }
    }
}

impl From<std::io::Error> for Error {
    fn from(e: std::io::Error) -> (r: Self) {
        Error::Io(e)
    }
}

impl vstd::std_specs::convert::FromSpecImpl<std::io::Error> for Error {
    open spec fn obeys_from_spec() -> bool {
        true
    }

    open spec fn from_spec(e: std::io::Error) -> Self {
        Error::Io(e)
    }
}

impl From<RequestError> for Error {
    fn from(e: RequestError) -> (r: Self) {
        Error::Request(e)
    }
}

impl vstd::std_specs::convert::FromSpecImpl<RequestError> for Error {
    open spec fn obeys_from_spec() -> bool {
        true
    }

    open spec fn from_spec(e: RequestError) -> Self {
        Error::Request(e)
    }
}

impl From<url::ParseError> for Error {
    fn from(e: url::ParseError) -> (r: Self) {
        Error::Url(e)
    }
}

impl vstd::std_specs::convert::FromSpecImpl<url::ParseError> for Error {
    open spec fn obeys_from_spec() -> bool {
        true
    }

    open spec fn from_spec(e: url::ParseError) -> Self {
        Error::Url(e)
    }
}

} // verus!
