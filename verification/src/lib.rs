//! A verified core for ferrying bytes from an HTTP source into a sink.
//!
//! The transport (sockets, clients, retries) lives outside this crate. What
//! stands here is the part that decides: the errors and what they say, the
//! checksums that identify a file, and the S3 multipart-upload sink as a state
//! machine from replies to requests.
pub mod archive_it;
pub mod calls;
pub mod error;
pub mod existing;
pub mod laws;
pub mod location;
pub mod metadata;
pub mod model;
pub mod multipart;
pub mod pieces;
pub mod request;
pub mod s3;
pub mod text;
pub mod transfer;
