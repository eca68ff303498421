//! Parts of a multipart upload: how large they are, and the list that completes it.
use aws_sdk_s3::types::builders::CompletedMultipartUploadBuilder;
use aws_sdk_s3::types::CompletedMultipartUpload;
use vstd::prelude::*;

use crate::error::{Error, FailureView, S3Failure};
use crate::text::clone_text;

verus! {

/// No part but the last is smaller than this. S3 itself wants at least 5 MiB.
pub const MIN_PART_SIZE: usize = 8 * 1024 * 1024;

/// S3 takes no more parts than this for one object.
pub const MAX_PARTS: u64 = 10_000;

/// `n / d`, rounded up.
pub open spec fn ceil_div(n: nat, d: nat) -> nat
    recommends
        d > 0,
{
    ((n + d - 1) / d as int) as nat
}

/// The smallest part size, no less than the minimum, with which a file of
/// `file_size` bytes stays within the part limit.
pub open spec fn part_size(file_size: nat) -> nat {
    let fair = ceil_div(file_size, MAX_PARTS as nat);
    if fair > MIN_PART_SIZE {
        fair
    } else {
        MIN_PART_SIZE as nat
    }
}

/// The part size to upload a file of `file_size` bytes with. It is narrowed to
/// `usize`, which loses nothing where addresses have 64 bits.
pub fn part_size_for(file_size: u64) -> (r: usize)
    ensures
        r == part_size(file_size as nat) as usize,
        part_size(file_size as nat) <= usize::MAX ==> r == part_size(file_size as nat),
{
    let whole: u64 = file_size / MAX_PARTS;
    let fair: u64 = if file_size % MAX_PARTS == 0 {
        whole
    } else {
        whole + 1
    };
    assert(fair == ceil_div(file_size as nat, MAX_PARTS as nat));
    let size: u64 = if fair > MIN_PART_SIZE as u64 {
        fair
    } else {
        MIN_PART_SIZE as u64
    };
    size as usize
}

/// What S3 answers to an uploaded part.
#[derive(Debug)]
pub struct PartReceipt {
    pub e_tag: Option<String>,
    pub checksum_crc64_nvme: Option<String>,
}

/// A receipt with its texts as characters.
pub struct ReceiptView {
    pub e_tag: Option<Seq<char>>,
    pub checksum_crc64_nvme: Option<Seq<char>>,
}

impl View for PartReceipt {
    type V = ReceiptView;

    open spec fn view(&self) -> ReceiptView {
        ReceiptView {
            e_tag: self.e_tag.deep_view(),
            checksum_crc64_nvme: self.checksum_crc64_nvme.deep_view(),
        }
    }
}

/// A part that S3 has, as it is listed when the upload is completed.
#[derive(Debug)]
pub struct CompletedPart {
    pub e_tag: Option<String>,
    pub checksum_crc64_nvme: Option<String>,
    pub part_number: i32,
}

/// A completed part with its texts as characters.
pub struct PartView {
    pub e_tag: Option<Seq<char>>,
    pub checksum_crc64_nvme: Option<Seq<char>>,
    pub part_number: i32,
}

impl View for CompletedPart {
    type V = PartView;

    open spec fn view(&self) -> PartView {
        PartView {
            e_tag: self.e_tag.deep_view(),
            checksum_crc64_nvme: self.checksum_crc64_nvme.deep_view(),
            part_number: self.part_number,
        }
    }
}

/// The part that a receipt makes of part number `part_number`.
pub open spec fn received_part(part_number: i32, receipt: ReceiptView) -> PartView {
    PartView {
        e_tag: receipt.e_tag,
        checksum_crc64_nvme: receipt.checksum_crc64_nvme,
        part_number,
    }
}

/// A reply to an uploaded part, with the receipt as its view.
pub open spec fn part_reply_view<E>(reply: Result<PartReceipt, E>) -> Result<ReceiptView, E> {
    match reply {
        Ok(receipt) => Ok(receipt@),
        Err(e) => Err(e),
    }
}

/// Reads the reply to the upload of part `part_number`.
pub fn upload_part<E>(part_number: i32, reply: Result<PartReceipt, E>) -> (r: Result<
    CompletedPart,
    Error<E>,
>)
    ensures
        match part_reply_view(reply) {
            Ok(receipt) => r matches Ok(part) && part@ == received_part(part_number, receipt),
            Err(e) => r matches Err(err) && err.s3_failure() == Some(FailureView::Sdk(e)),
        },
{
    match reply {
        Ok(receipt) => Ok(
            CompletedPart {
                e_tag: receipt.e_tag,
                checksum_crc64_nvme: receipt.checksum_crc64_nvme,
                part_number,
            },
        ),
        Err(e) => Err(Error::S3(S3Failure::Sdk(e))),
    }
}

/// `aws_sdk_s3::types::builders::CompletedMultipartUploadBuilder`: a list of
/// parts under construction.
#[verifier::external_type_specification]
#[verifier::external_body]
pub struct ExCompletedMultipartUploadBuilder(CompletedMultipartUploadBuilder);

/// `aws_sdk_s3::types::CompletedMultipartUpload`: the list of parts that
/// completes an upload.
#[verifier::external_type_specification]
#[verifier::external_body]
pub struct ExCompletedMultipartUpload(CompletedMultipartUpload);

/// A part as it stands in the list that completes an upload.
pub struct ListedPart {
    pub e_tag: Option<Seq<char>>,
    pub checksum_crc64_nvme: Option<Seq<char>>,
    pub part_number: Option<i32>,
    /// Whether a checksum of any other algorithm is given.
    pub other_checksums: bool,
}

/// How a part is to be listed: with its own checksum and no other.
pub open spec fn listing(part: PartView) -> ListedPart {
    ListedPart {
        e_tag: part.e_tag,
        checksum_crc64_nvme: part.checksum_crc64_nvme,
        part_number: Some(part.part_number),
        other_checksums: false,
    }
}

/// The parts in a list under construction, in order.
pub uninterp spec fn parts_added(list: CompletedMultipartUploadBuilder) -> Seq<ListedPart>;

/// The parts in a finished list, in order.
pub uninterp spec fn parts_listed(upload: CompletedMultipartUpload) -> Seq<ListedPart>;

/// `CompletedMultipartUpload::builder`: a list with no parts in it.
#[verifier::external_body]
fn no_parts() -> (r: CompletedMultipartUploadBuilder)
    ensures
        parts_added(r).len() == 0,
{
    CompletedMultipartUpload::builder()
}

/// `CompletedMultipartUploadBuilder::parts`: the list with one more part at its
/// end. The part is made by `CompletedPart::builder` with these three fields
/// set and the other checksums left unset.
#[verifier::external_body]
fn add_part(
    list: CompletedMultipartUploadBuilder,
    e_tag: Option<String>,
    checksum_crc64_nvme: Option<String>,
    part_number: i32,
) -> (r: CompletedMultipartUploadBuilder)
    ensures
        parts_added(r) == parts_added(list).push(
            (ListedPart {
                e_tag: e_tag.deep_view(),
                checksum_crc64_nvme: checksum_crc64_nvme.deep_view(),
                part_number: Some(part_number),
                other_checksums: false,
            }),
        ),
{
    list.parts(
        aws_sdk_s3::types::CompletedPart::builder()
            .set_e_tag(e_tag)
            .set_checksum_crc64_nvme(checksum_crc64_nvme)
            .part_number(part_number)
            .build(),
    )
}

/// `CompletedMultipartUploadBuilder::build`: the finished list has the same parts.
#[verifier::external_body]
fn finish_list(list: CompletedMultipartUploadBuilder) -> (r: CompletedMultipartUpload)
    ensures
        parts_listed(r) == parts_added(list),
{
    list.build()
}

/// The views of a sequence of parts.
pub open spec fn part_views(parts: Seq<CompletedPart>) -> Seq<PartView> {
    parts.map_values(|p: CompletedPart| p@)
}

/// The list of parts that completes an upload.
pub(crate) fn list_parts(parts: &Vec<CompletedPart>) -> (r: CompletedMultipartUpload)
    ensures
        parts_listed(r) == part_views(parts@).map_values(|p: PartView| listing(p)),
{
    let mut list = no_parts();
    let mut i: usize = 0;
    while i < parts.len()
        invariant
            i <= parts@.len(),
            parts_added(list) =~= part_views(parts@).take(i as int).map_values(
                |p: PartView| listing(p),
            ),
        decreases parts@.len() - i,
    {
        let part = &parts[i];
        list = add_part(
            list,
            clone_text(&part.e_tag),
            clone_text(&part.checksum_crc64_nvme),
            part.part_number,
        );
        i = i + 1;
    }
    assert(part_views(parts@).take(i as int) =~= part_views(parts@));
    finish_list(list)
}

/// The name that S3 knows CRC-64/NVME by, the one algorithm in use.
pub(crate) fn crc64nvme() -> (r: String)
    ensures
        r@ == "CRC64NVME"@,
{
    "CRC64NVME".to_owned()
}

} // verus!
