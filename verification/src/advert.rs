//! The announcement of a firmware image: how the publisher states it in an
//! HTTP response and how the agent reads it back.

use vstd::prelude::*;
use vstd::utf8::{decode_utf8, encode_utf8, is_ascii_chars, valid_utf8};
use crate::checksum::{checksum, crc32};
use crate::decimal::{
    decimal_digits,
    format_decimal,
    is_digit,
    lemma_decimal_digits,
    lemma_parse_format,
};
use crate::header::{
    announced_crc,
    checksum_in,
    crc_field_name,
    get_crc,
    header_models,
    same_name,
    stated_crc,
    value_text,
    Header,
    HeaderModel,
};
use crate::text::{is_whitespace, trim_end, trim_start, trim_whitespace};

verus! {

/// Status code of an update response.
pub const STATUS_OK: u16 = 200;

/// What a response says about the image it carries.
#[derive(Debug, Clone, Copy, PartialEq, Eq, Structural)]
pub struct UpdateAdvertisement {
    /// Number of bytes in the image.
    pub content_length: u32,
    /// CRC32 of the whole image.
    pub target_checksum: u32,
}

/// An update response without its body.
#[derive(Debug, PartialEq, Eq)]
pub struct UpdateResponse {
    /// HTTP status code.
    pub status: u16,
    /// The header fields to send besides `Content-Length`.
    pub headers: Vec<Header>,
    /// Length of the body, sent as `Content-Length`.
    pub content_length: u32,
    /// Body length from which the transfer would be chunked.
    pub chunked_threshold: usize,
}

/// An update response as plain values.
pub struct ResponseModel {
    pub status: u16,
    pub headers: Seq<HeaderModel>,
    pub content_length: u32,
    pub chunked_threshold: usize,
}

impl View for UpdateResponse {
    type V = ResponseModel;

    open spec fn view(&self) -> ResponseModel {
        ResponseModel {
            status: self.status,
            headers: header_models(self.headers@),
            content_length: self.content_length,
            chunked_threshold: self.chunked_threshold,
        }
    }
}

/// The field name `Content-Type`.
pub open spec fn content_type_name() -> Seq<u8> {
    seq![
        0x43u8, 0x6fu8, 0x6eu8, 0x74u8, 0x65u8, 0x6eu8, 0x74u8, 0x2du8, 0x54u8, 0x79u8, 0x70u8,
        0x65u8,
    ]
}

/// The media type `application/octet-stream`.
pub open spec fn octet_stream() -> Seq<u8> {
    seq![
        0x61u8, 0x70u8, 0x70u8, 0x6cu8, 0x69u8, 0x63u8, 0x61u8, 0x74u8, 0x69u8, 0x6fu8, 0x6eu8,
        0x2fu8, 0x6fu8, 0x63u8, 0x74u8, 0x65u8, 0x74u8, 0x2du8, 0x73u8, 0x74u8, 0x72u8, 0x65u8,
        0x61u8, 0x6du8,
    ]
}

/// The header fields that announce an image with checksum `crc`: its media
/// type, then `target_crc` with the checksum in decimal.
pub open spec fn announcement_headers(crc: u32) -> Seq<HeaderModel> {
    seq![
        HeaderModel { name: content_type_name(), value: octet_stream() },
        HeaderModel { name: crc_field_name(), value: decimal_digits(crc as nat) },
    ]
}

/// The response that serves `firmware`: status 200, the announcement of its
/// checksum, its length, and no chunking whatever the length.
pub open spec fn response_for(firmware: Seq<u8>) -> ResponseModel {
    ResponseModel {
        status: 200,
        headers: announcement_headers(crc32(firmware)),
        content_length: firmware.len() as u32,
        chunked_threshold: usize::MAX,
    }
}

/// The length that an agent takes from a response: the `Content-Length`
/// reduced to 32 bits, and 0 where the response states none.
pub open spec fn declared(content_length: Option<usize>) -> u32 {
    match content_length {
        Some(n) => (n as nat % 0x1_0000_0000) as u32,
        None => 0,
    }
}

/// A firmware image as the publisher holds it: its bytes, which fit the 32
/// bits of an image size, together with their checksum.
#[derive(Debug)]
pub struct FirmwareImage {
    bytes: Vec<u8>,
    checksum: u32,
}

impl View for FirmwareImage {
    type V = Seq<u8>;

    closed spec fn view(&self) -> Seq<u8> {
        self.bytes@
    }
}

impl FirmwareImage {
    #[verifier::type_invariant]
    spec fn inv(self) -> bool {
        self.bytes@.len() <= u32::MAX && self.checksum == crc32(self.bytes@)
    }

    /// Takes the bytes read from the firmware file. There is no image of more
    /// bytes than 32 bits can count.
    pub fn new(bytes: Vec<u8>) -> (image: Option<FirmwareImage>)
        ensures
            image is Some <==> bytes@.len() <= u32::MAX,
            image matches Some(i) ==> i@ == bytes@,
    {
        if bytes.len() > 0xffff_ffff {
            return None;
        }
        let checksum = checksum(bytes.as_slice());
        Some(FirmwareImage { bytes, checksum })
    }

    /// Number of bytes in the image.
    pub fn len(&self) -> (len: u32)
        ensures
            len == self@.len(),
    {
        proof {
            use_type_invariant(self);
        }
        self.bytes.len() as u32
    }

    /// CRC32 of the image.
    pub fn checksum(&self) -> (sum: u32)
        ensures
            sum == crc32(self@),
    {
        proof {
            use_type_invariant(self);
        }
        self.checksum
    }

    /// The bytes of the image.
    pub fn bytes(&self) -> (bytes: &[u8])
        ensures
            bytes@ == self@,
    {
        self.bytes.as_slice()
    }

    /// Gives the bytes up, to be sent as the body.
    pub fn into_bytes(self) -> (bytes: Vec<u8>)
        ensures
            bytes@ == self@,
    {
        self.bytes
    }

    /// What a response says about this image.
    pub fn advertisement(&self) -> (advert: UpdateAdvertisement)
        ensures
            advert.content_length == self@.len(),
            advert.target_checksum == crc32(self@),
    {
        UpdateAdvertisement { content_length: self.len(), target_checksum: self.checksum() }
    }
}

/// Builds the header fields that announce an image with checksum `crc`.
pub fn response_headers(crc: u32) -> (headers: Vec<Header>)
    ensures
        header_models(headers@) == announcement_headers(crc),
{
    let content_type = Header {
        name: vec![0x43, 0x6f, 0x6e, 0x74, 0x65, 0x6e, 0x74, 0x2d, 0x54, 0x79, 0x70, 0x65],
        value: vec![
            0x61, 0x70, 0x70, 0x6c, 0x69, 0x63, 0x61, 0x74, 0x69, 0x6f, 0x6e, 0x2f, 0x6f, 0x63,
            0x74, 0x65, 0x74, 0x2d, 0x73, 0x74, 0x72, 0x65, 0x61, 0x6d,
        ],
    };
    let target_crc = Header {
        name: vec![0x74, 0x61, 0x72, 0x67, 0x65, 0x74, 0x5f, 0x63, 0x72, 0x63],
        value: format_decimal(crc),
    };
    assert(content_type.name@ =~= content_type_name());
    assert(content_type.value@ =~= octet_stream());
    assert(target_crc.name@ =~= crc_field_name());
    let headers = vec![content_type, target_crc];
    assert(header_models(headers@) =~= announcement_headers(crc));
    headers
}

/// Plans the answer to a request for the image: status 200, its media
/// type and checksum in the headers, its length, and a body that is never
/// chunked.
pub fn handle_ota_update(image: &FirmwareImage) -> (response: UpdateResponse)
    ensures
        response@ == response_for(image@),
{
    UpdateResponse {
        status: STATUS_OK,
        headers: response_headers(image.checksum()),
        content_length: image.len(),
        chunked_threshold: usize::MAX,
    }
}

/// Reduces the `Content-Length` of a response to an image size.
pub fn declared_length(content_length: Option<usize>) -> (size: u32)
    ensures
        size == declared(content_length),
{
    match content_length {
        Some(n) => ((n as u64) % 0x1_0000_0000) as u32,
        None => 0,
    }
}

/// Reads the announcement out of a response's `Content-Length` and headers.
pub fn read_advertisement(content_length: Option<usize>, headers: &[Header]) -> (advert:
    UpdateAdvertisement)
    ensures
        advert.content_length == declared(content_length),
        advert.target_checksum == announced_crc(header_models(headers@)),
{
    UpdateAdvertisement {
        content_length: declared_length(content_length),
        target_checksum: get_crc(headers),
    }
}

/// Bytes below 0x80 are well-formed UTF-8 and encode one character each.
proof fn lemma_ascii_text(bytes: Seq<u8>)
    requires
        forall|i: int| 0 <= i < bytes.len() ==> #[trigger] bytes[i] < 0x80,
    ensures
        valid_utf8(bytes),
        decode_utf8(bytes) == Seq::new(bytes.len(), |i: int| bytes[i] as char),
        encode_utf8(decode_utf8(bytes)) == bytes,
{
    let chars = Seq::new(bytes.len(), |i: int| bytes[i] as char);
    assert(is_ascii_chars(chars)) by {
        assert forall|i: int| 0 <= i < chars.len() implies '\0' <= #[trigger] chars[i]
            <= '\u{7f}' by {
            assert(bytes[i] < 0x80);
        }
    }
    vstd::utf8::is_ascii_chars_encode_utf8(chars);
    assert(encode_utf8(chars) =~= bytes) by {
        assert forall|i: int| 0 <= i < bytes.len() implies encode_utf8(chars)[i] == bytes[i] by {
            assert(bytes[i] < 0x80);
            assert(chars[i] as u8 == bytes[i]);
        }
    }
    vstd::utf8::encode_utf8_valid_utf8(chars);
    vstd::utf8::encode_utf8_decode_utf8(chars);
}

/// A field value that is a rendered number states that number.
pub proof fn lemma_checksum_in_decimal(crc: u32)
    ensures
        checksum_in(decimal_digits(crc as nat)) == Some(crc),
{
    let digits = decimal_digits(crc as nat);
    lemma_decimal_digits(crc as nat);
    lemma_parse_format(crc);
    assert forall|i: int| 0 <= i < digits.len() implies #[trigger] digits[i] < 0x80 by {
        assert(is_digit(digits[i]));
    }
    lemma_ascii_text(digits);
    let chars = decode_utf8(digits);
    assert(value_text(digits) == chars);
    assert(is_digit(digits[0]));
    assert(is_digit(digits[digits.len() - 1]));
    assert(!is_whitespace(chars.first()));
    assert(!is_whitespace(chars.last()));
    assert(trim_start(chars) == chars);
    assert(trim_end(chars) == chars);
    assert(trim_whitespace(chars) == chars);
}

/// The agent reads from the publisher's response the checksum and the length
/// of the image that the publisher served.
pub proof fn lemma_announcement_round_trip(firmware: Seq<u8>)
    requires
        firmware.len() <= u32::MAX,
    ensures
        announced_crc(response_for(firmware).headers) == crc32(firmware),
        declared(Some(response_for(firmware).content_length as usize)) == firmware.len(),
{
    let crc = crc32(firmware);
    let headers = announcement_headers(crc);
    lemma_checksum_in_decimal(crc);
    assert(!same_name(headers.first().name, crc_field_name()));
    let rest = headers.drop_first();
    assert(rest.first() == headers[1]);
    assert(same_name(rest.first().name, crc_field_name()));
    assert(stated_crc(rest) == Some(crc));
}

/// What the publisher announces is what a validating storage accepts: the
/// bytes that were served, staged unchanged, have the checksum that the
/// agent reads from the response.
pub proof fn lemma_served_image_validates(firmware: Seq<u8>, staged: Seq<u8>)
    requires
        firmware.len() <= u32::MAX,
        staged =~= firmware,
    ensures
        crc32(staged) == announced_crc(response_for(firmware).headers),
{
    lemma_announcement_round_trip(firmware);
}

} // verus!
