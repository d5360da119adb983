//! The header fields of an update response and the checksum they announce.

use vstd::prelude::*;
use vstd::utf8::{decode_utf8, encode_utf8, valid_utf8};
use crate::decimal::{parse_decimal, parse_u32};
use crate::text::{trim_whitespace, trimmed, utf8_text};

verus! {

/// One header field of an HTTP message.
#[derive(Debug, PartialEq, Eq)]
pub struct Header {
    pub name: Vec<u8>,
    pub value: Vec<u8>,
}

/// A header field as a pair of byte sequences.
pub struct HeaderModel {
    pub name: Seq<u8>,
    pub value: Seq<u8>,
}

impl View for Header {
    type V = HeaderModel;

    open spec fn view(&self) -> HeaderModel {
        HeaderModel { name: self.name@, value: self.value@ }
    }
}

impl Clone for Header {
    fn clone(&self) -> (copy: Self)
        ensures
            copy@ == self@,
    {
        let copy = Header { name: self.name.clone(), value: self.value.clone() };
        assert(copy.name@ =~= self.name@);
        assert(copy.value@ =~= self.value@);
        copy
    }
}

/// The fields of a header list, in order.
pub open spec fn header_models(headers: Seq<Header>) -> Seq<HeaderModel> {
    headers.map_values(|h: Header| h@)
}

/// The name of the field that announces the checksum: `target_crc`.
pub open spec fn crc_field_name() -> Seq<u8> {
    seq![0x74u8, 0x61u8, 0x72u8, 0x67u8, 0x65u8, 0x74u8, 0x5fu8, 0x63u8, 0x72u8, 0x63u8]
}

/// `b` with an ASCII capital letter replaced by its small letter.
pub open spec fn ascii_lower(b: u8) -> u8 {
    if 0x41 <= b <= 0x5a {
        (b + 0x20) as u8
    } else {
        b
    }
}

/// True when two names are equal up to the case of their ASCII letters.
pub open spec fn same_name(a: Seq<u8>, b: Seq<u8>) -> bool {
    &&& a.len() == b.len()
    &&& forall|i: int| 0 <= i < a.len() ==> ascii_lower(#[trigger] a[i]) == ascii_lower(b[i])
}

/// The text of a field value: its characters where the bytes are well-formed
/// UTF-8, and the single digit `0` where they are not.
pub open spec fn value_text(value: Seq<u8>) -> Seq<char> {
    if valid_utf8(value) {
        decode_utf8(value)
    } else {
        seq!['0']
    }
}

/// The checksum that a field value states, if it states one: its text, with
/// the whitespace around it dropped, read as a decimal number.
pub open spec fn checksum_in(value: Seq<u8>) -> Option<u32> {
    parse_u32(encode_utf8(trim_whitespace(value_text(value))))
}

/// The checksum that a header list states: that of the first field named
/// `target_crc` whose value states one.
pub open spec fn stated_crc(headers: Seq<HeaderModel>) -> Option<u32>
    decreases headers.len(),
{
    if headers.len() == 0 {
        None
    } else if same_name(headers.first().name, crc_field_name()) && checksum_in(
        headers.first().value,
    ) is Some {
        checksum_in(headers.first().value)
    } else {
        stated_crc(headers.drop_first())
    }
}

/// The checksum that an agent takes from a header list: the stated one, and
/// 0 where none is stated.
pub open spec fn announced_crc(headers: Seq<HeaderModel>) -> u32 {
    match stated_crc(headers) {
        Some(crc) => crc,
        None => 0,
    }
}

fn lower(b: u8) -> (l: u8)
    ensures
        l == ascii_lower(b),
{
    if 0x41 <= b && b <= 0x5a {
        b + 0x20
    } else {
        b
    }
}

/// Compares two names without regard to the case of ASCII letters.
pub fn names_match(a: &[u8], b: &[u8]) -> (same: bool)
    ensures
        same == same_name(a@, b@),
{
    if a.len() != b.len() {
        return false;
    }
    let mut i: usize = 0;
    while i < a.len()
        invariant
            i <= a.len(),
            a.len() == b.len(),
            forall|j: int| 0 <= j < i ==> ascii_lower(#[trigger] a@[j]) == ascii_lower(b@[j]),
        decreases a.len() - i,
    {
        if lower(a[i]) != lower(b[i]) {
            return false;
        }
        i += 1;
    }
    true
}

/// Tells whether `name` is `target_crc` in any mix of upper and lower case.
pub fn is_crc_field(name: &[u8]) -> (yes: bool)
    ensures
        yes == same_name(name@, crc_field_name()),
{
    let wanted: [u8; 10] = [0x74, 0x61, 0x72, 0x67, 0x65, 0x74, 0x5f, 0x63, 0x72, 0x63];
    assert(wanted@ =~= crc_field_name());
    names_match(name, wanted.as_slice())
}

/// Reads the checksum out of one field value.
pub fn header_checksum(value: &[u8]) -> (sum: Option<u32>)
    ensures
        sum == checksum_in(value@),
{
    let text: &str = match utf8_text(value) {
        Some(t) => t,
        None => "0",
    };
    proof {
        reveal_strlit("0");
        assert("0"@ =~= seq!['0']);
    }
    let inner = trimmed(text);
    parse_decimal(inner.as_bytes())
}

/// Finds the checksum that the headers of an update response state, if they
/// state one.
pub fn find_crc(headers: &[Header]) -> (crc: Option<u32>)
    ensures
        crc == stated_crc(header_models(headers@)),
{
    let ghost all = header_models(headers@);
    let mut i: usize = 0;
    assert(all.skip(0) =~= all);
    while i < headers.len()
        invariant
            i <= headers.len(),
            all == header_models(headers@),
            stated_crc(all) == stated_crc(all.skip(i as int)),
        decreases headers.len() - i,
    {
        let field = &headers[i];
        let ghost rest = all.skip(i as int);
        assert(rest.first() == field@);
        assert(rest.drop_first() =~= all.skip(i + 1));
        if is_crc_field(field.name.as_slice()) {
            let stated = header_checksum(field.value.as_slice());
            if stated.is_some() {
                return stated;
            }
        }
        i += 1;
    }
    assert(all.skip(i as int).len() == 0);
    None
}

/// Finds the checksum that the headers of an update response announce, with
/// 0 standing for none.
pub fn get_crc(headers: &[Header]) -> (crc: u32)
    ensures
        crc == announced_crc(header_models(headers@)),
{
    match find_crc(headers) {
        Some(crc) => crc,
        None => 0,
    }
}

} // verus!
