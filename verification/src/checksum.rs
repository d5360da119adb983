//! CRC32 checksum of a firmware image.

use vstd::prelude::*;

verus! {

/// The CRC32 (IEEE) checksum of a byte sequence, as `crc32fast` computes it.
pub uninterp spec fn crc32(bytes: Seq<u8>) -> u32;

/// Calls `crc32fast::hash`. The contract claims that the result is a function
/// of the bytes alone, named [`crc32`]; nothing is claimed about its value.
#[verifier::external_body]
fn crc32_of(bytes: &[u8]) -> (sum: u32)
    ensures
        sum == crc32(bytes@),
{
    crc32fast::hash(bytes)
}

/// Checksum of a whole firmware image.
pub fn checksum(firmware: &[u8]) -> (sum: u32)
    ensures
        sum == crc32(firmware@),
{
    crc32_of(firmware)
}

/// The checksum depends on the bytes alone: the same bytes have the same
/// checksum, whoever computes it and wherever.
pub proof fn lemma_checksum_reproducible(published: Seq<u8>, received: Seq<u8>)
    requires
        published.len() == received.len(),
        forall|i: int| 0 <= i < published.len() ==> published[i] == received[i],
    ensures
        crc32(published) == crc32(received),
{
    assert(published =~= received);
}

} // verus!
