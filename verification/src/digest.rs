//! Checksums and digests, computed by the `crc` and `sha2` crates.

use vstd::prelude::*;

verus! {

/// The IEEE 802.3 CRC-32 of a byte string.
pub uninterp spec fn crc32_ieee(data: Seq<u8>) -> u32;

/// The SHA-256 digest of a byte string.
pub uninterp spec fn sha256_digest(data: Seq<u8>) -> Seq<u8>;

/// Calls `crc::crc32::checksum_ieee`. Trusted: the result is the CRC-32 of
/// exactly the bytes passed, and depends on nothing else.
#[verifier::external_body]
pub(crate) fn checksum_ieee(data: &[u8]) -> (sum: u32)
    ensures
        sum == crc32_ieee(data@),
{
    crc::crc32::checksum_ieee(data)
}

/// Calls `sha2::Sha256::digest`. Trusted: the result is the 32-byte SHA-256
/// digest of exactly the bytes passed, and depends on nothing else.
#[verifier::external_body]
pub(crate) fn sha256(data: &[u8]) -> (hash: [u8; 32])
    ensures
        hash@ == sha256_digest(data@),
{
    <sha2::Sha256 as sha2::Digest>::digest(data).into()
}

} // verus!
