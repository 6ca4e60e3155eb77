//! Reading and writing little-endian integers with the `byteorder` crate.

use vstd::prelude::*;
use byteorder::{ByteOrder, LittleEndian};
use crate::bytes::{le16, le16_at, le32_at};

verus! {

/// Calls `LittleEndian::read_u16`. Trusted: the result is `buf[0]` plus 256
/// times `buf[1]`. The call panics on a shorter buffer.
#[verifier::external_body]
pub(crate) fn read_u16_le(buf: &[u8]) -> (x: u16)
    requires
        buf@.len() >= 2,
    ensures
        x == le16_at(buf@, 0),
{
    LittleEndian::read_u16(buf)
}

/// Calls `LittleEndian::read_u32`. Trusted: the result is the number whose
/// four bytes, least significant first, are `buf[0..4]`. The call panics on
/// a shorter buffer.
#[verifier::external_body]
pub(crate) fn read_u32_le(buf: &[u8]) -> (x: u32)
    requires
        buf@.len() >= 4,
    ensures
        x == le32_at(buf@, 0),
{
    LittleEndian::read_u32(buf)
}

/// Calls `LittleEndian::write_u16` on a buffer of two bytes. Trusted: the
/// buffer then holds the low byte of `x` followed by its high byte.
#[verifier::external_body]
pub(crate) fn u16_le_bytes(x: u16) -> (buf: [u8; 2])
    ensures
        buf@ == le16(x),
{
    let mut buf = [0u8; 2];
    LittleEndian::write_u16(&mut buf, x);
    buf
}

} // verus!
