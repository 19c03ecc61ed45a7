//! Multi-byte fields of the wire protocol.
//!
//! The chip sends and expects little-endian fields everywhere but in the GPIO
//! value word, which is big-endian. The conversions themselves are done by the
//! `byteorder` crate; this module states what they compute.

use byteorder::{BigEndian, ByteOrder, LittleEndian};
use vstd::prelude::*;

verus! {

/// The 16-bit value whose low byte is `lo` and whose high byte is `hi`.
pub open spec fn u16_of(hi: u8, lo: u8) -> u16 {
    (hi as int * 256 + lo as int) as u16
}

/// Byte `k` (0 is the least significant) of a 32-bit value.
pub open spec fn u32_byte(n: u32, k: int) -> u8 {
    if k == 0 {
        (n as int % 256) as u8
    } else if k == 1 {
        (n as int / 256 % 256) as u8
    } else if k == 2 {
        (n as int / 65536 % 256) as u8
    } else {
        (n as int / 16777216 % 256) as u8
    }
}

/// `bytes` with the four bytes from `at` on replaced by the little-endian
/// encoding of `n`.
pub open spec fn with_le_u32(bytes: Seq<u8>, at: int, n: u32) -> Seq<u8> {
    Seq::new(
        bytes.len(),
        |i: int|
            if at <= i < at + 4 {
                u32_byte(n, i - at)
            } else {
                bytes[i]
            },
    )
}

/// Reads a little-endian `u16` with `byteorder::LittleEndian::read_u16`.
///
/// Trusted: the result is taken to be the first byte plus 256 times the second.
/// The crate panics on fewer than two bytes, which the precondition excludes.
#[verifier::external_body]
pub(crate) fn le_read_u16(buf: &[u8]) -> (value: u16)
    requires
        buf@.len() >= 2,
    ensures
        value == u16_of(buf@[1], buf@[0]),
{
    LittleEndian::read_u16(buf)
}

/// Reads a big-endian `u16` with `byteorder::BigEndian::read_u16`.
///
/// Trusted: the result is taken to be 256 times the first byte plus the second.
/// The crate panics on fewer than two bytes, which the precondition excludes.
#[verifier::external_body]
pub(crate) fn be_read_u16(buf: &[u8]) -> (value: u16)
    requires
        buf@.len() >= 2,
    ensures
        value == u16_of(buf@[0], buf@[1]),
{
    BigEndian::read_u16(buf)
}

/// Writes `n` at offset `at` of `buf` with `byteorder::LittleEndian::write_u32`.
///
/// Trusted: the four bytes from `at` on are taken to become the bytes of `n`,
/// least significant first, and every other byte to stay as it was. The crate
/// panics when fewer than four bytes follow `at`, which the precondition
/// excludes.
#[verifier::external_body]
pub(crate) fn le_write_u32(buf: &mut Vec<u8>, at: usize, n: u32)
    requires
        at + 4 <= old(buf)@.len(),
    ensures
        final(buf)@ == with_le_u32(old(buf)@, at as int, n),
{
    LittleEndian::write_u32(&mut buf[at..], n)
}

} // verus!
