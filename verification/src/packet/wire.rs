//! Big-endian (network order) integers in byte buffers.

use vstd::prelude::*;
use byteorder::ByteOrder;

verus! {

/// The 16-bit value whose network-order bytes are `hi`, `lo`.
pub open spec fn be_u16(hi: u8, lo: u8) -> u16 {
    (hi as int * 0x100 + lo as int) as u16
}

/// The 32-bit value whose network-order bytes are `b0`, `b1`, `b2`, `b3`.
pub open spec fn be_u32(b0: u8, b1: u8, b2: u8, b3: u8) -> u32 {
    (b0 as int * 0x100_0000 + b1 as int * 0x1_0000 + b2 as int * 0x100 + b3 as int) as u32
}

/// The two bytes of `n` in network order, most significant first.
pub open spec fn u16_be_bytes(n: u16) -> Seq<u8> {
    seq![(n as int / 0x100) as u8, (n as int % 0x100) as u8]
}

/// The four bytes of `n` in network order, most significant first.
pub open spec fn u32_be_bytes(n: u32) -> Seq<u8> {
    seq![
        (n as int / 0x100_0000) as u8,
        (n as int / 0x1_0000 % 0x100) as u8,
        (n as int / 0x100 % 0x100) as u8,
        (n as int % 0x100) as u8,
    ]
}

/// Calls `byteorder::NetworkEndian::read_u16`, which reads the first two
/// bytes of `buf` as a big-endian integer and panics on a shorter buffer.
#[verifier::external_body]
pub(crate) fn read_u16(buf: &[u8]) -> (n: u16)
    requires
        buf@.len() >= 2,
    ensures
        n == be_u16(buf@[0], buf@[1]),
{
    byteorder::NetworkEndian::read_u16(buf)
}

/// Calls `byteorder::NetworkEndian::read_u32`, which reads the first four
/// bytes of `buf` as a big-endian integer and panics on a shorter buffer.
#[verifier::external_body]
pub(crate) fn read_u32(buf: &[u8]) -> (n: u32)
    requires
        buf@.len() >= 4,
    ensures
        n == be_u32(buf@[0], buf@[1], buf@[2], buf@[3]),
{
    byteorder::NetworkEndian::read_u32(buf)
}

/// Calls `byteorder::NetworkEndian::write_u16` on a two-byte buffer, which
/// it fills with the big-endian bytes of `n`.
#[verifier::external_body]
pub(crate) fn write_u16(n: u16) -> (bytes: [u8; 2])
    ensures
        bytes@ == u16_be_bytes(n),
{
    let mut bytes = [0u8; 2];
    byteorder::NetworkEndian::write_u16(&mut bytes, n);
    bytes
}

/// Calls `byteorder::NetworkEndian::write_u32` on a four-byte buffer, which
/// it fills with the big-endian bytes of `n`.
#[verifier::external_body]
pub(crate) fn write_u32(n: u32) -> (bytes: [u8; 4])
    ensures
        bytes@ == u32_be_bytes(n),
{
    let mut bytes = [0u8; 4];
    byteorder::NetworkEndian::write_u32(&mut bytes, n);
    bytes
}

/// Reading back the bytes written for `n` gives `n`.
pub proof fn lemma_be_u16_bytes_round_trip(n: u16)
    ensures
        be_u16(u16_be_bytes(n)[0], u16_be_bytes(n)[1]) == n,
{
}

} // verus!
