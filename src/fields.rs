//! Extraction of multi-byte register fields from raw byte blocks.
use vstd::prelude::*;

verus! {

/// Two's complement reading of an 8-bit value.
pub open spec fn signed8(b: int) -> int {
    if b >= 128 {
        b - 256
    } else {
        b
    }
}

/// Two's complement reading of a 16-bit value.
pub open spec fn signed16(w: int) -> int {
    if w >= 32768 {
        w - 65536
    } else {
        w
    }
}

/// A 16-bit word made of a most and a least significant byte.
pub open spec fn word(msb: u8, lsb: u8) -> int {
    msb * 256 + lsb
}

/// Unsigned little-endian word at `at` of a block.
pub open spec fn u16_at(b: Seq<u8>, at: int) -> int {
    word(b[at + 1], b[at])
}

/// Signed little-endian word at `at` of a block.
pub open spec fn i16_at(b: Seq<u8>, at: int) -> int {
    signed16(word(b[at + 1], b[at]))
}

/// Signed byte at `at` of a block.
pub open spec fn i8_at(b: Seq<u8>, at: int) -> int {
    signed8(b[at] as int)
}

/// A 24-bit sample stored least significant byte first.
pub open spec fn le24(xlsb: u8, lsb: u8, msb: u8) -> int {
    msb * 65536 + lsb * 256 + xlsb
}

/// A 20-bit sample stored most significant byte first, whose last byte
/// carries the four lowest bits in its high nibble.
pub open spec fn be20(msb: u8, lsb: u8, xlsb: u8) -> int {
    msb * 4096 + lsb * 16 + xlsb / 16
}

/// The 16-bit word `msb:lsb`.
pub fn concat_bytes(msb: u8, lsb: u8) -> (r: u16)
    ensures
        r == word(msb, lsb),
{
    let r = ((msb as u16) << 8) | (lsb as u16);
    assert(((msb as u16) << 8) | (lsb as u16) == msb * 256 + lsb) by (bit_vector);
    r
}

/// Reinterprets a byte as a signed 8-bit integer.
pub fn as_signed8(b: u8) -> (r: i8)
    ensures
        r == signed8(b as int),
{
    if b >= 128 {
        ((b - 128) as i8) - 127 - 1
    } else {
        b as i8
    }
}

/// Reinterprets a word as a signed 16-bit integer.
pub fn as_signed16(w: u16) -> (r: i16)
    ensures
        r == signed16(w as int),
{
    if w >= 32768 {
        ((w - 32768) as i16) - 32767 - 1
    } else {
        w as i16
    }
}

/// Unsigned little-endian word at `at` (low byte first).
pub fn unsigned_le16(block: &[u8], at: usize) -> (r: u16)
    requires
        at + 1 < block@.len(),
    ensures
        r == u16_at(block@, at as int),
{
    let _n = block.len();
    concat_bytes(block[at + 1], block[at])
}

/// Signed little-endian word at `at` (low byte first).
pub fn signed_le16(block: &[u8], at: usize) -> (r: i16)
    requires
        at + 1 < block@.len(),
    ensures
        r == i16_at(block@, at as int),
{
    let _n = block.len();
    as_signed16(concat_bytes(block[at + 1], block[at]))
}

/// Signed byte at `at`.
pub fn signed_byte(block: &[u8], at: usize) -> (r: i8)
    requires
        at < block@.len(),
    ensures
        r == i8_at(block@, at as int),
{
    as_signed8(block[at])
}

/// A 12-bit signed value packed as a whole signed byte (the high part) and
/// the low nibble of a byte shared with a neighbouring field.
pub fn nibble_packed_low(high: u8, shared: u8) -> (r: i16)
    ensures
        r == signed8(high as int) * 16 + shared % 16,
{
    let h = as_signed8(high) as i16;
    let l = (shared & 0x0f) as i16;
    assert(shared & 0x0f == shared % 16) by (bit_vector);
    h * 16 + l
}

/// A 12-bit signed value packed as a whole signed byte (the high part) and
/// the high nibble of a byte shared with a neighbouring field.
pub fn nibble_packed_high(high: u8, shared: u8) -> (r: i16)
    ensures
        r == signed8(high as int) * 16 + shared / 16,
{
    let h = as_signed8(high) as i16;
    let l = (shared >> 4) as i16;
    assert(shared >> 4 == shared / 16) by (bit_vector);
    h * 16 + l
}

/// Assembles a 24-bit sample from its three bytes, least significant first.
pub fn assemble_le24(xlsb: u8, lsb: u8, msb: u8) -> (r: u32)
    ensures
        r == le24(xlsb, lsb, msb),
        r < 0x100_0000,
{
    let r = (msb as u32) << 16 | (lsb as u32) << 8 | (xlsb as u32);
    assert((msb as u32) << 16 | (lsb as u32) << 8 | (xlsb as u32) == msb * 65536 + lsb * 256
        + xlsb) by (bit_vector);
    r
}

/// Assembles a 20-bit sample from its three bytes, most significant first,
/// the last byte holding the lowest four bits in its high nibble.
pub fn assemble_be20(msb: u8, lsb: u8, xlsb: u8) -> (r: u32)
    ensures
        r == be20(msb, lsb, xlsb),
        r < 0x10_0000,
{
    let r = (msb as u32) << 12 | (lsb as u32) << 4 | (xlsb as u32) >> 4;
    assert((msb as u32) << 12 | (lsb as u32) << 4 | (xlsb as u32) >> 4 == msb * 4096 + lsb * 16
        + xlsb / 16) by (bit_vector);
    r
}

} // verus!
