use i2c_sensors::fields::{
    as_signed16, as_signed8, assemble_be20, assemble_le24, concat_bytes, nibble_packed_high,
    nibble_packed_low, signed_byte, signed_le16, unsigned_le16,
};

#[test]
fn concat_bytes_puts_msb_first() {
    assert_eq!(concat_bytes(0x12, 0x34), 0x1234);
    assert_eq!(concat_bytes(0xff, 0x00), 0xff00);
}

#[test]
fn signed_reinterpretation() {
    assert_eq!(as_signed8(0x7f), 127);
    assert_eq!(as_signed8(0x80), -128);
    assert_eq!(as_signed8(0xff), -1);
    assert_eq!(as_signed16(0x7fff), 32767);
    assert_eq!(as_signed16(0x8000), -32768);
    assert_eq!(as_signed16(0xfc18), -1000);
}

#[test]
fn little_endian_words() {
    let block = [0x70u8, 0x6b, 0x18, 0xfc, 0x85];
    assert_eq!(unsigned_le16(&block, 0), 27504);
    assert_eq!(signed_le16(&block, 2), -1000);
    assert_eq!(signed_byte(&block, 4), -123);
}

#[test]
fn nibble_packed_pair() {
    // high byte 0xff is -1: -16 plus the low nibble 0xa
    assert_eq!(nibble_packed_low(0xff, 0x3a), -6);
    // high byte 0x01: 16 plus the high nibble 0x3
    assert_eq!(nibble_packed_high(0x01, 0x3a), 19);
    assert_eq!(nibble_packed_low(0x14, 0x0d), 0x14d);
}

#[test]
fn sample_assembly() {
    assert_eq!(assemble_le24(0x56, 0x34, 0x12), 0x123456);
    assert_eq!(assemble_be20(0x12, 0x34, 0x56), 0x12345);
    assert_eq!(assemble_be20(0xff, 0xff, 0xff), 0xfffff);
}
