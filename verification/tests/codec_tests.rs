//! Little-endian field codec tests.

use fat32_storage::codec::{
    arr_to_u16, arr_to_u32, arr_to_u32_le, sl_to_u32, u16_to_arr, u32_to_arr,
};

#[test]
fn decode_u16_exact() {
    assert_eq!(arr_to_u16([0x00, 0x02]), 512);
    assert_eq!(arr_to_u16([0x55, 0xAA]), 0xAA55);
    assert_eq!(arr_to_u16([0xFF, 0xFF]), 0xFFFF);
    assert_eq!(arr_to_u16([0x00, 0x00]), 0);
}

#[test]
fn decode_u32_exact() {
    assert_eq!(arr_to_u32([0x01, 0x00, 0x00, 0x00]), 1);
    assert_eq!(arr_to_u32([0x78, 0x56, 0x34, 0x12]), 0x12345678);
    assert_eq!(arr_to_u32([0xFF, 0xFF, 0xFF, 0xFF]), 0xFFFF_FFFF);
}

#[test]
fn decode_u32_le_matches_u32() {
    assert_eq!(arr_to_u32_le([0x78, 0x56, 0x34, 0x12]), 0x12345678);
    assert_eq!(arr_to_u32_le([0xF8, 0xFF, 0xFF, 0x0F]), 0x0FFF_FFF8);
}

#[test]
fn decode_slice_reads_first_four_bytes() {
    let v = [0x0D, 0x0C, 0x0B, 0x0A, 0x99, 0x98];
    assert_eq!(sl_to_u32(&v), 0x0A0B0C0D);
}

#[test]
fn encode_u16_exact() {
    assert_eq!(u16_to_arr(512), [0x00, 0x02]);
    assert_eq!(u16_to_arr(0xAA55), [0x55, 0xAA]);
}

#[test]
fn encode_u32_exact() {
    assert_eq!(u32_to_arr(0x12345678), [0x78, 0x56, 0x34, 0x12]);
}

#[test]
fn round_trip_u16_fields() {
    let cases: [[u8; 2]; 4] = [[0, 0], [0x55, 0xAA], [0xFF, 0xFF], [0x34, 0x12]];
    for arr in cases {
        assert_eq!(u16_to_arr(arr_to_u16(arr)), arr);
    }
}

#[test]
fn round_trip_u32_fields() {
    let cases: [[u8; 4]; 4] = [
        [0, 0, 0, 0],
        [0x78, 0x56, 0x34, 0x12],
        [0xFF, 0xFF, 0xFF, 0xFF],
        [0xF8, 0xFF, 0xFF, 0x0F],
    ];
    for arr in cases {
        assert_eq!(u32_to_arr(arr_to_u32(arr)), arr);
    }
}
