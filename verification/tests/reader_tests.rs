//! Tests for the cursor-based little-endian reads.

use k256_sdk::errors::DecodeError;
use k256_sdk::reader::{read_i32, read_u16, read_u32, read_u64};

#[test]
fn reads_advance_in_sequence() {
    let mut data: Vec<u8> = Vec::new();
    data.extend_from_slice(&0x0102030405060708u64.to_le_bytes());
    data.extend_from_slice(&0xAABBCCDDu32.to_le_bytes());
    data.extend_from_slice(&0x1234u16.to_le_bytes());
    data.extend_from_slice(&(-5i32).to_le_bytes());
    let mut offset: usize = 0;
    assert_eq!(read_u64(&data, &mut offset), Ok(0x0102030405060708));
    assert_eq!(offset, 8);
    assert_eq!(read_u32(&data, &mut offset), Ok(0xAABBCCDD));
    assert_eq!(offset, 12);
    assert_eq!(read_u16(&data, &mut offset), Ok(0x1234));
    assert_eq!(offset, 14);
    assert_eq!(read_i32(&data, &mut offset), Ok(-5));
    assert_eq!(offset, 18);
}

#[test]
fn reads_fail_without_moving_the_cursor() {
    let data: Vec<u8> = vec![1, 2, 3];
    let mut offset: usize = 1;
    assert_eq!(
        read_u64(&data, &mut offset),
        Err(DecodeError::PayloadTooShort { expected: 9, actual: 3 })
    );
    assert_eq!(offset, 1);
    assert_eq!(
        read_u32(&data, &mut offset),
        Err(DecodeError::PayloadTooShort { expected: 5, actual: 3 })
    );
    assert_eq!(offset, 1);
    assert_eq!(read_u16(&data, &mut offset), Ok(0x0302));
    assert_eq!(offset, 3);
    assert_eq!(
        read_i32(&data, &mut offset),
        Err(DecodeError::PayloadTooShort { expected: 7, actual: 3 })
    );
}
