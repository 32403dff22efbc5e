//! Cursor-based little-endian reads over a byte slice.
//!
//! Each read either advances the cursor by the exact consumed width and
//! returns the value, or fails with `PayloadTooShort` and leaves the
//! cursor where it was.

use vstd::prelude::*;
use vstd::bytes::{spec_u16_from_le_bytes, spec_u32_from_le_bytes, spec_u64_from_le_bytes};
use vstd::bytes::{u16_from_le_bytes, u32_from_le_bytes, u64_from_le_bytes};
use vstd::slice::slice_subrange;

use crate::errors::{too_short, DecodeError};

verus! {

/// The 4 little-endian bytes read as a signed 32-bit integer
/// (two's complement reinterpretation of the unsigned value).
pub open spec fn spec_i32_from_le_bytes(s: Seq<u8>) -> i32 {
    spec_u32_from_le_bytes(s) as i32
}

/// Read a little-endian `u64` at `*offset`, advancing the cursor by 8.
pub fn read_u64(data: &[u8], offset: &mut usize) -> (r: Result<u64, DecodeError>)
    requires
        *old(offset) + 8 <= usize::MAX,
    ensures
        *old(offset) + 8 <= data@.len() ==> {
            &&& r == Ok::<u64, DecodeError>(
                spec_u64_from_le_bytes(data@.subrange(*old(offset) as int, *old(offset) + 8)),
            )
            &&& *final(offset) == *old(offset) + 8
        },
        *old(offset) + 8 > data@.len() ==> {
            &&& r == Err::<u64, DecodeError>(too_short(*old(offset) + 8, data@.len() as int))
            &&& *final(offset) == *old(offset)
        },
{
    if *offset + 8 > data.len() {
        Err(DecodeError::PayloadTooShort { expected: *offset + 8, actual: data.len() })
    } else {
        let s = slice_subrange(data, *offset, *offset + 8);
        let v = u64_from_le_bytes(s);
        *offset = *offset + 8;
        Ok(v)
    }
}

/// Read a little-endian `u32` at `*offset`, advancing the cursor by 4.
pub fn read_u32(data: &[u8], offset: &mut usize) -> (r: Result<u32, DecodeError>)
    requires
        *old(offset) + 4 <= usize::MAX,
    ensures
        *old(offset) + 4 <= data@.len() ==> {
            &&& r == Ok::<u32, DecodeError>(
                spec_u32_from_le_bytes(data@.subrange(*old(offset) as int, *old(offset) + 4)),
            )
            &&& *final(offset) == *old(offset) + 4
        },
        *old(offset) + 4 > data@.len() ==> {
            &&& r == Err::<u32, DecodeError>(too_short(*old(offset) + 4, data@.len() as int))
            &&& *final(offset) == *old(offset)
        },
{
    if *offset + 4 > data.len() {
        Err(DecodeError::PayloadTooShort { expected: *offset + 4, actual: data.len() })
    } else {
        let s = slice_subrange(data, *offset, *offset + 4);
        let v = u32_from_le_bytes(s);
        *offset = *offset + 4;
        Ok(v)
    }
}

/// Read a little-endian `u16` at `*offset`, advancing the cursor by 2.
pub fn read_u16(data: &[u8], offset: &mut usize) -> (r: Result<u16, DecodeError>)
    requires
        *old(offset) + 2 <= usize::MAX,
    ensures
        *old(offset) + 2 <= data@.len() ==> {
            &&& r == Ok::<u16, DecodeError>(
                spec_u16_from_le_bytes(data@.subrange(*old(offset) as int, *old(offset) + 2)),
            )
            &&& *final(offset) == *old(offset) + 2
        },
        *old(offset) + 2 > data@.len() ==> {
            &&& r == Err::<u16, DecodeError>(too_short(*old(offset) + 2, data@.len() as int))
            &&& *final(offset) == *old(offset)
        },
{
    if *offset + 2 > data.len() {
        Err(DecodeError::PayloadTooShort { expected: *offset + 2, actual: data.len() })
    } else {
        let s = slice_subrange(data, *offset, *offset + 2);
        let v = u16_from_le_bytes(s);
        *offset = *offset + 2;
        Ok(v)
    }
}

/// Read a little-endian `i32` at `*offset`, advancing the cursor by 4.
pub fn read_i32(data: &[u8], offset: &mut usize) -> (r: Result<i32, DecodeError>)
    requires
        *old(offset) + 4 <= usize::MAX,
    ensures
        *old(offset) + 4 <= data@.len() ==> {
            &&& r == Ok::<i32, DecodeError>(
                spec_i32_from_le_bytes(data@.subrange(*old(offset) as int, *old(offset) + 4)),
            )
            &&& *final(offset) == *old(offset) + 4
        },
        *old(offset) + 4 > data@.len() ==> {
            &&& r == Err::<i32, DecodeError>(too_short(*old(offset) + 4, data@.len() as int))
            &&& *final(offset) == *old(offset)
        },
{
    if *offset + 4 > data.len() {
        Err(DecodeError::PayloadTooShort { expected: *offset + 4, actual: data.len() })
    } else {
        let s = slice_subrange(data, *offset, *offset + 4);
        let v = u32_from_le_bytes(s);
        *offset = *offset + 4;
        Ok(
            #[verifier::truncate]
            (v as i32),
        )
    }
}

} // verus!
