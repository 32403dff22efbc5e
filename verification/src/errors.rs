//! Decode errors and the helpers that build them in specifications.

use vstd::prelude::*;

verus! {

/// Structured decode failure for one frame. Failures are local to the
/// frame that produced them and never abort the stream.
#[derive(Debug, Clone, PartialEq, Eq, Structural)]
pub enum DecodeError {
    /// A declared length exceeds the remaining bytes of the payload.
    PayloadTooShort { expected: usize, actual: usize },
    /// A text field is not valid UTF-8.
    InvalidUtf8,
    /// The leading type byte maps to no known message type.
    InvalidMessageType(u8),
    /// The network-state byte is outside the closed enumeration.
    InvalidNetworkState(u8),
}

/// Clamp a mathematical offset into the `usize` range, for the
/// `expected` field of a `PayloadTooShort` error.
pub open spec fn sat_usize(i: int) -> usize {
    if i > usize::MAX {
        usize::MAX
    } else if i < 0 {
        0
    } else {
        i as usize
    }
}

/// The error reported when a read needing bytes up to `expected`
/// (exclusive) runs past a payload of length `actual`.
pub open spec fn too_short(expected: int, actual: int) -> DecodeError {
    DecodeError::PayloadTooShort { expected: sat_usize(expected), actual: sat_usize(actual) }
}

/// `offset + extra`, clamped into `usize`: the `expected` field of a
/// `PayloadTooShort` built from a cursor and a declared width.
pub(crate) fn sat_add(offset: usize, extra: u64) -> (r: usize)
    ensures
        r == sat_usize(offset + extra),
{
    if extra <= (usize::MAX - offset) as u64 {
        offset + (extra as usize)
    } else {
        usize::MAX
    }
}

/// `offset + count * width`, clamped into `usize`.
pub(crate) fn sat_add_mul(offset: usize, count: u64, width: u64) -> (r: usize)
    ensures
        r == sat_usize(offset + count * width),
{
    match count.checked_mul(width) {
        Some(total) => sat_add(offset, total),
        None => usize::MAX,
    }
}

} // verus!
