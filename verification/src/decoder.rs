//! Binary record decoders.
//!
//! Each decoder is a pure function from a payload (the frame bytes
//! after the type byte) to a typed record or a structured error. The
//! wire layout is specified once, by spec-level parsers over byte
//! sequences; every executable decoder is proved to return exactly
//! what its spec parser says, for every input.

use vstd::prelude::*;
use vstd::bytes::{spec_u16_from_le_bytes, spec_u32_from_le_bytes, spec_u64_from_le_bytes};
use vstd::slice::{slice_index_get, slice_subrange, slice_to_vec};
use vstd::utf8::{decode_utf8, valid_utf8};

use crate::encoding::{base58_encode, base58_of, utf8_to_string};
use crate::errors::{sat_add, sat_add_mul, too_short, DecodeError};
use crate::reader::{read_i32, read_u16, read_u32, read_u64, spec_i32_from_le_bytes};
use crate::messages::{spec_message_type, MessageType};
use crate::records::{
    spec_network_state, AccountFee, AccountFeeV, Blockhash, BlockhashV, DecodedMessage,
    DecodedMessageV, FeeMarket, FeeMarketV, NetworkState, OrderLevel, PoolUpdate, PoolUpdateV,
};

verus! {

/// The little-endian `u64` whose 8 bytes start at `off`.
pub open spec fn le64_at(data: Seq<u8>, off: int) -> u64 {
    spec_u64_from_le_bytes(data.subrange(off, off + 8))
}

/// The little-endian `u32` whose 4 bytes start at `off`.
pub open spec fn le32_at(data: Seq<u8>, off: int) -> u32 {
    spec_u32_from_le_bytes(data.subrange(off, off + 4))
}

/// The little-endian `u16` whose 2 bytes start at `off`.
pub open spec fn le16_at(data: Seq<u8>, off: int) -> u16 {
    spec_u16_from_le_bytes(data.subrange(off, off + 2))
}

/// The little-endian `i32` whose 4 bytes start at `off`.
pub open spec fn i32_at(data: Seq<u8>, off: int) -> i32 {
    spec_i32_from_le_bytes(data.subrange(off, off + 4))
}

/// What decoding a blockhash payload yields: 65 fixed bytes, trailing
/// bytes ignored.
pub open spec fn spec_decode_blockhash(data: Seq<u8>) -> Result<BlockhashV, DecodeError> {
    let len = data.len() as int;
    if len < 65 {
        Err(too_short(65, len))
    } else {
        Ok(
            BlockhashV {
                slot: le64_at(data, 0),
                timestamp_ms: le64_at(data, 8),
                blockhash: base58_of(data.subrange(16, 48)),
                block_height: le64_at(data, 48),
                last_valid_block_height: le64_at(data, 56),
                is_stale: data[64] != 0,
            },
        )
    }
}

/// Decode a recent-blockhash record.
pub fn decode_blockhash(data: &[u8]) -> (r: Result<Blockhash, DecodeError>)
    ensures
        r matches Ok(b) ==> spec_decode_blockhash(data@) == Ok::<BlockhashV, DecodeError>(b@),
        r matches Err(e) ==> spec_decode_blockhash(data@) == Err::<BlockhashV, DecodeError>(e),
{
    if data.len() < 65 {
        return Err(DecodeError::PayloadTooShort { expected: 65, actual: data.len() });
    }
    let mut offset: usize = 0;
    let slot = read_u64(data, &mut offset).unwrap();
    let timestamp_ms = read_u64(data, &mut offset).unwrap();
    let blockhash = base58_encode(slice_subrange(data, 16, 48));
    offset = 48;
    let block_height = read_u64(data, &mut offset).unwrap();
    let last_valid_block_height = read_u64(data, &mut offset).unwrap();
    let is_stale = *slice_index_get(data, 64) != 0;
    Ok(
        Blockhash {
            slot,
            timestamp_ms,
            blockhash,
            block_height,
            last_valid_block_height,
            is_stale,
        },
    )
}

/// What parsing an optional order level at `off` yields: a presence
/// byte, then price and size only when the byte is nonzero. On success
/// the new cursor position is returned with the level.
pub open spec fn spec_parse_opt_level(data: Seq<u8>, off: int) -> Result<
    (Option<OrderLevel>, int),
    DecodeError,
> {
    let len = data.len() as int;
    if off >= len {
        Err(too_short(off + 1, len))
    } else if data[off] == 0 {
        Ok((None, off + 1))
    } else if off + 9 > len {
        Err(too_short(off + 9, len))
    } else if off + 17 > len {
        Err(too_short(off + 17, len))
    } else {
        Ok(
            (
                Some(OrderLevel { price: le64_at(data, off + 1), size: le64_at(data, off + 9) }),
                off + 17,
            ),
        )
    }
}

/// Decode an optional order level at the cursor, advancing it past
/// what was consumed.
pub fn decode_optional_order_level(data: &[u8], offset: &mut usize) -> (r: Result<
    Option<OrderLevel>,
    DecodeError,
>)
    ensures
        r matches Ok(lvl) ==> {
            &&& spec_parse_opt_level(data@, *old(offset) as int) matches Ok(p)
            &&& p.0 == lvl
            &&& p.1 == *final(offset) as int
        },
        r matches Err(e) ==> spec_parse_opt_level(data@, *old(offset) as int) == Err::<
            (Option<OrderLevel>, int),
            DecodeError,
        >(e),
{
    if *offset >= data.len() {
        return Err(
            DecodeError::PayloadTooShort { expected: sat_add(*offset, 1), actual: data.len() },
        );
    }
    if *slice_index_get(data, *offset) == 0 {
        *offset = *offset + 1;
        return Ok(None);
    }
    *offset = *offset + 1;
    if data.len() - *offset < 8 {
        return Err(
            DecodeError::PayloadTooShort { expected: sat_add(*offset, 8), actual: data.len() },
        );
    }
    let price = read_u64(data, offset).unwrap();
    if data.len() - *offset < 8 {
        return Err(
            DecodeError::PayloadTooShort { expected: sat_add(*offset, 8), actual: data.len() },
        );
    }
    let size = read_u64(data, offset).unwrap();
    Ok(Some(OrderLevel { price, size }))
}

/// What parsing `n` batched sub-records from `off` yields: each is a
/// little-endian `u32` byte length followed by a pool-update payload
/// of exactly that many bytes. A failure anywhere fails the whole
/// parse; on success the new cursor position is returned.
pub open spec fn spec_parse_batch_items(data: Seq<u8>, off: int, n: nat) -> Result<
    (Seq<PoolUpdateV>, int),
    DecodeError,
>
    decreases n,
{
    if n == 0 {
        Ok((Seq::empty(), off))
    } else {
        let len = data.len() as int;
        if off + 4 > len {
            Err(too_short(off + 4, len))
        } else {
            let l = le32_at(data, off) as int;
            let o1 = off + 4;
            if o1 + l > len {
                Err(too_short(o1 + l, len))
            } else {
                match spec_decode_pool_update(data.subrange(o1, o1 + l)) {
                    Err(e) => Err(e),
                    Ok(u) => match spec_parse_batch_items(data, o1 + l, (n - 1) as nat) {
                        Err(e) => Err(e),
                        Ok(p) => Ok((seq![u] + p.0, p.1)),
                    },
                }
            }
        }
    }
}

/// What decoding a batch payload yields: a little-endian `u16` count,
/// then that many length-prefixed sub-records. The whole batch decode
/// fails atomically on any truncated or malformed sub-record.
pub open spec fn spec_decode_pool_update_batch(data: Seq<u8>) -> Result<
    Seq<PoolUpdateV>,
    DecodeError,
> {
    let len = data.len() as int;
    if len < 2 {
        Err(too_short(2, len))
    } else {
        match spec_parse_batch_items(data, 2, le16_at(data, 0) as nat) {
            Err(e) => Err(e),
            Ok(p) => Ok(p.0),
        }
    }
}

/// Decode a pool-update batch into its sub-records, in encoded order.
pub fn decode_pool_update_batch(data: &[u8]) -> (r: Result<Vec<PoolUpdate>, DecodeError>)
    ensures
        r matches Ok(v) ==> spec_decode_pool_update_batch(data@) == Ok::<
            Seq<PoolUpdateV>,
            DecodeError,
        >(v@.map_values(|u: PoolUpdate| u@)),
        r matches Err(e) ==> spec_decode_pool_update_batch(data@) == Err::<
            Seq<PoolUpdateV>,
            DecodeError,
        >(e),
{
    let len: usize = data.len();
    let mut offset: usize = 0;
    if len < 2 {
        return Err(DecodeError::PayloadTooShort { expected: 2, actual: len });
    }
    let count = read_u16(data, &mut offset).unwrap();
    let mut updates: Vec<PoolUpdate> = Vec::new();
    let mut i: u16 = 0;
    while i < count
        invariant
            len == data@.len(),
            2 <= len,
            count == le16_at(data@, 0),
            offset <= len,
            i <= count,
            updates@.len() == i as int,
            spec_parse_batch_items(data@, 2, count as nat) == (match spec_parse_batch_items(
                data@,
                offset as int,
                (count - i) as nat,
            ) {
                Ok(p) => Ok::<(Seq<PoolUpdateV>, int), DecodeError>(
                    (updates@.map_values(|u: PoolUpdate| u@) + p.0, p.1),
                ),
                Err(e) => Err::<(Seq<PoolUpdateV>, int), DecodeError>(e),
            }),
        decreases count - i,
    {
        let ghost done0: Seq<PoolUpdateV> = updates@.map_values(|u: PoolUpdate| u@);
        if len - offset < 4 {
            let expected: usize = sat_add(offset, 4);
            return Err(DecodeError::PayloadTooShort { expected, actual: len });
        }
        let sub_len = read_u32(data, &mut offset).unwrap();
        if (sub_len as u64) > ((len - offset) as u64) {
            let expected: usize = sat_add(offset, sub_len as u64);
            return Err(DecodeError::PayloadTooShort { expected, actual: len });
        }
        let sub_end: usize = offset + sub_len as usize;
        let sub = slice_subrange(data, offset, sub_end);
        let update = match decode_pool_update(sub) {
            Ok(u) => u,
            Err(e) => {
                return Err(e);
            },
        };
        updates.push(update);
        offset = sub_end;
        i = i + 1;
        proof {
            let done1 = updates@.map_values(|u: PoolUpdate| u@);
            assert(done1 =~= done0 + seq![update@]);
            match spec_parse_batch_items(data@, offset as int, (count - i) as nat) {
                Ok(p) => {
                    assert(done0 + (seq![update@] + p.0) =~= done1 + p.0);
                },
                Err(e) => {},
            }
        }
    }
    proof {
        let done = updates@.map_values(|u: PoolUpdate| u@);
        assert(done + Seq::<PoolUpdateV>::empty() =~= done);
    }
    Ok(updates)
}

/// The per-account fee record whose 92 bytes start at `off`.
pub open spec fn spec_account_fee_at(data: Seq<u8>, off: int) -> AccountFeeV {
    AccountFeeV {
        pubkey: base58_of(data.subrange(off, off + 32)),
        total_txs: le32_at(data, off + 32),
        active_slots: le32_at(data, off + 36),
        cu_consumed: le64_at(data, off + 40),
        utilization_pct_bits: le32_at(data, off + 48),
        p25: le64_at(data, off + 52),
        p50: le64_at(data, off + 60),
        p75: le64_at(data, off + 68),
        p90: le64_at(data, off + 76),
        min_nonzero_price: le64_at(data, off + 84),
    }
}

/// What decoding a fee-market payload yields: a 42-byte fixed header
/// followed by `account_count` 92-byte per-account records.
pub open spec fn spec_decode_fee_market(data: Seq<u8>) -> Result<FeeMarketV, DecodeError> {
    let len = data.len() as int;
    if len < 42 {
        Err(too_short(42, len))
    } else {
        match spec_network_state(data[24]) {
            None => Err(DecodeError::InvalidNetworkState(data[24])),
            Some(state) => {
                let account_count = le64_at(data, 34) as int;
                let fit = (len - 42) / 92;
                if account_count > fit {
                    Err(too_short(42 + 92 * fit + 92, len))
                } else {
                    Ok(
                        FeeMarketV {
                            slot: le64_at(data, 0),
                            timestamp_ms: le64_at(data, 8),
                            recommended: le64_at(data, 16),
                            state,
                            is_stale: data[25] != 0,
                            block_utilization_pct_bits: le32_at(data, 26),
                            blocks_in_window: le32_at(data, 30),
                            accounts: Seq::new(
                                account_count as nat,
                                |i: int| spec_account_fee_at(data, 42 + 92 * i),
                            ),
                        },
                    )
                }
            },
        }
    }
}

/// What decoding a pool-update payload yields. Fields are laid out
/// strictly in this order: a length-prefixed opaque state blob,
/// `sequence`, `slot`, `write_version`, a length-prefixed UTF-8
/// protocol name, the 32-byte pool address, a length-prefixed list of
/// 32-byte token mints, a length-prefixed list of `u64` balances, a
/// length-prefixed list of `i32` decimals, and two optional order
/// levels (best bid, best ask). All lengths are little-endian `u64`
/// element counts; trailing bytes after the last field are ignored.
pub open spec fn spec_decode_pool_update(data: Seq<u8>) -> Result<PoolUpdateV, DecodeError> {
    let len = data.len() as int;
    if len < 8 {
        Err(too_short(8, len))
    } else {
        let state_len = le64_at(data, 0) as int;
        if 8 + state_len > len {
            Err(too_short(8 + state_len, len))
        } else {
            let o1 = 8 + state_len;
            if o1 + 8 > len {
                Err(too_short(o1 + 8, len))
            } else if o1 + 16 > len {
                Err(too_short(o1 + 16, len))
            } else if o1 + 24 > len {
                Err(too_short(o1 + 24, len))
            } else if o1 + 32 > len {
                Err(too_short(o1 + 32, len))
            } else {
                let name_len = le64_at(data, o1 + 24) as int;
                let o2 = o1 + 32;
                if o2 + name_len > len {
                    Err(too_short(o2 + name_len, len))
                } else if !valid_utf8(data.subrange(o2, o2 + name_len)) {
                    Err(DecodeError::InvalidUtf8)
                } else {
                    let o3 = o2 + name_len;
                    if o3 + 32 > len {
                        Err(too_short(o3 + 32, len))
                    } else {
                        let o4 = o3 + 32;
                        if o4 + 8 > len {
                            Err(too_short(o4 + 8, len))
                        } else {
                            let num_mints = le64_at(data, o4) as int;
                            let o5 = o4 + 8;
                            if o5 + 32 * num_mints > len {
                                Err(too_short(o5 + 32 * num_mints, len))
                            } else {
                                spec_decode_pool_update_tail(data, o1, o2, o3, num_mints)
                            }
                        }
                    }
                }
            }
        }
    }
}

/// Continuation of [`spec_decode_pool_update`] from the balance-count
/// field on; `o1`, `o2`, `o3` are the offsets of the sequence field,
/// the protocol name, and the pool address, and `num_mints` the count
/// of the mint list that starts at `o3 + 40`.
pub open spec fn spec_decode_pool_update_tail(
    data: Seq<u8>,
    o1: int,
    o2: int,
    o3: int,
    num_mints: int,
) -> Result<PoolUpdateV, DecodeError> {
    let len = data.len() as int;
    let o5 = o3 + 40;
    let o6 = o5 + 32 * num_mints;
    if o6 + 8 > len {
        Err(too_short(o6 + 8, len))
    } else {
        let num_balances = le64_at(data, o6) as int;
        let o7 = o6 + 8;
        if num_balances > (len - o7) / 8 {
            Err(too_short(o7 + 8 * ((len - o7) / 8) + 8, len))
        } else {
            let o8 = o7 + 8 * num_balances;
            if o8 + 8 > len {
                Err(too_short(o8 + 8, len))
            } else {
                let num_decimals = le64_at(data, o8) as int;
                let o9 = o8 + 8;
                if num_decimals > (len - o9) / 4 {
                    Err(too_short(o9 + 4 * ((len - o9) / 4) + 4, len))
                } else {
                    let o10 = o9 + 4 * num_decimals;
                    match spec_parse_opt_level(data, o10) {
                        Err(e) => Err(e),
                        Ok((best_bid, o11)) => match spec_parse_opt_level(data, o11) {
                            Err(e) => Err(e),
                            Ok((best_ask, o12)) => Ok(
                                PoolUpdateV {
                                    sequence: le64_at(data, o1),
                                    slot: le64_at(data, o1 + 8),
                                    write_version: le64_at(data, o1 + 16),
                                    protocol_name: decode_utf8(data.subrange(o2, o3)),
                                    pool_address: base58_of(data.subrange(o3, o3 + 32)),
                                    token_mints: Seq::new(
                                        num_mints as nat,
                                        |i: int|
                                            base58_of(
                                                data.subrange(o5 + 32 * i, o5 + 32 * i + 32),
                                            ),
                                    ),
                                    token_balances: Seq::new(
                                        num_balances as nat,
                                        |i: int| le64_at(data, o7 + 8 * i),
                                    ),
                                    token_decimals: Seq::new(
                                        num_decimals as nat,
                                        |i: int| i32_at(data, o9 + 4 * i),
                                    ),
                                    best_bid,
                                    best_ask,
                                    serialized_state: data.subrange(8, o1),
                                },
                            ),
                        },
                    }
                }
            }
        }
    }
}

/// Decode a pool-update record.
pub fn decode_pool_update(data: &[u8]) -> (r: Result<PoolUpdate, DecodeError>)
    ensures
        r matches Ok(u) ==> spec_decode_pool_update(data@) == Ok::<PoolUpdateV, DecodeError>(u@),
        r matches Err(e) ==> spec_decode_pool_update(data@) == Err::<PoolUpdateV, DecodeError>(e),
{
    let len: usize = data.len();
    let mut offset: usize = 0;
    if len < 8 {
        return Err(DecodeError::PayloadTooShort { expected: 8, actual: len });
    }
    let state_len = read_u64(data, &mut offset).unwrap();
    if state_len > (len - offset) as u64 {
        return Err(
            DecodeError::PayloadTooShort { expected: sat_add(offset, state_len), actual: len },
        );
    }
    let state_end: usize = offset + state_len as usize;
    let serialized_state: Vec<u8> = slice_to_vec(slice_subrange(data, offset, state_end));
    offset = state_end;
    let ghost o1: int = offset as int;
    if len - offset < 8 {
        return Err(DecodeError::PayloadTooShort { expected: sat_add(offset, 8), actual: len });
    }
    let sequence = read_u64(data, &mut offset).unwrap();
    if len - offset < 8 {
        return Err(DecodeError::PayloadTooShort { expected: sat_add(offset, 8), actual: len });
    }
    let slot = read_u64(data, &mut offset).unwrap();
    if len - offset < 8 {
        return Err(DecodeError::PayloadTooShort { expected: sat_add(offset, 8), actual: len });
    }
    let write_version = read_u64(data, &mut offset).unwrap();
    if len - offset < 8 {
        return Err(DecodeError::PayloadTooShort { expected: sat_add(offset, 8), actual: len });
    }
    let name_len = read_u64(data, &mut offset).unwrap();
    let ghost o2: int = offset as int;
    if name_len > (len - offset) as u64 {
        return Err(
            DecodeError::PayloadTooShort { expected: sat_add(offset, name_len), actual: len },
        );
    }
    let name_end: usize = offset + name_len as usize;
    let name_bytes: Vec<u8> = slice_to_vec(slice_subrange(data, offset, name_end));
    let protocol_name = match utf8_to_string(name_bytes) {
        Some(s) => s,
        None => {
            return Err(DecodeError::InvalidUtf8);
        },
    };
    offset = name_end;
    let ghost o3: int = offset as int;
    if len - offset < 32 {
        return Err(DecodeError::PayloadTooShort { expected: sat_add(offset, 32), actual: len });
    }
    let pool_address = base58_encode(slice_subrange(data, offset, offset + 32));
    offset = offset + 32;
    if len - offset < 8 {
        return Err(DecodeError::PayloadTooShort { expected: sat_add(offset, 8), actual: len });
    }
    let num_mints = read_u64(data, &mut offset).unwrap();
    let ghost o5: int = offset as int;
    proof {
        let avail: int = len - o5;
        assert(32 * (avail / 32) <= avail && avail < 32 * (avail / 32) + 32) by (nonlinear_arith)
            requires
                avail >= 0,
        ;
    }
    if num_mints > ((len - offset) / 32) as u64 {
        return Err(
            DecodeError::PayloadTooShort {
                expected: sat_add_mul(offset, num_mints, 32),
                actual: len,
            },
        );
    }
    let mut token_mints: Vec<String> = Vec::new();
    let mut j: u64 = 0;
    while j < num_mints
        invariant
            len == data@.len(),
            0 <= o5 <= len,
            offset as int == o5 + 32 * (j as int),
            j <= num_mints,
            32 * (num_mints as int) <= len - o5,
            token_mints@.len() == j as int,
            forall|i: int|
                0 <= i < j as int ==> token_mints@[i]@ == base58_of(
                    data@.subrange(o5 + 32 * i, o5 + 32 * i + 32),
                ),
        decreases num_mints - j,
    {
        proof {
            assert(32 * (j as int) + 32 <= 32 * (num_mints as int)) by (nonlinear_arith)
                requires
                    j < num_mints,
            ;
        }
        let m = base58_encode(slice_subrange(data, offset, offset + 32));
        token_mints.push(m);
        offset = offset + 32;
        j = j + 1;
    }
    if len - offset < 8 {
        return Err(DecodeError::PayloadTooShort { expected: sat_add(offset, 8), actual: len });
    }
    let num_balances = read_u64(data, &mut offset).unwrap();
    let ghost o7: int = offset as int;
    let fit8: usize = (len - offset) / 8;
    proof {
        let avail: int = len - o7;
        assert(8 * (avail / 8) <= avail && avail < 8 * (avail / 8) + 8) by (nonlinear_arith)
            requires
                avail >= 0,
        ;
    }
    if num_balances > fit8 as u64 {
        return Err(
            DecodeError::PayloadTooShort { expected: sat_add(offset + 8 * fit8, 8), actual: len },
        );
    }
    let mut token_balances: Vec<u64> = Vec::new();
    let mut k: u64 = 0;
    while k < num_balances
        invariant
            len == data@.len(),
            0 <= o7 <= len,
            offset as int == o7 + 8 * (k as int),
            k <= num_balances,
            8 * (num_balances as int) <= len - o7,
            token_balances@.len() == k as int,
            forall|i: int| 0 <= i < k as int ==> token_balances@[i] == le64_at(data@, o7 + 8 * i),
        decreases num_balances - k,
    {
        proof {
            assert(8 * (k as int) + 8 <= 8 * (num_balances as int)) by (nonlinear_arith)
                requires
                    k < num_balances,
            ;
        }
        let v = read_u64(data, &mut offset).unwrap();
        token_balances.push(v);
        k = k + 1;
    }
    if len - offset < 8 {
        return Err(DecodeError::PayloadTooShort { expected: sat_add(offset, 8), actual: len });
    }
    let num_decimals = read_u64(data, &mut offset).unwrap();
    let ghost o9: int = offset as int;
    let fit4: usize = (len - offset) / 4;
    proof {
        let avail: int = len - o9;
        assert(4 * (avail / 4) <= avail && avail < 4 * (avail / 4) + 4) by (nonlinear_arith)
            requires
                avail >= 0,
        ;
    }
    if num_decimals > fit4 as u64 {
        return Err(
            DecodeError::PayloadTooShort { expected: sat_add(offset + 4 * fit4, 4), actual: len },
        );
    }
    let mut token_decimals: Vec<i32> = Vec::new();
    let mut d: u64 = 0;
    while d < num_decimals
        invariant
            len == data@.len(),
            0 <= o9 <= len,
            offset as int == o9 + 4 * (d as int),
            d <= num_decimals,
            4 * (num_decimals as int) <= len - o9,
            token_decimals@.len() == d as int,
            forall|i: int| 0 <= i < d as int ==> token_decimals@[i] == i32_at(data@, o9 + 4 * i),
        decreases num_decimals - d,
    {
        proof {
            assert(4 * (d as int) + 4 <= 4 * (num_decimals as int)) by (nonlinear_arith)
                requires
                    d < num_decimals,
            ;
        }
        let v = read_i32(data, &mut offset).unwrap();
        token_decimals.push(v);
        d = d + 1;
    }
    let best_bid = match decode_optional_order_level(data, &mut offset) {
        Ok(l) => l,
        Err(e) => {
            return Err(e);
        },
    };
    let best_ask = match decode_optional_order_level(data, &mut offset) {
        Ok(l) => l,
        Err(e) => {
            return Err(e);
        },
    };
    let result = PoolUpdate {
        sequence,
        slot,
        write_version,
        protocol_name,
        pool_address,
        token_mints,
        token_balances,
        token_decimals,
        best_bid,
        best_ask,
        serialized_state,
    };
    proof {
        let numm: int = num_mints as int;
        assert(result@.token_mints =~= Seq::new(
            numm as nat,
            |i: int| base58_of(data@.subrange(o5 + 32 * i, o5 + 32 * i + 32)),
        ));
        assert(result@.token_balances =~= Seq::new(
            num_balances as nat,
            |i: int| le64_at(data@, o7 + 8 * i),
        ));
        assert(result@.token_decimals =~= Seq::new(
            num_decimals as nat,
            |i: int| i32_at(data@, o9 + 4 * i),
        ));
        assert(spec_decode_pool_update(data@) matches Ok(v) && v =~= result@);
    }
    Ok(result)
}

/// Decode a fee-market record.
pub fn decode_fee_market(data: &[u8]) -> (r: Result<FeeMarket, DecodeError>)
    ensures
        r matches Ok(f) ==> spec_decode_fee_market(data@) == Ok::<FeeMarketV, DecodeError>(f@),
        r matches Err(e) ==> spec_decode_fee_market(data@) == Err::<FeeMarketV, DecodeError>(e),
{
    let len: usize = data.len();
    if len < 42 {
        return Err(DecodeError::PayloadTooShort { expected: 42, actual: len });
    }
    let mut offset: usize = 0;
    let slot = read_u64(data, &mut offset).unwrap();
    let timestamp_ms = read_u64(data, &mut offset).unwrap();
    let recommended = read_u64(data, &mut offset).unwrap();
    let state_byte: u8 = *slice_index_get(data, 24);
    let state = match NetworkState::try_from(state_byte) {
        Ok(s) => s,
        Err(b) => {
            return Err(DecodeError::InvalidNetworkState(b));
        },
    };
    let is_stale = *slice_index_get(data, 25) != 0;
    offset = 26;
    let block_utilization_pct_bits = read_u32(data, &mut offset).unwrap();
    let blocks_in_window = read_u32(data, &mut offset).unwrap();
    let account_count = read_u64(data, &mut offset).unwrap();
    let fit: usize = (len - 42) / 92;
    proof {
        let avail = (len - 42) as int;
        assert(92 * (avail / 92) <= avail && avail < 92 * (avail / 92) + 92) by (nonlinear_arith)
            requires
                avail >= 0,
        ;
    }
    if account_count > fit as u64 {
        return Err(
            DecodeError::PayloadTooShort { expected: sat_add(42 + 92 * fit, 92), actual: len },
        );
    }
    let mut accounts: Vec<AccountFee> = Vec::new();
    let mut k: u64 = 0;
    while k < account_count
        invariant
            len == data@.len(),
            len >= 42,
            k <= account_count,
            account_count <= fit as u64,
            92 * (fit as int) <= len - 42,
            offset as int == 42 + 92 * (k as int),
            accounts@.len() == k as int,
            forall|i: int|
                0 <= i < k as int ==> accounts@[i]@ =~= spec_account_fee_at(data@, 42 + 92 * i),
        decreases account_count - k,
    {
        proof {
            assert(92 * (k as int) + 92 <= 92 * (fit as int)) by (nonlinear_arith)
                requires
                    k < account_count,
                    account_count <= fit as u64,
            ;
        }
        let pubkey = base58_encode(slice_subrange(data, offset, offset + 32));
        let mut o2: usize = offset + 32;
        let total_txs = read_u32(data, &mut o2).unwrap();
        let active_slots = read_u32(data, &mut o2).unwrap();
        let cu_consumed = read_u64(data, &mut o2).unwrap();
        let utilization_pct_bits = read_u32(data, &mut o2).unwrap();
        let p25 = read_u64(data, &mut o2).unwrap();
        let p50 = read_u64(data, &mut o2).unwrap();
        let p75 = read_u64(data, &mut o2).unwrap();
        let p90 = read_u64(data, &mut o2).unwrap();
        let min_nonzero_price = read_u64(data, &mut o2).unwrap();
        accounts.push(
            AccountFee {
                pubkey,
                total_txs,
                active_slots,
                cu_consumed,
                utilization_pct_bits,
                p25,
                p50,
                p75,
                p90,
                min_nonzero_price,
            },
        );
        offset = o2;
        k = k + 1;
    }
    let result = FeeMarket {
        slot,
        timestamp_ms,
        recommended,
        state,
        is_stale,
        block_utilization_pct_bits,
        blocks_in_window,
        accounts,
    };
    proof {
        assert(result@.accounts =~= Seq::new(
            le64_at(data@, 34) as nat,
            |i: int| spec_account_fee_at(data@, 42 + 92 * i),
        ));
        assert(spec_decode_fee_market(data@) matches Ok(v) && v =~= result@);
    }
    Ok(result)
}

/// What decoding a whole binary message yields, given its type byte
/// and payload: `Ok(Some(..))` for a decoded record, `Ok(None)` for a
/// recognized type with no inbound record, and `Err` for an unknown
/// type byte or a malformed payload of a known type.
pub open spec fn spec_decode_message(msg_type: u8, payload: Seq<u8>) -> Result<
    Option<DecodedMessageV>,
    DecodeError,
> {
    match spec_message_type(msg_type) {
        None => Err(DecodeError::InvalidMessageType(msg_type)),
        Some(MessageType::PoolUpdate) => match spec_decode_pool_update(payload) {
            Ok(u) => Ok(Some(DecodedMessageV::PoolUpdate(u))),
            Err(e) => Err(e),
        },
        Some(MessageType::PoolUpdateBatch) => match spec_decode_pool_update_batch(payload) {
            Ok(v) => Ok(Some(DecodedMessageV::PoolUpdateBatch(v))),
            Err(e) => Err(e),
        },
        Some(MessageType::PriorityFees) => match spec_decode_fee_market(payload) {
            Ok(f) => Ok(Some(DecodedMessageV::FeeMarket(f))),
            Err(e) => Err(e),
        },
        Some(MessageType::Blockhash) => match spec_decode_blockhash(payload) {
            Ok(b) => Ok(Some(DecodedMessageV::Blockhash(b))),
            Err(e) => Err(e),
        },
        Some(MessageType::Error) => if valid_utf8(payload) {
            Ok(Some(DecodedMessageV::Error(decode_utf8(payload))))
        } else {
            Err(DecodeError::InvalidUtf8)
        },
        Some(_) => Ok(None),
    }
}

/// Decode a binary message from its type byte and payload (the frame
/// bytes after the type byte). Returns `Ok(None)` for recognized types
/// that carry no inbound record, so the protocol can grow new types
/// without breaking older clients.
pub fn decode_message(msg_type: u8, payload: &[u8]) -> (r: Result<
    Option<DecodedMessage>,
    DecodeError,
>)
    ensures
        r matches Ok(m) ==> spec_decode_message(msg_type, payload@) matches Ok(mv) && mv == match m {
            Some(d) => Some(d@),
            None => None,
        },
        r matches Err(e) ==> spec_decode_message(msg_type, payload@) == Err::<
            Option<DecodedMessageV>,
            DecodeError,
        >(e),
{
    let t = match MessageType::try_from(msg_type) {
        Ok(t) => t,
        Err(b) => {
            return Err(DecodeError::InvalidMessageType(b));
        },
    };
    match t {
        MessageType::PoolUpdate => match decode_pool_update(payload) {
            Ok(update) => Ok(Some(DecodedMessage::PoolUpdate(update))),
            Err(e) => Err(e),
        },
        MessageType::PoolUpdateBatch => match decode_pool_update_batch(payload) {
            Ok(updates) => Ok(Some(DecodedMessage::PoolUpdateBatch(updates))),
            Err(e) => Err(e),
        },
        MessageType::PriorityFees => match decode_fee_market(payload) {
            Ok(fees) => Ok(Some(DecodedMessage::FeeMarket(fees))),
            Err(e) => Err(e),
        },
        MessageType::Blockhash => match decode_blockhash(payload) {
            Ok(bh) => Ok(Some(DecodedMessage::Blockhash(bh))),
            Err(e) => Err(e),
        },
        MessageType::Error => match utf8_to_string(slice_to_vec(payload)) {
            Some(msg) => Ok(Some(DecodedMessage::Error(msg))),
            None => Err(DecodeError::InvalidUtf8),
        },
        _ => Ok(None),
    }
}

} // verus!
