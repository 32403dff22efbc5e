//! The decode laws: what holds of every payload, stated and proved
//! over the spec-level parsers.

use vstd::prelude::*;
use vstd::bytes::{
    lemma_auto_spec_u32_to_from_le_bytes, lemma_auto_spec_u64_to_from_le_bytes,
    spec_u32_to_le_bytes, spec_u64_to_le_bytes,
};
use vstd::utf8::{encode_utf8, encode_utf8_decode_utf8, encode_utf8_valid_utf8};

use crate::decoder::{
    le16_at, spec_decode_blockhash, spec_decode_fee_market, spec_decode_pool_update,
    spec_decode_pool_update_batch, spec_parse_batch_items,
};
use crate::dispatch::{spec_classify_binary, spec_unit_events, FrameOutcomeV};
use crate::encoding::base58_of;
use crate::errors::{too_short, DecodeError};
use crate::messages::spec_message_type;
use crate::records::{
    spec_network_state, BlockhashV, DecodedMessageV, FeeMarketV, OrderLevel, PoolUpdateV,
};
use crate::registry::{spec_category_of, Category};

verus! {

/// Decoding any blockhash payload shorter than its 65-byte fixed size
/// fails with `PayloadTooShort`, whatever the bytes hold.
pub proof fn lemma_truncated_blockhash(data: Seq<u8>)
    requires
        data.len() < 65,
    ensures
        spec_decode_blockhash(data) == Err::<BlockhashV, DecodeError>(
            too_short(65, data.len() as int),
        ),
{
}

/// Decoding any fee-market payload shorter than its 42-byte fixed
/// header fails with `PayloadTooShort`, whatever the bytes hold.
pub proof fn lemma_truncated_fee_market(data: Seq<u8>)
    requires
        data.len() < 42,
    ensures
        spec_decode_fee_market(data) == Err::<FeeMarketV, DecodeError>(
            too_short(42, data.len() as int),
        ),
{
}

/// Decoding any batch payload shorter than its 2-byte count fails
/// with `PayloadTooShort`.
pub proof fn lemma_truncated_batch(data: Seq<u8>)
    requires
        data.len() < 2,
    ensures
        spec_decode_pool_update_batch(data) == Err::<Seq<PoolUpdateV>, DecodeError>(
            too_short(2, data.len() as int),
        ),
{
}

/// Decoding any pool-update payload shorter than its 98-byte minimum
/// never succeeds. Shorter than the leading 8-byte length it fails
/// with exactly `PayloadTooShort`; within the minimum, it fails with
/// `PayloadTooShort` or, when the bytes where the protocol name would
/// sit are not UTF-8, with `InvalidUtf8`.
pub proof fn lemma_truncated_pool_update(data: Seq<u8>)
    requires
        data.len() < 98,
    ensures
        spec_decode_pool_update(data) is Err,
        spec_decode_pool_update(data) matches Err(e) ==> (e matches DecodeError::PayloadTooShort {
            ..
        } || e == DecodeError::InvalidUtf8),
        data.len() < 8 ==> spec_decode_pool_update(data) == Err::<PoolUpdateV, DecodeError>(
            too_short(8, data.len() as int),
        ),
{
}

/// A fee-market payload's `state` byte (offset 24) decides: a value
/// of 4 or higher always fails with `InvalidEnumValue` semantics
/// (`InvalidNetworkState` carrying the byte), and whenever decoding
/// succeeds, the decoded state is exactly the 4-value mapping of that
/// byte.
pub proof fn lemma_fee_market_state(data: Seq<u8>)
    requires
        data.len() >= 42,
    ensures
        data[24] >= 4 ==> spec_decode_fee_market(data) == Err::<FeeMarketV, DecodeError>(
            DecodeError::InvalidNetworkState(data[24]),
        ),
        spec_decode_fee_market(data) matches Ok(f) ==> Some(f.state) == spec_network_state(
            data[24],
        ),
{
}

/// A successful batch parse yields exactly as many sub-records as it
/// was asked for.
pub proof fn lemma_batch_items_len(data: Seq<u8>, off: int, n: nat)
    ensures
        spec_parse_batch_items(data, off, n) matches Ok(p) ==> p.0.len() == n,
    decreases n,
{
    if n > 0 {
        let len = data.len() as int;
        if off + 4 <= len {
            let l = crate::decoder::le32_at(data, off) as int;
            let o1 = off + 4;
            if o1 + l <= len {
                lemma_batch_items_len(data, o1 + l, (n - 1) as nat);
            }
        }
    }
}

/// A batch that decodes with count `N` expands to exactly `N`
/// pool-update events, in encoded order, all for the pool-update
/// handler.
pub proof fn lemma_batch_dispatch(data: Seq<u8>, v: Seq<PoolUpdateV>)
    requires
        spec_decode_pool_update_batch(data) == Ok::<Seq<PoolUpdateV>, DecodeError>(v),
    ensures
        v.len() == le16_at(data, 0),
        spec_category_of(DecodedMessageV::PoolUpdateBatch(v)) == Some(Category::PoolUpdate),
        spec_unit_events(DecodedMessageV::PoolUpdateBatch(v)).len() == v.len(),
        forall|i: int|
            0 <= i < v.len() ==> spec_unit_events(DecodedMessageV::PoolUpdateBatch(v))[i]
                == DecodedMessageV::PoolUpdate(v[i]),
{
    lemma_batch_items_len(data, 2, le16_at(data, 0) as nat);
}

/// The raw field values of one pool-update record, as a server would
/// hold them before encoding: addresses as their 32 raw bytes, the
/// protocol name as text.
pub struct PoolUpdateFields {
    /// Opaque pool state bytes.
    pub serialized_state: Seq<u8>,
    /// Global sequence number.
    pub sequence: u64,
    /// Solana slot number.
    pub slot: u64,
    /// Write version within the slot.
    pub write_version: u64,
    /// Protocol name.
    pub protocol_name: Seq<char>,
    /// Pool address, 32 raw bytes.
    pub pool_address: Seq<u8>,
    /// Token mints, 32 raw bytes each.
    pub token_mints: Seq<Seq<u8>>,
    /// Token balances.
    pub token_balances: Seq<u64>,
    /// Token decimals.
    pub token_decimals: Seq<i32>,
    /// Best bid, if present.
    pub best_bid: Option<OrderLevel>,
    /// Best ask, if present.
    pub best_ask: Option<OrderLevel>,
}

/// Field values the wire format can carry: 32-byte addresses, and
/// every count expressible as a `u64` length prefix.
pub open spec fn wf_pool_update_fields(f: PoolUpdateFields) -> bool {
    &&& f.pool_address.len() == 32
    &&& forall|i: int| 0 <= i < f.token_mints.len() ==> (#[trigger] f.token_mints[i]).len() == 32
    &&& f.serialized_state.len() <= u64::MAX
    &&& encode_utf8(f.protocol_name).len() <= u64::MAX
    &&& f.token_mints.len() <= u64::MAX
    &&& f.token_balances.len() <= u64::MAX
    &&& f.token_decimals.len() <= u64::MAX
}

/// The encoding of an optional order level: one presence byte, then
/// price and size only when present.
pub open spec fn spec_enc_opt_level(l: Option<OrderLevel>) -> Seq<u8> {
    match l {
        None => seq![0u8],
        Some(lvl) => seq![1u8] + (spec_u64_to_le_bytes(lvl.price) + spec_u64_to_le_bytes(lvl.size)),
    }
}

/// The wire encoding of a pool-update record, segment by segment in
/// layout order. No executable encoder exists in the library; this is
/// the mathematical statement of the layout the decoder consumes.
pub open spec fn spec_encode_pool_update(f: PoolUpdateFields) -> Seq<u8> {
    let name_bytes = encode_utf8(f.protocol_name);
    spec_u64_to_le_bytes(f.serialized_state.len() as u64) + (f.serialized_state + (
    spec_u64_to_le_bytes(f.sequence) + (spec_u64_to_le_bytes(f.slot) + (spec_u64_to_le_bytes(
        f.write_version,
    ) + (spec_u64_to_le_bytes(name_bytes.len() as u64) + (name_bytes + (f.pool_address + (
    spec_u64_to_le_bytes(f.token_mints.len() as u64) + (f.token_mints.flatten() + (
    spec_u64_to_le_bytes(f.token_balances.len() as u64) + (f.token_balances.map_values(
        |v: u64| spec_u64_to_le_bytes(v),
    ).flatten() + (spec_u64_to_le_bytes(f.token_decimals.len() as u64) + (
    f.token_decimals.map_values(|v: i32| spec_u32_to_le_bytes(v as u32)).flatten() + (
    spec_enc_opt_level(f.best_bid) + spec_enc_opt_level(f.best_ask)))))))))))))))
}

/// Splitting a concatenation back out of a longer sequence: if the
/// suffix of `whole` from `a` is `seg + rest`, then `seg` sits at
/// `a..a+|seg|` and `rest` is the suffix after it.
proof fn lemma_peel(whole: Seq<u8>, a: int, seg: Seq<u8>, rest: Seq<u8>)
    requires
        0 <= a,
        a + seg.len() + rest.len() == whole.len(),
        whole.subrange(a, whole.len() as int) == seg + rest,
    ensures
        whole.subrange(a, a + seg.len()) == seg,
        whole.subrange(a + seg.len(), whole.len() as int) == rest,
{
    assert forall|k: int| 0 <= k < seg.len() implies whole.subrange(a, a + seg.len())[k] == seg[k] by {
        assert(whole.subrange(a, whole.len() as int)[k] == (seg + rest)[k]);
    }
    assert(whole.subrange(a, a + seg.len()) =~= seg);
    assert forall|k: int|
        0 <= k < rest.len() implies whole.subrange(a + seg.len(), whole.len() as int)[k]
        == rest[k] by {
        assert(whole.subrange(a + seg.len(), whole.len() as int)[k] == whole[a + seg.len() + k]);
        assert(whole.subrange(a, whole.len() as int)[seg.len() + k] == whole[a + seg.len() + k]);
        assert((seg + rest)[seg.len() + k] == rest[k]);
    }
    assert(whole.subrange(a + seg.len(), whole.len() as int) =~= rest);
}

/// A flattened sequence of fixed-width chunks holds chunk `i` at
/// offset `i * w`.
proof fn lemma_flatten_fixed_width(s: Seq<Seq<u8>>, w: int)
    requires
        w >= 0,
        forall|i: int| 0 <= i < s.len() ==> (#[trigger] s[i]).len() == w,
    ensures
        s.flatten().len() == s.len() * w,
        forall|i: int|
            0 <= i < s.len() ==> #[trigger] s.flatten().subrange(i * w, i * w + w) == s[i],
    decreases s.len(),
{
    if s.len() == 0 {
        assert(s.flatten() =~= Seq::<u8>::empty());
    } else {
        let rest = s.drop_first();
        lemma_flatten_fixed_width(rest, w);
        assert(s.flatten() == s[0] + rest.flatten());
        assert(s.len() * w == w + rest.len() * w) by (nonlinear_arith)
            requires
                s.len() == rest.len() + 1,
        ;
        assert forall|i: int| 0 <= i < s.len() implies #[trigger] s.flatten().subrange(
            i * w,
            i * w + w,
        ) == s[i] by {
            if i == 0 {
                assert(s.flatten().subrange(0, w) =~= s[0]);
            } else {
                assert((i - 1) * w == i * w - w) by (nonlinear_arith);
                assert(0 <= (i - 1) * w && (i - 1) * w + w <= rest.len() * w) by (nonlinear_arith)
                    requires
                        1 <= i < s.len(),
                        s.len() == rest.len() + 1,
                        w >= 0,
                ;
                assert(rest.flatten().subrange((i - 1) * w, (i - 1) * w + w) == rest[i - 1]);
                assert(s.flatten().subrange(i * w, i * w + w) =~= rest.flatten().subrange(
                    (i - 1) * w,
                    (i - 1) * w + w,
                ));
                assert(rest[i - 1] == s[i]);
            }
        }
    }
}

/// Reinterpreting an `i32` as its unsigned bit pattern and back is
/// the identity.
proof fn lemma_i32_bits_round_trip(v: i32)
    ensures
        (v as u32) as i32 == v,
{
    assert((v as u32) as i32 == v) by (bit_vector);
}

/// Parsing an optional order level off its own encoding recovers it
/// and leaves the cursor at the start of what follows.
proof fn lemma_opt_level_at(data: Seq<u8>, off: int, l: Option<OrderLevel>, rest: Seq<u8>)
    requires
        0 <= off,
        off + spec_enc_opt_level(l).len() + rest.len() == data.len(),
        data.subrange(off, data.len() as int) == spec_enc_opt_level(l) + rest,
    ensures
        crate::decoder::spec_parse_opt_level(data, off) == Ok::<
            (Option<OrderLevel>, int),
            DecodeError,
        >((l, off + spec_enc_opt_level(l).len())),
        data.subrange(off + spec_enc_opt_level(l).len(), data.len() as int) == rest,
{
    lemma_auto_spec_u64_to_from_le_bytes();
    let s = spec_enc_opt_level(l);
    match l {
        None => {
            lemma_peel(data, off, s, rest);
            assert(data.subrange(off, off + 1)[0] == data[off]);
            assert(data[off] == 0);
        },
        Some(lvl) => {
            let p = spec_u64_to_le_bytes(lvl.price);
            let q = spec_u64_to_le_bytes(lvl.size);
            assert(s + rest =~= seq![1u8] + (p + (q + rest)));
            lemma_peel(data, off, seq![1u8], p + (q + rest));
            lemma_peel(data, off + 1, p, q + rest);
            lemma_peel(data, off + 9, q, rest);
            assert(data.subrange(off, off + 1)[0] == data[off]);
            assert(data[off] == 1);
            assert(crate::decoder::le64_at(data, off + 1) == lvl.price);
            assert(crate::decoder::le64_at(data, off + 9) == lvl.size);
        },
    }
}

/// A subrange of a subrange is the inner subrange of the whole.
proof fn lemma_sub_sub(data: Seq<u8>, a: int, b: int, i: int, j: int)
    requires
        0 <= a <= b <= data.len(),
        0 <= i <= j <= b - a,
    ensures
        data.subrange(a + i, a + j) == data.subrange(a, b).subrange(i, j),
{
    assert(data.subrange(a + i, a + j) =~= data.subrange(a, b).subrange(i, j));
}

/// Decoding any valid encoding of a pool-update record recovers
/// exactly the field values that were encoded: the integers and the
/// state blob as they were, the addresses in their Base58 text form,
/// the protocol name decoded from its UTF-8 bytes.
#[verifier::spinoff_prover]
#[verifier::rlimit(100)]
pub proof fn lemma_pool_update_round_trip(f: PoolUpdateFields)
    requires
        wf_pool_update_fields(f),
    ensures
        spec_decode_pool_update(spec_encode_pool_update(f)) == Ok::<PoolUpdateV, DecodeError>(
            PoolUpdateV {
                sequence: f.sequence,
                slot: f.slot,
                write_version: f.write_version,
                protocol_name: f.protocol_name,
                pool_address: base58_of(f.pool_address),
                token_mints: Seq::new(
                    f.token_mints.len(),
                    |i: int| base58_of(f.token_mints[i]),
                ),
                token_balances: f.token_balances,
                token_decimals: f.token_decimals,
                best_bid: f.best_bid,
                best_ask: f.best_ask,
                serialized_state: f.serialized_state,
            },
        ),
{
    lemma_auto_spec_u64_to_from_le_bytes();
    lemma_auto_spec_u32_to_from_le_bytes();
    encode_utf8_valid_utf8(f.protocol_name);
    encode_utf8_decode_utf8(f.protocol_name);

    let data = spec_encode_pool_update(f);
    let len = data.len() as int;
    let nb = encode_utf8(f.protocol_name);
    let sl = f.serialized_state.len() as int;
    let nl = nb.len() as int;
    let nm = f.token_mints.len() as int;
    let nbal = f.token_balances.len() as int;
    let nd = f.token_decimals.len() as int;
    let balbytes = f.token_balances.map_values(|v: u64| spec_u64_to_le_bytes(v));
    let decbytes = f.token_decimals.map_values(|v: i32| spec_u32_to_le_bytes(v as u32));

    let s0 = spec_u64_to_le_bytes(f.serialized_state.len() as u64);
    let s1 = f.serialized_state;
    let s2 = spec_u64_to_le_bytes(f.sequence);
    let s3 = spec_u64_to_le_bytes(f.slot);
    let s4 = spec_u64_to_le_bytes(f.write_version);
    let s5 = spec_u64_to_le_bytes(nb.len() as u64);
    let s6 = nb;
    let s7 = f.pool_address;
    let s8 = spec_u64_to_le_bytes(f.token_mints.len() as u64);
    let s9 = f.token_mints.flatten();
    let s10 = spec_u64_to_le_bytes(f.token_balances.len() as u64);
    let s11 = balbytes.flatten();
    let s12 = spec_u64_to_le_bytes(f.token_decimals.len() as u64);
    let s13 = decbytes.flatten();
    let s14 = spec_enc_opt_level(f.best_bid);
    let s15 = spec_enc_opt_level(f.best_ask);

    assert(forall|i: int| 0 <= i < nbal ==> (#[trigger] balbytes[i]).len() == 8);
    assert(forall|i: int| 0 <= i < nd ==> (#[trigger] decbytes[i]).len() == 4);
    lemma_flatten_fixed_width(f.token_mints, 32);
    lemma_flatten_fixed_width(balbytes, 8);
    lemma_flatten_fixed_width(decbytes, 4);

    let rest15 = s15;
    let rest14 = s14 + rest15;
    let rest13 = s13 + rest14;
    let rest12 = s12 + rest13;
    let rest11 = s11 + rest12;
    let rest10 = s10 + rest11;
    let rest9 = s9 + rest10;
    let rest8 = s8 + rest9;
    let rest7 = s7 + rest8;
    let rest6 = s6 + rest7;
    let rest5 = s5 + rest6;
    let rest4 = s4 + rest5;
    let rest3 = s3 + rest4;
    let rest2 = s2 + rest3;
    let rest1 = s1 + rest2;
    assert(data == s0 + rest1);

    let o1 = 8 + sl;
    let o2 = o1 + 32;
    let o3 = o2 + nl;
    let o4 = o3 + 32;
    let o5 = o4 + 8;
    let o6 = o5 + 32 * nm;
    let o7 = o6 + 8;
    let o8 = o7 + 8 * nbal;
    let o9 = o8 + 8;
    let o10 = o9 + 4 * nd;
    let o11 = o10 + s14.len() as int;

    assert(s9.len() == nm * 32);
    assert(s11.len() == nbal * 8);
    assert(s13.len() == nd * 4);
    assert(nm * 32 == 32 * nm) by (nonlinear_arith);
    assert(nbal * 8 == 8 * nbal) by (nonlinear_arith);
    assert(nd * 4 == 4 * nd) by (nonlinear_arith);

    assert(data.subrange(0, len) =~= data);
    lemma_peel(data, 0, s0, rest1);
    lemma_peel(data, 8, s1, rest2);
    lemma_peel(data, o1, s2, rest3);
    lemma_peel(data, o1 + 8, s3, rest4);
    lemma_peel(data, o1 + 16, s4, rest5);
    lemma_peel(data, o1 + 24, s5, rest6);
    lemma_peel(data, o2, s6, rest7);
    lemma_peel(data, o3, s7, rest8);
    lemma_peel(data, o4, s8, rest9);
    lemma_peel(data, o5, s9, rest10);
    lemma_peel(data, o6, s10, rest11);
    lemma_peel(data, o7, s11, rest12);
    lemma_peel(data, o8, s12, rest13);
    lemma_peel(data, o9, s13, rest14);
    lemma_opt_level_at(data, o10, f.best_bid, rest15);
    lemma_opt_level_at(data, o11, f.best_ask, Seq::<u8>::empty());

    assert(crate::decoder::le64_at(data, 0) == f.serialized_state.len() as u64);
    assert(crate::decoder::le64_at(data, o1) == f.sequence);
    assert(crate::decoder::le64_at(data, o1 + 8) == f.slot);
    assert(crate::decoder::le64_at(data, o1 + 16) == f.write_version);
    assert(crate::decoder::le64_at(data, o1 + 24) == nb.len() as u64);
    assert(crate::decoder::le64_at(data, o4) == f.token_mints.len() as u64);
    assert(crate::decoder::le64_at(data, o6) == f.token_balances.len() as u64);
    assert(crate::decoder::le64_at(data, o8) == f.token_decimals.len() as u64);

    assert(nbal <= (len - o7) / 8) by (nonlinear_arith)
        requires
            8 * nbal <= len - o7,
            nbal >= 0,
    ;
    assert(nd <= (len - o9) / 4) by (nonlinear_arith)
        requires
            4 * nd <= len - o9,
            nd >= 0,
    ;

    assert forall|i: int| 0 <= i < nm implies data.subrange(o5 + 32 * i, o5 + 32 * i + 32)
        == f.token_mints[i] by {
        assert(0 <= 32 * i && 32 * i + 32 <= nm * 32) by (nonlinear_arith)
            requires
                0 <= i < nm,
        ;
        lemma_sub_sub(data, o5, o6, 32 * i, 32 * i + 32);
        assert(s9.subrange(i * 32, i * 32 + 32) == f.token_mints[i]);
        assert(i * 32 == 32 * i) by (nonlinear_arith);
    }
    assert forall|i: int| 0 <= i < nbal implies crate::decoder::le64_at(data, o7 + 8 * i)
        == f.token_balances[i] by {
        assert(0 <= 8 * i && 8 * i + 8 <= nbal * 8) by (nonlinear_arith)
            requires
                0 <= i < nbal,
        ;
        lemma_sub_sub(data, o7, o8, 8 * i, 8 * i + 8);
        assert(s11.subrange(i * 8, i * 8 + 8) == balbytes[i]);
        assert(i * 8 == 8 * i) by (nonlinear_arith);
    }
    assert forall|i: int| 0 <= i < nd implies crate::decoder::i32_at(data, o9 + 4 * i)
        == f.token_decimals[i] by {
        assert(0 <= 4 * i && 4 * i + 4 <= nd * 4) by (nonlinear_arith)
            requires
                0 <= i < nd,
        ;
        lemma_sub_sub(data, o9, o10, 4 * i, 4 * i + 4);
        assert(s13.subrange(i * 4, i * 4 + 4) == decbytes[i]);
        assert(i * 4 == 4 * i) by (nonlinear_arith);
        lemma_i32_bits_round_trip(f.token_decimals[i]);
    }

    assert(spec_decode_pool_update(data) matches Ok(u) && u =~= PoolUpdateV {
        sequence: f.sequence,
        slot: f.slot,
        write_version: f.write_version,
        protocol_name: f.protocol_name,
        pool_address: base58_of(f.pool_address),
        token_mints: Seq::new(f.token_mints.len(), |i: int| base58_of(f.token_mints[i])),
        token_balances: f.token_balances,
        token_decimals: f.token_decimals,
        best_bid: f.best_bid,
        best_ask: f.best_ask,
        serialized_state: f.serialized_state,
    });
}

/// An empty binary frame, and a binary frame whose leading byte maps
/// to no known message type, are both classified as no-ops: no record
/// is delivered and no error is surfaced.
pub proof fn lemma_noop_frames(data: Seq<u8>)
    ensures
        data.len() == 0 ==> spec_classify_binary(data) == FrameOutcomeV::Ignored,
        data.len() > 0 && spec_message_type(data[0]) is None ==> spec_classify_binary(data)
            == FrameOutcomeV::Ignored,
{
}

} // verus!
