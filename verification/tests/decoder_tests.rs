//! Byte-fixture tests for the binary record decoders.

use k256_sdk::decoder::{
    decode_blockhash, decode_fee_market, decode_message, decode_optional_order_level,
    decode_pool_update, decode_pool_update_batch,
};
use k256_sdk::errors::DecodeError;
use k256_sdk::records::{DecodedMessage, NetworkState, OrderLevel};

fn push_u64(buf: &mut Vec<u8>, v: u64) {
    buf.extend_from_slice(&v.to_le_bytes());
}

fn push_u32(buf: &mut Vec<u8>, v: u32) {
    buf.extend_from_slice(&v.to_le_bytes());
}

fn push_i32(buf: &mut Vec<u8>, v: i32) {
    buf.extend_from_slice(&v.to_le_bytes());
}

/// A pool update fixture: state blob [9, 9, 9], two mints, two
/// balances, two decimals, a bid, no ask.
fn pool_update_fixture() -> Vec<u8> {
    let mut buf: Vec<u8> = Vec::new();
    push_u64(&mut buf, 3); // state blob length
    buf.extend_from_slice(&[9, 9, 9]);
    push_u64(&mut buf, 7); // sequence
    push_u64(&mut buf, 1234); // slot
    push_u64(&mut buf, 56); // write version
    push_u64(&mut buf, 9); // protocol name length
    buf.extend_from_slice(b"Whirlpool");
    buf.extend_from_slice(&[1u8; 32]); // pool address
    push_u64(&mut buf, 2); // mint count
    buf.extend_from_slice(&[2u8; 32]);
    buf.extend_from_slice(&[3u8; 32]);
    push_u64(&mut buf, 2); // balance count
    push_u64(&mut buf, 1_000_000);
    push_u64(&mut buf, 2_000_000);
    push_u64(&mut buf, 2); // decimals count
    push_i32(&mut buf, 6);
    push_i32(&mut buf, -1);
    buf.push(1); // bid present
    push_u64(&mut buf, 42); // bid price
    push_u64(&mut buf, 17); // bid size
    buf.push(0); // no ask
    buf
}

#[test]
fn pool_update_round_trip_fixture() {
    let buf = pool_update_fixture();
    let u = decode_pool_update(&buf).unwrap();
    assert_eq!(u.sequence, 7);
    assert_eq!(u.slot, 1234);
    assert_eq!(u.write_version, 56);
    assert_eq!(u.protocol_name, "Whirlpool");
    assert_eq!(u.pool_address, bs58::encode(&[1u8; 32]).into_string());
    assert_eq!(u.token_mints.len(), 2);
    assert_eq!(u.token_mints[0], bs58::encode(&[2u8; 32]).into_string());
    assert_eq!(u.token_mints[1], bs58::encode(&[3u8; 32]).into_string());
    assert_eq!(u.token_balances, vec![1_000_000, 2_000_000]);
    assert_eq!(u.token_decimals, vec![6, -1]);
    assert_eq!(u.best_bid, Some(OrderLevel { price: 42, size: 17 }));
    assert_eq!(u.best_ask, None);
    assert_eq!(u.serialized_state, vec![9, 9, 9]);
}

#[test]
fn pool_update_every_truncation_fails() {
    let buf = pool_update_fixture();
    for k in 0..buf.len() {
        let r = decode_pool_update(&buf[0..k]);
        assert!(r.is_err(), "prefix of {} bytes decoded", k);
        match r.unwrap_err() {
            DecodeError::PayloadTooShort { expected, actual } => {
                assert_eq!(actual, k);
                assert!(expected > k);
            }
            other => panic!("unexpected error {:?}", other),
        }
    }
    assert!(decode_pool_update(&buf).is_ok());
}

#[test]
fn pool_update_invalid_name_utf8() {
    let mut buf: Vec<u8> = Vec::new();
    push_u64(&mut buf, 0);
    push_u64(&mut buf, 1);
    push_u64(&mut buf, 2);
    push_u64(&mut buf, 3);
    push_u64(&mut buf, 2); // name length
    buf.extend_from_slice(&[0xFF, 0xFE]); // not UTF-8
    buf.extend_from_slice(&[0u8; 32]);
    push_u64(&mut buf, 0);
    push_u64(&mut buf, 0);
    push_u64(&mut buf, 0);
    buf.push(0);
    buf.push(0);
    assert_eq!(decode_pool_update(&buf), Err(DecodeError::InvalidUtf8));
}

#[test]
fn optional_order_level_reads() {
    let data: Vec<u8> = vec![0u8, 7];
    let mut offset: usize = 0;
    assert_eq!(decode_optional_order_level(&data, &mut offset), Ok(None));
    assert_eq!(offset, 1);

    let mut present: Vec<u8> = vec![1u8];
    push_u64(&mut present, 5);
    push_u64(&mut present, 6);
    let mut offset: usize = 0;
    assert_eq!(
        decode_optional_order_level(&present, &mut offset),
        Ok(Some(OrderLevel { price: 5, size: 6 }))
    );
    assert_eq!(offset, 17);

    let empty: Vec<u8> = Vec::new();
    let mut offset: usize = 0;
    assert_eq!(
        decode_optional_order_level(&empty, &mut offset),
        Err(DecodeError::PayloadTooShort { expected: 1, actual: 0 })
    );
}

#[test]
fn blockhash_zero_hash_is_base58_ones() {
    let mut buf: Vec<u8> = Vec::new();
    push_u64(&mut buf, 100); // slot
    push_u64(&mut buf, 1000); // timestamp_ms
    buf.extend_from_slice(&[0u8; 32]); // hash
    push_u64(&mut buf, 50); // block height
    push_u64(&mut buf, 60); // last valid block height
    buf.push(0); // not stale
    let b = decode_blockhash(&buf).unwrap();
    assert_eq!(b.slot, 100);
    assert_eq!(b.timestamp_ms, 1000);
    assert_eq!(b.blockhash, "11111111111111111111111111111111");
    assert_eq!(b.block_height, 50);
    assert_eq!(b.last_valid_block_height, 60);
    assert!(!b.is_stale);
}

#[test]
fn blockhash_truncated() {
    for k in 0..65 {
        let buf = vec![0u8; k];
        assert_eq!(
            decode_blockhash(&buf),
            Err(DecodeError::PayloadTooShort { expected: 65, actual: k })
        );
    }
}

fn fee_market_fixture(state: u8, accounts: u64) -> Vec<u8> {
    let mut buf: Vec<u8> = Vec::new();
    push_u64(&mut buf, 900); // slot
    push_u64(&mut buf, 901); // timestamp_ms
    push_u64(&mut buf, 5000); // recommended
    buf.push(state);
    buf.push(1); // stale
    buf.extend_from_slice(&55.5f32.to_le_bytes());
    push_u32(&mut buf, 12); // blocks in window
    push_u64(&mut buf, accounts);
    for i in 0..accounts {
        buf.extend_from_slice(&[i as u8; 32]); // pubkey
        push_u32(&mut buf, 10); // total txs
        push_u32(&mut buf, 4); // active slots
        push_u64(&mut buf, 777); // cu consumed
        buf.extend_from_slice(&12.25f32.to_le_bytes());
        push_u64(&mut buf, 25);
        push_u64(&mut buf, 50);
        push_u64(&mut buf, 75);
        push_u64(&mut buf, 90);
        push_u64(&mut buf, 3); // min nonzero price
    }
    buf
}

#[test]
fn fee_market_decodes() {
    let buf = fee_market_fixture(2, 2);
    let f = decode_fee_market(&buf).unwrap();
    assert_eq!(f.slot, 900);
    assert_eq!(f.timestamp_ms, 901);
    assert_eq!(f.recommended, 5000);
    assert_eq!(f.state, NetworkState::High);
    assert!(f.is_stale);
    assert_eq!(f32::from_bits(f.block_utilization_pct_bits), 55.5);
    assert_eq!(f.blocks_in_window, 12);
    assert_eq!(f.accounts.len(), 2);
    assert_eq!(f.accounts[0].pubkey, bs58::encode(&[0u8; 32]).into_string());
    assert_eq!(f.accounts[1].pubkey, bs58::encode(&[1u8; 32]).into_string());
    assert_eq!(f.accounts[0].total_txs, 10);
    assert_eq!(f.accounts[0].active_slots, 4);
    assert_eq!(f.accounts[0].cu_consumed, 777);
    assert_eq!(f32::from_bits(f.accounts[0].utilization_pct_bits), 12.25);
    assert_eq!(f.accounts[0].p25, 25);
    assert_eq!(f.accounts[0].p50, 50);
    assert_eq!(f.accounts[0].p75, 75);
    assert_eq!(f.accounts[0].p90, 90);
    assert_eq!(f.accounts[0].min_nonzero_price, 3);
}

#[test]
fn fee_market_state_mapping() {
    assert_eq!(decode_fee_market(&fee_market_fixture(0, 0)).unwrap().state, NetworkState::Low);
    assert_eq!(decode_fee_market(&fee_market_fixture(1, 0)).unwrap().state, NetworkState::Normal);
    assert_eq!(decode_fee_market(&fee_market_fixture(2, 0)).unwrap().state, NetworkState::High);
    assert_eq!(decode_fee_market(&fee_market_fixture(3, 0)).unwrap().state, NetworkState::Extreme);
}

#[test]
fn fee_market_invalid_state_byte() {
    for state in [4u8, 5, 100, 255] {
        assert_eq!(
            decode_fee_market(&fee_market_fixture(state, 1)),
            Err(DecodeError::InvalidNetworkState(state))
        );
    }
}

#[test]
fn fee_market_truncated() {
    for k in 0..42 {
        let buf = vec![0u8; k];
        assert_eq!(
            decode_fee_market(&buf),
            Err(DecodeError::PayloadTooShort { expected: 42, actual: k })
        );
    }
    // header says one account but none follows
    let buf = fee_market_fixture(1, 0);
    let mut claimed = buf.clone();
    claimed[34] = 1;
    assert_eq!(
        decode_fee_market(&claimed),
        Err(DecodeError::PayloadTooShort { expected: 42 + 92, actual: 42 })
    );
}

fn batch_fixture(slots: &[u64]) -> Vec<u8> {
    let mut buf: Vec<u8> = Vec::new();
    buf.extend_from_slice(&(slots.len() as u16).to_le_bytes());
    for &slot in slots {
        let mut sub: Vec<u8> = Vec::new();
        push_u64(&mut sub, 0); // empty state blob
        push_u64(&mut sub, 1); // sequence
        push_u64(&mut sub, slot);
        push_u64(&mut sub, 0); // write version
        push_u64(&mut sub, 4); // name length
        sub.extend_from_slice(b"Test");
        sub.extend_from_slice(&[7u8; 32]);
        push_u64(&mut sub, 0); // no mints
        push_u64(&mut sub, 0); // no balances
        push_u64(&mut sub, 0); // no decimals
        sub.push(0);
        sub.push(0);
        push_u32(&mut buf, sub.len() as u32);
        buf.extend_from_slice(&sub);
    }
    buf
}

#[test]
fn batch_decodes_in_order() {
    let buf = batch_fixture(&[11, 22, 33]);
    let updates = decode_pool_update_batch(&buf).unwrap();
    assert_eq!(updates.len(), 3);
    assert_eq!(updates[0].slot, 11);
    assert_eq!(updates[1].slot, 22);
    assert_eq!(updates[2].slot, 33);
}

#[test]
fn batch_fails_atomically() {
    let mut buf = batch_fixture(&[11, 22]);
    let cut = buf.len() - 1;
    buf.truncate(cut); // truncate the last sub-record
    assert!(decode_pool_update_batch(&buf).is_err());
    // truncated count prefix
    assert_eq!(
        decode_pool_update_batch(&[5u8]),
        Err(DecodeError::PayloadTooShort { expected: 2, actual: 1 })
    );
}

#[test]
fn batch_with_zero_count_is_empty() {
    let buf = batch_fixture(&[]);
    assert_eq!(decode_pool_update_batch(&buf).unwrap(), vec![]);
}

#[test]
fn trailing_bytes_are_ignored() {
    let mut buf = pool_update_fixture();
    let u = decode_pool_update(&buf).unwrap();
    buf.extend_from_slice(&[0xAA, 0xBB, 0xCC]);
    assert_eq!(decode_pool_update(&buf).unwrap(), u);
}

#[test]
fn decode_message_routes_by_type() {
    let bh = {
        let mut buf: Vec<u8> = Vec::new();
        push_u64(&mut buf, 1);
        push_u64(&mut buf, 2);
        buf.extend_from_slice(&[0u8; 32]);
        push_u64(&mut buf, 3);
        push_u64(&mut buf, 4);
        buf.push(1);
        buf
    };
    match decode_message(0x06, &bh) {
        Ok(Some(DecodedMessage::Blockhash(b))) => assert_eq!(b.slot, 1),
        other => panic!("unexpected {:?}", other),
    }
    match decode_message(0x01, &pool_update_fixture()) {
        Ok(Some(DecodedMessage::PoolUpdate(u))) => assert_eq!(u.slot, 1234),
        other => panic!("unexpected {:?}", other),
    }
    match decode_message(0x0E, &batch_fixture(&[5])) {
        Ok(Some(DecodedMessage::PoolUpdateBatch(v))) => assert_eq!(v.len(), 1),
        other => panic!("unexpected {:?}", other),
    }
    match decode_message(0x05, &fee_market_fixture(0, 0)) {
        Ok(Some(DecodedMessage::FeeMarket(f))) => assert_eq!(f.slot, 900),
        other => panic!("unexpected {:?}", other),
    }
}

#[test]
fn decode_message_error_text() {
    match decode_message(0xFF, b"boom") {
        Ok(Some(DecodedMessage::Error(msg))) => assert_eq!(msg, "boom"),
        other => panic!("unexpected {:?}", other),
    }
    assert_eq!(decode_message(0xFF, &[0xFF, 0xFE]), Err(DecodeError::InvalidUtf8));
}

#[test]
fn decode_message_control_and_unknown() {
    assert_eq!(decode_message(0x0C, &[]), Ok(None)); // pong
    assert_eq!(decode_message(0x03, &[]), Ok(None)); // subscribed
    assert_eq!(decode_message(0x0B, &[]), Ok(None)); // ping
    assert_eq!(decode_message(0x7F, &[]), Err(DecodeError::InvalidMessageType(0x7F)));
    assert_eq!(decode_message(0x00, &[1, 2]), Err(DecodeError::InvalidMessageType(0x00)));
}
