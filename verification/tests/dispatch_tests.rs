//! Tests for frame classification, event expansion and the handler
//! registry.

use k256_sdk::config::{Config, SubscribeRequest};
use k256_sdk::dispatch::{classify_binary_frame, classify_text_frame, unit_events, FrameOutcome};
use k256_sdk::leader::all_channels;
use k256_sdk::records::{default_swap_mode, DecodedMessage, Heartbeat, PoolUpdate};
use k256_sdk::registry::{category_of, Category, HandlerRegistry};

fn small_update(slot: u64) -> PoolUpdate {
    PoolUpdate {
        sequence: 1,
        slot,
        write_version: 0,
        protocol_name: "Test".to_string(),
        pool_address: "1".repeat(32),
        token_mints: vec![],
        token_balances: vec![],
        token_decimals: vec![],
        best_bid: None,
        best_ask: None,
        serialized_state: vec![],
    }
}

#[test]
fn empty_and_unknown_binary_frames_are_noops() {
    assert_eq!(classify_binary_frame(&[]), FrameOutcome::Ignored);
    assert_eq!(classify_binary_frame(&[0x7F]), FrameOutcome::Ignored);
    assert_eq!(classify_binary_frame(&[0x7F, 1, 2, 3]), FrameOutcome::Ignored);
    // recognized control type, no inbound record
    assert_eq!(classify_binary_frame(&[0x0C]), FrameOutcome::Ignored);
}

#[test]
fn malformed_known_frame_is_surfaced() {
    // blockhash frame with a short payload
    match classify_binary_frame(&[0x06, 1, 2, 3]) {
        FrameOutcome::Malformed(e) => {
            assert_eq!(format!("{:?}", e), "PayloadTooShort { expected: 65, actual: 3 }")
        }
        other => panic!("unexpected {:?}", other),
    }
}

#[test]
fn heartbeat_text_frame() {
    let text = r#"{"type":"heartbeat","timestamp_ms":12,"uptime_seconds":34,"messages_received":56,"messages_sent":78,"subscriptions":9}"#;
    assert_eq!(
        classify_text_frame(text),
        FrameOutcome::Deliver(DecodedMessage::Heartbeat(Heartbeat {
            timestamp_ms: 12,
            uptime_seconds: 34,
            messages_received: 56,
            messages_sent: 78,
            subscriptions: 9,
        }))
    );
}

#[test]
fn heartbeat_text_missing_fields_default_to_zero() {
    let text = r#"{"type":"heartbeat","timestamp_ms":5}"#;
    assert_eq!(
        classify_text_frame(text),
        FrameOutcome::Deliver(DecodedMessage::Heartbeat(Heartbeat {
            timestamp_ms: 5,
            uptime_seconds: 0,
            messages_received: 0,
            messages_sent: 0,
            subscriptions: 0,
        }))
    );
}

#[test]
fn subscribed_text_frame_keeps_string_channels() {
    let text = r#"{"type":"subscribed","channels":["pools",7,"blockhash"]}"#;
    assert_eq!(
        classify_text_frame(text),
        FrameOutcome::Deliver(DecodedMessage::Subscribed {
            channels: vec!["pools".to_string(), "blockhash".to_string()],
        })
    );
}

#[test]
fn error_text_frame() {
    let text = r#"{"type":"error","message":"rate limited"}"#;
    assert_eq!(
        classify_text_frame(text),
        FrameOutcome::Deliver(DecodedMessage::Error("rate limited".to_string()))
    );
    let bare = r#"{"type":"error"}"#;
    assert_eq!(
        classify_text_frame(bare),
        FrameOutcome::Deliver(DecodedMessage::Error("Unknown error".to_string()))
    );
}

#[test]
fn unreadable_text_frames_are_noops() {
    assert_eq!(classify_text_frame("not json at all"), FrameOutcome::Ignored);
    assert_eq!(classify_text_frame(r#"{"no_type":1}"#), FrameOutcome::Ignored);
    assert_eq!(classify_text_frame(r#"{"type":"something_new"}"#), FrameOutcome::Ignored);
    assert_eq!(classify_text_frame(r#"{"type":12}"#), FrameOutcome::Ignored);
}

#[test]
fn batch_expands_to_individual_events_in_order() {
    let batch = DecodedMessage::PoolUpdateBatch(vec![
        small_update(1),
        small_update(2),
        small_update(3),
    ]);
    assert_eq!(category_of(&batch), Some(Category::PoolUpdate));
    let events = unit_events(batch);
    assert_eq!(events.len(), 3);
    for (i, e) in events.iter().enumerate() {
        match e {
            DecodedMessage::PoolUpdate(u) => assert_eq!(u.slot, (i + 1) as u64),
            other => panic!("unexpected {:?}", other),
        }
    }
}

#[test]
fn single_records_expand_to_one_event() {
    let m = DecodedMessage::Error("x".to_string());
    assert_eq!(category_of(&m), Some(Category::Error));
    assert_eq!(unit_events(m.clone()), vec![m]);
    let s = DecodedMessage::Subscribed { channels: vec![] };
    assert_eq!(category_of(&s), None);
    assert_eq!(unit_events(s.clone()), vec![s]);
}

#[test]
fn registry_set_get_and_isolation() {
    let mut reg: HandlerRegistry<u32> = HandlerRegistry::new();
    assert_eq!(reg.get(Category::PoolUpdate), None);
    assert_eq!(reg.get(Category::Error), None);
    reg.set(Category::PoolUpdate, 1);
    reg.set(Category::Error, 2);
    assert_eq!(reg.get(Category::PoolUpdate), Some(1));
    assert_eq!(reg.get(Category::Error), Some(2));
    assert_eq!(reg.get(Category::Heartbeat), None);
    reg.set(Category::PoolUpdate, 3);
    assert_eq!(reg.get(Category::PoolUpdate), Some(3));
    assert_eq!(reg.get(Category::Error), Some(2));
}

#[test]
fn handler_replacement_mid_batch_dispatch() {
    // A batch of 3 is delivered one record at a time; the handler
    // slot is read before each delivery. Replacing the handler after
    // the first delivery must leave that delivery with the old
    // handler and give the remaining two to the new one.
    let mut reg: HandlerRegistry<&str> = HandlerRegistry::new();
    reg.set(Category::PoolUpdate, "old");
    let batch = DecodedMessage::PoolUpdateBatch(vec![
        small_update(1),
        small_update(2),
        small_update(3),
    ]);
    let cat = category_of(&batch).unwrap();
    let events = unit_events(batch);
    let mut seen: Vec<(&str, u64)> = Vec::new();
    for (i, e) in events.into_iter().enumerate() {
        let handler = reg.get(cat).unwrap();
        let slot = match e {
            DecodedMessage::PoolUpdate(u) => u.slot,
            other => panic!("unexpected {:?}", other),
        };
        seen.push((handler, slot));
        if i == 0 {
            reg.set(Category::PoolUpdate, "new");
        }
    }
    assert_eq!(seen, vec![("old", 1), ("new", 2), ("new", 3)]);
}

#[test]
fn config_defaults() {
    let c = Config::default();
    assert_eq!(c.api_key, "");
    assert_eq!(c.endpoint, "wss://gateway.k256.xyz/v1/ws");
    assert!(c.reconnect);
    assert_eq!(c.reconnect_delay_initial_ms, 1000);
    assert_eq!(c.reconnect_delay_max_ms, 60000);
    assert_eq!(c.ping_interval_ms, 30000);
}

#[test]
fn subscribe_request_defaults() {
    let r = SubscribeRequest::default();
    assert_eq!(r.request_type, "subscribe");
    assert_eq!(r.channels, vec!["pools", "priority_fees", "blockhash"]);
    assert_eq!(r.format, None);
    assert_eq!(r.protocols, None);
    assert_eq!(r.pools, None);
    assert_eq!(r.token_pairs, None);
}

#[test]
fn swap_mode_default_and_leader_channels() {
    assert_eq!(default_swap_mode(), "ExactIn");
    assert_eq!(
        all_channels(),
        vec!["leader_schedule", "gossip", "slots", "alerts"]
    );
}
