//! Binary message type identifiers.
//!
//! Each binary frame starts with one type byte; the table here is the
//! closed enumeration of the known values.

use vstd::prelude::*;

verus! {

/// Known binary message type identifiers (the first byte of a frame).
#[derive(Debug, Clone, Copy, PartialEq, Eq, Structural, Hash)]
pub enum MessageType {
    /// Server to client: single pool update (byte `0x01`).
    PoolUpdate,
    /// Client to server: subscribe request (byte `0x02`).
    Subscribe,
    /// Server to client: subscription confirmed (byte `0x03`).
    Subscribed,
    /// Client to server: unsubscribe all (byte `0x04`).
    Unsubscribe,
    /// Server to client: priority fee update (byte `0x05`).
    PriorityFees,
    /// Server to client: recent blockhash (byte `0x06`).
    Blockhash,
    /// Server to client: streaming quote update (byte `0x07`).
    Quote,
    /// Server to client: quote subscription confirmed (byte `0x08`).
    QuoteSubscribed,
    /// Client to server: subscribe to quote stream (byte `0x09`).
    SubscribeQuote,
    /// Client to server: unsubscribe from quote (byte `0x0A`).
    UnsubscribeQuote,
    /// Client to server: ping keepalive (byte `0x0B`).
    Ping,
    /// Server to client: pong response (byte `0x0C`).
    Pong,
    /// Server to client: connection stats (byte `0x0D`).
    Heartbeat,
    /// Server to client: batched pool updates (byte `0x0E`).
    PoolUpdateBatch,
    /// Server to client: block statistics (byte `0x0F`).
    BlockStats,
    /// Client to server: subscribe to price feed (byte `0x10`).
    SubscribePrice,
    /// Server to client: single price update (byte `0x11`).
    PriceUpdate,
    /// Server to client: batched price updates (byte `0x12`).
    PriceBatch,
    /// Server to client: full price snapshot (byte `0x13`).
    PriceSnapshot,
    /// Client to server: unsubscribe from price feed (byte `0x14`).
    UnsubscribePrice,
    /// Server to client: UTF-8 error message (byte `0xFF`).
    Error,
}

/// The message type a byte maps to, or `None` for an unrecognized byte.
pub open spec fn spec_message_type(value: u8) -> Option<MessageType> {
    if value == 0x01 {
        Some(MessageType::PoolUpdate)
    } else if value == 0x02 {
        Some(MessageType::Subscribe)
    } else if value == 0x03 {
        Some(MessageType::Subscribed)
    } else if value == 0x04 {
        Some(MessageType::Unsubscribe)
    } else if value == 0x05 {
        Some(MessageType::PriorityFees)
    } else if value == 0x06 {
        Some(MessageType::Blockhash)
    } else if value == 0x07 {
        Some(MessageType::Quote)
    } else if value == 0x08 {
        Some(MessageType::QuoteSubscribed)
    } else if value == 0x09 {
        Some(MessageType::SubscribeQuote)
    } else if value == 0x0A {
        Some(MessageType::UnsubscribeQuote)
    } else if value == 0x0B {
        Some(MessageType::Ping)
    } else if value == 0x0C {
        Some(MessageType::Pong)
    } else if value == 0x0D {
        Some(MessageType::Heartbeat)
    } else if value == 0x0E {
        Some(MessageType::PoolUpdateBatch)
    } else if value == 0x0F {
        Some(MessageType::BlockStats)
    } else if value == 0x10 {
        Some(MessageType::SubscribePrice)
    } else if value == 0x11 {
        Some(MessageType::PriceUpdate)
    } else if value == 0x12 {
        Some(MessageType::PriceBatch)
    } else if value == 0x13 {
        Some(MessageType::PriceSnapshot)
    } else if value == 0x14 {
        Some(MessageType::UnsubscribePrice)
    } else if value == 0xFF {
        Some(MessageType::Error)
    } else {
        None
    }
}

impl MessageType {
    /// Map a type byte onto the closed enumeration; an unknown byte is
    /// handed back as the error, so callers can treat it as unhandled.
    pub fn try_from(value: u8) -> (r: Result<MessageType, u8>)
        ensures
            r matches Ok(t) ==> spec_message_type(value) == Some(t),
            r matches Err(b) ==> spec_message_type(value) is None && b == value,
    {
        match value {
            0x01 => Ok(MessageType::PoolUpdate),
            0x02 => Ok(MessageType::Subscribe),
            0x03 => Ok(MessageType::Subscribed),
            0x04 => Ok(MessageType::Unsubscribe),
            0x05 => Ok(MessageType::PriorityFees),
            0x06 => Ok(MessageType::Blockhash),
            0x07 => Ok(MessageType::Quote),
            0x08 => Ok(MessageType::QuoteSubscribed),
            0x09 => Ok(MessageType::SubscribeQuote),
            0x0A => Ok(MessageType::UnsubscribeQuote),
            0x0B => Ok(MessageType::Ping),
            0x0C => Ok(MessageType::Pong),
            0x0D => Ok(MessageType::Heartbeat),
            0x0E => Ok(MessageType::PoolUpdateBatch),
            0x0F => Ok(MessageType::BlockStats),
            0x10 => Ok(MessageType::SubscribePrice),
            0x11 => Ok(MessageType::PriceUpdate),
            0x12 => Ok(MessageType::PriceBatch),
            0x13 => Ok(MessageType::PriceSnapshot),
            0x14 => Ok(MessageType::UnsubscribePrice),
            0xFF => Ok(MessageType::Error),
            other => Err(other),
        }
    }
}

} // verus!
