//! Frame classification and per-record event expansion.
//!
//! Classification is stateless and per frame: a binary frame is split
//! into its type byte and payload and handed to the binary decoder; a
//! text frame is read as a JSON control message. The outcome says
//! whether a record is to be delivered, nothing is to be done, or a
//! malformed payload of a known kind is to be surfaced to the error
//! handler. A decoded record then expands into the unit events that
//! reach the handler one by one, in encoded order.

use vstd::prelude::*;
use vstd::slice::{slice_index_get, slice_subrange};

use crate::decoder::{decode_message, spec_decode_message};
use crate::errors::DecodeError;
use crate::json::{
    json_array_len_field, json_get_str, json_get_string_array, json_get_u64, json_str_field,
    json_u64_field, spec_string_items,
};
use crate::records::{DecodedMessage, DecodedMessageV, Heartbeat, PoolUpdate};

verus! {

/// What one inbound frame amounts to.
#[derive(Debug, Clone, PartialEq, Eq)]
pub enum FrameOutcome {
    /// A decoded record, to be handed to its category's handler.
    Deliver(DecodedMessage),
    /// Nothing to do: an empty frame, an unrecognized type, or a
    /// control message with no inbound record.
    Ignored,
    /// A malformed payload of a known kind, to be surfaced once via
    /// the error handler.
    Malformed(DecodeError),
}

/// Mathematical view of a [`FrameOutcome`].
#[verifier::ext_equal]
pub enum FrameOutcomeV {
    /// A decoded record to deliver.
    Deliver(DecodedMessageV),
    /// Nothing to do.
    Ignored,
    /// A malformed payload of a known kind.
    Malformed(DecodeError),
}

impl View for FrameOutcome {
    type V = FrameOutcomeV;

    open spec fn view(&self) -> FrameOutcomeV {
        match self {
            FrameOutcome::Deliver(m) => FrameOutcomeV::Deliver(m@),
            FrameOutcome::Ignored => FrameOutcomeV::Ignored,
            FrameOutcome::Malformed(e) => FrameOutcomeV::Malformed(*e),
        }
    }
}

/// What classifying a binary frame yields: an empty frame and an
/// unknown type byte are no-ops, a control type decodes to nothing,
/// and a malformed payload of a known kind is surfaced.
pub open spec fn spec_classify_binary(data: Seq<u8>) -> FrameOutcomeV {
    if data.len() == 0 {
        FrameOutcomeV::Ignored
    } else {
        match spec_decode_message(data[0], data.subrange(1, data.len() as int)) {
            Ok(Some(m)) => FrameOutcomeV::Deliver(m),
            Ok(None) => FrameOutcomeV::Ignored,
            Err(DecodeError::InvalidMessageType(_)) => FrameOutcomeV::Ignored,
            Err(e) => FrameOutcomeV::Malformed(e),
        }
    }
}

/// Classify one inbound binary frame.
pub fn classify_binary_frame(data: &[u8]) -> (r: FrameOutcome)
    ensures
        r@ == spec_classify_binary(data@),
{
    if data.len() == 0 {
        return FrameOutcome::Ignored;
    }
    let t: u8 = *slice_index_get(data, 0);
    let payload = slice_subrange(data, 1, data.len());
    match decode_message(t, payload) {
        Ok(Some(m)) => FrameOutcome::Deliver(m),
        Ok(None) => FrameOutcome::Ignored,
        Err(e) => match e {
            DecodeError::InvalidMessageType(_) => FrameOutcome::Ignored,
            err => FrameOutcome::Malformed(err),
        },
    }
}

/// The value of an optional JSON field, with absence read as zero.
pub open spec fn or_zero(o: Option<u64>) -> u64 {
    match o {
        Some(v) => v,
        None => 0,
    }
}

/// The heartbeat a JSON text carries: each stat field read as `u64`
/// when present, zero when absent; the subscription count truncated
/// to 32 bits.
pub open spec fn spec_heartbeat_of(text: Seq<char>) -> Heartbeat {
    Heartbeat {
        timestamp_ms: or_zero(json_u64_field(text, "timestamp_ms"@)),
        uptime_seconds: or_zero(json_u64_field(text, "uptime_seconds"@)),
        messages_received: or_zero(json_u64_field(text, "messages_received"@)),
        messages_sent: or_zero(json_u64_field(text, "messages_sent"@)),
        subscriptions: or_zero(json_u64_field(text, "subscriptions"@)) as u32,
    }
}

/// What classifying a text frame yields: the `type` field selects a
/// heartbeat, a subscription confirmation, or a server error; a text
/// without a readable `type` is a no-op.
pub open spec fn spec_classify_text(text: Seq<char>) -> FrameOutcomeV {
    match json_str_field(text, "type"@) {
        None => FrameOutcomeV::Ignored,
        Some(t) => if t == "heartbeat"@ {
            FrameOutcomeV::Deliver(DecodedMessageV::Heartbeat(spec_heartbeat_of(text)))
        } else if t == "subscribed"@ {
            FrameOutcomeV::Deliver(
                DecodedMessageV::Subscribed {
                    channels: match json_array_len_field(text, "channels"@) {
                        Some(n) => spec_string_items(text, "channels"@, n as nat),
                        None => Seq::empty(),
                    },
                },
            )
        } else if t == "error"@ {
            FrameOutcomeV::Deliver(
                DecodedMessageV::Error(
                    match json_str_field(text, "message"@) {
                        Some(m) => m,
                        None => "Unknown error"@,
                    },
                ),
            )
        } else {
            FrameOutcomeV::Ignored
        },
    }
}

/// Classify one inbound text frame.
pub fn classify_text_frame(text: &str) -> (r: FrameOutcome)
    ensures
        r@ == spec_classify_text(text@),
{
    let ty = match json_get_str(text, "type") {
        Some(t) => t,
        None => {
            return FrameOutcome::Ignored;
        },
    };
    if ty == "heartbeat".to_owned() {
        let timestamp_ms = match json_get_u64(text, "timestamp_ms") {
            Some(v) => v,
            None => 0,
        };
        let uptime_seconds = match json_get_u64(text, "uptime_seconds") {
            Some(v) => v,
            None => 0,
        };
        let messages_received = match json_get_u64(text, "messages_received") {
            Some(v) => v,
            None => 0,
        };
        let messages_sent = match json_get_u64(text, "messages_sent") {
            Some(v) => v,
            None => 0,
        };
        let subs: u64 = match json_get_u64(text, "subscriptions") {
            Some(v) => v,
            None => 0,
        };
        let subscriptions: u32 = #[verifier::truncate] (subs as u32);
        FrameOutcome::Deliver(
            DecodedMessage::Heartbeat(
                Heartbeat {
                    timestamp_ms,
                    uptime_seconds,
                    messages_received,
                    messages_sent,
                    subscriptions,
                },
            ),
        )
    } else if ty == "subscribed".to_owned() {
        let channels = match json_get_string_array(text, "channels") {
            Some(v) => v,
            None => Vec::new(),
        };
        FrameOutcome::Deliver(DecodedMessage::Subscribed { channels })
    } else if ty == "error".to_owned() {
        let message = match json_get_str(text, "message") {
            Some(m) => m,
            None => "Unknown error".to_owned(),
        };
        FrameOutcome::Deliver(DecodedMessage::Error(message))
    } else {
        FrameOutcome::Ignored
    }
}

/// The unit events a decoded record expands to: a batch becomes its
/// pool updates, one event per sub-record in encoded order; any other
/// record is a single event.
pub open spec fn spec_unit_events(m: DecodedMessageV) -> Seq<DecodedMessageV> {
    match m {
        DecodedMessageV::PoolUpdateBatch(v) => Seq::new(
            v.len(),
            |i: int| DecodedMessageV::PoolUpdate(v[i]),
        ),
        _ => seq![m],
    }
}

/// Expand a decoded record into the unit events its handler receives,
/// one by one, in encoded order.
pub fn unit_events(m: DecodedMessage) -> (r: Vec<DecodedMessage>)
    ensures
        r@.map_values(|e: DecodedMessage| e@) == spec_unit_events(m@),
{
    match m {
        DecodedMessage::PoolUpdateBatch(updates) => {
            let ghost orig: Seq<PoolUpdate> = updates@;
            let mut rest = updates;
            let mut out: Vec<DecodedMessage> = Vec::new();
            while rest.len() > 0
                invariant
                    out@.len() + rest@.len() == orig.len(),
                    rest@ == orig.subrange(out@.len() as int, orig.len() as int),
                    forall|i: int|
                        0 <= i < out@.len() ==> out@[i]@ == DecodedMessageV::PoolUpdate(orig[i]@),
                decreases rest@.len(),
            {
                let u = rest.remove(0);
                proof {
                    assert(rest@ =~= orig.subrange(out@.len() as int + 1, orig.len() as int));
                }
                out.push(DecodedMessage::PoolUpdate(u));
            }
            proof {
                assert(out@.map_values(|e: DecodedMessage| e@) =~= spec_unit_events(
                    DecodedMessageV::PoolUpdateBatch(orig.map_values(|u: PoolUpdate| u@)),
                ));
            }
            out
        },
        other => {
            let mut out: Vec<DecodedMessage> = Vec::new();
            out.push(other);
            proof {
                assert(out@.map_values(|e: DecodedMessage| e@) =~= seq![out@[0]@]);
            }
            out
        },
    }
}

} // verus!
