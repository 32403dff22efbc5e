//! Leader-schedule stream message data.
//!
//! The leader-schedule service speaks JSON only; these are the typed
//! shapes its messages carry. The embedding program deserializes the
//! raw text into its own mirror types and converts.

use vstd::prelude::*;

verus! {

/// How a message is to be consumed.
#[derive(Debug, Clone, Copy, PartialEq, Eq, Structural)]
pub enum MessageKind {
    /// A full snapshot replacing prior state.
    Snapshot,
    /// An incremental change to prior state.
    Diff,
    /// A one-off event.
    Event,
}

/// Protocol schema entry from the subscribed handshake.
#[derive(Debug, Clone, PartialEq, Eq)]
pub struct MessageSchemaEntry {
    /// Message type name.
    pub msg_type: String,
    /// Short tag.
    pub tag: String,
    /// Consumption kind name.
    pub kind: String,
    /// Key field name, when the type is keyed.
    pub key: Option<String>,
    /// Human-readable description.
    pub description: String,
}

/// Subscribed response data.
#[derive(Debug, Clone, PartialEq, Eq)]
pub struct LeaderSubscribedData {
    /// Channels the server confirmed.
    pub channels: Vec<String>,
    /// Current Solana slot.
    pub current_slot: u64,
    /// Current epoch.
    pub epoch: u64,
    /// Message schema the server will use.
    pub schema: Vec<MessageSchemaEntry>,
}

/// A single gossip peer.
#[derive(Debug, Clone, PartialEq, Eq)]
pub struct GossipPeer {
    /// Validator identity key.
    pub identity: String,
    /// TPU QUIC address, when known.
    pub tpu_quic: Option<String>,
    /// TPU UDP address, when known.
    pub tpu_udp: Option<String>,
    /// TPU forwards QUIC address, when known.
    pub tpu_forwards_quic: Option<String>,
    /// TPU forwards UDP address, when known.
    pub tpu_forwards_udp: Option<String>,
    /// TPU vote address, when known.
    pub tpu_vote: Option<String>,
    /// Gossip address, when known.
    pub gossip_addr: Option<String>,
    /// Software version.
    pub version: String,
    /// Shred version.
    pub shred_version: u16,
    /// Stake in lamports.
    pub stake: u64,
    /// Commission percentage.
    pub commission: u8,
    /// Whether the validator is delinquent.
    pub is_delinquent: bool,
    /// Wallclock of the gossip entry.
    pub wallclock: u64,
    /// ISO 3166 country code.
    pub country_code: String,
    /// Two-letter continent code.
    pub continent_code: String,
    /// Autonomous-system number string.
    pub asn: String,
    /// Autonomous-system organization name.
    pub as_name: String,
    /// Autonomous-system organization domain.
    pub as_domain: String,
}

/// Gossip snapshot data.
#[derive(Debug, Clone, PartialEq, Eq)]
pub struct GossipSnapshotData {
    /// Snapshot timestamp.
    pub timestamp: u64,
    /// Peer count.
    pub count: usize,
    /// The peers.
    pub peers: Vec<GossipPeer>,
}

/// Gossip diff data.
#[derive(Debug, Clone, PartialEq, Eq)]
pub struct GossipDiffData {
    /// Diff timestamp in milliseconds.
    pub timestamp_ms: u64,
    /// Peers that appeared.
    pub added: Vec<GossipPeer>,
    /// Identities that disappeared.
    pub removed: Vec<String>,
    /// Peers whose entries changed.
    pub updated: Vec<GossipPeer>,
}

/// Slot update data.
#[derive(Debug, Clone, PartialEq, Eq)]
pub struct SlotUpdateData {
    /// The slot.
    pub slot: u64,
    /// Its leader's identity.
    pub leader: String,
    /// Block height at the slot.
    pub block_height: u64,
}

/// Routing health data.
#[derive(Debug, Clone, PartialEq, Eq)]
pub struct RoutingHealthData {
    /// Leaders in the current window.
    pub leaders_total: u32,
    /// Leaders visible in gossip.
    pub leaders_in_gossip: u32,
    /// Leaders missing from gossip.
    pub leaders_missing_gossip: Vec<String>,
    /// Leaders without a TPU QUIC address.
    pub leaders_without_tpu_quic: Vec<String>,
    /// Delinquent leaders.
    pub leaders_delinquent: Vec<String>,
    /// Coverage summary.
    pub coverage: String,
}

/// Skip event data.
#[derive(Debug, Clone, PartialEq, Eq)]
pub struct SkipEventData {
    /// The skipped slot.
    pub slot: u64,
    /// The leader that skipped it.
    pub leader: String,
    /// Slots assigned to the leader.
    pub assigned: u32,
    /// Slots the leader produced.
    pub produced: u32,
}

/// IP change data.
#[derive(Debug, Clone, PartialEq, Eq)]
pub struct IpChangeData {
    /// Validator identity key.
    pub identity: String,
    /// Previous address.
    pub old_ip: String,
    /// New address.
    pub new_ip: String,
    /// Change timestamp in milliseconds.
    pub timestamp_ms: u64,
}

/// Leader heartbeat data.
#[derive(Debug, Clone, PartialEq, Eq)]
pub struct LeaderHeartbeatData {
    /// Heartbeat timestamp in milliseconds.
    pub timestamp_ms: u64,
    /// Current Solana slot.
    pub current_slot: u64,
    /// Connected client count.
    pub connected_clients: u32,
    /// Gossip peer count.
    pub gossip_peers: u32,
}

/// Leader schedule validator entry.
#[derive(Debug, Clone, PartialEq, Eq)]
pub struct LeaderScheduleValidator {
    /// Validator identity key.
    pub identity: String,
    /// Number of slots assigned.
    pub slots: usize,
    /// Indices of the assigned slots within the epoch.
    pub slot_indices: Vec<u32>,
}

/// Leader schedule data.
#[derive(Debug, Clone, PartialEq, Eq)]
pub struct LeaderScheduleData {
    /// The epoch the schedule is for.
    pub epoch: u64,
    /// Slots in the epoch.
    pub slots_in_epoch: u64,
    /// Validator count.
    pub validators: usize,
    /// The schedule entries.
    pub schedule: Vec<LeaderScheduleValidator>,
}

/// The subscription channels the leader-schedule service offers, in
/// their canonical order.
pub fn all_channels() -> (r: Vec<String>)
    ensures
        r@.len() == 4,
        r@[0]@ == "leader_schedule"@,
        r@[1]@ == "gossip"@,
        r@[2]@ == "slots"@,
        r@[3]@ == "alerts"@,
{
    let mut channels: Vec<String> = Vec::new();
    channels.push("leader_schedule".to_owned());
    channels.push("gossip".to_owned());
    channels.push("slots".to_owned());
    channels.push("alerts".to_owned());
    channels
}

} // verus!
