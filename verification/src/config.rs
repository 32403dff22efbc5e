//! Client configuration and subscription requests.
//!
//! Delays and intervals are carried in milliseconds, as plain
//! integers; the embedding program turns them into whatever clock
//! type its runtime wants.

use vstd::prelude::*;

verus! {

/// Configuration for the streaming client.
#[derive(Debug, Clone, PartialEq, Eq)]
pub struct Config {
    /// API key, carried to the endpoint as a query parameter.
    pub api_key: String,
    /// Endpoint URL of the duplex stream.
    pub endpoint: String,
    /// Whether to automatically reconnect.
    pub reconnect: bool,
    /// Initial reconnect delay, in milliseconds.
    pub reconnect_delay_initial_ms: u64,
    /// Maximum reconnect delay, in milliseconds.
    pub reconnect_delay_max_ms: u64,
    /// Ping interval in milliseconds (0 to disable).
    pub ping_interval_ms: u64,
}

impl Default for Config {
    /// An empty API key, the production gateway endpoint, and
    /// reconnection from 1 s up to 60 s with a 30 s ping interval.
    fn default() -> (r: Self)
        ensures
            r.api_key@ == Seq::<char>::empty(),
            r.endpoint@ == "wss://gateway.k256.xyz/v1/ws"@,
            r.reconnect == true,
            r.reconnect_delay_initial_ms == 1000,
            r.reconnect_delay_max_ms == 60000,
            r.ping_interval_ms == 30000,
    {
        Config {
            api_key: String::new(),
            endpoint: "wss://gateway.k256.xyz/v1/ws".to_owned(),
            reconnect: true,
            reconnect_delay_initial_ms: 1000,
            reconnect_delay_max_ms: 60000,
            ping_interval_ms: 30000,
        }
    }
}

/// A subscription change request, serialized to JSON by the
/// embedding program.
#[derive(Debug, Clone, PartialEq, Eq)]
pub struct SubscribeRequest {
    /// Request type, always the word for subscribing.
    pub request_type: String,
    /// Channels to subscribe to.
    pub channels: Vec<String>,
    /// Requested message format, when named.
    pub format: Option<String>,
    /// DEX protocols to filter on, when named.
    pub protocols: Option<Vec<String>>,
    /// Pool addresses to filter on, when named.
    pub pools: Option<Vec<String>>,
    /// Token pairs to filter on, when named.
    pub token_pairs: Option<Vec<(String, String)>>,
}

impl Default for SubscribeRequest {
    /// A subscription to the pools, priority-fees and blockhash
    /// channels, with no format or filters named.
    fn default() -> (r: Self)
        ensures
            r.request_type@ == "subscribe"@,
            r.channels@.len() == 3,
            r.channels@[0]@ == "pools"@,
            r.channels@[1]@ == "priority_fees"@,
            r.channels@[2]@ == "blockhash"@,
            r.format is None,
            r.protocols is None,
            r.pools is None,
            r.token_pairs is None,
    {
        let mut channels: Vec<String> = Vec::new();
        channels.push("pools".to_owned());
        channels.push("priority_fees".to_owned());
        channels.push("blockhash".to_owned());
        SubscribeRequest {
            request_type: "subscribe".to_owned(),
            channels,
            format: None,
            protocols: None,
            pools: None,
            token_pairs: None,
        }
    }
}

} // verus!
