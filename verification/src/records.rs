//! Decoded domain records and their mathematical views.
//!
//! Each record type that the wire protocol carries has an executable
//! struct (what handlers receive) and a view struct over `Seq` values
//! (what contracts speak of). Percentage fields that the wire encodes
//! as IEEE-754 single or double precision are carried as their raw bit
//! patterns, so the records stay within plain integer values.

use vstd::prelude::*;

verus! {

/// Order book level with price and size.
#[derive(Debug, Clone, Copy, PartialEq, Eq, Structural)]
pub struct OrderLevel {
    /// Price in base units.
    pub price: u64,
    /// Size in base units.
    pub size: u64,
}

/// Real-time pool state update.
#[derive(Debug, Clone, PartialEq, Eq)]
pub struct PoolUpdate {
    /// Global sequence number for ordering.
    pub sequence: u64,
    /// Solana slot number.
    pub slot: u64,
    /// Write version within the slot.
    pub write_version: u64,
    /// DEX protocol name.
    pub protocol_name: String,
    /// Base58-encoded pool address.
    pub pool_address: String,
    /// Token mint addresses, base58-encoded.
    pub token_mints: Vec<String>,
    /// Token balances, in the order the wire carried them.
    pub token_balances: Vec<u64>,
    /// Token decimals, in the order the wire carried them.
    pub token_decimals: Vec<i32>,
    /// Best bid order level, if present.
    pub best_bid: Option<OrderLevel>,
    /// Best ask order level, if present.
    pub best_ask: Option<OrderLevel>,
    /// Opaque pool state bytes.
    pub serialized_state: Vec<u8>,
}

/// Mathematical view of a [`PoolUpdate`].
#[verifier::ext_equal]
pub struct PoolUpdateV {
    /// Global sequence number.
    pub sequence: u64,
    /// Solana slot number.
    pub slot: u64,
    /// Write version within the slot.
    pub write_version: u64,
    /// Protocol name as a character sequence.
    pub protocol_name: Seq<char>,
    /// Base58 text of the pool address.
    pub pool_address: Seq<char>,
    /// Base58 texts of the token mints.
    pub token_mints: Seq<Seq<char>>,
    /// Token balances.
    pub token_balances: Seq<u64>,
    /// Token decimals.
    pub token_decimals: Seq<i32>,
    /// Best bid, if present.
    pub best_bid: Option<OrderLevel>,
    /// Best ask, if present.
    pub best_ask: Option<OrderLevel>,
    /// Opaque pool state bytes.
    pub serialized_state: Seq<u8>,
}

impl View for PoolUpdate {
    type V = PoolUpdateV;

    open spec fn view(&self) -> PoolUpdateV {
        PoolUpdateV {
            sequence: self.sequence,
            slot: self.slot,
            write_version: self.write_version,
            protocol_name: self.protocol_name@,
            pool_address: self.pool_address@,
            token_mints: self.token_mints@.map_values(|s: String| s@),
            token_balances: self.token_balances@,
            token_decimals: self.token_decimals@,
            best_bid: self.best_bid,
            best_ask: self.best_ask,
            serialized_state: self.serialized_state@,
        }
    }
}

/// DEX pool metadata.
#[derive(Debug, Clone, PartialEq, Eq)]
pub struct Pool {
    /// Base58-encoded pool address.
    pub address: String,
    /// DEX protocol name.
    pub protocol: String,
    /// First token mint address.
    pub token_a_mint: String,
    /// Second token mint address.
    pub token_b_mint: String,
    /// First token vault address.
    pub token_a_vault: String,
    /// Second token vault address.
    pub token_b_vault: String,
    /// Fee rate in basis points.
    pub fee_rate: u32,
}

/// Recent blockhash record.
#[derive(Debug, Clone, PartialEq, Eq)]
pub struct Blockhash {
    /// Solana slot of the blockhash.
    pub slot: u64,
    /// Unix timestamp in milliseconds.
    pub timestamp_ms: u64,
    /// Base58-encoded recent blockhash.
    pub blockhash: String,
    /// Block height.
    pub block_height: u64,
    /// Last valid block height for transactions.
    pub last_valid_block_height: u64,
    /// Whether the data may be stale.
    pub is_stale: bool,
}

/// Mathematical view of a [`Blockhash`].
#[verifier::ext_equal]
pub struct BlockhashV {
    /// Solana slot of the blockhash.
    pub slot: u64,
    /// Unix timestamp in milliseconds.
    pub timestamp_ms: u64,
    /// Base58 text of the blockhash.
    pub blockhash: Seq<char>,
    /// Block height.
    pub block_height: u64,
    /// Last valid block height.
    pub last_valid_block_height: u64,
    /// Whether the data may be stale.
    pub is_stale: bool,
}

impl View for Blockhash {
    type V = BlockhashV;

    open spec fn view(&self) -> BlockhashV {
        BlockhashV {
            slot: self.slot,
            timestamp_ms: self.timestamp_ms,
            blockhash: self.blockhash@,
            block_height: self.block_height,
            last_valid_block_height: self.last_valid_block_height,
            is_stale: self.is_stale,
        }
    }
}

/// Connection heartbeat with stats.
#[derive(Debug, Clone, Copy, PartialEq, Eq, Structural)]
pub struct Heartbeat {
    /// Unix timestamp in milliseconds.
    pub timestamp_ms: u64,
    /// Connection uptime in seconds.
    pub uptime_seconds: u64,
    /// Total messages received.
    pub messages_received: u64,
    /// Total messages sent.
    pub messages_sent: u64,
    /// Number of active subscriptions.
    pub subscriptions: u32,
}

/// Network congestion state.
#[derive(Debug, Clone, Copy, PartialEq, Eq, Structural, Hash)]
pub enum NetworkState {
    /// Low congestion (wire value 0).
    Low,
    /// Normal congestion (wire value 1).
    Normal,
    /// High congestion (wire value 2).
    High,
    /// Extreme congestion (wire value 3).
    Extreme,
}

/// The network state a byte maps to, or `None` when it is outside the
/// closed 4-value enumeration.
pub open spec fn spec_network_state(value: u8) -> Option<NetworkState> {
    if value == 0 {
        Some(NetworkState::Low)
    } else if value == 1 {
        Some(NetworkState::Normal)
    } else if value == 2 {
        Some(NetworkState::High)
    } else if value == 3 {
        Some(NetworkState::Extreme)
    } else {
        None
    }
}

impl NetworkState {
    /// Map a wire byte onto the 4-value enumeration; an out-of-range
    /// byte is handed back as the error.
    pub fn try_from(value: u8) -> (r: Result<NetworkState, u8>)
        ensures
            r matches Ok(s) ==> spec_network_state(value) == Some(s),
            r matches Err(b) ==> spec_network_state(value) is None && b == value,
    {
        match value {
            0 => Ok(NetworkState::Low),
            1 => Ok(NetworkState::Normal),
            2 => Ok(NetworkState::High),
            3 => Ok(NetworkState::Extreme),
            other => Err(other),
        }
    }
}

/// Per-writable-account fee data.
#[derive(Debug, Clone, PartialEq, Eq)]
pub struct AccountFee {
    /// Account public key, base58-encoded.
    pub pubkey: String,
    /// Total transactions touching this account in the window.
    pub total_txs: u32,
    /// Number of slots where this account was active.
    pub active_slots: u32,
    /// Total compute units consumed by transactions touching this account.
    pub cu_consumed: u64,
    /// Account utilization percentage, as the raw IEEE-754 single
    /// precision bit pattern the wire carried.
    pub utilization_pct_bits: u32,
    /// 25th percentile fee in microlamports per compute unit.
    pub p25: u64,
    /// 50th percentile fee in microlamports per compute unit.
    pub p50: u64,
    /// 75th percentile fee in microlamports per compute unit.
    pub p75: u64,
    /// 90th percentile fee in microlamports per compute unit.
    pub p90: u64,
    /// Minimum non-zero fee observed.
    pub min_nonzero_price: u64,
}

/// Mathematical view of an [`AccountFee`].
#[verifier::ext_equal]
pub struct AccountFeeV {
    /// Base58 text of the account public key.
    pub pubkey: Seq<char>,
    /// Total transactions in the window.
    pub total_txs: u32,
    /// Active slot count.
    pub active_slots: u32,
    /// Compute units consumed.
    pub cu_consumed: u64,
    /// Raw bit pattern of the utilization percentage.
    pub utilization_pct_bits: u32,
    /// 25th percentile fee.
    pub p25: u64,
    /// 50th percentile fee.
    pub p50: u64,
    /// 75th percentile fee.
    pub p75: u64,
    /// 90th percentile fee.
    pub p90: u64,
    /// Minimum non-zero fee observed.
    pub min_nonzero_price: u64,
}

impl View for AccountFee {
    type V = AccountFeeV;

    open spec fn view(&self) -> AccountFeeV {
        AccountFeeV {
            pubkey: self.pubkey@,
            total_txs: self.total_txs,
            active_slots: self.active_slots,
            cu_consumed: self.cu_consumed,
            utilization_pct_bits: self.utilization_pct_bits,
            p25: self.p25,
            p50: self.p50,
            p75: self.p75,
            p90: self.p90,
            min_nonzero_price: self.min_nonzero_price,
        }
    }
}

/// Fee market update, per writable account.
#[derive(Debug, Clone, PartialEq, Eq)]
pub struct FeeMarket {
    /// Current Solana slot.
    pub slot: u64,
    /// Unix timestamp in milliseconds.
    pub timestamp_ms: u64,
    /// Recommended fee in microlamports per compute unit.
    pub recommended: u64,
    /// Network congestion state.
    pub state: NetworkState,
    /// Whether the data may be stale.
    pub is_stale: bool,
    /// Block utilization percentage, as the raw IEEE-754 single
    /// precision bit pattern the wire carried.
    pub block_utilization_pct_bits: u32,
    /// Number of blocks in the observation window.
    pub blocks_in_window: u32,
    /// Per-account fee data.
    pub accounts: Vec<AccountFee>,
}

/// Mathematical view of a [`FeeMarket`].
#[verifier::ext_equal]
pub struct FeeMarketV {
    /// Current Solana slot.
    pub slot: u64,
    /// Unix timestamp in milliseconds.
    pub timestamp_ms: u64,
    /// Recommended fee.
    pub recommended: u64,
    /// Network congestion state.
    pub state: NetworkState,
    /// Whether the data may be stale.
    pub is_stale: bool,
    /// Raw bit pattern of the block utilization percentage.
    pub block_utilization_pct_bits: u32,
    /// Number of blocks in the observation window.
    pub blocks_in_window: u32,
    /// Per-account fee data.
    pub accounts: Seq<AccountFeeV>,
}

impl View for FeeMarket {
    type V = FeeMarketV;

    open spec fn view(&self) -> FeeMarketV {
        FeeMarketV {
            slot: self.slot,
            timestamp_ms: self.timestamp_ms,
            recommended: self.recommended,
            state: self.state,
            is_stale: self.is_stale,
            block_utilization_pct_bits: self.block_utilization_pct_bits,
            blocks_in_window: self.blocks_in_window,
            accounts: self.accounts@.map_values(|a: AccountFee| a@),
        }
    }
}

/// Swap quote. The binary decoder never produces one; the variant is
/// part of the closed record family for JSON-mode consumers.
#[derive(Debug, Clone, PartialEq, Eq)]
pub struct Quote {
    /// Input token mint address.
    pub input_mint: String,
    /// Output token mint address.
    pub output_mint: String,
    /// Input amount in base units.
    pub in_amount: u64,
    /// Output amount in base units.
    pub out_amount: u64,
    /// Price impact percentage, as the raw IEEE-754 double precision
    /// bit pattern.
    pub price_impact_pct_bits: u64,
    /// Solana slot of the quote.
    pub slot: u64,
    /// Unix timestamp in milliseconds.
    pub timestamp_ms: u64,
    /// Route steps, one JSON text per step.
    pub route_plan: Vec<String>,
    /// Minimum output (or maximum input for exact-out).
    pub other_amount_threshold: Option<u64>,
    /// Either exact-in or exact-out mode.
    pub swap_mode: String,
}

/// Mathematical view of a [`Quote`].
#[verifier::ext_equal]
pub struct QuoteV {
    /// Input token mint address.
    pub input_mint: Seq<char>,
    /// Output token mint address.
    pub output_mint: Seq<char>,
    /// Input amount in base units.
    pub in_amount: u64,
    /// Output amount in base units.
    pub out_amount: u64,
    /// Raw bit pattern of the price impact percentage.
    pub price_impact_pct_bits: u64,
    /// Solana slot of the quote.
    pub slot: u64,
    /// Unix timestamp in milliseconds.
    pub timestamp_ms: u64,
    /// Route steps, one JSON text per step.
    pub route_plan: Seq<Seq<char>>,
    /// Minimum output (or maximum input for exact-out).
    pub other_amount_threshold: Option<u64>,
    /// Swap mode.
    pub swap_mode: Seq<char>,
}

impl View for Quote {
    type V = QuoteV;

    open spec fn view(&self) -> QuoteV {
        QuoteV {
            input_mint: self.input_mint@,
            output_mint: self.output_mint@,
            in_amount: self.in_amount,
            out_amount: self.out_amount,
            price_impact_pct_bits: self.price_impact_pct_bits,
            slot: self.slot,
            timestamp_ms: self.timestamp_ms,
            route_plan: self.route_plan@.map_values(|s: String| s@),
            other_amount_threshold: self.other_amount_threshold,
            swap_mode: self.swap_mode@,
        }
    }
}

/// The swap mode a quote carries when the wire names none.
pub fn default_swap_mode() -> (r: String)
    ensures
        r@ == "ExactIn"@,
{
    "ExactIn".to_owned()
}

/// A decoded message: one typed domain event.
#[derive(Debug, Clone, PartialEq, Eq)]
pub enum DecodedMessage {
    /// Single pool update.
    PoolUpdate(PoolUpdate),
    /// Batch of pool updates.
    PoolUpdateBatch(Vec<PoolUpdate>),
    /// Fee market update.
    FeeMarket(FeeMarket),
    /// Recent blockhash.
    Blockhash(Blockhash),
    /// Swap quote.
    Quote(Quote),
    /// Connection heartbeat.
    Heartbeat(Heartbeat),
    /// Server error text.
    Error(String),
    /// Subscription confirmed for the named channels.
    Subscribed {
        /// The channels the server confirmed.
        channels: Vec<String>,
    },
}

/// Mathematical view of a [`DecodedMessage`].
#[verifier::ext_equal]
pub enum DecodedMessageV {
    /// Single pool update.
    PoolUpdate(PoolUpdateV),
    /// Batch of pool updates.
    PoolUpdateBatch(Seq<PoolUpdateV>),
    /// Fee market update.
    FeeMarket(FeeMarketV),
    /// Recent blockhash.
    Blockhash(BlockhashV),
    /// Swap quote.
    Quote(QuoteV),
    /// Connection heartbeat.
    Heartbeat(Heartbeat),
    /// Server error text.
    Error(Seq<char>),
    /// Subscription confirmed for the named channels.
    Subscribed {
        /// The channels the server confirmed.
        channels: Seq<Seq<char>>,
    },
}

impl View for DecodedMessage {
    type V = DecodedMessageV;

    open spec fn view(&self) -> DecodedMessageV {
        match self {
            DecodedMessage::PoolUpdate(u) => DecodedMessageV::PoolUpdate(u@),
            DecodedMessage::PoolUpdateBatch(v) => DecodedMessageV::PoolUpdateBatch(
                v@.map_values(|u: PoolUpdate| u@),
            ),
            DecodedMessage::FeeMarket(f) => DecodedMessageV::FeeMarket(f@),
            DecodedMessage::Blockhash(b) => DecodedMessageV::Blockhash(b@),
            DecodedMessage::Quote(q) => DecodedMessageV::Quote(q@),
            DecodedMessage::Heartbeat(h) => DecodedMessageV::Heartbeat(*h),
            DecodedMessage::Error(e) => DecodedMessageV::Error(e@),
            DecodedMessage::Subscribed { channels } => DecodedMessageV::Subscribed {
                channels: channels@.map_values(|s: String| s@),
            },
        }
    }
}

} // verus!
