//! Streaming-client core for the K256 market-data gateway.
//!
//! The library covers the binary wire-protocol decoder and the typed
//! dispatch layer: cursor-based little-endian reads, one decoder per
//! record kind (pool update, pool-update batch, fee market, blockhash,
//! error text), classification of inbound binary and JSON text frames,
//! and the handler registry that routes each decoded record to at most
//! one handler. Every decoder is a pure function over a byte slice and
//! is specified against a mathematical parser over byte sequences.

pub mod config;
pub mod decoder;
pub mod dispatch;
pub mod encoding;
pub mod errors;
pub mod json;
pub mod laws;
pub mod leader;
pub mod messages;
pub mod reader;
pub mod records;
pub mod registry;
