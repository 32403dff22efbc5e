//! The handler registry: one replaceable slot per event category.
//!
//! The registry is generic over the handler token `H` (a callback
//! identifier, an index, whatever the embedding program dispatches
//! on). Replacing a slot changes that slot alone; a read returns
//! exactly the currently registered token, so a dispatch in flight
//! uses the token current at the time it reads the slot.

use vstd::prelude::*;

use crate::records::{DecodedMessage, DecodedMessageV};

verus! {

/// Event categories a handler can be registered for.
#[derive(Debug, Clone, Copy, PartialEq, Eq, Structural)]
pub enum Category {
    /// Pool updates, single or batched.
    PoolUpdate,
    /// Fee market updates.
    FeeMarket,
    /// Recent blockhashes.
    Blockhash,
    /// Swap quotes.
    Quote,
    /// Connection heartbeats.
    Heartbeat,
    /// Server error texts.
    Error,
}

/// The category whose handler receives a record, or `None` for a
/// record that is only logged (a subscription confirmation).
pub open spec fn spec_category_of(m: DecodedMessageV) -> Option<Category> {
    match m {
        DecodedMessageV::PoolUpdate(_) => Some(Category::PoolUpdate),
        DecodedMessageV::PoolUpdateBatch(_) => Some(Category::PoolUpdate),
        DecodedMessageV::FeeMarket(_) => Some(Category::FeeMarket),
        DecodedMessageV::Blockhash(_) => Some(Category::Blockhash),
        DecodedMessageV::Quote(_) => Some(Category::Quote),
        DecodedMessageV::Heartbeat(_) => Some(Category::Heartbeat),
        DecodedMessageV::Error(_) => Some(Category::Error),
        DecodedMessageV::Subscribed { .. } => None,
    }
}

/// The category whose handler receives this record.
pub fn category_of(m: &DecodedMessage) -> (r: Option<Category>)
    ensures
        r == spec_category_of(m@),
{
    match m {
        DecodedMessage::PoolUpdate(_) => Some(Category::PoolUpdate),
        DecodedMessage::PoolUpdateBatch(_) => Some(Category::PoolUpdate),
        DecodedMessage::FeeMarket(_) => Some(Category::FeeMarket),
        DecodedMessage::Blockhash(_) => Some(Category::Blockhash),
        DecodedMessage::Quote(_) => Some(Category::Quote),
        DecodedMessage::Heartbeat(_) => Some(Category::Heartbeat),
        DecodedMessage::Error(_) => Some(Category::Error),
        DecodedMessage::Subscribed { .. } => None,
    }
}

/// One optional, replaceable handler token per event category.
pub struct HandlerRegistry<H> {
    pool_update: Option<H>,
    fee_market: Option<H>,
    blockhash: Option<H>,
    quote: Option<H>,
    heartbeat: Option<H>,
    error: Option<H>,
}

impl<H: Copy> HandlerRegistry<H> {
    /// The token currently registered for a category.
    pub closed spec fn spec_slot(&self, c: Category) -> Option<H> {
        match c {
            Category::PoolUpdate => self.pool_update,
            Category::FeeMarket => self.fee_market,
            Category::Blockhash => self.blockhash,
            Category::Quote => self.quote,
            Category::Heartbeat => self.heartbeat,
            Category::Error => self.error,
        }
    }

    /// A registry with no handler registered anywhere.
    pub fn new() -> (r: Self)
        ensures
            forall|c: Category| r.spec_slot(c) is None,
    {
        HandlerRegistry {
            pool_update: None,
            fee_market: None,
            blockhash: None,
            quote: None,
            heartbeat: None,
            error: None,
        }
    }

    /// Register or replace the handler for one category; every other
    /// slot keeps its token.
    pub fn set(&mut self, c: Category, h: H)
        ensures
            final(self).spec_slot(c) == Some(h),
            forall|c2: Category| c2 != c ==> final(self).spec_slot(c2) == old(self).spec_slot(c2),
    {
        match c {
            Category::PoolUpdate => {
                self.pool_update = Some(h);
            },
            Category::FeeMarket => {
                self.fee_market = Some(h);
            },
            Category::Blockhash => {
                self.blockhash = Some(h);
            },
            Category::Quote => {
                self.quote = Some(h);
            },
            Category::Heartbeat => {
                self.heartbeat = Some(h);
            },
            Category::Error => {
                self.error = Some(h);
            },
        }
    }

    /// The currently registered handler token for a category.
    pub fn get(&self, c: Category) -> (r: Option<H>)
        ensures
            r == self.spec_slot(c),
    {
        match c {
            Category::PoolUpdate => self.pool_update,
            Category::FeeMarket => self.fee_market,
            Category::Blockhash => self.blockhash,
            Category::Quote => self.quote,
            Category::Heartbeat => self.heartbeat,
            Category::Error => self.error,
        }
    }
}

} // verus!
