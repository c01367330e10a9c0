//! Structured event records emitted by every mutating operation.
//!
//! Events are returned to the caller for off-chain indexing; the engine
//! itself never reads them back. Optional identities are carried as
//! present/absent variants, never as a sentinel value.

use vstd::prelude::*;

verus! {

/// A market was created.
#[derive(Debug, PartialEq, Eq)]
pub struct MarketCreated {
    pub market: u64,
    pub creator: u64,
    pub question: String,
    pub end_time: i64,
    pub resolution_deadline: i64,
    pub fee_bps: u16,
    pub grace_period_minutes: u8,
}

/// A bet was placed and its stake moved into escrow.
#[derive(Clone, Copy, Debug, PartialEq, Eq, Structural)]
pub struct BetPlaced {
    pub market: u64,
    pub user: u64,
    pub side: bool,
    pub amount: u64,
    pub timestamp: i64,
}

/// The outcome of a market was fixed.
#[derive(Clone, Copy, Debug, PartialEq, Eq, Structural)]
pub struct MarketResolved {
    pub market: u64,
    pub outcome: bool,
    pub resolver: u64,
    pub resolved_at: i64,
}

/// A bet was claimed; `amount` is the net payout after fees.
#[derive(Clone, Copy, Debug, PartialEq, Eq, Structural)]
pub struct Claimed {
    pub market: u64,
    pub user: u64,
    pub amount: u64,
    pub creator_fee: u64,
    pub treasury_fee: u64,
    pub timestamp: i64,
}

/// A stake was refunded from a cancelled market.
#[derive(Clone, Copy, Debug, PartialEq, Eq, Structural)]
pub struct BetRefunded {
    pub market: u64,
    pub user: u64,
    pub amount: u64,
    pub timestamp: i64,
}

/// A market was cancelled before any bet was placed.
#[derive(Clone, Copy, Debug, PartialEq, Eq, Structural)]
pub struct MarketCancelled {
    pub market: u64,
    pub cancelled_by: u64,
    pub timestamp: i64,
}

/// A drained escrow sub-account was closed and its deposit reclaimed.
#[derive(Clone, Copy, Debug, PartialEq, Eq, Structural)]
pub struct EscrowClosed {
    pub market: u64,
    pub closed_by: u64,
    pub rent_reclaimed: u64,
    pub timestamp: i64,
}

/// The optional resolver identity of a market was replaced.
#[derive(Clone, Copy, Debug, PartialEq, Eq, Structural)]
pub struct AuthorizedResolverSet {
    pub market: u64,
    pub old_resolver: Option<u64>,
    pub new_resolver: Option<u64>,
    pub set_by: u64,
    pub timestamp: i64,
}

} // verus!
