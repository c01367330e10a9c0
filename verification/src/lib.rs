//! An escrow-backed binary prediction market settlement engine.
//!
//! Users stake value on a yes/no question before a deadline, the market
//! creator (or an authorized resolver) fixes the outcome once a grace
//! period has elapsed, and winners claim a pro-rata share of the pool
//! minus a fixed protocol fee.
//!
//! The engine is pure state-machine logic: the value-transfer primitive,
//! the wall clock, persistent account storage and signature verification
//! are external collaborators. Operations take the current time and
//! relevant balances as arguments and hand back [`custody::Transfer`]
//! intents for the caller to execute; a caller commits the returned state
//! and performs the transfers as one atomic unit.

pub mod bet;
pub mod custody;
pub mod errors;
pub mod events;
pub mod laws;
pub mod ledger;
pub mod market;
pub mod settlement;
