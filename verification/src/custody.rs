//! The interface to the external value-custody collaborator.
//!
//! The engine never moves value itself: an operation that pays out
//! returns [`Transfer`] intents, and the surrounding runtime executes
//! each as an atomic all-or-nothing move between addressable balances,
//! committing the new ledger state and the transfers as one unit.

use vstd::prelude::*;

verus! {

/// An intent to move `amount` units from the balance at `from` to the
/// balance at `to`.
#[derive(Clone, Copy, Debug, PartialEq, Eq, Structural)]
pub struct Transfer {
    /// Source balance address.
    pub from: u64,
    /// Destination balance address.
    pub to: u64,
    /// Units to move.
    pub amount: u64,
}

} // verus!
