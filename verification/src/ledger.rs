//! The market registry and bet ledger.
//!
//! A [`Ledger`] owns one [`Market`] record per created market, addressed
//! by its position, and one [`Bet`] record per (market, user) pair. Its
//! well-formedness invariant [`Ledger::wf`] is established by [`Ledger::new`]
//! and preserved by every operation: at most one bet exists per (market,
//! user) pair, each market's side totals equal the sum of the stakes
//! placed on that side, a market is never both resolved and cancelled,
//! and a cancelled market carries no stake.
//!
//! Addresses of bettors, escrows and the treasury are opaque `u64` keys;
//! the clock and the escrow balances live with the external collaborators
//! and are passed in per call.

use vstd::prelude::*;

use crate::bet::{Bet, bet_matches, fresh_bet, lemma_side_sum_absent, lemma_side_sum_push,
    lemma_side_sum_update, lemma_stake_le_side_sum, place_check, place_check_exec,
    market_after_stake, refund_check, side_sum};
use crate::custody::Transfer;
use crate::errors::ErrorCode;
use crate::events::{AuthorizedResolverSet, BetPlaced, BetRefunded, Claimed, EscrowClosed,
    MarketCancelled, MarketCreated, MarketResolved};
use crate::market::{Market, cancel_check, cancel_check_exec, close_escrow_check, create_check,
    create_market_result, resolve_check, resolve_check_exec, set_resolver_check,
    set_resolver_check_exec};
use crate::settlement::{claim_check, claim_transfers, lemma_gross_le_pool, payout_result};

verus! {

/// The shared ledger: every market and every bet, in creation order.
///
/// The fields are exposed for inspection; every operation demands and
/// re-establishes [`Ledger::wf`], so state reached through the operations
/// alone always satisfies it.
pub struct Ledger {
    /// One record per market; the record at index `i` has address `i`.
    pub markets: Vec<Market>,
    /// One record per (market, user) pair, in placement order.
    pub bets: Vec<Bet>,
}

impl Ledger {
    /// The global invariant: records are well-formed, bets point at
    /// existing markets, no (market, user) pair holds two bets, and each
    /// market's totals are exactly the stake sums of its two sides.
    pub open spec fn wf(self) -> bool {
        &&& forall|i: int|
            0 <= i < self.markets@.len() ==> (#[trigger] self.markets@[i]).wf()
                && self.markets@[i].address == i as u64
        &&& forall|j: int|
            0 <= j < self.bets@.len() ==> (#[trigger] self.bets@[j]).wf() && (
            self.bets@[j].market as int) < self.markets@.len()
        &&& forall|j: int, k: int|
            #![trigger self.bets@[j], self.bets@[k]]
            0 <= j < self.bets@.len() && 0 <= k < self.bets@.len() && j != k ==> !(
            self.bets@[j].market == self.bets@[k].market && self.bets@[j].user
                == self.bets@[k].user)
        &&& forall|i: int|
            0 <= i < self.markets@.len() ==> (#[trigger] self.markets@[i]).total_yes == side_sum(
                self.bets@,
                i as u64,
                true,
            ) && self.markets@[i].total_no == side_sum(self.bets@, i as u64, false)
    }

    /// Whether a bet record exists for the pair.
    pub open spec fn spec_has_bet(self, market_id: u64, user: u64) -> bool {
        exists|j: int|
            0 <= j < self.bets@.len() && bet_matches(#[trigger] self.bets@[j], market_id, user)
    }

    /// The index of the pair's bet record; meaningful when one exists.
    pub open spec fn spec_bet_index(self, market_id: u64, user: u64) -> int {
        choose|j: int|
            0 <= j < self.bets@.len() && bet_matches(#[trigger] self.bets@[j], market_id, user)
    }

    /// The pair's bet record; meaningful when one exists.
    pub open spec fn spec_bet(self, market_id: u64, user: u64) -> Bet {
        self.bets@[self.spec_bet_index(market_id, user)]
    }

    /// An empty ledger.
    pub fn new() -> (l: Ledger)
        ensures
            l.wf(),
            l.markets@.len() == 0,
            l.bets@.len() == 0,
    {
        Ledger { markets: Vec::new(), bets: Vec::new() }
    }

    /// How many markets have been created.
    pub fn market_count(&self) -> (n: usize)
        ensures
            n == self.markets@.len(),
    {
        self.markets.len()
    }

    /// How many bet records exist.
    pub fn bet_count(&self) -> (n: usize)
        ensures
            n == self.bets@.len(),
    {
        self.bets.len()
    }

    /// The position of an existing market address, which always fits a
    /// `usize` because the address was the record's position at creation.
    fn market_index(&self, market_id: u64) -> (idx: usize)
        requires
            market_id < self.markets@.len(),
        ensures
            idx == market_id as int,
    {
        proof {
            vstd::std_specs::vec::axiom_spec_len(&self.markets);
        }
        market_id as usize
    }

    /// The market record at `market_id`.
    pub fn market(&self, market_id: u64) -> (m: &Market)
        requires
            market_id < self.markets@.len(),
        ensures
            *m == self.markets@[market_id as int],
    {
        &self.markets[self.market_index(market_id)]
    }

    /// Finds the index of the pair's bet record, scanning in placement
    /// order.
    fn find_bet(&self, market_id: u64, user: u64) -> (r: Option<usize>)
        ensures
            match r {
                Some(j) => j < self.bets@.len() && bet_matches(self.bets@[j as int], market_id, user),
                None => !self.spec_has_bet(market_id, user),
            },
    {
        let mut j: usize = 0;
        while j < self.bets.len()
            invariant
                j <= self.bets@.len(),
                forall|k: int|
                    0 <= k < j ==> !bet_matches(#[trigger] self.bets@[k], market_id, user),
            decreases self.bets@.len() - j,
        {
            if self.bets[j].market == market_id && self.bets[j].user == user {
                return Some(j);
            }
            j = j + 1;
        }
        None
    }

    /// Whether the pair holds a bet.
    pub fn has_bet(&self, market_id: u64, user: u64) -> (b: bool)
        ensures
            b == self.spec_has_bet(market_id, user),
    {
        match self.find_bet(market_id, user) {
            Some(_) => true,
            None => false,
        }
    }

    /// The pair's bet record, if one exists.
    pub fn bet_record(&self, market_id: u64, user: u64) -> (r: Option<Bet>)
        requires
            self.wf(),
        ensures
            match r {
                Some(b) => self.spec_has_bet(market_id, user) && b == self.spec_bet(
                    market_id,
                    user,
                ),
                None => !self.spec_has_bet(market_id, user),
            },
    {
        match self.find_bet(market_id, user) {
            Some(j) => {
                let b = self.bets[j];
                proof {
                    self.lemma_found_is_spec_bet(market_id, user, j as int);
                }
                Some(b)
            },
            None => None,
        }
    }

    /// A record that matches the pair is the record [`Ledger::spec_bet`]
    /// denotes: the invariant admits no second one.
    proof fn lemma_found_is_spec_bet(self, market_id: u64, user: u64, j: int)
        requires
            self.wf(),
            0 <= j < self.bets@.len(),
            bet_matches(self.bets@[j], market_id, user),
        ensures
            self.spec_has_bet(market_id, user),
            self.spec_bet_index(market_id, user) == j,
            self.spec_bet(market_id, user) == self.bets@[j],
    {
        assert(self.spec_has_bet(market_id, user));
        let k = self.spec_bet_index(market_id, user);
        assert(0 <= k < self.bets@.len() && bet_matches(self.bets@[k], market_id, user));
        assert(k == j);
    }

    /// Creates a market at the next free address. On success the new
    /// record, initialized exactly as [`create_market_result`] states, is
    /// appended; on an error the ledger is untouched.
    pub fn create_market(
        &mut self,
        question: String,
        end_time: i64,
        escrow_bump: u8,
        fee_bps: u16,
        grace_period_minutes: u8,
        now: i64,
        creator: u64,
        escrow: u64,
    ) -> (r: Result<MarketCreated, ErrorCode>)
        requires
            old(self).wf(),
            end_time <= i64::MAX - 3600,
            old(self).markets@.len() < u64::MAX,
        ensures
            final(self).wf(),
            final(self).bets@ == old(self).bets@,
            match create_check(question@, end_time, fee_bps, grace_period_minutes, now) {
                Some(e) => r == Err::<MarketCreated, ErrorCode>(e) && *final(self) == *old(self),
                None => (match create_market_result(
                    question,
                    end_time,
                    escrow_bump,
                    fee_bps,
                    grace_period_minutes,
                    now,
                    creator,
                    old(self).markets@.len() as u64,
                    escrow,
                ) {
                    Ok((m, ev)) => r == Ok::<MarketCreated, ErrorCode>(ev)
                        && final(self).markets@ == old(self).markets@.push(m),
                    Err(_) => false,
                }),
            },
    {
        let address = self.markets.len() as u64;
        match crate::market::create_market(
            question,
            end_time,
            escrow_bump,
            fee_bps,
            grace_period_minutes,
            now,
            creator,
            address,
            escrow,
        ) {
            Err(e) => Err(e),
            Ok((m, ev)) => {
                self.markets.push(m);
                proof {
                    assert forall|i: int| 0 <= i < self.markets@.len() implies (#[trigger] self
                        .markets@[i]).total_yes == side_sum(self.bets@, i as u64, true) && self
                        .markets@[i].total_no == side_sum(self.bets@, i as u64, false) by {
                        if i == self.markets@.len() - 1 {
                            assert(forall|j: int|
                                0 <= j < self.bets@.len() ==> (#[trigger] self.bets@[j]).market
                                    != i as u64);
                            lemma_side_sum_absent(self.bets@, i as u64, true);
                            lemma_side_sum_absent(self.bets@, i as u64, false);
                        }
                    }
                }
                Ok(ev)
            },
        }
    }

    /// Places a stake on a market: validates the market state, rejects a
    /// second bet on the same (market, user) pair with `DuplicateBet`,
    /// grows the side total by checked addition, and appends the new
    /// record. The stake's inbound transfer is executed by the caller as
    /// part of the same atomic unit. On an error the ledger is untouched.
    pub fn place_bet(
        &mut self,
        market_id: u64,
        user: u64,
        side: bool,
        amount: u64,
        now: i64,
    ) -> (r: Result<BetPlaced, ErrorCode>)
        requires
            old(self).wf(),
            market_id < old(self).markets@.len(),
        ensures
            final(self).wf(),
            final(self).markets@.len() == old(self).markets@.len(),
            match place_check(
                old(self).markets@[market_id as int],
                if old(self).spec_has_bet(market_id, user) {
                    old(self).spec_bet(market_id, user)
                } else {
                    fresh_bet(user, market_id)
                },
                side,
                amount,
                now,
            ) {
                Some(e) => r == Err::<BetPlaced, ErrorCode>(e) && *final(self) == *old(self),
                None => {
                    &&& r == Ok::<BetPlaced, ErrorCode>(
                        (BetPlaced { market: market_id, user, side, amount, timestamp: now }),
                    )
                    &&& final(self).markets@ == old(self).markets@.update(
                        market_id as int,
                        market_after_stake(old(self).markets@[market_id as int], side, amount),
                    )
                    &&& final(self).bets@ == old(self).bets@.push(
                        (Bet { user, market: market_id, side, amount, claimed: false, initialized: true }),
                    )
                },
            },
    {
        let idx = self.market_index(market_id);
        let probe: Bet = match self.find_bet(market_id, user) {
            Some(j) => {
                proof {
                    self.lemma_found_is_spec_bet(market_id, user, j as int);
                }
                self.bets[j]
            },
            None => Bet {
                user,
                market: market_id,
                side: false,
                amount: 0,
                claimed: false,
                initialized: false,
            },
        };
        match place_check_exec(&self.markets[idx], &probe, side, amount, now) {
            Some(e) => Err(e),
            None => {
                proof {
                    // an initialized probe would have been refused, so no
                    // record exists for the pair
                    assert(!self.spec_has_bet(market_id, user));
                }
                let m = &self.markets[idx];
                let new_market = if side {
                    m.with_totals(m.total_yes + amount, m.total_no)
                } else {
                    m.with_totals(m.total_yes, m.total_no + amount)
                };
                let new_bet = Bet {
                    user,
                    market: market_id,
                    side,
                    amount,
                    claimed: false,
                    initialized: true,
                };
                self.markets[idx] = new_market;
                self.bets.push(new_bet);
                proof {
                    let ghost prior = old(self).bets@;
                    vstd::std_specs::vec::axiom_spec_len(&self.markets);
                    assert forall|i: int| 0 <= i < self.markets@.len() implies (#[trigger] self
                        .markets@[i]).total_yes == side_sum(self.bets@, i as u64, true) && self
                        .markets@[i].total_no == side_sum(self.bets@, i as u64, false) by {
                        assert(old(self).markets@[i].total_yes == side_sum(prior, i as u64, true));
                        assert(old(self).markets@[i].total_no == side_sum(prior, i as u64, false));
                        lemma_side_sum_push(prior, new_bet, i as u64, true);
                        lemma_side_sum_push(prior, new_bet, i as u64, false);
                    }
                }
                Ok(BetPlaced { market: market_id, user, side, amount, timestamp: now })
            },
        }
    }

    /// Fixes the outcome of a market, as [`resolve_check`] gates it. On
    /// an error the ledger is untouched.
    pub fn resolve_market(&mut self, market_id: u64, caller: u64, outcome: bool, now: i64) -> (r:
        Result<MarketResolved, ErrorCode>)
        requires
            old(self).wf(),
            market_id < old(self).markets@.len(),
        ensures
            final(self).wf(),
            final(self).bets@ == old(self).bets@,
            match resolve_check(old(self).markets@[market_id as int], caller, now) {
                Some(e) => r == Err::<MarketResolved, ErrorCode>(e) && *final(self) == *old(self),
                None => r == Ok::<MarketResolved, ErrorCode>(
                    (MarketResolved { market: market_id, outcome, resolver: caller, resolved_at: now }),
                ) && final(self).markets@ == old(self).markets@.update(
                    market_id as int,
                    (Market {
                        resolved: true,
                        outcome: Some(outcome),
                        ..old(self).markets@[market_id as int]
                    }),
                ),
            },
    {
        let idx = self.market_index(market_id);
        match resolve_check_exec(&self.markets[idx], caller, now) {
            Some(e) => Err(e),
            None => {
                let new_market = self.markets[idx].with_outcome(outcome);
                self.markets[idx] = new_market;
                Ok(MarketResolved { market: market_id, outcome, resolver: caller, resolved_at: now })
            },
        }
    }

    /// Cancels a market, as [`cancel_check`] gates it: only the creator,
    /// only before the cutoff, and only while no bet exists. On an error
    /// the ledger is untouched.
    pub fn cancel_market(&mut self, market_id: u64, caller: u64, now: i64) -> (r: Result<
        MarketCancelled,
        ErrorCode,
    >)
        requires
            old(self).wf(),
            market_id < old(self).markets@.len(),
        ensures
            final(self).wf(),
            final(self).bets@ == old(self).bets@,
            match cancel_check(old(self).markets@[market_id as int], caller, now) {
                Some(e) => r == Err::<MarketCancelled, ErrorCode>(e) && *final(self) == *old(self),
                None => r == Ok::<MarketCancelled, ErrorCode>(
                    (MarketCancelled { market: market_id, cancelled_by: caller, timestamp: now }),
                ) && final(self).markets@ == old(self).markets@.update(
                    market_id as int,
                    (Market { cancelled: true, ..old(self).markets@[market_id as int] }),
                ),
            },
    {
        let idx = self.market_index(market_id);
        match cancel_check_exec(&self.markets[idx], caller, now) {
            Some(e) => Err(e),
            None => {
                let new_market = self.markets[idx].with_cancelled();
                self.markets[idx] = new_market;
                Ok(MarketCancelled { market: market_id, cancelled_by: caller, timestamp: now })
            },
        }
    }

    /// Replaces the optional authorized resolver of a market, as
    /// [`set_resolver_check`] gates it.
    pub fn set_authorized_resolver(
        &mut self,
        market_id: u64,
        caller: u64,
        new_resolver: Option<u64>,
        now: i64,
    ) -> (r: Result<AuthorizedResolverSet, ErrorCode>)
        requires
            old(self).wf(),
            market_id < old(self).markets@.len(),
        ensures
            final(self).wf(),
            final(self).bets@ == old(self).bets@,
            match set_resolver_check(old(self).markets@[market_id as int], caller) {
                Some(e) => r == Err::<AuthorizedResolverSet, ErrorCode>(e) && *final(self) == *old(
                    self,
                ),
                None => r == Ok::<AuthorizedResolverSet, ErrorCode>(
                    (AuthorizedResolverSet {
                        market: market_id,
                        old_resolver: old(self).markets@[market_id as int].authorized_resolver,
                        new_resolver,
                        set_by: caller,
                        timestamp: now,
                    }),
                ) && final(self).markets@ == old(self).markets@.update(
                    market_id as int,
                    (Market {
                        authorized_resolver: new_resolver,
                        ..old(self).markets@[market_id as int]
                    }),
                ),
            },
    {
        let idx = self.market_index(market_id);
        match set_resolver_check_exec(&self.markets[idx], caller) {
            Some(e) => Err(e),
            None => {
                let old_resolver = self.markets[idx].authorized_resolver;
                let new_market = self.markets[idx].with_resolver(new_resolver);
                self.markets[idx] = new_market;
                Ok(
                    AuthorizedResolverSet {
                        market: market_id,
                        old_resolver,
                        new_resolver,
                        set_by: caller,
                        timestamp: now,
                    },
                )
            },
        }
    }

    /// Claims the pair's bet on a resolved market, as
    /// [`crate::settlement::claim_winnings`] settles it. The claimed flag
    /// is committed before the returned transfers execute. For a live
    /// winning bet, settlement fails `Overflow` exactly when the whole
    /// pool exceeds `u64::MAX`; the payout itself can never overflow,
    /// because no stake exceeds its side's total. On an error the ledger
    /// is untouched.
    pub fn claim_winnings(
        &mut self,
        market_id: u64,
        user: u64,
        treasury: u64,
        escrow_balance: u64,
        now: i64,
    ) -> (r: Result<(Claimed, Vec<Transfer>), ErrorCode>)
        requires
            old(self).wf(),
            market_id < old(self).markets@.len(),
            old(self).spec_has_bet(market_id, user),
        ensures
            final(self).wf(),
            final(self).markets@ == old(self).markets@,
            match claim_check(
                old(self).markets@[market_id as int],
                old(self).spec_bet(market_id, user),
                user,
                escrow_balance,
            ) {
                Some(e) => r == Err::<(Claimed, Vec<Transfer>), ErrorCode>(e) && *final(self)
                    == *old(self),
                None => {
                    &&& final(self).bets@ == old(self).bets@.update(
                        old(self).spec_bet_index(market_id, user),
                        (Bet { claimed: true, ..old(self).spec_bet(market_id, user) }),
                    )
                    &&& (match r {
                        Ok((ev, txs)) => {
                            let m = old(self).markets@[market_id as int];
                            let b = old(self).spec_bet(market_id, user);
                            match m.outcome {
                                Some(outcome) => {
                                    if b.side != outcome {
                                        &&& ev == (Claimed {
                                            market: market_id,
                                            user,
                                            amount: 0,
                                            creator_fee: 0,
                                            treasury_fee: 0,
                                            timestamp: now,
                                        })
                                        &&& txs@ == Seq::<Transfer>::empty()
                                    } else {
                                        match payout_result(b.amount, m.total_yes, m.total_no, outcome) {
                                            Ok(p) => {
                                                &&& ev == (Claimed {
                                                    market: market_id,
                                                    user,
                                                    amount: p.net,
                                                    creator_fee: p.fee_creator,
                                                    treasury_fee: p.fee_treasury,
                                                    timestamp: now,
                                                })
                                                &&& txs@ == claim_transfers(m, user, treasury, p)
                                            },
                                            Err(_) => false,
                                        }
                                    }
                                },
                                None => false,
                            }
                        },
                        Err(_) => false,
                    })
                },
            },
            ({
                let m = old(self).markets@[market_id as int];
                let b = old(self).spec_bet(market_id, user);
                (m.resolved && !b.claimed && b.user == user && m.outcome == Some(b.side)) ==> (r
                    == Err::<(Claimed, Vec<Transfer>), ErrorCode>(ErrorCode::Overflow) <==> m.total_yes
                    + m.total_no > u64::MAX)
            }),
    {
        let idx = self.market_index(market_id);
        match self.find_bet(market_id, user) {
            // the caller holds a bet for the pair, so the scan cannot miss
            None => vstd::pervasive::unreached(),
            Some(j) => {
                proof {
                    self.lemma_found_is_spec_bet(market_id, user, j as int);
                    let m = self.markets@[market_id as int];
                    let bb = self.bets@[j as int];
                    if m.resolved && !bb.claimed && bb.user == user && m.outcome == Some(bb.side) {
                        lemma_stake_le_side_sum(self.bets@, j as int, market_id, bb.side);
                        if m.total_yes + m.total_no <= u64::MAX {
                            let winning: int = if bb.side {
                                m.total_yes as int
                            } else {
                                m.total_no as int
                            };
                            lemma_gross_le_pool(
                                bb.amount as int,
                                m.total_yes + m.total_no,
                                winning,
                            );
                        }
                    }
                }
                let mut b = self.bets[j];
                match crate::settlement::claim_winnings(
                    &self.markets[idx],
                    &mut b,
                    user,
                    treasury,
                    escrow_balance,
                    now,
                ) {
                    Err(e) => Err(e),
                    Ok((ev, txs)) => {
                        let ghost prior = self.bets@;
                        self.bets[j] = b;
                        proof {
                            assert forall|i: int| 0 <= i < self.markets@.len() implies (
                            #[trigger] self.markets@[i]).total_yes == side_sum(
                                self.bets@,
                                i as u64,
                                true,
                            ) && self.markets@[i].total_no == side_sum(
                                self.bets@,
                                i as u64,
                                false,
                            ) by {
                                lemma_side_sum_update(prior, j as int, b, i as u64, true);
                                lemma_side_sum_update(prior, j as int, b, i as u64, false);
                            }
                        }
                        Ok((ev, txs))
                    },
                }
            },
        }
    }

    /// Refunds the pair's bet, as [`crate::bet::refund_bet`] gates it:
    /// only on a cancelled market, only once. On an error the ledger is
    /// untouched.
    pub fn refund_bet(
        &mut self,
        market_id: u64,
        user: u64,
        escrow_balance: u64,
        now: i64,
    ) -> (r: Result<(BetRefunded, Transfer), ErrorCode>)
        requires
            old(self).wf(),
            market_id < old(self).markets@.len(),
            old(self).spec_has_bet(market_id, user),
        ensures
            final(self).wf(),
            final(self).markets@ == old(self).markets@,
            match refund_check(
                old(self).markets@[market_id as int],
                old(self).spec_bet(market_id, user),
                user,
                escrow_balance,
            ) {
                Some(e) => r == Err::<(BetRefunded, Transfer), ErrorCode>(e) && *final(self)
                    == *old(self),
                None => {
                    &&& final(self).bets@ == old(self).bets@.update(
                        old(self).spec_bet_index(market_id, user),
                        (Bet { claimed: true, ..old(self).spec_bet(market_id, user) }),
                    )
                    &&& r == Ok::<(BetRefunded, Transfer), ErrorCode>(
                        (
                            (BetRefunded {
                                market: market_id,
                                user,
                                amount: old(self).spec_bet(market_id, user).amount,
                                timestamp: now,
                            }),
                            (Transfer {
                                from: old(self).markets@[market_id as int].escrow,
                                to: user,
                                amount: old(self).spec_bet(market_id, user).amount,
                            }),
                        ),
                    )
                },
            },
    {
        let idx = self.market_index(market_id);
        match self.find_bet(market_id, user) {
            // the caller holds a bet for the pair, so the scan cannot miss
            None => vstd::pervasive::unreached(),
            Some(j) => {
                proof {
                    self.lemma_found_is_spec_bet(market_id, user, j as int);
                }
                let mut b = self.bets[j];
                match crate::bet::refund_bet(&self.markets[idx], &mut b, user, escrow_balance, now)
                {
                    Err(e) => Err(e),
                    Ok((ev, tx)) => {
                        let ghost prior = self.bets@;
                        self.bets[j] = b;
                        proof {
                            assert forall|i: int| 0 <= i < self.markets@.len() implies (
                            #[trigger] self.markets@[i]).total_yes == side_sum(
                                self.bets@,
                                i as u64,
                                true,
                            ) && self.markets@[i].total_no == side_sum(
                                self.bets@,
                                i as u64,
                                false,
                            ) by {
                                lemma_side_sum_update(prior, j as int, b, i as u64, true);
                                lemma_side_sum_update(prior, j as int, b, i as u64, false);
                            }
                        }
                        Ok((ev, tx))
                    },
                }
            },
        }
    }

    /// Approves reclaiming a drained escrow's storage deposit, as
    /// [`close_escrow_check`] gates it. Reads only.
    pub fn close_escrow(
        &self,
        market_id: u64,
        caller: u64,
        escrow_balance: u64,
        rent_reclaimed: u64,
        now: i64,
    ) -> (r: Result<EscrowClosed, ErrorCode>)
        requires
            self.wf(),
            market_id < self.markets@.len(),
        ensures
            match close_escrow_check(self.markets@[market_id as int], caller, escrow_balance) {
                Some(e) => r == Err::<EscrowClosed, ErrorCode>(e),
                None => r == Ok::<EscrowClosed, ErrorCode>(
                    (EscrowClosed {
                        market: market_id,
                        closed_by: caller,
                        rent_reclaimed,
                        timestamp: now,
                    }),
                ),
            },
    {
        let idx = self.market_index(market_id);
        crate::market::close_escrow(&self.markets[idx], caller, escrow_balance, rent_reclaimed, now)
    }
}

} // verus!
