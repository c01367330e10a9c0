//! Bet records, staking, and refunds.
//!
//! One bet exists per (market, user) pair; the `initialized` flag makes
//! record creation a compare-and-create on that uniqueness key. A bet's
//! side and amount are immutable once placed; `claimed` moves from false
//! to true exactly once, by a claim or a refund, and never back.

use vstd::prelude::*;

use crate::custody::Transfer;
use crate::errors::ErrorCode;
use crate::events::{BetPlaced, BetRefunded};
use crate::market::Market;

verus! {

/// One user's stake on one side of one market.
#[derive(Clone, Copy, Debug, PartialEq, Eq, Structural)]
pub struct Bet {
    /// Identity of the bettor.
    pub user: u64,
    /// Address of the market the stake is on.
    pub market: u64,
    /// The side staked on: true for yes, false for no.
    pub side: bool,
    /// The stake, always positive.
    pub amount: u64,
    /// Whether the stake has been paid out or refunded; set exactly once.
    pub claimed: bool,
    /// Guards against re-creating or duplicating the record.
    pub initialized: bool,
}

impl Bet {
    /// Well-formedness: the shape every bet placed by the engine has.
    pub open spec fn wf(self) -> bool {
        &&& self.amount > 0
        &&& self.initialized
    }
}

/// Whether a record is the pair's bet.
pub open spec fn bet_matches(b: Bet, market_id: u64, user: u64) -> bool {
    b.market == market_id && b.user == user
}

/// The record a first bet starts from: the pair's identity with no stake
/// and the `initialized` guard still clear.
pub open spec fn fresh_bet(user: u64, market_id: u64) -> Bet {
    Bet { user, market: market_id, side: false, amount: 0, claimed: false, initialized: false }
}

/// The contribution of one bet to the stake total of `(market, side)`.
pub open spec fn stake_of(b: Bet, market: u64, side: bool) -> int {
    if b.market == market && b.side == side {
        b.amount as int
    } else {
        0
    }
}

/// The sum of all stake placed on `side` of `market` over a sequence of
/// bet records.
pub open spec fn side_sum(bets: Seq<Bet>, market: u64, side: bool) -> int
    decreases bets.len(),
{
    if bets.len() == 0 {
        0
    } else {
        side_sum(bets.drop_last(), market, side) + stake_of(bets.last(), market, side)
    }
}

/// Appending a record adds exactly its contribution to every side total.
pub proof fn lemma_side_sum_push(bets: Seq<Bet>, b: Bet, market: u64, side: bool)
    ensures
        side_sum(bets.push(b), market, side) == side_sum(bets, market, side) + stake_of(
            b,
            market,
            side,
        ),
{
    assert(bets.push(b).drop_last() =~= bets);
}

/// A sum of stakes is never negative.
pub proof fn lemma_side_sum_nonneg(bets: Seq<Bet>, market: u64, side: bool)
    ensures
        side_sum(bets, market, side) >= 0,
    decreases bets.len(),
{
    if bets.len() > 0 {
        lemma_side_sum_nonneg(bets.drop_last(), market, side);
    }
}

/// Replacing a record with one of the same market, side and amount leaves
/// every side total unchanged.
pub proof fn lemma_side_sum_update(bets: Seq<Bet>, j: int, b: Bet, market: u64, side: bool)
    requires
        0 <= j < bets.len(),
        b.market == bets[j].market,
        b.side == bets[j].side,
        b.amount == bets[j].amount,
    ensures
        side_sum(bets.update(j, b), market, side) == side_sum(bets, market, side),
    decreases bets.len(),
{
    if j == bets.len() - 1 {
        assert(bets.update(j, b).drop_last() =~= bets.drop_last());
        assert(bets.update(j, b).last() == b);
    } else {
        assert(bets.update(j, b).drop_last() =~= bets.drop_last().update(j, b));
        assert(bets.update(j, b).last() == bets.last());
        lemma_side_sum_update(bets.drop_last(), j, b, market, side);
    }
}

/// Each matching record's stake is bounded by the side total it is part of.
pub proof fn lemma_stake_le_side_sum(bets: Seq<Bet>, j: int, market: u64, side: bool)
    requires
        0 <= j < bets.len(),
        bets[j].market == market,
        bets[j].side == side,
    ensures
        bets[j].amount <= side_sum(bets, market, side),
    decreases bets.len(),
{
    lemma_side_sum_nonneg(bets.drop_last(), market, side);
    if j < bets.len() - 1 {
        lemma_stake_le_side_sum(bets.drop_last(), j, market, side);
    }
}

/// A market no record points at has zero stake on both sides.
pub proof fn lemma_side_sum_absent(bets: Seq<Bet>, market: u64, side: bool)
    requires
        forall|j: int| 0 <= j < bets.len() ==> (#[trigger] bets[j]).market != market,
    ensures
        side_sum(bets, market, side) == 0,
    decreases bets.len(),
{
    if bets.len() > 0 {
        lemma_side_sum_absent(bets.drop_last(), market, side);
    }
}

/// Validation of a staking request, in the order the checks are made.
/// `b` is the record at the (market, user) uniqueness key: fresh and
/// uninitialized on a first bet, the existing record on a repeat.
pub open spec fn place_check(m: Market, b: Bet, side: bool, amount: u64, now: i64) -> Option<
    ErrorCode,
> {
    if m.resolved {
        Some(ErrorCode::MarketAlreadyResolved)
    } else if m.cancelled {
        Some(ErrorCode::MarketCancelled)
    } else if now >= m.end_time {
        Some(ErrorCode::MarketClosed)
    } else if amount == 0 {
        Some(ErrorCode::InvalidBetAmount)
    } else if b.initialized {
        Some(ErrorCode::DuplicateBet)
    } else if side && m.total_yes + amount > u64::MAX {
        Some(ErrorCode::Overflow)
    } else if !side && m.total_no + amount > u64::MAX {
        Some(ErrorCode::Overflow)
    } else {
        None
    }
}

/// The market as it stands after `amount` lands on `side`.
pub open spec fn market_after_stake(m: Market, side: bool, amount: u64) -> Market {
    if side {
        Market { total_yes: (m.total_yes + amount) as u64, ..m }
    } else {
        Market { total_no: (m.total_no + amount) as u64, ..m }
    }
}

/// Runs the staking checks of [`place_check`].
pub fn place_check_exec(m: &Market, b: &Bet, side: bool, amount: u64, now: i64) -> (r: Option<
    ErrorCode,
>)
    ensures
        r == place_check(*m, *b, side, amount, now),
{
    if m.resolved {
        Some(ErrorCode::MarketAlreadyResolved)
    } else if m.cancelled {
        Some(ErrorCode::MarketCancelled)
    } else if now >= m.end_time {
        Some(ErrorCode::MarketClosed)
    } else if amount == 0 {
        Some(ErrorCode::InvalidBetAmount)
    } else if b.initialized {
        Some(ErrorCode::DuplicateBet)
    } else if side && m.total_yes > u64::MAX - amount {
        Some(ErrorCode::Overflow)
    } else if !side && m.total_no > u64::MAX - amount {
        Some(ErrorCode::Overflow)
    } else {
        None
    }
}

/// Places a stake: `amount` moves from the user into escrow (the caller
/// executes that transfer as part of the same atomic unit), the bet record
/// is written, and the market's side total grows by checked addition.
///
/// `bet` is the record at the (market, user) key; a request against an
/// initialized record fails `DuplicateBet`, so a user holds at most one
/// bet per market. On any error both records are left untouched.
pub fn place_bet(
    market: &mut Market,
    bet: &mut Bet,
    side: bool,
    amount: u64,
    user: u64,
    now: i64,
) -> (r: Result<BetPlaced, ErrorCode>)
    ensures
        match place_check(*old(market), *old(bet), side, amount, now) {
            Some(e) => r == Err::<BetPlaced, ErrorCode>(e) && *final(market) == *old(market)
                && *final(bet) == *old(bet),
            None => r == Ok::<BetPlaced, ErrorCode>(
                (BetPlaced { market: old(market).address, user, side, amount, timestamp: now }),
            ) && *final(market) == market_after_stake(*old(market), side, amount) && *final(bet)
                == (Bet {
                user,
                market: old(market).address,
                side,
                amount,
                claimed: false,
                initialized: true,
            }),
        },
        (r is Ok ==> final(bet).wf()),
{
    match place_check_exec(market, bet, side, amount, now) {
        Some(e) => {
            return Err(e);
        },
        None => {},
    }
    if side {
        market.total_yes = market.total_yes + amount;
    } else {
        market.total_no = market.total_no + amount;
    }
    bet.user = user;
    bet.market = market.address;
    bet.side = side;
    bet.amount = amount;
    bet.claimed = false;
    bet.initialized = true;
    Ok(BetPlaced { market: market.address, user, side, amount, timestamp: now })
}

/// Validation of a refund request, in the order the checks are made.
pub open spec fn refund_check(m: Market, b: Bet, user: u64, escrow_balance: u64) -> Option<
    ErrorCode,
> {
    if !m.cancelled {
        Some(ErrorCode::MarketNotCancelled)
    } else if b.claimed {
        Some(ErrorCode::AlreadyClaimed)
    } else if b.user != user {
        Some(ErrorCode::NotYourBet)
    } else if b.market != m.address {
        Some(ErrorCode::InvalidMarket)
    } else if escrow_balance < b.amount {
        Some(ErrorCode::InsufficientEscrowBalance)
    } else {
        None
    }
}

/// Refunds a stake from a cancelled market. The `claimed` flag is
/// committed before the outbound transfer intent is handed back, so a
/// re-entrant second request observes `claimed` and fails; a second
/// request always fails `AlreadyClaimed`.
pub fn refund_bet(
    market: &Market,
    bet: &mut Bet,
    user: u64,
    escrow_balance: u64,
    now: i64,
) -> (r: Result<(BetRefunded, Transfer), ErrorCode>)
    ensures
        match refund_check(*market, *old(bet), user, escrow_balance) {
            Some(e) => r == Err::<(BetRefunded, Transfer), ErrorCode>(e) && *final(bet) == *old(
                bet,
            ),
            None => r == Ok::<(BetRefunded, Transfer), ErrorCode>(
                (
                    (BetRefunded {
                        market: market.address,
                        user,
                        amount: old(bet).amount,
                        timestamp: now,
                    }),
                    (Transfer { from: market.escrow, to: user, amount: old(bet).amount }),
                ),
            ) && *final(bet) == (Bet { claimed: true, ..*old(bet) }),
        },
        (old(bet).claimed ==> r == Err::<(BetRefunded, Transfer), ErrorCode>(
            ErrorCode::AlreadyClaimed,
        ) || r == Err::<(BetRefunded, Transfer), ErrorCode>(ErrorCode::MarketNotCancelled)),
        (r is Ok ==> final(bet).claimed),
{
    if !market.cancelled {
        return Err(ErrorCode::MarketNotCancelled);
    }
    if bet.claimed {
        return Err(ErrorCode::AlreadyClaimed);
    }
    if bet.user != user {
        return Err(ErrorCode::NotYourBet);
    }
    if bet.market != market.address {
        return Err(ErrorCode::InvalidMarket);
    }
    if escrow_balance < bet.amount {
        return Err(ErrorCode::InsufficientEscrowBalance);
    }
    bet.claimed = true;
    let event = BetRefunded { market: market.address, user, amount: bet.amount, timestamp: now };
    let transfer = Transfer { from: market.escrow, to: user, amount: bet.amount };
    Ok((event, transfer))
}

} // verus!
