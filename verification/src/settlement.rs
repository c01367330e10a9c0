//! Pure settlement arithmetic and the claim operation.
//!
//! A winning bet is paid its pro-rata share of the whole pool: `gross =
//! floor(amount * pool / total_winning)`, widened so the multiplication
//! cannot overflow. A fixed 100 basis-point fee is carved out of the
//! gross (50 bps to the creator, 50 bps to the treasury), independently
//! of the informational `fee_bps` a market stores. All division is
//! truncating, so residual dust stays in escrow.

use vstd::prelude::*;
use vstd::arithmetic::div_mod::{lemma_div_is_ordered, lemma_div_multiples_vanish,
    lemma_div_pos_is_pos, lemma_fundamental_div_mod, lemma_mod_bound};
use vstd::arithmetic::mul::{lemma_mul_inequality, lemma_mul_is_commutative};

use crate::bet::Bet;
use crate::custody::Transfer;
use crate::errors::ErrorCode;
use crate::events::Claimed;
use crate::market::Market;

verus! {

/// Fee taken from every gross payout, in basis points.
pub const TOTAL_FEE_BPS: u64 = 100;

/// Share of the fee paid to the market creator, in basis points.
pub const CREATOR_FEE_BPS: u64 = 50;

/// Share of the fee paid to the treasury, in basis points.
pub const TREASURY_FEE_BPS: u64 = 50;

/// The gross payout of a winning stake: its pro-rata share of the pool,
/// rounded down.
pub open spec fn spec_gross(amount: int, pool: int, winning: int) -> int
    recommends
        winning > 0,
{
    amount * pool / winning
}

/// A fee of `fee_bps` basis points on `gross`, rounded down.
pub open spec fn spec_fee(gross: int, fee_bps: int) -> int {
    gross * fee_bps / 10000
}

/// What a winner actually receives: the gross minus the total fee.
pub open spec fn spec_net(gross: int) -> int {
    gross - spec_fee(gross, TOTAL_FEE_BPS as int)
}

/// A fee of at most 10000 basis points never exceeds the gross it is
/// taken from, and is never negative.
pub proof fn lemma_fee_within_gross(gross: int, fee_bps: int)
    requires
        gross >= 0,
        0 <= fee_bps <= 10000,
    ensures
        0 <= spec_fee(gross, fee_bps) <= gross,
{
    lemma_mul_inequality(fee_bps, 10000, gross);
    lemma_mul_is_commutative(fee_bps, gross);
    lemma_mul_is_commutative(10000, gross);
    lemma_div_is_ordered(gross * fee_bps, gross * 10000, 10000);
    lemma_mul_is_commutative(gross, 10000);
    lemma_div_multiples_vanish(gross, 10000);
    vstd::arithmetic::mul::lemma_mul_nonnegative(gross, fee_bps);
    lemma_div_pos_is_pos(gross * fee_bps, 10000);
}

/// A smaller fee rate never yields a larger fee.
pub proof fn lemma_fee_monotone(gross: int, bps_lo: int, bps_hi: int)
    requires
        gross >= 0,
        0 <= bps_lo <= bps_hi,
    ensures
        spec_fee(gross, bps_lo) <= spec_fee(gross, bps_hi),
{
    lemma_mul_inequality(bps_lo, bps_hi, gross);
    lemma_mul_is_commutative(bps_lo, gross);
    lemma_mul_is_commutative(bps_hi, gross);
    lemma_div_is_ordered(gross * bps_lo, gross * bps_hi, 10000);
}

/// Truncating division distributes over a sum only with a loss: the sum
/// of two quotients never exceeds the quotient of the sum.
pub proof fn lemma_div_sum_le(a: int, b: int, d: int)
    requires
        a >= 0,
        b >= 0,
        d > 0,
    ensures
        a / d + b / d <= (a + b) / d,
{
    lemma_fundamental_div_mod(a, d);
    lemma_fundamental_div_mod(b, d);
    lemma_mod_bound(a, d);
    lemma_mod_bound(b, d);
    let q = a / d + b / d;
    assert(a + b == d * q + (a % d + b % d)) by {
        assert(d * q == d * (a / d) + d * (b / d)) by {
            vstd::arithmetic::mul::lemma_mul_is_distributive_add(d, a / d, b / d);
        }
    }
    assert(d * q <= a + b);
    lemma_div_is_ordered(d * q, a + b, d);
    lemma_div_multiples_vanish(q, d);
}

/// The two fee halves together never exceed the total fee, so what flows
/// out of escrow for one claim never exceeds the gross payout.
pub proof fn lemma_fee_split_within_total(gross: int)
    requires
        gross >= 0,
    ensures
        spec_fee(gross, CREATOR_FEE_BPS as int) + spec_fee(gross, TREASURY_FEE_BPS as int)
            <= spec_fee(gross, TOTAL_FEE_BPS as int),
        spec_net(gross) + spec_fee(gross, CREATOR_FEE_BPS as int) + spec_fee(
            gross,
            TREASURY_FEE_BPS as int,
        ) <= gross,
{
    lemma_div_sum_le(gross * 50, gross * 50, 10000);
    assert(gross * 50 + gross * 50 == gross * 100) by {
        vstd::arithmetic::mul::lemma_mul_is_distributive_add(gross, 50, 50);
        lemma_mul_is_commutative(gross, 50);
        lemma_mul_is_commutative(gross, 100);
    }
}

/// A stake no larger than the winning total is paid at most the whole
/// pool: the pro-rata share cannot be inflated past what escrow holds.
pub proof fn lemma_gross_le_pool(amount: int, pool: int, winning: int)
    requires
        0 < winning,
        0 <= amount <= winning,
        0 <= pool,
    ensures
        0 <= spec_gross(amount, pool, winning) <= pool,
{
    lemma_mul_inequality(amount, winning, pool);
    lemma_div_is_ordered(amount * pool, winning * pool, winning);
    lemma_mul_is_commutative(winning, pool);
    lemma_div_multiples_vanish(pool, winning);
    vstd::arithmetic::mul::lemma_mul_nonnegative(amount, pool);
    lemma_div_pos_is_pos(amount * pool, winning);
}

/// The settlement of one winning claim.
#[derive(Clone, Copy, Debug, PartialEq, Eq, Structural)]
pub struct Payout {
    /// Pro-rata share of the pool before fees.
    pub gross: u64,
    /// Total fee carved out of the gross.
    pub fee_total: u64,
    /// Fee share owed to the market creator.
    pub fee_creator: u64,
    /// Fee share owed to the treasury.
    pub fee_treasury: u64,
    /// What the winner receives: gross minus total fee.
    pub net: u64,
}

/// The exact result of [`compute_payout`]: `Overflow` when the pool does
/// not fit a `u64` or the gross payout does not, `NoWinners` when the
/// winning side holds no stake, and the settlement amounts otherwise.
pub open spec fn payout_result(amount: u64, total_yes: u64, total_no: u64, outcome: bool) -> Result<
    Payout,
    ErrorCode,
> {
    let pool = total_yes + total_no;
    let winning: int = if outcome {
        total_yes as int
    } else {
        total_no as int
    };
    if pool > u64::MAX {
        Err(ErrorCode::Overflow)
    } else if winning == 0 {
        Err(ErrorCode::NoWinners)
    } else if spec_gross(amount as int, pool, winning) > u64::MAX {
        Err(ErrorCode::Overflow)
    } else {
        let gross = spec_gross(amount as int, pool, winning);
        Ok(
            (Payout {
                gross: gross as u64,
                fee_total: spec_fee(gross, TOTAL_FEE_BPS as int) as u64,
                fee_creator: spec_fee(gross, CREATOR_FEE_BPS as int) as u64,
                fee_treasury: spec_fee(gross, TREASURY_FEE_BPS as int) as u64,
                net: spec_net(gross) as u64,
            }),
        )
    }
}

/// Computes the settlement of a winning stake of `amount` against the
/// side totals, every step overflow-checked: the pool by checked
/// addition, the pro-rata share in widened arithmetic with a checked
/// narrowing, and the subtraction for the net proved never to underflow.
pub fn compute_payout(amount: u64, total_yes: u64, total_no: u64, outcome: bool) -> (r: Result<
    Payout,
    ErrorCode,
>)
    ensures
        r == payout_result(amount, total_yes, total_no, outcome),
{
    let total_winning: u64 = if outcome {
        total_yes
    } else {
        total_no
    };
    let total_pool: u64 = match total_yes.checked_add(total_no) {
        Some(p) => p,
        None => {
            return Err(ErrorCode::Overflow);
        },
    };
    if total_winning == 0 {
        return Err(ErrorCode::NoWinners);
    }
    proof {
        assert((amount as int) * (total_pool as int) <= (u64::MAX as int) * (u64::MAX as int))
            by (nonlinear_arith)
            requires
                0 <= amount as int <= u64::MAX as int,
                0 <= total_pool as int <= u64::MAX as int,
        ;
    }
    let wide: u128 = (amount as u128) * (total_pool as u128);
    let gross_wide: u128 = wide / (total_winning as u128);
    if gross_wide > u64::MAX as u128 {
        return Err(ErrorCode::Overflow);
    }
    let gross: u64 = gross_wide as u64;
    proof {
        lemma_fee_within_gross(gross as int, TOTAL_FEE_BPS as int);
        lemma_fee_within_gross(gross as int, CREATOR_FEE_BPS as int);
        lemma_fee_within_gross(gross as int, TREASURY_FEE_BPS as int);
    }
    let fee_total: u64 = ((gross as u128) * (TOTAL_FEE_BPS as u128) / 10000) as u64;
    let fee_creator: u64 = ((gross as u128) * (CREATOR_FEE_BPS as u128) / 10000) as u64;
    let fee_treasury: u64 = ((gross as u128) * (TREASURY_FEE_BPS as u128) / 10000) as u64;
    let net: u64 = gross - fee_total;
    Ok(Payout { gross, fee_total, fee_creator, fee_treasury, net })
}

/// Validation of a claim, in the order the checks are made. A losing bet
/// passes validation (it claims a payout of zero); a winning one is also
/// gated by the settlement arithmetic and the escrow balance.
pub open spec fn claim_check(m: Market, b: Bet, user: u64, escrow_balance: u64) -> Option<
    ErrorCode,
> {
    if !m.resolved {
        Some(ErrorCode::MarketStillOpen)
    } else if b.claimed {
        Some(ErrorCode::AlreadyClaimed)
    } else if b.user != user {
        Some(ErrorCode::NotYourBet)
    } else if b.market != m.address {
        Some(ErrorCode::InvalidMarket)
    } else {
        match m.outcome {
            None => Some(ErrorCode::MarketStillOpen),
            Some(outcome) => {
                if b.side != outcome {
                    None
                } else {
                    match payout_result(b.amount, m.total_yes, m.total_no, outcome) {
                        Err(e) => Some(e),
                        Ok(p) => if escrow_balance < p.net {
                            Some(ErrorCode::InsufficientEscrowBalance)
                        } else {
                            None
                        },
                    }
                }
            },
        }
    }
}

/// The transfer intents issued for one winning claim: the net payout to
/// the user, then each non-zero fee share.
pub open spec fn claim_transfers(m: Market, user: u64, treasury: u64, p: Payout) -> Seq<Transfer> {
    let base = seq![(Transfer { from: m.escrow, to: user, amount: p.net })];
    let with_creator = if p.fee_creator > 0 {
        base.push(Transfer { from: m.escrow, to: m.creator, amount: p.fee_creator })
    } else {
        base
    };
    if p.fee_treasury > 0 {
        with_creator.push(Transfer { from: m.escrow, to: treasury, amount: p.fee_treasury })
    } else {
        with_creator
    }
}

/// Claims a resolved bet. A losing bet forfeits its stake and is marked
/// claimed with a zero payout and no transfers; a winning bet is settled
/// by [`compute_payout`] and paid from escrow. The `claimed` flag is
/// committed before the transfer intents are handed back, so a re-entrant
/// second request observes `claimed` and fails; a second claim always
/// fails `AlreadyClaimed`. On any error the bet is left untouched.
pub fn claim_winnings(
    market: &Market,
    bet: &mut Bet,
    user: u64,
    treasury: u64,
    escrow_balance: u64,
    now: i64,
) -> (r: Result<(Claimed, Vec<Transfer>), ErrorCode>)
    ensures
        match claim_check(*market, *old(bet), user, escrow_balance) {
            Some(e) => r == Err::<(Claimed, Vec<Transfer>), ErrorCode>(e) && *final(bet) == *old(
                bet,
            ),
            None => (match r {
                Ok((ev, txs)) => {
                    &&& *final(bet) == (Bet { claimed: true, ..*old(bet) })
                    &&& (match market.outcome {
                        Some(outcome) => {
                            if old(bet).side != outcome {
                                &&& ev == (Claimed {
                                    market: market.address,
                                    user,
                                    amount: 0,
                                    creator_fee: 0,
                                    treasury_fee: 0,
                                    timestamp: now,
                                })
                                &&& txs@ == Seq::<Transfer>::empty()
                            } else {
                                match payout_result(
                                    old(bet).amount,
                                    market.total_yes,
                                    market.total_no,
                                    outcome,
                                ) {
                                    Ok(p) => {
                                        &&& ev == (Claimed {
                                            market: market.address,
                                            user,
                                            amount: p.net,
                                            creator_fee: p.fee_creator,
                                            treasury_fee: p.fee_treasury,
                                            timestamp: now,
                                        })
                                        &&& txs@ == claim_transfers(*market, user, treasury, p)
                                    },
                                    Err(_) => false,
                                }
                            }
                        },
                        None => false,
                    })
                },
                Err(_) => false,
            }),
        },
        (old(bet).claimed ==> r == Err::<(Claimed, Vec<Transfer>), ErrorCode>(
            ErrorCode::AlreadyClaimed,
        ) || r == Err::<(Claimed, Vec<Transfer>), ErrorCode>(ErrorCode::MarketStillOpen)),
        (r is Ok ==> final(bet).claimed),
{
    if !market.resolved {
        return Err(ErrorCode::MarketStillOpen);
    }
    if bet.claimed {
        return Err(ErrorCode::AlreadyClaimed);
    }
    if bet.user != user {
        return Err(ErrorCode::NotYourBet);
    }
    if bet.market != market.address {
        return Err(ErrorCode::InvalidMarket);
    }
    let outcome = match market.outcome {
        Some(o) => o,
        None => {
            return Err(ErrorCode::MarketStillOpen);
        },
    };
    if bet.side != outcome {
        bet.claimed = true;
        let txs: Vec<Transfer> = Vec::new();
        let ev = Claimed {
            market: market.address,
            user,
            amount: 0,
            creator_fee: 0,
            treasury_fee: 0,
            timestamp: now,
        };
        return Ok((ev, txs));
    }
    let p = match compute_payout(bet.amount, market.total_yes, market.total_no, outcome) {
        Ok(p) => p,
        Err(e) => {
            return Err(e);
        },
    };
    if escrow_balance < p.net {
        return Err(ErrorCode::InsufficientEscrowBalance);
    }
    bet.claimed = true;
    let mut txs: Vec<Transfer> = Vec::new();
    txs.push(Transfer { from: market.escrow, to: user, amount: p.net });
    proof {
        lemma_fee_monotone(p.gross as int, CREATOR_FEE_BPS as int, TOTAL_FEE_BPS as int);
        lemma_fee_monotone(p.gross as int, TREASURY_FEE_BPS as int, TOTAL_FEE_BPS as int);
        lemma_fee_within_gross(p.gross as int, CREATOR_FEE_BPS as int);
        lemma_fee_within_gross(p.gross as int, TREASURY_FEE_BPS as int);
    }
    if p.fee_total > 0 {
        if p.fee_creator > 0 {
            txs.push(Transfer { from: market.escrow, to: market.creator, amount: p.fee_creator });
        }
        if p.fee_treasury > 0 {
            txs.push(Transfer { from: market.escrow, to: treasury, amount: p.fee_treasury });
        }
    }
    proof {
        assert(txs@ =~= claim_transfers(*market, user, treasury, p));
    }
    let ev = Claimed {
        market: market.address,
        user,
        amount: p.net,
        creator_fee: p.fee_creator,
        treasury_fee: p.fee_treasury,
        timestamp: now,
    };
    Ok((ev, txs))
}

} // verus!
