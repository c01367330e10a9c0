//! The engine's global guarantees, stated and proved over the ledger
//! model and the settlement arithmetic.
//!
//! Each proof function here is part of the library's stated behaviour:
//! together with the operations' own contracts they pin down the single
//! bet per (market, user) pair, the conservation of stake totals, the
//! impossibility of a double payout, the exclusivity of the terminal
//! states, and the bound of the pool over all outstanding obligations.

use vstd::prelude::*;
use vstd::arithmetic::div_mod::lemma_div_multiples_vanish;
use vstd::arithmetic::mul::{lemma_mul_is_commutative, lemma_mul_is_distributive_add};

use crate::bet::{Bet, bet_matches, lemma_side_sum_nonneg, lemma_stake_le_side_sum, place_check,
    refund_check, side_sum};
use crate::errors::ErrorCode;
use crate::ledger::Ledger;
use crate::market::{Market, cancel_check};
use crate::settlement::{claim_check, lemma_div_sum_le, lemma_fee_split_within_total, spec_fee,
    spec_gross, spec_net, CREATOR_FEE_BPS, TREASURY_FEE_BPS};

verus! {

/// Single bet per user: in a well-formed ledger, two bet records for the
/// same (market, user) pair are the same record.
pub proof fn lemma_at_most_one_bet(l: Ledger, market_id: u64, user: u64, j: int, k: int)
    requires
        l.wf(),
        0 <= j < l.bets@.len(),
        0 <= k < l.bets@.len(),
        bet_matches(l.bets@[j], market_id, user),
        bet_matches(l.bets@[k], market_id, user),
    ensures
        j == k,
{
}

/// A repeated bet is always refused as a duplicate: once a record exists
/// for the pair, a second staking request on an open market before the
/// cutoff fails exactly with `DuplicateBet`, whatever side or amount it
/// asks for.
pub proof fn lemma_duplicate_bet_refused(
    l: Ledger,
    market_id: u64,
    user: u64,
    side: bool,
    amount: u64,
    now: i64,
)
    requires
        l.wf(),
        market_id < l.markets@.len(),
        l.spec_has_bet(market_id, user),
        !l.markets@[market_id as int].resolved,
        !l.markets@[market_id as int].cancelled,
        now < l.markets@[market_id as int].end_time,
        amount > 0,
    ensures
        place_check(l.markets@[market_id as int], l.spec_bet(market_id, user), side, amount, now)
            == Some(ErrorCode::DuplicateBet),
{
    let j = l.spec_bet_index(market_id, user);
    assert(0 <= j < l.bets@.len() && bet_matches(l.bets@[j], market_id, user));
}

/// Conservation of the counters: each market's side totals are exactly
/// the sums of the stakes placed on its two sides.
pub proof fn lemma_conservation(l: Ledger, i: int)
    requires
        l.wf(),
        0 <= i < l.markets@.len(),
    ensures
        l.markets@[i].total_yes == side_sum(l.bets@, i as u64, true),
        l.markets@[i].total_no == side_sum(l.bets@, i as u64, false),
{
}

/// No double payout: a bet whose `claimed` flag is set is refused by
/// every later claim and refund, with `AlreadyClaimed` whenever the
/// market's terminal state lets the request get that far.
pub proof fn lemma_no_double_payout(m: Market, b: Bet, user: u64, escrow_balance: u64)
    requires
        b.claimed,
    ensures
        claim_check(m, b, user, escrow_balance) is Some,
        refund_check(m, b, user, escrow_balance) is Some,
        m.resolved ==> claim_check(m, b, user, escrow_balance) == Some(ErrorCode::AlreadyClaimed),
        m.cancelled ==> refund_check(m, b, user, escrow_balance) == Some(
            ErrorCode::AlreadyClaimed,
        ),
{
}

/// Exclusive terminal states: no well-formed market is both resolved and
/// cancelled.
pub proof fn lemma_terminal_states_exclusive(l: Ledger, i: int)
    requires
        l.wf(),
        0 <= i < l.markets@.len(),
    ensures
        !(l.markets@[i].resolved && l.markets@[i].cancelled),
{
}

/// The cancellation gate: once any bet exists on a market, cancellation
/// fails for every caller at every time; when the only obstacle is the
/// stake itself, it fails exactly with `CannotCancelWithBets`.
pub proof fn lemma_cancel_blocked_by_bets(l: Ledger, market_id: u64, j: int)
    requires
        l.wf(),
        market_id < l.markets@.len(),
        0 <= j < l.bets@.len(),
        l.bets@[j].market == market_id,
    ensures
        forall|caller: u64, now: i64|
            cancel_check(l.markets@[market_id as int], caller, now) is Some,
        forall|caller: u64, now: i64|
            (!l.markets@[market_id as int].resolved && !l.markets@[market_id as int].cancelled
                && now < l.markets@[market_id as int].end_time && caller == l.markets@[market_id
                as int].creator) ==> cancel_check(l.markets@[market_id as int], caller, now)
                == Some(ErrorCode::CannotCancelWithBets),
{
    lemma_stake_le_side_sum(l.bets@, j, market_id, l.bets@[j].side);
    if l.bets@[j].side {
        assert(l.markets@[market_id as int].total_yes > 0);
    } else {
        assert(l.markets@[market_id as int].total_no > 0);
    }
}

/// The gross payout owed to one live record, as a summand: zero for a
/// record of another market, of the losing side, or already claimed.
pub open spec fn obligation_of(b: Bet, market_id: u64, outcome: bool, pool: int, winning: int) -> int {
    if b.market == market_id && b.side == outcome && !b.claimed {
        spec_gross(b.amount as int, pool, winning)
    } else {
        0
    }
}

/// The total gross payout still owed to the winning side of a market.
pub open spec fn unclaimed_gross_sum(
    bets: Seq<Bet>,
    market_id: u64,
    outcome: bool,
    pool: int,
    winning: int,
) -> int
    decreases bets.len(),
{
    if bets.len() == 0 {
        0
    } else {
        unclaimed_gross_sum(bets.drop_last(), market_id, outcome, pool, winning) + obligation_of(
            bets.last(),
            market_id,
            outcome,
            pool,
            winning,
        )
    }
}

/// The outstanding obligations never exceed the winning side's stake sum,
/// scaled pro rata: summing the floored shares loses against flooring the
/// summed share.
pub proof fn lemma_obligations_le_scaled_sum(
    bets: Seq<Bet>,
    market_id: u64,
    outcome: bool,
    pool: int,
    winning: int,
)
    requires
        pool >= 0,
        winning > 0,
    ensures
        unclaimed_gross_sum(bets, market_id, outcome, pool, winning) <= spec_gross(
            side_sum(bets, market_id, outcome),
            pool,
            winning,
        ),
    decreases bets.len(),
{
    if bets.len() == 0 {
        vstd::arithmetic::div_mod::lemma_div_basics(winning);
    } else {
        let rest = bets.drop_last();
        let b = bets.last();
        let s_rest = side_sum(rest, market_id, outcome);
        let s_all = side_sum(bets, market_id, outcome);
        lemma_obligations_le_scaled_sum(rest, market_id, outcome, pool, winning);
        lemma_side_sum_nonneg(rest, market_id, outcome);
        if b.market == market_id && b.side == outcome {
            let a = b.amount as int;
            assert(s_all == s_rest + a);
            assert((s_rest + a) * pool == s_rest * pool + a * pool) by {
                lemma_mul_is_commutative(s_rest + a, pool);
                lemma_mul_is_distributive_add(pool, s_rest, a);
                lemma_mul_is_commutative(s_rest, pool);
                lemma_mul_is_commutative(a, pool);
            }
            vstd::arithmetic::mul::lemma_mul_nonnegative(s_rest, pool);
            vstd::arithmetic::mul::lemma_mul_nonnegative(a, pool);
            lemma_div_sum_le(s_rest * pool, a * pool, winning);
            if b.claimed {
                vstd::arithmetic::div_mod::lemma_div_pos_is_pos(a * pool, winning);
            }
        } else {
            assert(s_all == s_rest);
        }
    }
}

/// Marking one record claimed removes exactly its own obligation from the
/// outstanding total.
pub proof fn lemma_obligations_after_claim(
    bets: Seq<Bet>,
    j: int,
    market_id: u64,
    outcome: bool,
    pool: int,
    winning: int,
)
    requires
        0 <= j < bets.len(),
    ensures
        unclaimed_gross_sum(
            bets.update(j, (Bet { claimed: true, ..bets[j] })),
            market_id,
            outcome,
            pool,
            winning,
        ) == unclaimed_gross_sum(bets, market_id, outcome, pool, winning) - obligation_of(
            bets[j],
            market_id,
            outcome,
            pool,
            winning,
        ),
    decreases bets.len(),
{
    let b2 = Bet { claimed: true, ..bets[j] };
    if j == bets.len() - 1 {
        assert(bets.update(j, b2).drop_last() =~= bets.drop_last());
        assert(bets.update(j, b2).last() == b2);
    } else {
        assert(bets.update(j, b2).drop_last() =~= bets.drop_last().update(j, b2));
        assert(bets.update(j, b2).last() == bets.last());
        lemma_obligations_after_claim(bets.drop_last(), j, market_id, outcome, pool, winning);
    }
}

/// Escrow coverage survives each claim: when the escrow covers all
/// outstanding obligations of the winning side and one live winning bet
/// is claimed, the balance left after that claim's whole outflow (net
/// payout plus both fee shares) still covers the remaining obligations.
pub proof fn lemma_claim_preserves_escrow_cover(
    bets: Seq<Bet>,
    j: int,
    market_id: u64,
    outcome: bool,
    pool: int,
    winning: int,
    escrow_balance: int,
)
    requires
        0 <= j < bets.len(),
        bets[j].market == market_id,
        bets[j].side == outcome,
        !bets[j].claimed,
        pool >= 0,
        winning > 0,
        escrow_balance >= unclaimed_gross_sum(bets, market_id, outcome, pool, winning),
    ensures
        ({
            let gross = spec_gross(bets[j].amount as int, pool, winning);
            escrow_balance - (spec_net(gross) + spec_fee(gross, CREATOR_FEE_BPS as int)
                + spec_fee(gross, TREASURY_FEE_BPS as int)) >= unclaimed_gross_sum(
                bets.update(j, (Bet { claimed: true, ..bets[j] })),
                market_id,
                outcome,
                pool,
                winning,
            )
        }),
{
    let gross = spec_gross(bets[j].amount as int, pool, winning);
    lemma_obligations_after_claim(bets, j, market_id, outcome, pool, winning);
    vstd::arithmetic::mul::lemma_mul_nonnegative(bets[j].amount as int, pool);
    vstd::arithmetic::div_mod::lemma_div_pos_is_pos(bets[j].amount as int * pool, winning);
    lemma_fee_split_within_total(gross);
}

/// Conservation of escrow: on a resolved market whose winning side holds
/// stake, the whole pool covers every unclaimed winning bet's gross
/// payout, and hence (each claim paying out at most its gross, see
/// [`crate::settlement::lemma_fee_split_within_total`]) the escrow that
/// collected the pool covers all outstanding obligations.
pub proof fn lemma_pool_covers_obligations(l: Ledger, market_id: u64, outcome: bool)
    requires
        l.wf(),
        market_id < l.markets@.len(),
        l.markets@[market_id as int].outcome == Some(outcome),
        (if outcome {
            l.markets@[market_id as int].total_yes
        } else {
            l.markets@[market_id as int].total_no
        }) > 0,
    ensures
        unclaimed_gross_sum(
            l.bets@,
            market_id,
            outcome,
            l.markets@[market_id as int].total_yes + l.markets@[market_id as int].total_no,
            if outcome {
                l.markets@[market_id as int].total_yes as int
            } else {
                l.markets@[market_id as int].total_no as int
            },
        ) <= l.markets@[market_id as int].total_yes + l.markets@[market_id as int].total_no,
{
    let m = l.markets@[market_id as int];
    let pool = m.total_yes + m.total_no;
    let winning: int = if outcome {
        m.total_yes as int
    } else {
        m.total_no as int
    };
    lemma_obligations_le_scaled_sum(l.bets@, market_id, outcome, pool, winning);
    assert(side_sum(l.bets@, market_id, outcome) == winning);
    assert(spec_gross(winning, pool, winning) == pool) by {
        lemma_mul_is_commutative(winning, pool);
        lemma_div_multiples_vanish(pool, winning);
    }
}

} // verus!
