//! Payout arithmetic and the claim path.

use prediction_market::custody::Transfer;
use prediction_market::errors::ErrorCode;
use prediction_market::ledger::Ledger;
use prediction_market::settlement::{compute_payout, Payout};

const CREATOR: u64 = 11;
const TREASURY: u64 = 12;
const ALICE: u64 = 31;
const BOB: u64 = 32;
const CAROL: u64 = 33;
const ESCROW: u64 = 900;
const END: i64 = 1_000_000;
const DEADLINE: i64 = END + 600;

fn resolved_market(outcome: bool) -> (Ledger, u64) {
    // total_yes = 300 (Alice 100, Bob 200), total_no = 700 (Carol)
    let mut l = Ledger::new();
    let ev = l
        .create_market(String::from("Will it rain tomorrow?"), END, 255, 500, 10, 100, CREATOR, ESCROW)
        .unwrap();
    let id = ev.market;
    l.place_bet(id, ALICE, true, 100, 200).unwrap();
    l.place_bet(id, BOB, true, 200, 201).unwrap();
    l.place_bet(id, CAROL, false, 700, 202).unwrap();
    l.resolve_market(id, CREATOR, outcome, DEADLINE).unwrap();
    (l, id)
}

#[test]
fn compute_payout_matches_the_worked_example() {
    // gross = floor(100 * 1000 / 300) = 333; fee = floor(333 * 100 / 10000) = 3
    assert_eq!(
        compute_payout(100, 300, 700, true),
        Ok(Payout { gross: 333, fee_total: 3, fee_creator: 1, fee_treasury: 1, net: 330 })
    );
}

#[test]
fn compute_payout_reports_no_winners_and_pool_overflow() {
    assert_eq!(compute_payout(5, 0, 700, true), Err(ErrorCode::NoWinners));
    assert_eq!(compute_payout(5, 300, 0, false), Err(ErrorCode::NoWinners));
    assert_eq!(compute_payout(5, u64::MAX, 1, true), Err(ErrorCode::Overflow));
}

#[test]
fn winning_claim_pays_pro_rata_minus_fixed_fee() {
    let (mut l, id) = resolved_market(true);
    let (ev, txs) = l.claim_winnings(id, ALICE, TREASURY, 1000, DEADLINE + 1).unwrap();
    assert_eq!(ev.market, id);
    assert_eq!(ev.user, ALICE);
    assert_eq!(ev.amount, 330);
    assert_eq!(ev.creator_fee, 1);
    assert_eq!(ev.treasury_fee, 1);
    assert_eq!(ev.timestamp, DEADLINE + 1);
    assert_eq!(
        txs,
        vec![
            Transfer { from: ESCROW, to: ALICE, amount: 330 },
            Transfer { from: ESCROW, to: CREATOR, amount: 1 },
            Transfer { from: ESCROW, to: TREASURY, amount: 1 },
        ]
    );
    assert!(l.bet_record(id, ALICE).unwrap().claimed);
    // totals are untouched by claims
    assert_eq!(l.market(id).total_yes, 300);
    assert_eq!(l.market(id).total_no, 700);
}

#[test]
fn losing_claim_forfeits_with_zero_payout() {
    let (mut l, id) = resolved_market(true);
    let (ev, txs) = l.claim_winnings(id, CAROL, TREASURY, 1000, DEADLINE + 1).unwrap();
    assert_eq!(ev.amount, 0);
    assert_eq!(ev.creator_fee, 0);
    assert_eq!(ev.treasury_fee, 0);
    assert!(txs.is_empty());
    assert!(l.bet_record(id, CAROL).unwrap().claimed);
}

#[test]
fn second_claim_fails_already_claimed() {
    let (mut l, id) = resolved_market(true);
    l.claim_winnings(id, ALICE, TREASURY, 1000, DEADLINE + 1).unwrap();
    assert_eq!(
        l.claim_winnings(id, ALICE, TREASURY, 1000, DEADLINE + 2),
        Err(ErrorCode::AlreadyClaimed)
    );
    // a losing claim is no different: claimed is terminal
    l.claim_winnings(id, CAROL, TREASURY, 1000, DEADLINE + 3).unwrap();
    assert_eq!(
        l.claim_winnings(id, CAROL, TREASURY, 1000, DEADLINE + 4),
        Err(ErrorCode::AlreadyClaimed)
    );
}

#[test]
fn claim_requires_resolution_and_escrow_cover() {
    let mut l = Ledger::new();
    let id = l
        .create_market(String::from("q"), END, 0, 0, 10, 100, CREATOR, ESCROW)
        .unwrap()
        .market;
    l.place_bet(id, ALICE, true, 100, 200).unwrap();
    assert_eq!(
        l.claim_winnings(id, ALICE, TREASURY, 1000, 300),
        Err(ErrorCode::MarketStillOpen)
    );
    l.resolve_market(id, CREATOR, true, DEADLINE).unwrap();
    // gross = 100 * 100 / 100 = 100, fee 1, net 99
    assert_eq!(
        l.claim_winnings(id, ALICE, TREASURY, 98, DEADLINE + 1),
        Err(ErrorCode::InsufficientEscrowBalance)
    );
    let (ev, txs) = l.claim_winnings(id, ALICE, TREASURY, 99, DEADLINE + 1).unwrap();
    assert_eq!(ev.amount, 99);
    assert_eq!(
        txs,
        vec![
            Transfer { from: ESCROW, to: ALICE, amount: 99 },
            // the 1-unit fee rounds to zero per half, so no fee transfers
        ]
    );
    assert_eq!(ev.creator_fee, 0);
    assert_eq!(ev.treasury_fee, 0);
}

#[test]
fn small_gross_carries_no_fee_transfers() {
    let mut l = Ledger::new();
    let id = l
        .create_market(String::from("q"), END, 0, 0, 10, 100, CREATOR, ESCROW)
        .unwrap()
        .market;
    l.place_bet(id, ALICE, true, 50, 200).unwrap();
    l.place_bet(id, BOB, true, 49, 201).unwrap();
    l.resolve_market(id, CREATOR, true, DEADLINE).unwrap();
    // Alice: gross = 50 * 99 / 99 = 50, fee_total = 0, net = 50
    let (ev, txs) = l.claim_winnings(id, ALICE, TREASURY, 99, DEADLINE + 1).unwrap();
    assert_eq!(ev.amount, 50);
    assert_eq!(txs, vec![Transfer { from: ESCROW, to: ALICE, amount: 50 }]);
}

#[test]
fn pool_overflow_fails_claim_with_overflow() {
    let mut l = Ledger::new();
    let id = l
        .create_market(String::from("q"), END, 0, 0, 10, 100, CREATOR, ESCROW)
        .unwrap()
        .market;
    l.place_bet(id, ALICE, true, u64::MAX, 200).unwrap();
    l.place_bet(id, BOB, false, 1, 201).unwrap();
    l.resolve_market(id, CREATOR, true, DEADLINE).unwrap();
    // total_yes + total_no exceeds u64::MAX, so settlement must refuse
    // rather than wrap
    assert_eq!(
        l.claim_winnings(id, ALICE, TREASURY, u64::MAX, DEADLINE + 1),
        Err(ErrorCode::Overflow)
    );
    assert!(!l.bet_record(id, ALICE).unwrap().claimed);
}

#[test]
fn settlement_fee_ignores_the_market_fee_bps() {
    // the stored fee_bps (here 500) is informational: settlement applies
    // the fixed 100 bps regardless
    let (mut l, id) = resolved_market(true);
    assert_eq!(l.market(id).fee_bps, 500);
    let (ev, _) = l.claim_winnings(id, BOB, TREASURY, 1000, DEADLINE + 1).unwrap();
    // gross = 200 * 1000 / 300 = 666; fee = 6 (1%), not 33 (5%)
    assert_eq!(ev.amount, 660);
    assert_eq!(ev.creator_fee, 3);
    assert_eq!(ev.treasury_fee, 3);
}

#[test]
fn dust_from_flooring_stays_in_escrow() {
    let (mut l, id) = resolved_market(true);
    // gross payouts: Alice 333, Bob 666; total outflow 330+1+1+660+3+3 =
    // 998 of the 1000-unit pool: 2 units of dust remain
    let (ev_a, txs_a) = l.claim_winnings(id, ALICE, TREASURY, 1000, DEADLINE + 1).unwrap();
    let (ev_b, txs_b) = l.claim_winnings(id, BOB, TREASURY, 668, DEADLINE + 2).unwrap();
    let out_a: u64 = txs_a.iter().map(|t| t.amount).sum();
    let out_b: u64 = txs_b.iter().map(|t| t.amount).sum();
    assert_eq!(ev_a.amount, 330);
    assert_eq!(ev_b.amount, 660);
    assert_eq!(out_a + out_b, 998);
}
