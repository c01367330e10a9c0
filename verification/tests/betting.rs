//! Staking, the single-bet-per-user rule, counter conservation, and
//! refunds.

use prediction_market::bet::{refund_bet, Bet};
use prediction_market::custody::Transfer;
use prediction_market::errors::ErrorCode;
use prediction_market::ledger::Ledger;
use prediction_market::market::Market;

const CREATOR: u64 = 11;
const ALICE: u64 = 31;
const BOB: u64 = 32;
const ESCROW: u64 = 900;
const END: i64 = 1_000_000;

fn open_market(l: &mut Ledger) -> u64 {
    let ev = l
        .create_market(String::from("Will it rain tomorrow?"), END, 255, 0, 10, 100, CREATOR, ESCROW)
        .unwrap();
    ev.market
}

#[test]
fn place_bet_records_stake_and_updates_totals() {
    let mut l = Ledger::new();
    let id = open_market(&mut l);
    let ev = l.place_bet(id, ALICE, true, 150, 200).unwrap();
    assert_eq!(ev.market, id);
    assert_eq!(ev.user, ALICE);
    assert_eq!(ev.side, true);
    assert_eq!(ev.amount, 150);
    assert_eq!(ev.timestamp, 200);
    let m = l.market(id);
    assert_eq!(m.total_yes, 150);
    assert_eq!(m.total_no, 0);
    let b = l.bet_record(id, ALICE).unwrap();
    assert_eq!(b.user, ALICE);
    assert_eq!(b.market, id);
    assert_eq!(b.side, true);
    assert_eq!(b.amount, 150);
    assert!(!b.claimed);
    assert!(b.initialized);
}

#[test]
fn second_bet_by_same_user_fails_duplicate() {
    let mut l = Ledger::new();
    let id = open_market(&mut l);
    l.place_bet(id, ALICE, true, 150, 200).unwrap();
    assert_eq!(l.place_bet(id, ALICE, true, 1, 201), Err(ErrorCode::DuplicateBet));
    assert_eq!(l.place_bet(id, ALICE, false, 999, 202), Err(ErrorCode::DuplicateBet));
    assert_eq!(l.bet_count(), 1);
    assert_eq!(l.market(id).total_yes, 150);
}

#[test]
fn distinct_pairs_accumulate() {
    let mut l = Ledger::new();
    let id = open_market(&mut l);
    let id2 = open_market(&mut l);
    l.place_bet(id, ALICE, true, 100, 200).unwrap();
    l.place_bet(id, BOB, false, 700, 201).unwrap();
    l.place_bet(id2, ALICE, false, 40, 202).unwrap();
    assert_eq!(l.market(id).total_yes, 100);
    assert_eq!(l.market(id).total_no, 700);
    assert_eq!(l.market(id2).total_yes, 0);
    assert_eq!(l.market(id2).total_no, 40);
    assert_eq!(l.bet_count(), 3);
}

#[test]
fn place_bet_gates_on_state_time_and_amount() {
    let mut l = Ledger::new();
    let id = open_market(&mut l);
    assert_eq!(l.place_bet(id, ALICE, true, 0, 200), Err(ErrorCode::InvalidBetAmount));
    assert_eq!(l.place_bet(id, ALICE, true, 5, END), Err(ErrorCode::MarketClosed));
    let mut l2 = Ledger::new();
    let id2 = open_market(&mut l2);
    l2.cancel_market(id2, CREATOR, 150).unwrap();
    assert_eq!(l2.place_bet(id2, ALICE, true, 5, 200), Err(ErrorCode::MarketCancelled));
    let mut l3 = Ledger::new();
    let id3 = open_market(&mut l3);
    l3.resolve_market(id3, CREATOR, true, END + 600).unwrap();
    assert_eq!(
        l3.place_bet(id3, ALICE, true, 5, END + 601),
        Err(ErrorCode::MarketAlreadyResolved)
    );
}

#[test]
fn side_total_overflow_is_rejected() {
    let mut l = Ledger::new();
    let id = open_market(&mut l);
    l.place_bet(id, ALICE, true, u64::MAX, 200).unwrap();
    assert_eq!(l.place_bet(id, BOB, true, 1, 201), Err(ErrorCode::Overflow));
    // the other side is unaffected
    l.place_bet(id, BOB, false, 1, 202).unwrap();
    assert_eq!(l.market(id).total_yes, u64::MAX);
    assert_eq!(l.market(id).total_no, 1);
}

#[test]
fn ledger_refund_needs_a_cancelled_market() {
    // a market can only be cancelled while it has no bets, so within the
    // ledger a refund can never find both a cancelled market and a stake:
    // it is always refused
    let mut l = Ledger::new();
    let id = open_market(&mut l);
    l.place_bet(id, ALICE, true, 60, 200).unwrap();
    assert_eq!(l.refund_bet(id, ALICE, 60, 300), Err(ErrorCode::MarketNotCancelled));
    assert!(!l.bet_record(id, ALICE).unwrap().claimed);
}

fn cancelled_market_with_stake() -> (Market, Bet) {
    // a cancelled market holding a stray stake cannot arise through the
    // engine (cancellation requires zero stake); build the records
    // directly to exercise the refund path
    let m = Market {
        address: 4,
        creator: CREATOR,
        question: String::from("q"),
        end_time: END,
        resolution_deadline: END + 600,
        resolved: false,
        outcome: None,
        escrow: ESCROW,
        escrow_bump: 1,
        total_yes: 120,
        total_no: 0,
        fee_bps: 0,
        cancelled: true,
        authorized_resolver: None,
        grace_period_minutes: 10,
    };
    let b = Bet { user: ALICE, market: 4, side: true, amount: 120, claimed: false, initialized: true };
    (m, b)
}

#[test]
fn refund_pays_back_the_stake_once() {
    let (m, mut b) = cancelled_market_with_stake();
    let (ev, tx) = refund_bet(&m, &mut b, ALICE, 500, 700).unwrap();
    assert_eq!(ev.market, 4);
    assert_eq!(ev.user, ALICE);
    assert_eq!(ev.amount, 120);
    assert_eq!(ev.timestamp, 700);
    assert_eq!(tx, Transfer { from: ESCROW, to: ALICE, amount: 120 });
    assert!(b.claimed);
    // the claimed flag is terminal: a second refund is refused
    assert_eq!(refund_bet(&m, &mut b, ALICE, 500, 701), Err(ErrorCode::AlreadyClaimed));
    assert!(b.claimed);
}

#[test]
fn refund_gates_on_market_owner_and_balance() {
    let (m, mut b) = cancelled_market_with_stake();
    assert_eq!(refund_bet(&m, &mut b, BOB, 500, 700), Err(ErrorCode::NotYourBet));
    assert_eq!(refund_bet(&m, &mut b, ALICE, 119, 700), Err(ErrorCode::InsufficientEscrowBalance));
    assert!(!b.claimed);
    let mut live = cancelled_market_with_stake().0;
    live.cancelled = false;
    assert_eq!(refund_bet(&live, &mut b, ALICE, 500, 700), Err(ErrorCode::MarketNotCancelled));
    let mut elsewhere = b;
    elsewhere.market = 9;
    assert_eq!(refund_bet(&m, &mut elsewhere, ALICE, 500, 700), Err(ErrorCode::InvalidMarket));
}
